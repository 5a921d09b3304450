//! The data carried through the bridge: raw hardware events on the way in,
//! frontend-facing gamepad events on the way out.
//!
//! Raw analog readings arrive as the bit pattern of an IEEE-754
//! single-precision number (`value_bits`), so that this crate never touches
//! floating point; the shell converts with `f32::to_bits` on the way in and
//! `f32::from_bits` on the way out, both of which are exact.

use vstd::prelude::*;

verus! {

/// A digital (on/off) control in the frontend-facing gamepad model.
#[derive(Clone, Copy, Debug, PartialEq, Eq)]
pub enum GamepadDigital {
    L1,
    L2,
    R1,
    R2,
    Up,
    Down,
    Left,
    Right,
    X,
    B,
    Y,
    A,
}

/// An analog stick axis in the frontend-facing gamepad model.
#[derive(Clone, Copy, Debug, PartialEq, Eq)]
pub enum GamepadAnalog {
    LeftX,
    LeftY,
    RightX,
    RightY,
}

/// A button as the hardware layer names it.
#[derive(Clone, Copy, Debug, PartialEq, Eq)]
pub enum HardwareButton {
    South,
    East,
    North,
    West,
    C,
    Z,
    LeftTrigger,
    LeftTrigger2,
    RightTrigger,
    RightTrigger2,
    Select,
    Start,
    Mode,
    LeftThumb,
    RightThumb,
    DPadUp,
    DPadDown,
    DPadLeft,
    DPadRight,
    Unknown,
}

/// An axis as the hardware layer names it.
#[derive(Clone, Copy, Debug, PartialEq, Eq)]
pub enum HardwareAxis {
    LeftStickX,
    LeftStickY,
    LeftZ,
    RightStickX,
    RightStickY,
    RightZ,
    DPadX,
    DPadY,
    Unknown,
}

/// One state change reported by the hardware layer for one gamepad.
///
/// `value_bits` holds the bit pattern of the raw single-precision reading.
/// `Other` stands for every hardware report the bridge does not forward at
/// all (press/release edges, repeats, drops): the translation owes nothing
/// for it.
#[derive(Clone, Copy, Debug, PartialEq, Eq)]
pub enum HardwareEvent {
    Connected,
    Disconnected,
    AxisChanged { axis: HardwareAxis, value_bits: u32 },
    ButtonChanged { button: HardwareButton, value_bits: u32 },
    Other,
}

/// The payload of one frontend-facing event. `state_bits` holds the raw
/// reading's bit pattern, passed through unchanged.
#[derive(Clone, Copy, Debug, PartialEq, Eq)]
pub enum GamepadUpdate {
    Analog { name: GamepadAnalog, state_bits: u32 },
    Digital { name: GamepadDigital, state: bool },
    Connected,
    Disconnected,
}

/// One event as published to the frontend: the reporting gamepad's identity
/// and exactly one update.
#[derive(Clone, Debug, PartialEq, Eq)]
pub struct GamepadEvent {
    pub id: usize,
    pub name: String,
    pub uuid: [u8; 16],
    pub update: GamepadUpdate,
}

/// The identity of one connected gamepad, as the hardware layer enumerates
/// it.
#[derive(Clone, Debug, PartialEq, Eq)]
pub struct GamepadInfo {
    pub id: usize,
    pub name: String,
    pub uuid: [u8; 16],
}

} // verus!
