//! Translation of raw hardware events into frontend-facing updates: the
//! fixed button and axis mapping tables, the press threshold, and the
//! decision the broadcast loop takes for each event it drains.

use vstd::prelude::*;

use crate::events::{
    GamepadAnalog, GamepadDigital, GamepadEvent, GamepadUpdate, HardwareAxis, HardwareButton,
    HardwareEvent,
};

verus! {

/// Bit pattern of the single-precision value one half, the press threshold.
pub const HALF_BITS: u32 = 0x3F00_0000;

/// Bit pattern of the single-precision value positive infinity.
pub const POS_INFINITY_BITS: u32 = 0x7F80_0000;

/// Whether the single-precision value with bit pattern `bits` is at least
/// one half. Non-negative single-precision values order exactly as their bit
/// patterns do; every pattern strictly above positive infinity's is a NaN,
/// which is at least nothing; every pattern with the top bit set is negative
/// or a negative NaN. So the readings at or over the threshold are exactly
/// the patterns from one half's up to positive infinity's.
pub open spec fn spec_pressed(bits: u32) -> bool {
    HALF_BITS <= bits <= POS_INFINITY_BITS
}

/// The fixed button table: which hardware buttons the bridge forwards, and
/// as which digital control. Every button outside the table is refused.
pub open spec fn spec_digital_of(button: HardwareButton) -> Result<GamepadDigital, ()> {
    match button {
        HardwareButton::LeftTrigger => Ok(GamepadDigital::L1),
        HardwareButton::RightTrigger => Ok(GamepadDigital::R1),
        HardwareButton::LeftTrigger2 => Ok(GamepadDigital::L2),
        HardwareButton::RightTrigger2 => Ok(GamepadDigital::R2),
        HardwareButton::DPadUp => Ok(GamepadDigital::Up),
        HardwareButton::DPadDown => Ok(GamepadDigital::Down),
        HardwareButton::DPadLeft => Ok(GamepadDigital::Left),
        HardwareButton::DPadRight => Ok(GamepadDigital::Right),
        HardwareButton::South => Ok(GamepadDigital::X),
        HardwareButton::East => Ok(GamepadDigital::B),
        HardwareButton::West => Ok(GamepadDigital::Y),
        HardwareButton::North => Ok(GamepadDigital::A),
        _ => Err(()),
    }
}

/// The fixed axis table: which hardware axes the bridge forwards, and as
/// which analog control. Every axis outside the table is refused.
pub open spec fn spec_analog_of(axis: HardwareAxis) -> Result<GamepadAnalog, ()> {
    match axis {
        HardwareAxis::LeftStickX => Ok(GamepadAnalog::LeftX),
        HardwareAxis::LeftStickY => Ok(GamepadAnalog::LeftY),
        HardwareAxis::RightStickX => Ok(GamepadAnalog::RightX),
        HardwareAxis::RightStickY => Ok(GamepadAnalog::RightY),
        _ => Err(()),
    }
}

/// What one raw hardware event becomes on the frontend, if anything:
/// connection changes pass through; a mapped axis change passes its reading
/// through unchanged; a mapped button change carries the threshold test on
/// its reading; everything else is dropped.
pub open spec fn spec_translate(event: HardwareEvent) -> Option<GamepadUpdate> {
    match event {
        HardwareEvent::Connected => Some(GamepadUpdate::Connected),
        HardwareEvent::Disconnected => Some(GamepadUpdate::Disconnected),
        HardwareEvent::AxisChanged { axis, value_bits } => match spec_analog_of(axis) {
            Ok(name) => Some(GamepadUpdate::Analog { name, state_bits: value_bits }),
            Err(_) => None,
        },
        HardwareEvent::ButtonChanged { button, value_bits } => match spec_digital_of(button) {
            Ok(name) => Some(GamepadUpdate::Digital { name, state: spec_pressed(value_bits) }),
            Err(_) => None,
        },
        HardwareEvent::Other => None,
    }
}

impl GamepadDigital {
    /// The button table as executable code.
    pub fn try_from(button: HardwareButton) -> (r: Result<GamepadDigital, ()>)
        ensures
            r == spec_digital_of(button),
    {
        match button {
            HardwareButton::LeftTrigger => Ok(GamepadDigital::L1),
            HardwareButton::RightTrigger => Ok(GamepadDigital::R1),
            HardwareButton::LeftTrigger2 => Ok(GamepadDigital::L2),
            HardwareButton::RightTrigger2 => Ok(GamepadDigital::R2),
            HardwareButton::DPadUp => Ok(GamepadDigital::Up),
            HardwareButton::DPadDown => Ok(GamepadDigital::Down),
            HardwareButton::DPadLeft => Ok(GamepadDigital::Left),
            HardwareButton::DPadRight => Ok(GamepadDigital::Right),
            HardwareButton::South => Ok(GamepadDigital::X),
            HardwareButton::East => Ok(GamepadDigital::B),
            HardwareButton::West => Ok(GamepadDigital::Y),
            HardwareButton::North => Ok(GamepadDigital::A),
            _ => Err(()),
        }
    }
}

impl GamepadAnalog {
    /// The axis table as executable code.
    pub fn try_from(axis: HardwareAxis) -> (r: Result<GamepadAnalog, ()>)
        ensures
            r == spec_analog_of(axis),
    {
        match axis {
            HardwareAxis::LeftStickX => Ok(GamepadAnalog::LeftX),
            HardwareAxis::LeftStickY => Ok(GamepadAnalog::LeftY),
            HardwareAxis::RightStickX => Ok(GamepadAnalog::RightX),
            HardwareAxis::RightStickY => Ok(GamepadAnalog::RightY),
            _ => Err(()),
        }
    }
}

/// The threshold test: a digital button counts as pressed when its raw
/// reading is at least one half.
pub fn button_pressed(value_bits: u32) -> (pressed: bool)
    ensures
        pressed == spec_pressed(value_bits),
{
    HALF_BITS <= value_bits && value_bits <= POS_INFINITY_BITS
}

/// Translate one raw hardware event, dropping whatever the tables refuse.
pub fn translate_event(event: HardwareEvent) -> (update: Option<GamepadUpdate>)
    ensures
        update == spec_translate(event),
{
    match event {
        HardwareEvent::Connected => Some(GamepadUpdate::Connected),
        HardwareEvent::Disconnected => Some(GamepadUpdate::Disconnected),
        HardwareEvent::AxisChanged { axis, value_bits } => {
            match GamepadAnalog::try_from(axis) {
                Ok(name) => Some(GamepadUpdate::Analog { name, state_bits: value_bits }),
                Err(_) => None,
            }
        },
        HardwareEvent::ButtonChanged { button, value_bits } => {
            match GamepadDigital::try_from(button) {
                Ok(name) => Some(
                    GamepadUpdate::Digital { name, state: button_pressed(value_bits) },
                ),
                Err(_) => None,
            }
        },
        HardwareEvent::Other => None,
    }
}

/// One decision of the broadcast loop: translate one hardware event and,
/// when the tables keep it, wrap it with the reporting gamepad's identity.
/// The loop emits exactly the events this returns.
pub fn broadcast_step(
    id: usize,
    name: String,
    uuid: [u8; 16],
    event: HardwareEvent,
) -> (r: Option<GamepadEvent>)
    ensures
        match spec_translate(event) {
            Some(update) => r == Some((GamepadEvent { id, name, uuid, update })),
            None => r is None,
        },
{
    match translate_event(event) {
        Some(update) => Some(GamepadEvent { id, name, uuid, update }),
        None => None,
    }
}

/// Law: a change of any hardware button in the fixed table is forwarded as a
/// digital update for the mapped control, pressed exactly when the raw
/// reading is at least one half.
pub proof fn lemma_mapped_button_forwarded(button: HardwareButton, value_bits: u32)
    requires
        spec_digital_of(button) is Ok,
    ensures
        spec_translate((HardwareEvent::ButtonChanged { button, value_bits })) == Some((
            GamepadUpdate::Digital {
                name: spec_digital_of(button)->Ok_0,
                state: spec_pressed(value_bits),
            }
        )),
{
}

/// Law: a change of any hardware axis in the fixed table is forwarded as an
/// analog update for the mapped control, with the raw reading passed through
/// unchanged.
pub proof fn lemma_mapped_axis_forwarded(axis: HardwareAxis, value_bits: u32)
    requires
        spec_analog_of(axis) is Ok,
    ensures
        spec_translate((HardwareEvent::AxisChanged { axis, value_bits })) == Some((
            GamepadUpdate::Analog { name: spec_analog_of(axis)->Ok_0, state_bits: value_bits }
        )),
{
}

/// Law: a change of a hardware button outside the fixed table yields no
/// event at all, whatever its reading.
pub proof fn lemma_unmapped_button_dropped(button: HardwareButton, value_bits: u32)
    requires
        spec_digital_of(button) is Err,
    ensures
        spec_translate((HardwareEvent::ButtonChanged { button, value_bits })) is None,
{
}

/// Law: a change of a hardware axis outside the fixed table yields no event
/// at all, whatever its reading.
pub proof fn lemma_unmapped_axis_dropped(axis: HardwareAxis, value_bits: u32)
    requires
        spec_analog_of(axis) is Err,
    ensures
        spec_translate((HardwareEvent::AxisChanged { axis, value_bits })) is None,
{
}

} // verus!
