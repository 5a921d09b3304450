//! Verified core of a desktop gamepad input bridge.
//!
//! The bridge observes hardware gamepad state changes and republishes them to
//! a frontend event bus. This crate holds the part of that pipeline that
//! decides anything: the fixed button and axis mapping tables, the press
//! threshold, the translation of one raw hardware event into one
//! frontend-facing update, and the enumeration of currently connected
//! gamepads as `Connected` events. The surrounding shell does the polling,
//! locking and emission, and hands this crate plain values.

pub mod connect;
pub mod events;
pub mod translate;
