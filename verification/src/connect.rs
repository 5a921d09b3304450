//! On-demand enumeration of the currently connected gamepads: one
//! `Connected` event per gamepad, carrying its identity unchanged.

use vstd::prelude::*;

use crate::events::{GamepadEvent, GamepadInfo, GamepadUpdate};

verus! {

/// The event announcing one enumerated gamepad as connected.
pub open spec fn spec_connected_event(pad: GamepadInfo) -> GamepadEvent {
    GamepadEvent { id: pad.id, name: pad.name, uuid: pad.uuid, update: GamepadUpdate::Connected }
}

/// The events the enumeration command emits: exactly one `Connected` event
/// per currently connected gamepad, in enumeration order, each carrying that
/// gamepad's id, name and uuid unchanged. With no gamepads connected it
/// emits nothing. The shell emits exactly the returned events and then
/// reports success.
pub fn connect_all_gamepads(pads: &Vec<GamepadInfo>) -> (events: Vec<GamepadEvent>)
    ensures
        events@.len() == pads@.len(),
        forall|i: int| 0 <= i < pads@.len() ==> events@[i] == spec_connected_event(pads@[i]),
{
    let mut events: Vec<GamepadEvent> = Vec::new();
    let mut k: usize = 0;
    while k < pads.len()
        invariant
            k <= pads@.len(),
            events@.len() == k,
            forall|i: int| 0 <= i < k ==> events@[i] == spec_connected_event(pads@[i]),
        decreases pads@.len() - k,
    {
        let pad = &pads[k];
        events.push(
            GamepadEvent {
                id: pad.id,
                name: pad.name.clone(),
                uuid: pad.uuid,
                update: GamepadUpdate::Connected,
            },
        );
        k = k + 1;
    }
    events
}

} // verus!
