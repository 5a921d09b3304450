use gamepad_bridge::connect::connect_all_gamepads;
use gamepad_bridge::events::{GamepadEvent, GamepadInfo, GamepadUpdate};

#[test]
fn no_gamepads_means_no_events() {
    let pads: Vec<GamepadInfo> = Vec::new();
    let events = connect_all_gamepads(&pads);
    assert!(events.is_empty());
}

#[test]
fn one_connected_event_per_gamepad_preserving_identity() {
    let pads = vec![
        GamepadInfo { id: 0, name: String::from("alpha"), uuid: [1; 16] },
        GamepadInfo { id: 7, name: String::from("beta"), uuid: [2; 16] },
        GamepadInfo {
            id: 42,
            name: String::from("gamma"),
            uuid: [0, 1, 2, 3, 4, 5, 6, 7, 8, 9, 10, 11, 12, 13, 14, 15],
        },
    ];
    let events = connect_all_gamepads(&pads);
    assert_eq!(events.len(), 3);
    for (event, pad) in events.iter().zip(pads.iter()) {
        assert_eq!(
            event,
            &GamepadEvent {
                id: pad.id,
                name: pad.name.clone(),
                uuid: pad.uuid,
                update: GamepadUpdate::Connected,
            }
        );
    }
    assert_eq!(events[0].id, 0);
    assert_eq!(events[1].id, 7);
    assert_eq!(events[2].id, 42);
}

#[test]
fn duplicate_names_and_uuids_are_kept_as_given() {
    let pads = vec![
        GamepadInfo { id: 1, name: String::from("same"), uuid: [5; 16] },
        GamepadInfo { id: 2, name: String::from("same"), uuid: [5; 16] },
    ];
    let events = connect_all_gamepads(&pads);
    assert_eq!(events.len(), 2);
    assert_eq!(events[0].name, "same");
    assert_eq!(events[1].name, "same");
    assert_eq!(events[0].uuid, [5; 16]);
    assert_eq!(events[1].uuid, [5; 16]);
    assert!(matches!(events[0].update, GamepadUpdate::Connected));
    assert!(matches!(events[1].update, GamepadUpdate::Connected));
}
