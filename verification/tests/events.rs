use wio::console::{CharInfo, Input};
use wio::sleep::{wake_reason_from_status, WakeReason, WAIT_CALLBACKS_FIRED};

#[test]
fn wake_reason_covers_the_two_documented_statuses() {
    assert_eq!(wake_reason_from_status(0), Some(WakeReason::TimedOut));
    assert_eq!(
        wake_reason_from_status(WAIT_CALLBACKS_FIRED),
        Some(WakeReason::CallbacksFired)
    );
    assert_eq!(wake_reason_from_status(0xC0), Some(WakeReason::CallbacksFired));
    assert_eq!(wake_reason_from_status(1), None);
    assert_eq!(wake_reason_from_status(0xFFFFFFFF), None);
}

#[test]
fn char_info_keeps_character_and_attributes() {
    let c = CharInfo::new(65, 7);
    assert_eq!(c.character(), 65);
    assert_eq!(c.attributes(), 7);
    let d = c;
    assert_eq!(d.character(), 65);
}

#[test]
fn input_events_carry_their_fields() {
    let key = Input::Key {
        key_down: true,
        repeat_count: 1,
        key_code: 0x41,
        scan_code: 30,
        wide_char: 97,
        control_key_state: 0,
    };
    match key {
        Input::Key { key_down, key_code, .. } => {
            assert!(key_down);
            assert_eq!(key_code, 0x41);
        },
        _ => panic!("expected a key event"),
    }
    let size = Input::WindowBufferSize(80, 25);
    assert!(matches!(size, Input::WindowBufferSize(80, 25)));
    assert!(matches!(Input::Menu(3), Input::Menu(3)));
    assert!(matches!(Input::Focus(false), Input::Focus(false)));
    let mouse = Input::Mouse {
        position: (3, 4),
        button_state: 1,
        control_key_state: 0,
        event_flags: 2,
    };
    match mouse {
        Input::Mouse { position, .. } => assert_eq!(position, (3, 4)),
        _ => panic!("expected a mouse event"),
    }
}
