use click_once::engine::{DebounceEngine, MouseButton, MouseDirection, Thresholds};
use click_once::hook::{
    map_message, process_mouse_message, HookDecision, MSG_LEFT_DOWN, MSG_LEFT_UP, MSG_MIDDLE_DOWN,
    MSG_MIDDLE_UP, MSG_RIGHT_DOWN, MSG_RIGHT_UP,
};
use click_once::logging::MouseEvent;

fn engine_with(left: u32, right: u32, middle: u32) -> DebounceEngine {
    DebounceEngine::new(Thresholds { left, right, middle })
}

#[test]
fn message_numbers_match_the_windows_constants() {
    assert_eq!(MSG_LEFT_DOWN, 0x0201);
    assert_eq!(MSG_LEFT_UP, 0x0202);
    assert_eq!(MSG_RIGHT_DOWN, 0x0204);
    assert_eq!(MSG_RIGHT_UP, 0x0205);
    assert_eq!(MSG_MIDDLE_DOWN, 0x0207);
    assert_eq!(MSG_MIDDLE_UP, 0x0208);
}

#[test]
fn map_message_recognises_the_six_transitions() {
    assert_eq!(
        map_message(MSG_LEFT_DOWN),
        Some((MouseButton::Left, MouseDirection::Down))
    );
    assert_eq!(
        map_message(MSG_LEFT_UP),
        Some((MouseButton::Left, MouseDirection::Up))
    );
    assert_eq!(
        map_message(MSG_RIGHT_DOWN),
        Some((MouseButton::Right, MouseDirection::Down))
    );
    assert_eq!(
        map_message(MSG_RIGHT_UP),
        Some((MouseButton::Right, MouseDirection::Up))
    );
    assert_eq!(
        map_message(MSG_MIDDLE_DOWN),
        Some((MouseButton::Middle, MouseDirection::Down))
    );
    assert_eq!(
        map_message(MSG_MIDDLE_UP),
        Some((MouseButton::Middle, MouseDirection::Up))
    );
}

#[test]
fn map_message_rejects_everything_else() {
    assert_eq!(map_message(0x0200), None); // WM_MOUSEMOVE
    assert_eq!(map_message(0x0203), None); // WM_LBUTTONDBLCLK
    assert_eq!(map_message(0x020A), None); // WM_MOUSEWHEEL
    assert_eq!(map_message(0), None);
}

#[test]
fn unrecognised_message_passes_through_untouched() {
    let mut e = engine_with(30, 30, 30);
    let before = e;
    let d = process_mouse_message(&mut e, 0, 0x0200, 123);
    assert_eq!(d, HookDecision::PassThrough);
    assert_eq!(e, before);
}

#[test]
fn negative_hook_code_passes_through_untouched() {
    let mut e = engine_with(30, 30, 30);
    let before = e;
    let d = process_mouse_message(&mut e, -1, MSG_LEFT_DOWN, 123);
    assert_eq!(d, HookDecision::PassThrough);
    assert_eq!(e, before);
}

#[test]
fn admitted_transition_is_forwarded_with_its_record() {
    let mut e = engine_with(30, 0, 0);
    let d = process_mouse_message(&mut e, 0, MSG_LEFT_DOWN, 7);
    assert_eq!(
        d,
        HookDecision::Forward(MouseEvent {
            button: MouseButton::Left,
            direction: MouseDirection::Down,
            blocked: false,
            time_since_last_event: 7,
        })
    );
    assert_eq!(e.left.last_down_tick, Some(7));
}

#[test]
fn chattering_transition_is_suppressed_with_its_record() {
    let mut e = engine_with(30, 0, 0);
    let d = process_mouse_message(&mut e, 0, MSG_LEFT_DOWN, 100);
    assert!(matches!(d, HookDecision::Forward(_)));
    let d = process_mouse_message(&mut e, 0, MSG_LEFT_DOWN, 110);
    assert_eq!(
        d,
        HookDecision::Suppress(MouseEvent {
            button: MouseButton::Left,
            direction: MouseDirection::Down,
            blocked: true,
            time_since_last_event: 10,
        })
    );
    assert_eq!(e.left.last_down_tick, Some(100));
}
