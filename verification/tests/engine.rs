use click_once::engine::{ButtonState, DebounceEngine, MouseButton, MouseDirection, Thresholds};

fn engine_with(left: u32, right: u32, middle: u32) -> DebounceEngine {
    DebounceEngine::new(Thresholds { left, right, middle })
}

#[test]
fn first_event_is_admitted_even_at_tick_zero() {
    let mut e = engine_with(30, 0, 0);
    let v = e.decide(MouseButton::Left, MouseDirection::Down, 0);
    assert!(v.admitted);
    assert_eq!(v.elapsed, 0);
    assert_eq!(e.left.last_down_tick, Some(0));
}

#[test]
fn down_within_threshold_is_suppressed() {
    let mut e = engine_with(40, 0, 0);
    let v1 = e.decide(MouseButton::Left, MouseDirection::Down, 100);
    assert!(v1.admitted);
    let v2 = e.decide(MouseButton::Left, MouseDirection::Down, 139);
    assert!(!v2.admitted);
    assert_eq!(v2.elapsed, 39);
    assert_eq!(e.left.last_down_tick, Some(100));
}

#[test]
fn down_at_threshold_is_admitted_and_updates_state() {
    let mut e = engine_with(40, 0, 0);
    let v1 = e.decide(MouseButton::Left, MouseDirection::Down, 100);
    assert!(v1.admitted);
    let v2 = e.decide(MouseButton::Left, MouseDirection::Down, 140);
    assert!(v2.admitted);
    assert_eq!(v2.elapsed, 40);
    assert_eq!(e.left.last_down_tick, Some(140));
}

#[test]
fn down_respects_recent_up() {
    let mut e = engine_with(30, 0, 0);
    let up = e.decide(MouseButton::Left, MouseDirection::Up, 200);
    assert!(up.admitted);
    // A press right after a release is judged against the release too.
    let down = e.decide(MouseButton::Left, MouseDirection::Down, 210);
    assert!(!down.admitted);
    assert_eq!(down.elapsed, 10);
    assert_eq!(e.left.last_down_tick, None);
}

#[test]
fn zero_threshold_admits_everything_and_never_mutates() {
    let mut e = engine_with(0, 0, 0);
    for tick in [0u32, 1, 1, 2, 2, 1000] {
        let v = e.decide(MouseButton::Left, MouseDirection::Down, tick);
        assert!(v.admitted);
        let v = e.decide(MouseButton::Left, MouseDirection::Up, tick);
        assert!(v.admitted);
    }
    assert_eq!(e.left.last_down_tick, None);
    assert_eq!(e.left.last_up_tick, None);
}

#[test]
fn up_right_after_admitted_down_is_not_suppressed() {
    let mut e = engine_with(30, 0, 0);
    let down = e.decide(MouseButton::Left, MouseDirection::Down, 500);
    assert!(down.admitted);
    // Elapsed 0 since the Down, but Up only compares against the prior Up.
    let up = e.decide(MouseButton::Left, MouseDirection::Up, 500);
    assert!(up.admitted);
    assert_eq!(e.left.last_up_tick, Some(500));

    // The same with real Up history: the old Up is 100 ms back, so the Up
    // paired with the fresh Down is admitted despite the Down being 0 ms ago.
    let down = e.decide(MouseButton::Left, MouseDirection::Down, 600);
    assert!(down.admitted);
    let up = e.decide(MouseButton::Left, MouseDirection::Up, 600);
    assert!(up.admitted);
    assert_eq!(up.elapsed, 100);
}

#[test]
fn up_is_judged_against_prior_up_only() {
    let mut e = engine_with(30, 0, 0);
    let up1 = e.decide(MouseButton::Left, MouseDirection::Up, 100);
    assert!(up1.admitted);
    let down = e.decide(MouseButton::Left, MouseDirection::Down, 160);
    assert!(down.admitted);
    // 20 ms after the prior Up: suppressed even though the Down was 60 ms ago.
    let up2 = e.decide(MouseButton::Left, MouseDirection::Up, 120);
    assert!(!up2.admitted);
    assert_eq!(up2.elapsed, 20);
}

#[test]
fn suppressed_events_leave_state_identical() {
    let mut e = engine_with(50, 0, 0);
    let v = e.decide(MouseButton::Left, MouseDirection::Down, 100);
    assert!(v.admitted);
    let snapshot = e;
    for _ in 0..10 {
        let v = e.decide(MouseButton::Left, MouseDirection::Down, 120);
        assert!(!v.admitted);
        assert_eq!(e, snapshot);
    }
}

#[test]
fn buttons_are_independent() {
    let mut e = engine_with(30, 30, 30);
    let v = e.decide(MouseButton::Left, MouseDirection::Down, 100);
    assert!(v.admitted);
    let v = e.decide(MouseButton::Right, MouseDirection::Down, 101);
    assert!(v.admitted);
    let v = e.decide(MouseButton::Middle, MouseDirection::Down, 102);
    assert!(v.admitted);
    assert_eq!(e.left.last_down_tick, Some(100));
    assert_eq!(e.right.last_down_tick, Some(101));
    assert_eq!(e.middle.last_down_tick, Some(102));
}

#[test]
fn wraparound_tick_is_treated_as_zero_elapsed() {
    let mut e = engine_with(30, 0, 0);
    let v = e.decide(MouseButton::Left, MouseDirection::Down, u32::MAX);
    assert!(v.admitted);
    // The counter wrapped: the new tick is below the recorded one.
    let v = e.decide(MouseButton::Left, MouseDirection::Down, 5);
    assert!(!v.admitted);
    assert_eq!(v.elapsed, 0);
}

#[test]
fn thresholds_can_be_replaced_at_runtime() {
    let mut e = engine_with(30, 0, 0);
    assert_eq!(e.threshold(MouseButton::Left), 30);
    e.set_threshold(MouseButton::Left, 0);
    assert_eq!(e.threshold(MouseButton::Left), 0);
    e.set_threshold(MouseButton::Middle, 75);
    assert_eq!(e.threshold(MouseButton::Middle), 75);
    assert_eq!(e.threshold(MouseButton::Right), 0);
}

#[test]
fn default_thresholds_debounce_only_the_left_button() {
    let t = Thresholds::default();
    assert_eq!(t, Thresholds { left: 30, right: 0, middle: 0 });
}

#[test]
fn untouched_state_has_no_history() {
    let s = ButtonState::untouched();
    assert_eq!(s.last_down_tick, None);
    assert_eq!(s.last_up_tick, None);
}

#[test]
fn all_lists_every_variant_in_order() {
    assert_eq!(
        MouseButton::all(),
        vec![MouseButton::Left, MouseButton::Right, MouseButton::Middle]
    );
    assert_eq!(
        MouseDirection::all(),
        vec![MouseDirection::Up, MouseDirection::Down]
    );
}

#[test]
fn end_to_end_scenario_three_downs() {
    let mut e = engine_with(30, 0, 0);
    let v1 = e.decide(MouseButton::Left, MouseDirection::Down, 0);
    assert!(v1.admitted);
    let v2 = e.decide(MouseButton::Left, MouseDirection::Down, 10);
    assert!(!v2.admitted);
    assert_eq!(v2.elapsed, 10);
    let v3 = e.decide(MouseButton::Left, MouseDirection::Down, 35);
    assert!(v3.admitted);
    assert_eq!(v3.elapsed, 35);
    assert_eq!(e.left.last_down_tick, Some(35));
}
