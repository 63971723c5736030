use click_once::engine::{DebounceEngine, MouseButton, MouseDirection, Thresholds};
use click_once::hook::{process_mouse_message, HookDecision, MSG_LEFT_DOWN};
use click_once::logging::{LogToggle, LogValue};
use click_once::stats::{log_current_stats, MouseEventStats, StatsTable};

fn rendered(values: &[LogValue]) -> String {
    let mut text = String::new();
    for v in values {
        v.write_to_string(&mut text);
    }
    text
}

fn stats_line(unblocked: u32, blocked: u32) -> String {
    let s = MouseEventStats {
        unblocked,
        blocked,
    };
    let mut values: Vec<LogValue> = Vec::new();
    s.log(&mut values);
    rendered(&values)
}

#[test]
fn percentage_three_of_four_renders_as_75_0000() {
    assert_eq!(stats_line(1, 3), "3 / 4  (75.0000%)");
}

#[test]
fn percentage_of_empty_counters_renders_as_0_0000() {
    assert_eq!(stats_line(0, 0), "0 / 0  (0.0000%)");
}

#[test]
fn percentage_is_truncated_not_rounded() {
    // 1 of 3 is 33.3333...%; the report truncates.
    assert_eq!(stats_line(2, 1), "1 / 3  (33.3333%)");
    // 2 of 3 is 66.6666...%.
    assert_eq!(stats_line(1, 2), "2 / 3  (66.6666%)");
}

#[test]
fn fractional_digits_are_zero_padded() {
    // 1 of 10000 is 0.01%: the fraction must print as 0100, not 100.
    assert_eq!(stats_line(9999, 1), "1 / 10000  (0.0100%)");
    // 1 of 2 is exactly 50%.
    assert_eq!(stats_line(1, 1), "1 / 2  (50.0000%)");
}

#[test]
fn everything_blocked_renders_as_100_0000() {
    assert_eq!(stats_line(0, 5), "5 / 5  (100.0000%)");
}

#[test]
fn increment_counts_by_outcome() {
    let mut s = MouseEventStats::new();
    s.increment(true);
    s.increment(false);
    s.increment(true);
    assert_eq!(s.blocked, 2);
    assert_eq!(s.unblocked, 1);
}

#[test]
fn increment_saturates_at_the_counter_limit() {
    let mut s = MouseEventStats {
        unblocked: 0,
        blocked: u32::MAX,
    };
    s.increment(true);
    assert_eq!(s.blocked, u32::MAX);
}

#[test]
fn record_touches_only_its_combination() {
    let mut t = StatsTable::new();
    t.record(MouseButton::Right, MouseDirection::Down, true);
    assert_eq!(t.get(MouseButton::Right, MouseDirection::Down).blocked, 1);
    assert_eq!(t.get(MouseButton::Right, MouseDirection::Down).unblocked, 0);
    assert_eq!(t.get(MouseButton::Right, MouseDirection::Up).blocked, 0);
    assert_eq!(t.get(MouseButton::Left, MouseDirection::Down).blocked, 0);
    assert_eq!(t.get(MouseButton::Middle, MouseDirection::Down).blocked, 0);
}

#[test]
fn sum_stats_adds_the_requested_combinations() {
    let mut t = StatsTable::new();
    t.record(MouseButton::Left, MouseDirection::Down, true);
    t.record(MouseButton::Left, MouseDirection::Up, false);
    t.record(MouseButton::Right, MouseDirection::Down, true);
    let parts = vec![
        (MouseButton::Left, MouseDirection::Up),
        (MouseButton::Left, MouseDirection::Down),
    ];
    let sum = t.sum_stats(&parts);
    assert_eq!(sum.blocked, 1);
    assert_eq!(sum.unblocked, 1);
}

#[test]
fn report_of_an_empty_table() {
    let t = StatsTable::new();
    let mut values: Vec<LogValue> = Vec::new();
    log_current_stats(&t, &mut values);
    let line = "0 / 0  (0.0000%)";
    let expected = format!(
        "\r\nStatistics:\r\nTotal blocked events: {line}\r\n\
         \tLeft button:   {line}\r\n\
         \t\tUp event:   {line}\r\n\
         \t\tDown event: {line}\r\n\
         \tRight button:  {line}\r\n\
         \t\tUp event:   {line}\r\n\
         \t\tDown event: {line}\r\n\
         \tMiddle button: {line}\r\n\
         \t\tUp event:   {line}\r\n\
         \t\tDown event: {line}\r\n\
         \r\n\r\n\r\n"
    );
    assert_eq!(rendered(&values), expected);
}

#[test]
fn report_totals_combine_all_combinations() {
    let mut t = StatsTable::new();
    t.record(MouseButton::Left, MouseDirection::Down, true);
    t.record(MouseButton::Left, MouseDirection::Down, false);
    t.record(MouseButton::Middle, MouseDirection::Up, false);
    let mut values: Vec<LogValue> = Vec::new();
    log_current_stats(&t, &mut values);
    let text = rendered(&values);
    assert!(text.contains("Total blocked events: 1 / 3  (33.3333%)"));
    assert!(text.contains("\tLeft button:   1 / 2  (50.0000%)"));
    assert!(text.contains("\t\tDown event: 1 / 2  (50.0000%)"));
    assert!(text.contains("\tMiddle button: 0 / 1  (0.0000%)"));
}

#[test]
fn scenario_one_of_three_downs_blocked() {
    let mut e = DebounceEngine::new(Thresholds {
        left: 30,
        right: 0,
        middle: 0,
    });
    let mut table = StatsTable::new();
    let toggle = LogToggle { should_log: false };
    let mut out: Vec<LogValue> = Vec::new();
    for tick in [0u32, 10, 35] {
        match process_mouse_message(&mut e, 0, MSG_LEFT_DOWN, tick) {
            HookDecision::Forward(ev) | HookDecision::Suppress(ev) => {
                ev.log(&mut table, &toggle, &mut out);
            }
            HookDecision::PassThrough => unreachable!(),
        }
    }
    assert!(out.is_empty());
    let entry = *table.get(MouseButton::Left, MouseDirection::Down);
    assert_eq!(entry.blocked, 1);
    assert_eq!(entry.unblocked, 2);
    assert_eq!(stats_line(entry.unblocked, entry.blocked), "1 / 3  (33.3333%)");
    assert_eq!(e.left.last_down_tick, Some(35));
}
