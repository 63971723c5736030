//! Counters of admitted and suppressed events, and their fixed-point
//! percentage report.
//!
//! One pair of counters exists for every (button, direction) combination.
//! The report prints, for the whole table, for each button and for each
//! single combination, how many events were blocked out of how many seen,
//! and the blocked percentage with four digits after the dot, rounded by
//! truncation and computed purely in integers.

use vstd::arithmetic::div_mod::{lemma_div_is_ordered, lemma_div_multiples_vanish};
use vstd::prelude::*;

use crate::engine::{MouseButton, MouseDirection};
use crate::logging::{
    is_logging, push_number, push_text, spec_event_log, views_of, LogItem, LogToggle, LogValue,
    MouseEvent,
};

verus! {

/// `a + b`, clamped at the largest counter value.
pub open spec fn sat_add_u32(a: u32, b: u32) -> u32 {
    if a + b > u32::MAX {
        u32::MAX
    } else {
        (a + b) as u32
    }
}

/// Saturating counter addition.
fn add_saturating(a: u32, b: u32) -> (r: u32)
    ensures
        r == sat_add_u32(a, b),
{
    if b <= u32::MAX - a {
        a + b
    } else {
        u32::MAX
    }
}

/// The counters of one (button, direction) combination.
#[derive(Clone, Copy, Debug, PartialEq, Eq, Structural)]
pub struct MouseEventStats {
    pub unblocked: u32,
    pub blocked: u32,
}

/// One counter pair after counting one more event.
pub open spec fn spec_increment(s: MouseEventStats, blocked: bool) -> MouseEventStats {
    if blocked {
        MouseEventStats { unblocked: s.unblocked, blocked: sat_add_u32(s.blocked, 1) }
    } else {
        MouseEventStats { unblocked: sat_add_u32(s.unblocked, 1), blocked: s.blocked }
    }
}

impl MouseEventStats {
    /// A fresh counter pair.
    pub fn new() -> (s: MouseEventStats)
        ensures
            s == (MouseEventStats { unblocked: 0u32, blocked: 0u32 }),
    {
        MouseEventStats { unblocked: 0, blocked: 0 }
    }

    /// Counts one event. The counters saturate instead of wrapping around.
    pub fn increment(&mut self, blocked: bool)
        ensures
            *final(self) == spec_increment(*old(self), blocked),
    {
        if blocked {
            self.blocked = add_saturating(self.blocked, 1);
        } else {
            self.unblocked = add_saturating(self.unblocked, 1);
        }
    }
}

/// One counter pair for every (button, direction) combination. The table is
/// owned by the embedding program and injected wherever events are counted
/// or reported.
#[derive(Clone, Copy, Debug, PartialEq, Eq, Structural)]
pub struct StatsTable {
    pub left_up: MouseEventStats,
    pub left_down: MouseEventStats,
    pub right_up: MouseEventStats,
    pub right_down: MouseEventStats,
    pub middle_up: MouseEventStats,
    pub middle_down: MouseEventStats,
}

impl StatsTable {
    /// The counters of one combination.
    pub open spec fn spec_get(self, button: MouseButton, direction: MouseDirection) -> MouseEventStats {
        match (button, direction) {
            (MouseButton::Left, MouseDirection::Up) => self.left_up,
            (MouseButton::Left, MouseDirection::Down) => self.left_down,
            (MouseButton::Right, MouseDirection::Up) => self.right_up,
            (MouseButton::Right, MouseDirection::Down) => self.right_down,
            (MouseButton::Middle, MouseDirection::Up) => self.middle_up,
            (MouseButton::Middle, MouseDirection::Down) => self.middle_down,
        }
    }

    /// A table with every counter at zero.
    pub fn new() -> (t: StatsTable)
        ensures
            forall|b: MouseButton, d: MouseDirection| #[trigger] t.spec_get(b, d) == (MouseEventStats {
                unblocked: 0u32,
                blocked: 0u32,
            }),
    {
        let zero = MouseEventStats { unblocked: 0, blocked: 0 };
        StatsTable {
            left_up: zero,
            left_down: zero,
            right_up: zero,
            right_down: zero,
            middle_up: zero,
            middle_down: zero,
        }
    }

    /// Reads the counters of one combination.
    pub fn get(&self, button: MouseButton, direction: MouseDirection) -> (s: &MouseEventStats)
        ensures
            *s == self.spec_get(button, direction),
    {
        match (button, direction) {
            (MouseButton::Left, MouseDirection::Up) => &self.left_up,
            (MouseButton::Left, MouseDirection::Down) => &self.left_down,
            (MouseButton::Right, MouseDirection::Up) => &self.right_up,
            (MouseButton::Right, MouseDirection::Down) => &self.right_down,
            (MouseButton::Middle, MouseDirection::Up) => &self.middle_up,
            (MouseButton::Middle, MouseDirection::Down) => &self.middle_down,
        }
    }

    /// Counts one event for its combination, leaving every other counter
    /// untouched.
    pub fn record(&mut self, button: MouseButton, direction: MouseDirection, blocked: bool)
        ensures
            final(self).spec_get(button, direction) == spec_increment(
                old(self).spec_get(button, direction),
                blocked,
            ),
            forall|b: MouseButton, d: MouseDirection|
                !(b == button && d == direction) ==> #[trigger] final(self).spec_get(b, d) == old(
                    self,
                ).spec_get(b, d),
    {
        match (button, direction) {
            (MouseButton::Left, MouseDirection::Up) => self.left_up.increment(blocked),
            (MouseButton::Left, MouseDirection::Down) => self.left_down.increment(blocked),
            (MouseButton::Right, MouseDirection::Up) => self.right_up.increment(blocked),
            (MouseButton::Right, MouseDirection::Down) => self.right_down.increment(blocked),
            (MouseButton::Middle, MouseDirection::Up) => self.middle_up.increment(blocked),
            (MouseButton::Middle, MouseDirection::Down) => self.middle_down.increment(blocked),
        }
    }
}

/// The saturating sum of the counters of the given combinations, added up
/// from the left.
pub open spec fn spec_sum(
    table: StatsTable,
    parts: Seq<(MouseButton, MouseDirection)>,
) -> MouseEventStats
    decreases parts.len(),
{
    if parts.len() == 0 {
        MouseEventStats { unblocked: 0u32, blocked: 0u32 }
    } else {
        let prev = spec_sum(table, parts.drop_last());
        let entry = table.spec_get(parts.last().0, parts.last().1);
        MouseEventStats {
            unblocked: sat_add_u32(prev.unblocked, entry.unblocked),
            blocked: sat_add_u32(prev.blocked, entry.blocked),
        }
    }
}

impl StatsTable {
    /// Adds up the counters of the given combinations; the sums saturate.
    pub fn sum_stats(&self, parts: &Vec<(MouseButton, MouseDirection)>) -> (r: MouseEventStats)
        ensures
            r == spec_sum(*self, parts@),
    {
        let mut acc = MouseEventStats::new();
        let mut i: usize = 0;
        proof {
            assert(parts@.take(0) =~= Seq::<(MouseButton, MouseDirection)>::empty());
        }
        while i < parts.len()
            invariant
                i <= parts.len(),
                acc == spec_sum(*self, parts@.take(i as int)),
            decreases parts.len() - i,
        {
            let (b, d) = parts[i];
            let entry = self.get(b, d);
            acc.unblocked = add_saturating(acc.unblocked, entry.unblocked);
            acc.blocked = add_saturating(acc.blocked, entry.blocked);
            proof {
                assert(parts@.take(i + 1).drop_last() =~= parts@.take(i as int));
            }
            i = i + 1;
        }
        proof {
            assert(parts@.take(parts@.len() as int) =~= parts@);
        }
        acc
    }
}

/// The dot and the zero padding that precede the fractional digits, so that
/// the printed fraction always shows four digits.
pub open spec fn spec_pad(after: int) -> Seq<char> {
    if after < 10 {
        ".000"@
    } else if after < 100 {
        ".00"@
    } else if after < 1000 {
        ".0"@
    } else {
        "."@
    }
}

/// The log values of one counter line: blocked out of total, and the blocked
/// percentage in fixed-point with four digits after the dot, rounded by
/// truncation; an empty line shows a zero percentage.
pub open spec fn spec_stats_line(s: MouseEventStats) -> Seq<LogItem> {
    let total = sat_add_u32(s.unblocked, s.blocked);
    seq![
        LogItem::Num(s.blocked),
        LogItem::Chars(" / "@),
        LogItem::Num(total),
        LogItem::Chars("  ("@),
    ] + (if total == 0 {
        seq![LogItem::Num(0u32), LogItem::Chars(".0000"@)]
    } else {
        let percent = (s.blocked * 100 * 100 * 10000) / (total * 100);
        seq![
            LogItem::Num((percent / 10000) as u32),
            LogItem::Chars(spec_pad(percent % 10000)),
            LogItem::Num((percent % 10000) as u32),
        ]
    }) + seq![LogItem::Chars("%)"@)]
}

impl MouseEventStats {
    /// Appends one counter line of the report.
    pub fn log(&self, out: &mut Vec<LogValue>)
        ensures
            views_of(final(out)@) == views_of(old(out)@) + spec_stats_line(*self),
    {
        let total = add_saturating(self.unblocked, self.blocked);
        push_number(out, self.blocked);
        push_text(out, " / ");
        push_number(out, total);
        push_text(out, "  (");
        if total == 0 {
            push_number(out, 0);
            push_text(out, ".0000");
        } else {
            let numerator: u64 = self.blocked as u64 * 100 * 100 * 10000;
            let denominator: u64 = total as u64 * 100;
            let percent: u64 = numerator / denominator;
            proof {
                assert(self.blocked <= total);
                assert(numerator <= denominator * 1000000);
                lemma_div_is_ordered(
                    numerator as int,
                    (denominator as int) * 1000000,
                    denominator as int,
                );
                lemma_div_multiples_vanish(1000000, denominator as int);
                assert(percent <= 1000000);
                lemma_div_is_ordered(percent as int, 1000000, 10000);
            }
            let whole: u32 = (percent / 10000) as u32;
            let after: u32 = (percent % 10000) as u32;
            push_number(out, whole);
            if after < 10 {
                push_text(out, ".000");
            } else if after < 100 {
                push_text(out, ".00");
            } else if after < 1000 {
                push_text(out, ".0");
            } else {
                push_text(out, ".");
            }
            push_number(out, after);
        }
        push_text(out, "%)");
        proof {
            assert(views_of(out@) =~= views_of(old(out)@) + spec_stats_line(*self));
        }
    }
}

impl MouseEvent {
    /// Counts this event for its combination and, when logging is enabled,
    /// appends the values it renders to.
    pub fn log(self, stats: &mut StatsTable, toggle: &LogToggle, out: &mut Vec<LogValue>)
        ensures
            final(stats).spec_get(self.button, self.direction) == spec_increment(
                old(stats).spec_get(self.button, self.direction),
                self.blocked,
            ),
            forall|b: MouseButton, d: MouseDirection|
                !(b == self.button && d == self.direction) ==> #[trigger] final(stats).spec_get(
                    b,
                    d,
                ) == old(stats).spec_get(b, d),
            toggle.should_log ==> views_of(final(out)@) == views_of(old(out)@) + spec_event_log(
                self,
            ),
            !toggle.should_log ==> final(out)@ == old(out)@,
    {
        stats.record(self.button, self.direction, self.blocked);
        if is_logging(toggle) {
            self.log_write(out);
        }
    }
}

/// The six combinations in report order: buttons outermost, Up before Down.
pub open spec fn spec_all_pairs() -> Seq<(MouseButton, MouseDirection)> {
    seq![
        (MouseButton::Left, MouseDirection::Up),
        (MouseButton::Left, MouseDirection::Down),
        (MouseButton::Right, MouseDirection::Up),
        (MouseButton::Right, MouseDirection::Down),
        (MouseButton::Middle, MouseDirection::Up),
        (MouseButton::Middle, MouseDirection::Down),
    ]
}

/// The two combinations of one button, Up before Down.
pub open spec fn spec_button_pairs(button: MouseButton) -> Seq<(MouseButton, MouseDirection)> {
    seq![(button, MouseDirection::Up), (button, MouseDirection::Down)]
}

/// All six combinations in report order.
fn all_pairs() -> (r: Vec<(MouseButton, MouseDirection)>)
    ensures
        r@ == spec_all_pairs(),
{
    let mut r: Vec<(MouseButton, MouseDirection)> = Vec::new();
    r.push((MouseButton::Left, MouseDirection::Up));
    r.push((MouseButton::Left, MouseDirection::Down));
    r.push((MouseButton::Right, MouseDirection::Up));
    r.push((MouseButton::Right, MouseDirection::Down));
    r.push((MouseButton::Middle, MouseDirection::Up));
    r.push((MouseButton::Middle, MouseDirection::Down));
    proof {
        assert(r@ =~= spec_all_pairs());
    }
    r
}

/// The two combinations of one button.
fn button_pairs(button: MouseButton) -> (r: Vec<(MouseButton, MouseDirection)>)
    ensures
        r@ == spec_button_pairs(button),
{
    let mut r: Vec<(MouseButton, MouseDirection)> = Vec::new();
    r.push((button, MouseDirection::Up));
    r.push((button, MouseDirection::Down));
    proof {
        assert(r@ =~= spec_button_pairs(button));
    }
    r
}

/// The heading of one button's part of the report.
pub open spec fn spec_button_label(button: MouseButton) -> Seq<char> {
    match button {
        MouseButton::Left => "\tLeft button:   "@,
        MouseButton::Right => "\tRight button:  "@,
        MouseButton::Middle => "\tMiddle button: "@,
    }
}

/// The heading of one direction's line of the report.
pub open spec fn spec_direction_label(direction: MouseDirection) -> Seq<char> {
    match direction {
        MouseDirection::Down => "\t\tDown event: "@,
        MouseDirection::Up => "\t\tUp event:   "@,
    }
}

/// One button's part of the report: the button's own totals, then one line
/// per direction.
pub open spec fn spec_button_section(table: StatsTable, button: MouseButton) -> Seq<LogItem> {
    seq![LogItem::Chars(spec_button_label(button))] + spec_stats_line(
        spec_sum(table, spec_button_pairs(button)),
    ) + seq![LogItem::Chars("\r\n"@)] + seq![LogItem::Chars(spec_direction_label(MouseDirection::Up))]
        + spec_stats_line(table.spec_get(button, MouseDirection::Up)) + seq![
        LogItem::Chars("\r\n"@),
    ] + seq![LogItem::Chars(spec_direction_label(MouseDirection::Down))] + spec_stats_line(
        table.spec_get(button, MouseDirection::Down),
    ) + seq![LogItem::Chars("\r\n"@)]
}

/// The whole statistics report: the grand total, then one section per
/// button.
pub open spec fn spec_current_stats(table: StatsTable) -> Seq<LogItem> {
    seq![LogItem::Chars("\r\nStatistics:\r\n"@), LogItem::Chars("Total blocked events: "@)]
        + spec_stats_line(spec_sum(table, spec_all_pairs())) + seq![LogItem::Chars("\r\n"@)]
        + spec_button_section(table, MouseButton::Left) + spec_button_section(
        table,
        MouseButton::Right,
    ) + spec_button_section(table, MouseButton::Middle) + seq![LogItem::Chars("\r\n\r\n\r\n"@)]
}

/// Appends one button's part of the report.
fn log_button_section(stats: &StatsTable, button: MouseButton, out: &mut Vec<LogValue>)
    ensures
        views_of(final(out)@) == views_of(old(out)@) + spec_button_section(*stats, button),
{
    let label = match button {
        MouseButton::Left => "\tLeft button:   ",
        MouseButton::Right => "\tRight button:  ",
        MouseButton::Middle => "\tMiddle button: ",
    };
    push_text(out, label);
    let pairs = button_pairs(button);
    let sum = stats.sum_stats(&pairs);
    sum.log(out);
    push_text(out, "\r\n");
    push_text(out, "\t\tUp event:   ");
    let up = *stats.get(button, MouseDirection::Up);
    up.log(out);
    push_text(out, "\r\n");
    push_text(out, "\t\tDown event: ");
    let down = *stats.get(button, MouseDirection::Down);
    down.log(out);
    push_text(out, "\r\n");
    proof {
        assert(views_of(out@) =~= views_of(old(out)@) + spec_button_section(*stats, button));
    }
}

/// Appends the whole statistics report.
pub fn log_current_stats(stats: &StatsTable, out: &mut Vec<LogValue>)
    ensures
        views_of(final(out)@) == views_of(old(out)@) + spec_current_stats(*stats),
{
    push_text(out, "\r\nStatistics:\r\n");
    push_text(out, "Total blocked events: ");
    let pairs = all_pairs();
    let sum = stats.sum_stats(&pairs);
    sum.log(out);
    push_text(out, "\r\n");
    log_button_section(stats, MouseButton::Left, out);
    log_button_section(stats, MouseButton::Right, out);
    log_button_section(stats, MouseButton::Middle, out);
    push_text(out, "\r\n\r\n\r\n");
    proof {
        assert(views_of(out@) =~= views_of(old(out)@) + spec_current_stats(*stats));
    }
}

} // verus!
