//! The debounce engine: per-button timing state and the admit/suppress
//! decision.
//!
//! For every button the engine remembers the tick of the last admitted Down
//! and the last admitted Up transition. A new Down transition is admitted
//! only when enough time has passed since *both* the previous Down and the
//! previous Up of that button (a bounce on release is often followed by a
//! phantom press). A new Up transition is judged only against the previous
//! Up, so the Up that immediately follows an admitted Down is never
//! suppressed. A threshold of zero disables debouncing for that button
//! entirely: every event is admitted and the timing state is left untouched.

use vstd::prelude::*;

verus! {

/// The mouse buttons this crate watches. Fixed, closed set.
#[derive(Clone, Copy, Debug, PartialEq, Eq, Structural)]
pub enum MouseButton {
    Left,
    Right,
    Middle,
}

/// The two directions of a button transition. Fixed, closed set.
#[derive(Clone, Copy, Debug, PartialEq, Eq, Structural)]
pub enum MouseDirection {
    Up,
    Down,
}

impl MouseDirection {
    /// Every direction, in a fixed order.
    pub fn all() -> (r: Vec<MouseDirection>)
        ensures
            r@ == seq![MouseDirection::Up, MouseDirection::Down],
    {
        let mut r: Vec<MouseDirection> = Vec::new();
        r.push(MouseDirection::Up);
        r.push(MouseDirection::Down);
        proof {
            assert(r@ =~= seq![MouseDirection::Up, MouseDirection::Down]);
        }
        r
    }
}

impl MouseButton {
    /// Every button, in a fixed order.
    pub fn all() -> (r: Vec<MouseButton>)
        ensures
            r@ == seq![MouseButton::Left, MouseButton::Right, MouseButton::Middle],
    {
        let mut r: Vec<MouseButton> = Vec::new();
        r.push(MouseButton::Left);
        r.push(MouseButton::Right);
        r.push(MouseButton::Middle);
        proof {
            assert(r@ =~= seq![MouseButton::Left, MouseButton::Right, MouseButton::Middle]);
        }
        r
    }
}

/// Timing state of one button: the ticks at which the last Down and the last
/// Up transition were admitted. `None` means no such transition was admitted
/// yet.
///
/// "Never happened" is an explicit absent value rather than a zero sentinel,
/// so the very first transition of a button is always treated as authentic,
/// even when the process starts while the tick counter is still below the
/// threshold.
#[derive(Clone, Copy, Debug, PartialEq, Eq)]
pub struct ButtonState {
    pub last_down_tick: Option<u32>,
    pub last_up_tick: Option<u32>,
}

impl ButtonState {
    /// State of a button that has not seen any admitted transition.
    pub fn untouched() -> (s: ButtonState)
        ensures
            s == (ButtonState { last_down_tick: None, last_up_tick: None }),
    {
        ButtonState { last_down_tick: None, last_up_tick: None }
    }
}

/// `tick - reference`, clamped at zero, as the wraparound-safe elapsed time.
pub open spec fn sat_sub_u32(tick: u32, reference: u32) -> u32 {
    if tick >= reference {
        (tick - reference) as u32
    } else {
        0u32
    }
}

/// The tick a new transition is compared against: for Down the latest of the
/// last Down and the last Up, for Up only the last Up. `None` when no
/// relevant transition was admitted yet.
pub open spec fn spec_reference(state: ButtonState, direction: MouseDirection) -> Option<u32> {
    match direction {
        MouseDirection::Down => match (state.last_down_tick, state.last_up_tick) {
            (Some(d), Some(u)) => Some(if d >= u { d } else { u }),
            (Some(d), None) => Some(d),
            (None, Some(u)) => Some(u),
            (None, None) => None,
        },
        MouseDirection::Up => state.last_up_tick,
    }
}

/// Elapsed time reported for a transition at `tick`: the distance to the
/// reference tick, or the tick itself when nothing was admitted before.
pub open spec fn spec_elapsed(state: ButtonState, direction: MouseDirection, tick: u32) -> u32 {
    match spec_reference(state, direction) {
        Some(r) => sat_sub_u32(tick, r),
        None => tick,
    }
}

/// Whether a transition at `tick` is admitted: always when debouncing is
/// disabled (zero threshold) or the button has no relevant history, and
/// otherwise exactly when the elapsed time reaches the threshold.
pub open spec fn spec_admits(
    state: ButtonState,
    threshold: u32,
    direction: MouseDirection,
    tick: u32,
) -> bool {
    ||| threshold == 0
    ||| spec_reference(state, direction) is None
    ||| spec_elapsed(state, direction, tick) >= threshold
}

/// The button state after one transition: the tick of the transition's own
/// direction is recorded exactly when the transition is admitted and
/// debouncing is enabled; in every other case the state is untouched. A zero
/// threshold bypasses the timestamps entirely so that the state stays intact
/// if the threshold is later raised again.
pub open spec fn spec_step(
    state: ButtonState,
    threshold: u32,
    direction: MouseDirection,
    tick: u32,
) -> ButtonState {
    if threshold == 0 || !spec_admits(state, threshold, direction, tick) {
        state
    } else {
        match direction {
            MouseDirection::Down => ButtonState {
                last_down_tick: Some(tick),
                last_up_tick: state.last_up_tick,
            },
            MouseDirection::Up => ButtonState {
                last_down_tick: state.last_down_tick,
                last_up_tick: Some(tick),
            },
        }
    }
}

/// One per-button suppression threshold in milliseconds; zero disables
/// debouncing for that button.
#[derive(Clone, Copy, Debug, PartialEq, Eq, Structural)]
pub struct Thresholds {
    pub left: u32,
    pub right: u32,
    pub middle: u32,
}

impl Default for Thresholds {
    /// The built-in configuration: debounce the left button at 30 ms, leave
    /// the right and middle buttons untouched.
    fn default() -> (t: Thresholds)
        ensures
            t == (Thresholds { left: 30u32, right: 0u32, middle: 0u32 }),
    {
        Thresholds { left: 30, right: 0, middle: 0 }
    }
}

impl Thresholds {
    /// The threshold that applies to one button.
    pub open spec fn spec_of(self, button: MouseButton) -> u32 {
        match button {
            MouseButton::Left => self.left,
            MouseButton::Right => self.right,
            MouseButton::Middle => self.middle,
        }
    }

    /// Reads the threshold of one button.
    pub fn of(&self, button: MouseButton) -> (t: u32)
        ensures
            t == self.spec_of(button),
    {
        match button {
            MouseButton::Left => self.left,
            MouseButton::Right => self.right,
            MouseButton::Middle => self.middle,
        }
    }
}

/// The outcome of one decision: whether the transition is an authentic user
/// action, and how long after the relevant previous transition it arrived.
#[derive(Clone, Copy, Debug, PartialEq, Eq, Structural)]
pub struct Verdict {
    pub admitted: bool,
    pub elapsed: u32,
}

/// The debounce engine: timing state and threshold for every button. All
/// state is explicit and injected, so the engine can be instantiated freely
/// and never reads a clock itself.
#[derive(Clone, Copy, Debug, PartialEq, Eq)]
pub struct DebounceEngine {
    pub left: ButtonState,
    pub right: ButtonState,
    pub middle: ButtonState,
    pub thresholds: Thresholds,
}

impl DebounceEngine {
    /// The timing state of one button.
    pub open spec fn spec_state(self, button: MouseButton) -> ButtonState {
        match button {
            MouseButton::Left => self.left,
            MouseButton::Right => self.right,
            MouseButton::Middle => self.middle,
        }
    }

    /// The threshold of one button.
    pub open spec fn spec_threshold(self, button: MouseButton) -> u32 {
        self.thresholds.spec_of(button)
    }

    /// A fresh engine: no button has any history yet.
    pub fn new(thresholds: Thresholds) -> (e: DebounceEngine)
        ensures
            forall|b: MouseButton| #[trigger] e.spec_state(b) == (ButtonState {
                last_down_tick: None,
                last_up_tick: None,
            }),
            e.thresholds == thresholds,
    {
        let blank = ButtonState { last_down_tick: None, last_up_tick: None };
        DebounceEngine { left: blank, right: blank, middle: blank, thresholds }
    }

    /// Reads the threshold of one button.
    pub fn threshold(&self, button: MouseButton) -> (t: u32)
        ensures
            t == self.spec_threshold(button),
    {
        self.thresholds.of(button)
    }

    /// Replaces the threshold of one button, leaving all timing state and the
    /// other thresholds as they were.
    pub fn set_threshold(&mut self, button: MouseButton, value: u32)
        ensures
            final(self).spec_threshold(button) == value,
            forall|b: MouseButton|
                b != button ==> #[trigger] final(self).spec_threshold(b) == old(
                    self,
                ).spec_threshold(b),
            forall|b: MouseButton| #[trigger] final(self).spec_state(b) == old(self).spec_state(b),
    {
        match button {
            MouseButton::Left => self.thresholds.left = value,
            MouseButton::Right => self.thresholds.right = value,
            MouseButton::Middle => self.thresholds.middle = value,
        }
    }

    /// Decides whether one raw transition is authentic or chatter.
    ///
    /// The threshold is read once, the decision and the reported elapsed time
    /// follow [`spec_admits`] and [`spec_elapsed`], and exactly the admitted
    /// transitions of a debounced button update that button's state, as
    /// [`spec_step`] says. The state of every other button and all thresholds
    /// are untouched. The decision is total: no input can fail.
    pub fn decide(&mut self, button: MouseButton, direction: MouseDirection, tick: u32) -> (v:
        Verdict)
        ensures
            v.admitted == spec_admits(
                old(self).spec_state(button),
                old(self).spec_threshold(button),
                direction,
                tick,
            ),
            v.elapsed == spec_elapsed(old(self).spec_state(button), direction, tick),
            final(self).spec_state(button) == spec_step(
                old(self).spec_state(button),
                old(self).spec_threshold(button),
                direction,
                tick,
            ),
            forall|b: MouseButton|
                b != button ==> #[trigger] final(self).spec_state(b) == old(self).spec_state(b),
            final(self).thresholds == old(self).thresholds,
    {
        let threshold = self.threshold(button);  // one snapshot read per decision
        let state = match button {
            MouseButton::Left => self.left,
            MouseButton::Right => self.right,
            MouseButton::Middle => self.middle,
        };
        let reference: Option<u32> = match direction {
            MouseDirection::Down => match (state.last_down_tick, state.last_up_tick) {
                (Some(d), Some(u)) => Some(if d >= u { d } else { u }),
                (Some(d), None) => Some(d),
                (None, Some(u)) => Some(u),
                (None, None) => None,
            },
            MouseDirection::Up => state.last_up_tick,
        };
        let (elapsed, admitted): (u32, bool) = match reference {
            Some(r) => {
                let e = if tick >= r { tick - r } else { 0 };
                (e, threshold == 0 || e >= threshold)
            },
            None => (tick, true),
        };
        if admitted && threshold != 0 {
            let updated = match direction {
                MouseDirection::Down => ButtonState {
                    last_down_tick: Some(tick),
                    last_up_tick: state.last_up_tick,
                },
                MouseDirection::Up => ButtonState {
                    last_down_tick: state.last_down_tick,
                    last_up_tick: Some(tick),
                },
            };
            match button {
                MouseButton::Left => self.left = updated,
                MouseButton::Right => self.right = updated,
                MouseButton::Middle => self.middle = updated,
            }
        }
        Verdict { admitted, elapsed }
    }
}

/// Two Down transitions of one debounced button: after a Down admitted at
/// `t1`, a second Down at `t2` is suppressed exactly when it comes sooner
/// than the threshold allows, and an admitted second Down records its own
/// tick.
pub proof fn lemma_down_debounce(s: ButtonState, threshold: u32, t1: u32, t2: u32)
    requires
        threshold > 0,
        spec_admits(s, threshold, MouseDirection::Down, t1),
        t1 < t2,
    ensures
        ({
            let s2 = spec_step(s, threshold, MouseDirection::Down, t1);
            &&& spec_elapsed(s2, MouseDirection::Down, t2) == t2 - t1
            &&& t2 - t1 < threshold ==> !spec_admits(s2, threshold, MouseDirection::Down, t2)
                && spec_step(s2, threshold, MouseDirection::Down, t2) == s2
            &&& t2 - t1 >= threshold ==> spec_admits(s2, threshold, MouseDirection::Down, t2)
                && spec_step(s2, threshold, MouseDirection::Down, t2).last_down_tick == Some(t2)
        }),
{
}

/// A zero threshold disables debouncing: every transition is admitted and
/// the timing state is never touched.
pub proof fn lemma_zero_threshold_bypass(s: ButtonState, direction: MouseDirection, tick: u32)
    ensures
        spec_admits(s, 0, direction, tick),
        spec_step(s, 0, direction, tick) == s,
{
}

/// An Up transition is judged only against the previous Up: its verdict and
/// its effect on the Up tick do not depend on the Down tick at all.
pub proof fn lemma_up_ignores_down(s1: ButtonState, s2: ButtonState, threshold: u32, tick: u32)
    requires
        s1.last_up_tick == s2.last_up_tick,
    ensures
        spec_admits(s1, threshold, MouseDirection::Up, tick) == spec_admits(
            s2,
            threshold,
            MouseDirection::Up,
            tick,
        ),
        spec_elapsed(s1, MouseDirection::Up, tick) == spec_elapsed(s2, MouseDirection::Up, tick),
        spec_step(s1, threshold, MouseDirection::Up, tick).last_up_tick == spec_step(
            s2,
            threshold,
            MouseDirection::Up,
            tick,
        ).last_up_tick,
{
}

/// An admitted Down never gets the immediately following Up suppressed: the
/// Up's verdict after the Down is the same as it would have been without the
/// Down, even at zero elapsed time.
pub proof fn lemma_up_after_down(s: ButtonState, threshold: u32, t: u32)
    requires
        spec_admits(s, threshold, MouseDirection::Down, t),
    ensures
        ({
            let s2 = spec_step(s, threshold, MouseDirection::Down, t);
            spec_admits(s2, threshold, MouseDirection::Up, t) == spec_admits(
                s,
                threshold,
                MouseDirection::Up,
                t,
            )
        }),
{
}

/// A suppressed transition leaves the state untouched, and repeating the
/// same transition is suppressed again: any number of identical rapid
/// repeats leaves the state exactly as after the first.
pub proof fn lemma_suppressed_is_idempotent(
    s: ButtonState,
    threshold: u32,
    direction: MouseDirection,
    tick: u32,
)
    requires
        !spec_admits(s, threshold, direction, tick),
    ensures
        spec_step(s, threshold, direction, tick) == s,
        !spec_admits(spec_step(s, threshold, direction, tick), threshold, direction, tick),
{
}

/// The recorded ticks never decrease: every step leaves each of the two
/// ticks either untouched or set to a strictly later tick.
pub proof fn lemma_ticks_monotonic(
    s: ButtonState,
    threshold: u32,
    direction: MouseDirection,
    tick: u32,
)
    ensures
        ({
            let s2 = spec_step(s, threshold, direction, tick);
            &&& (s.last_down_tick is Some ==> s2.last_down_tick is Some
                && s2.last_down_tick->0 >= s.last_down_tick->0)
            &&& (s.last_up_tick is Some ==> s2.last_up_tick is Some
                && s2.last_up_tick->0 >= s.last_up_tick->0)
        }),
{
}

} // verus!
