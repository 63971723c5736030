//! One complete low-level mouse-hook callback invocation, as a function of
//! explicit state.
//!
//! The host delivers every mouse message as a hook code, a message number and
//! the current tick. A negative hook code means "do not process"; such calls,
//! and every message that is not one of the six button transitions, pass
//! through untouched without ever reaching the engine. The six recognised
//! messages are decided by the engine: an admitted event is forwarded, a
//! suppressed one is swallowed, and both produce a record for the logging and
//! statistics collaborators.

use vstd::prelude::*;

use crate::engine::{
    spec_admits, spec_elapsed, spec_step, DebounceEngine, MouseButton, MouseDirection,
};
use crate::logging::MouseEvent;

verus! {

/// The window message numbers of the six button transitions, as the Windows
/// messages WM_LBUTTONDOWN through WM_MBUTTONUP define them.
pub const MSG_LEFT_DOWN: usize = 0x0201;

pub const MSG_LEFT_UP: usize = 0x0202;

pub const MSG_RIGHT_DOWN: usize = 0x0204;

pub const MSG_RIGHT_UP: usize = 0x0205;

pub const MSG_MIDDLE_DOWN: usize = 0x0207;

pub const MSG_MIDDLE_UP: usize = 0x0208;

/// The button transition a window message stands for, or `None` for every
/// message that is not one of the six button transitions.
pub open spec fn spec_map_message(message: usize) -> Option<(MouseButton, MouseDirection)> {
    if message == MSG_LEFT_DOWN {
        Some((MouseButton::Left, MouseDirection::Down))
    } else if message == MSG_LEFT_UP {
        Some((MouseButton::Left, MouseDirection::Up))
    } else if message == MSG_RIGHT_DOWN {
        Some((MouseButton::Right, MouseDirection::Down))
    } else if message == MSG_RIGHT_UP {
        Some((MouseButton::Right, MouseDirection::Up))
    } else if message == MSG_MIDDLE_DOWN {
        Some((MouseButton::Middle, MouseDirection::Down))
    } else if message == MSG_MIDDLE_UP {
        Some((MouseButton::Middle, MouseDirection::Up))
    } else {
        None
    }
}

/// Maps a window message to the button transition it stands for.
pub fn map_message(message: usize) -> (r: Option<(MouseButton, MouseDirection)>)
    ensures
        r == spec_map_message(message),
{
    if message == MSG_LEFT_DOWN {
        Some((MouseButton::Left, MouseDirection::Down))
    } else if message == MSG_LEFT_UP {
        Some((MouseButton::Left, MouseDirection::Up))
    } else if message == MSG_RIGHT_DOWN {
        Some((MouseButton::Right, MouseDirection::Down))
    } else if message == MSG_RIGHT_UP {
        Some((MouseButton::Right, MouseDirection::Up))
    } else if message == MSG_MIDDLE_DOWN {
        Some((MouseButton::Middle, MouseDirection::Down))
    } else if message == MSG_MIDDLE_UP {
        Some((MouseButton::Middle, MouseDirection::Up))
    } else {
        None
    }
}

/// What the hook callback must do with one message.
#[derive(Clone, Copy, Debug, PartialEq, Eq, Structural)]
pub enum HookDecision {
    /// Hand the message on untouched; it was not a recognised button
    /// transition, or the hook code forbids processing.
    PassThrough,
    /// The transition is authentic: forward it, and record the event.
    Forward(MouseEvent),
    /// The transition is chatter: swallow it, and record the event.
    Suppress(MouseEvent),
}

/// The decision the hook callback takes on one message, as a function of the
/// engine state it starts from.
pub open spec fn spec_hook_decision(
    e: DebounceEngine,
    code: i32,
    message: usize,
    tick: u32,
) -> HookDecision {
    if code < 0 {
        HookDecision::PassThrough
    } else {
        match spec_map_message(message) {
            None => HookDecision::PassThrough,
            Some((button, direction)) => {
                let admitted = spec_admits(
                    e.spec_state(button),
                    e.spec_threshold(button),
                    direction,
                    tick,
                );
                let record = MouseEvent {
                    button,
                    direction,
                    blocked: !admitted,
                    time_since_last_event: spec_elapsed(e.spec_state(button), direction, tick),
                };
                if admitted {
                    HookDecision::Forward(record)
                } else {
                    HookDecision::Suppress(record)
                }
            },
        }
    }
}

/// Treats one hook callback invocation.
///
/// A negative hook code or an unrecognised message passes through untouched
/// and leaves the engine exactly as it was; a recognised transition is
/// decided by the engine, which updates only that button's state.
pub fn process_mouse_message(
    engine: &mut DebounceEngine,
    code: i32,
    message: usize,
    tick: u32,
) -> (d: HookDecision)
    ensures
        d == spec_hook_decision(*old(engine), code, message, tick),
        code < 0 || spec_map_message(message) is None ==> *final(engine) == *old(engine),
        code >= 0 && spec_map_message(message) is Some ==> {
            let (button, direction) = spec_map_message(message)->0;
            &&& final(engine).spec_state(button) == spec_step(
                old(engine).spec_state(button),
                old(engine).spec_threshold(button),
                direction,
                tick,
            )
            &&& forall|b: MouseButton|
                b != button ==> #[trigger] final(engine).spec_state(b) == old(engine).spec_state(b)
            &&& final(engine).thresholds == old(engine).thresholds
        },
{
    if code < 0 {
        return HookDecision::PassThrough;
    }
    match map_message(message) {
        None => HookDecision::PassThrough,
        Some((button, direction)) => {
            let verdict = engine.decide(button, direction, tick);
            let record = MouseEvent {
                button,
                direction,
                blocked: !verdict.admitted,
                time_since_last_event: verdict.elapsed,
            };
            if verdict.admitted {
                HookDecision::Forward(record)
            } else {
                HookDecision::Suppress(record)
            }
        },
    }
}

} // verus!
