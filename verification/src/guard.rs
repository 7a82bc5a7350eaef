//! Break-guard policy: what the enforcement loop and the exit handler
//! must do, decided from the engine state alone.
//!
//! The enforcement loop fires twice a second, faster than the one-second
//! tick, so it wins races against outside attempts to dismiss or occlude
//! the overlay. Each fire it re-asserts the whole overlay posture from
//! scratch rather than trusting any earlier setup; this module decides
//! which posture that is.

use vstd::prelude::*;

use crate::types::TimerState;
use crate::types::TimerUpdate;

verus! {

/// What one enforcement-loop fire must do to the overlay.
#[derive(Clone, Copy, Debug, PartialEq, Eq, Structural)]
pub enum GuardAction {
    /// A break is active: make the overlay visible, full-screen, stripped
    /// of affordances, always on top, and focused - unconditionally.
    Enforce,
    /// No break is active but the overlay is still up: take it down and
    /// clear any presentation restrictions.
    Hide,
    /// No break is active and the overlay is already down: nothing to do.
    Idle,
}

/// A break is being enforced exactly when the engine is in a break phase
/// and the countdown is running.
pub open spec fn spec_break_active(state: TimerState, running: bool) -> bool {
    state.spec_is_break() && running
}

pub open spec fn spec_guard_action(state: TimerState, running: bool, overlay_visible: bool)
    -> GuardAction {
    if spec_break_active(state, running) {
        GuardAction::Enforce
    } else if overlay_visible {
        GuardAction::Hide
    } else {
        GuardAction::Idle
    }
}

/// Overlay visibility after an action is carried out: enforcing shows it,
/// hiding removes it, idling leaves it as found.
pub open spec fn spec_overlay_after(action: GuardAction, overlay_visible: bool) -> bool {
    match action {
        GuardAction::Enforce => true,
        GuardAction::Hide => false,
        GuardAction::Idle => overlay_visible,
    }
}

/// Decide one enforcement-loop fire from the engine phase, the running
/// flag, and whether the overlay is currently visible.
pub fn guard_action(state: TimerState, running: bool, overlay_visible: bool) -> (a: GuardAction)
    ensures
        a == spec_guard_action(state, running, overlay_visible),
{
    if state.is_break() && running {
        GuardAction::Enforce
    } else if overlay_visible {
        GuardAction::Hide
    } else {
        GuardAction::Idle
    }
}

/// Whether a process-exit request must be blocked. `snapshot` is the
/// engine state under a non-blocking lock attempt: `None` means the lock
/// was busy, so a mutation - possibly one entering a break - may be in
/// flight, and exit is conservatively blocked. Nothing is ever blocked
/// with enforcement mode off.
pub fn should_block_exit(enforcement_mode: bool, snapshot: Option<TimerUpdate>) -> (block: bool)
    ensures
        block == (enforcement_mode && (match snapshot {
            Some(u) => spec_break_active(u.state, u.is_running),
            None => true,
        })),
{
    if !enforcement_mode {
        return false;
    }
    match snapshot {
        Some(u) => u.state.is_break() && u.is_running,
        None => true,
    }
}

/// The tray-click decision: a main window that is both visible and focused
/// is hidden; otherwise it is shown and focused.
pub fn main_window_should_hide(visible: bool, focused: bool) -> (hide: bool)
    ensures
        hide == (visible && focused),
{
    visible && focused
}

} // verus!
