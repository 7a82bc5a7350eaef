//! The interval kinds and the snapshot handed to observers.

use vstd::prelude::*;

verus! {

/// Nominal focus duration in the normal profile: 25 minutes.
pub const FOCUS_SECONDS: u32 = 25 * 60;

/// Nominal short-break duration in the normal profile: 5 minutes.
pub const SHORT_BREAK_SECONDS: u32 = 5 * 60;

/// Nominal long-break duration in the normal profile: 25 minutes.
pub const LONG_BREAK_SECONDS: u32 = 25 * 60;

/// The kind of interval the timer is currently in.
#[derive(Clone, Copy, Debug, PartialEq, Eq, Structural)]
pub enum TimerState {
    Focus,
    ShortBreak,
    LongBreak,
}

impl TimerState {
    /// Nominal duration of each interval kind, in whole seconds.
    pub open spec fn spec_duration_seconds(self) -> u32 {
        match self {
            TimerState::Focus => FOCUS_SECONDS,
            TimerState::ShortBreak => SHORT_BREAK_SECONDS,
            TimerState::LongBreak => LONG_BREAK_SECONDS,
        }
    }

    pub fn duration_seconds(&self) -> (r: u32)
        ensures
            r == self.spec_duration_seconds(),
    {
        match self {
            TimerState::Focus => FOCUS_SECONDS,
            TimerState::ShortBreak => SHORT_BREAK_SECONDS,
            TimerState::LongBreak => LONG_BREAK_SECONDS,
        }
    }

    pub open spec fn spec_display_name(self) -> Seq<char> {
        match self {
            TimerState::Focus => "FOCUS"@,
            TimerState::ShortBreak => "SHORT BREAK"@,
            TimerState::LongBreak => "LONG BREAK"@,
        }
    }

    pub fn display_name(&self) -> (r: &'static str)
        ensures
            r@ == self.spec_display_name(),
    {
        match self {
            TimerState::Focus => "FOCUS",
            TimerState::ShortBreak => "SHORT BREAK",
            TimerState::LongBreak => "LONG BREAK",
        }
    }

    /// Both break kinds count as a break; focus does not.
    pub open spec fn spec_is_break(self) -> bool {
        self is ShortBreak || self is LongBreak
    }

    pub fn is_break(&self) -> (r: bool)
        ensures
            r == self.spec_is_break(),
    {
        matches!(self, TimerState::ShortBreak | TimerState::LongBreak)
    }
}

/// Immutable projection of the engine state, broadcast to observers.
#[derive(Clone, Copy, Debug, PartialEq, Eq, Structural)]
pub struct TimerUpdate {
    pub state: TimerState,
    pub remaining_seconds: u32,
    pub completed_pomodoros: u32,
    pub is_running: bool,
}

} // verus!
