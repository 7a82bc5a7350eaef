//! The timer state machine.
//!
//! The engine owns the current phase, the countdown, the completed-focus
//! count, the running flag, and the wall-clock second at which the current
//! break began. It is driven by commands (`start`, `pause`, `reset`,
//! `skip_break`) and by a once-per-second `tick`. The engine itself performs
//! no side effect: each mutating operation reports, as plain values, which
//! signals the caller must raise (show or hide the break overlay, lock the
//! screen, broadcast a fresh snapshot).

use vstd::prelude::*;

use crate::types::TimerState;
use crate::types::TimerUpdate;

verus! {

/// Grace period after a break begins before the screen lock fires.
pub const LOCK_DELAY_SECONDS: u64 = 5;

/// Fast-profile focus duration, for exercising the cycle quickly.
pub const FAST_FOCUS_SECONDS: u32 = 10;

/// Fast-profile short-break duration.
pub const FAST_SHORT_BREAK_SECONDS: u32 = 8;

/// Fast-profile long-break duration.
pub const FAST_LONG_BREAK_SECONDS: u32 = 12;

/// The three interval durations, resolved once at construction and
/// immutable thereafter.
#[derive(Clone, Copy, Debug, PartialEq, Eq, Structural)]
pub struct TimerDurations {
    pub focus_seconds: u32,
    pub short_break_seconds: u32,
    pub long_break_seconds: u32,
}

impl TimerDurations {
    pub open spec fn spec_for_state(self, state: TimerState) -> u32 {
        match state {
            TimerState::Focus => self.focus_seconds,
            TimerState::ShortBreak => self.short_break_seconds,
            TimerState::LongBreak => self.long_break_seconds,
        }
    }

    /// The normal profile: the nominal duration of each interval kind.
    pub open spec fn spec_normal_profile() -> TimerDurations {
        TimerDurations {
            focus_seconds: TimerState::Focus.spec_duration_seconds(),
            short_break_seconds: TimerState::ShortBreak.spec_duration_seconds(),
            long_break_seconds: TimerState::LongBreak.spec_duration_seconds(),
        }
    }

    /// The fast profile: small fixed durations substituted wholesale.
    pub open spec fn spec_fast_profile() -> TimerDurations {
        TimerDurations {
            focus_seconds: FAST_FOCUS_SECONDS,
            short_break_seconds: FAST_SHORT_BREAK_SECONDS,
            long_break_seconds: FAST_LONG_BREAK_SECONDS,
        }
    }

    /// Resolves the duration profile once, at construction time: the fast
    /// profile when `fast_mode` is set, the nominal one otherwise.
    pub fn from_profile(fast_mode: bool) -> (d: TimerDurations)
        ensures
            d == if fast_mode {
                TimerDurations::spec_fast_profile()
            } else {
                TimerDurations::spec_normal_profile()
            },
    {
        if fast_mode {
            TimerDurations {
                focus_seconds: FAST_FOCUS_SECONDS,
                short_break_seconds: FAST_SHORT_BREAK_SECONDS,
                long_break_seconds: FAST_LONG_BREAK_SECONDS,
            }
        } else {
            TimerDurations {
                focus_seconds: TimerState::Focus.duration_seconds(),
                short_break_seconds: TimerState::ShortBreak.duration_seconds(),
                long_break_seconds: TimerState::LongBreak.duration_seconds(),
            }
        }
    }

    pub fn for_state(&self, state: TimerState) -> (r: u32)
        ensures
            r == self.spec_for_state(state),
    {
        match state {
            TimerState::Focus => self.focus_seconds,
            TimerState::ShortBreak => self.short_break_seconds,
            TimerState::LongBreak => self.long_break_seconds,
        }
    }
}

/// The side effects one `tick` asks its caller to carry out, in this order:
/// overlay signals first, the snapshot broadcast last, so a notification
/// always reflects the state after the mutation it belongs to.
#[derive(Clone, Copy, Debug, PartialEq, Eq, Structural)]
pub struct TickEffects {
    /// Fire the one-shot OS screen lock.
    pub lock_screen: bool,
    /// A break just began: bring the overlay up.
    pub show_overlay: bool,
    /// A break just ended: take the overlay down.
    pub hide_overlay: bool,
    /// Broadcast a fresh snapshot to observers.
    pub notify: bool,
}

impl TickEffects {
    /// No signal at all: what a tick of a paused timer reports.
    pub open spec fn spec_silent() -> TickEffects {
        TickEffects { lock_screen: false, show_overlay: false, hide_overlay: false, notify: false }
    }
}

/// The timer state machine. One instance lives for the whole process,
/// behind one exclusive lock; every operation below assumes that exclusive
/// access and is a total function over the state.
pub struct TimerEngine {
    pub state: TimerState,
    pub remaining_seconds: u32,
    pub completed_pomodoros: u32,
    pub lock_triggered: bool,
    pub is_running: bool,
    /// Wall-clock second at which the current break began; `None` outside
    /// break phases. Used only to gate the lock-trigger delay.
    pub break_start_time: Option<u64>,
    pub durations: TimerDurations,
}

impl TimerEngine {
    pub open spec fn dur_for(self, state: TimerState) -> u32 {
        self.durations.spec_for_state(state)
    }

    /// The engine's invariant: a break start time is recorded exactly in
    /// break phases, the one-shot lock flag can only be set during a break,
    /// and the countdown never exceeds the current phase's full duration.
    pub open spec fn wf(self) -> bool {
        &&& self.break_start_time is Some <==> self.state.spec_is_break()
        &&& self.lock_triggered ==> self.state.spec_is_break()
        &&& self.remaining_seconds <= self.dur_for(self.state)
    }

    /// The state of a freshly constructed engine: a full focus interval,
    /// not yet running.
    pub open spec fn spec_initial(durations: TimerDurations) -> TimerEngine {
        TimerEngine {
            state: TimerState::Focus,
            remaining_seconds: durations.focus_seconds,
            completed_pomodoros: 0,
            lock_triggered: false,
            is_running: false,
            break_start_time: None,
            durations: durations,
        }
    }

    /// A full reset: back to a fresh focus interval, history erased,
    /// countdown stopped. Only the durations survive.
    pub open spec fn spec_reset_to_focus(self) -> TimerEngine {
        TimerEngine {
            state: TimerState::Focus,
            remaining_seconds: self.durations.focus_seconds,
            completed_pomodoros: 0,
            lock_triggered: false,
            is_running: false,
            break_start_time: None,
            durations: self.durations,
        }
    }

    /// Leaving a break for the next focus interval: the completed count and
    /// the running flag are kept; the break bookkeeping is cleared.
    pub open spec fn spec_to_focus(self) -> TimerEngine {
        TimerEngine {
            state: TimerState::Focus,
            remaining_seconds: self.durations.focus_seconds,
            completed_pomodoros: self.completed_pomodoros,
            lock_triggered: false,
            is_running: self.is_running,
            break_start_time: None,
            durations: self.durations,
        }
    }

    /// The same engine with only the running flag changed.
    pub open spec fn spec_with_running(self, running: bool) -> TimerEngine {
        TimerEngine {
            state: self.state,
            remaining_seconds: self.remaining_seconds,
            completed_pomodoros: self.completed_pomodoros,
            lock_triggered: self.lock_triggered,
            is_running: running,
            break_start_time: self.break_start_time,
            durations: self.durations,
        }
    }

    /// Which break the Nth completed focus interval earns: every third one
    /// a long break, the others a short break.
    pub open spec fn spec_break_kind(completed: u32) -> TimerState {
        if completed % 3 == 0 {
            TimerState::LongBreak
        } else {
            TimerState::ShortBreak
        }
    }

    /// Completing a focus interval at wall-clock second `now_seconds`:
    /// the completed count goes up by one, the count picks the break kind,
    /// and the break bookkeeping starts afresh.
    pub open spec fn spec_enter_break(self, now_seconds: u64) -> TimerEngine {
        let n = (self.completed_pomodoros + 1) as u32;
        let kind = TimerEngine::spec_break_kind(n);
        TimerEngine {
            state: kind,
            remaining_seconds: self.durations.spec_for_state(kind),
            completed_pomodoros: n,
            lock_triggered: false,
            is_running: self.is_running,
            break_start_time: Some(now_seconds),
            durations: self.durations,
        }
    }

    /// Whether this tick must fire the one-shot screen lock: in a break,
    /// not yet fired, and the break has been active for the grace period.
    pub open spec fn spec_lock_due(self, now_seconds: u64) -> bool {
        &&& self.state.spec_is_break()
        &&& !self.lock_triggered
        &&& self.break_start_time matches Some(t) && now_seconds >= t + LOCK_DELAY_SECONDS
    }

    /// The state after one tick at wall-clock second `now_seconds`: a paused
    /// timer is untouched; time left means the countdown drops by one (and
    /// the lock flag latches if the lock fires); an exhausted countdown
    /// means the phase transition happens on this tick instead.
    pub open spec fn spec_tick_state(self, now_seconds: u64) -> TimerEngine {
        if !self.is_running {
            self
        } else if self.remaining_seconds > 0 {
            TimerEngine {
                state: self.state,
                remaining_seconds: (self.remaining_seconds - 1) as u32,
                completed_pomodoros: self.completed_pomodoros,
                lock_triggered: self.lock_triggered || self.spec_lock_due(now_seconds),
                is_running: self.is_running,
                break_start_time: self.break_start_time,
                durations: self.durations,
            }
        } else if self.state is Focus {
            self.spec_enter_break(now_seconds)
        } else {
            self.spec_to_focus()
        }
    }

    /// The signals one tick raises: nothing when paused; otherwise a
    /// snapshot broadcast, plus the lock when it falls due, plus the
    /// overlay signal of whichever transition the tick performed.
    pub open spec fn spec_tick_effects(self, now_seconds: u64) -> TickEffects {
        if !self.is_running {
            TickEffects::spec_silent()
        } else if self.remaining_seconds > 0 {
            TickEffects {
                lock_screen: self.spec_lock_due(now_seconds),
                show_overlay: false,
                hide_overlay: false,
                notify: true,
            }
        } else if self.state is Focus {
            TickEffects { lock_screen: false, show_overlay: true, hide_overlay: false, notify: true }
        } else {
            TickEffects { lock_screen: false, show_overlay: false, hide_overlay: true, notify: true }
        }
    }

    /// The snapshot observers see.
    pub open spec fn spec_update(self) -> TimerUpdate {
        TimerUpdate {
            state: self.state,
            remaining_seconds: self.remaining_seconds,
            completed_pomodoros: self.completed_pomodoros,
            is_running: self.is_running,
        }
    }

    /// A fresh engine with the given durations: focus phase, full countdown,
    /// no history, not running.
    pub fn new(durations: TimerDurations) -> (e: TimerEngine)
        ensures
            e == TimerEngine::spec_initial(durations),
            e.wf(),
    {
        TimerEngine {
            state: TimerState::Focus,
            remaining_seconds: durations.for_state(TimerState::Focus),
            completed_pomodoros: 0,
            lock_triggered: false,
            is_running: false,
            break_start_time: None,
            durations: durations,
        }
    }

    /// Start the countdown. An exhausted countdown is first reset in full
    /// (fresh focus phase, history erased); then the engine runs. Idempotent
    /// when already running. The caller must broadcast a snapshot afterward.
    pub fn start(&mut self)
        requires
            old(self).wf(),
        ensures
            final(self).wf(),
            old(self).remaining_seconds == 0 ==> *final(self) == old(
                self,
            ).spec_reset_to_focus().spec_with_running(true),
            old(self).remaining_seconds != 0 ==> *final(self) == old(self).spec_with_running(true),
    {
        if self.remaining_seconds == 0 {
            self.reset_to_focus();
        }
        self.is_running = true;
    }

    /// Stop the countdown where it stands; phase and time left are kept.
    /// Idempotent. The caller must broadcast a snapshot afterward.
    pub fn pause(&mut self)
        requires
            old(self).wf(),
        ensures
            final(self).wf(),
            *final(self) == old(self).spec_with_running(false),
    {
        self.is_running = false;
    }

    /// Reset unconditionally to a fresh, stopped focus interval. Returns
    /// whether the phase being left was a break, in which case the caller
    /// must take the overlay down before broadcasting the snapshot.
    pub fn reset(&mut self) -> (hide_overlay: bool)
        requires
            old(self).wf(),
        ensures
            final(self).wf(),
            *final(self) == old(self).spec_reset_to_focus(),
            hide_overlay == old(self).state.spec_is_break(),
    {
        let was_break = self.state.is_break();
        self.reset_to_focus();
        was_break
    }

    /// Leave a break early for the next focus interval, keeping the
    /// completed count and the running flag; outside a break, a no-op.
    /// The caller is responsible for hiding the overlay afterward.
    pub fn skip_break(&mut self)
        requires
            old(self).wf(),
        ensures
            final(self).wf(),
            old(self).state.spec_is_break() ==> *final(self) == old(self).spec_to_focus(),
            !old(self).state.spec_is_break() ==> *final(self) == *old(self),
    {
        if self.state.is_break() {
            self.transition_to_focus();
        }
    }

    pub fn is_running(&self) -> (r: bool)
        ensures
            r == self.is_running,
    {
        self.is_running
    }

    pub fn get_state(&self) -> (r: TimerState)
        ensures
            r == self.state,
    {
        self.state
    }

    pub fn get_remaining_seconds(&self) -> (r: u32)
        ensures
            r == self.remaining_seconds,
    {
        self.remaining_seconds
    }

    pub fn get_completed_pomodoros(&self) -> (r: u32)
        ensures
            r == self.completed_pomodoros,
    {
        self.completed_pomodoros
    }

    /// Snapshot of the engine, with no side effect.
    pub fn get_update(&self) -> (u: TimerUpdate)
        ensures
            u == self.spec_update(),
    {
        TimerUpdate {
            state: self.state,
            remaining_seconds: self.remaining_seconds,
            completed_pomodoros: self.completed_pomodoros,
            is_running: self.is_running,
        }
    }

    /// One second of progress, taken at wall-clock second `now_seconds`.
    /// Nothing moves while paused. While time is left the countdown drops by
    /// exactly one and, during a break whose grace period has elapsed, the
    /// screen lock fires once and latches. A countdown found already at zero
    /// performs the phase transition instead. The returned signals are the
    /// caller's to carry out, overlay signals before the snapshot broadcast.
    pub fn tick(&mut self, now_seconds: u64) -> (fx: TickEffects)
        requires
            old(self).wf(),
            old(self).is_running && old(self).remaining_seconds == 0 && old(self).state is Focus
                ==> old(self).completed_pomodoros < u32::MAX,
        ensures
            final(self).wf(),
            *final(self) == old(self).spec_tick_state(now_seconds),
            fx == old(self).spec_tick_effects(now_seconds),
    {
        if !self.is_running {
            return TickEffects {
                lock_screen: false,
                show_overlay: false,
                hide_overlay: false,
                notify: false,
            };
        }
        if self.remaining_seconds > 0 {
            self.remaining_seconds = self.remaining_seconds - 1;
            let mut lock_screen = false;
            if self.state.is_break() && !self.lock_triggered {
                if let Some(t) = self.break_start_time {
                    if now_seconds >= t && now_seconds - t >= LOCK_DELAY_SECONDS {
                        lock_screen = true;
                        self.lock_triggered = true;
                    }
                }
            }
            TickEffects { lock_screen, show_overlay: false, hide_overlay: false, notify: true }
        } else {
            self.transition_next_state(now_seconds)
        }
    }

    /// The transition a tick performs when it finds the countdown exhausted:
    /// a finished focus interval earns a break, a finished break returns to
    /// focus.
    fn transition_next_state(&mut self, now_seconds: u64) -> (fx: TickEffects)
        requires
            old(self).wf(),
            old(self).state is Focus ==> old(self).completed_pomodoros < u32::MAX,
        ensures
            final(self).wf(),
            old(self).state is Focus ==> *final(self) == old(self).spec_enter_break(now_seconds),
            !(old(self).state is Focus) ==> *final(self) == old(self).spec_to_focus(),
            fx == (TickEffects {
                lock_screen: false,
                show_overlay: old(self).state is Focus,
                hide_overlay: !(old(self).state is Focus),
                notify: true,
            }),
    {
        match self.state {
            TimerState::Focus => {
                self.completed_pomodoros = self.completed_pomodoros + 1;
                self.transition_to_break(now_seconds);
                TickEffects {
                    lock_screen: false,
                    show_overlay: true,
                    hide_overlay: false,
                    notify: true,
                }
            },
            TimerState::ShortBreak | TimerState::LongBreak => {
                self.transition_to_focus();
                TickEffects {
                    lock_screen: false,
                    show_overlay: false,
                    hide_overlay: true,
                    notify: true,
                }
            },
        }
    }

    /// Enter the break the already-updated completed count earns, starting
    /// its bookkeeping at `now_seconds`.
    fn transition_to_break(&mut self, now_seconds: u64)
        ensures
            *final(self) == (TimerEngine {
                state: TimerEngine::spec_break_kind(old(self).completed_pomodoros),
                remaining_seconds: old(self).durations.spec_for_state(
                    TimerEngine::spec_break_kind(old(self).completed_pomodoros),
                ),
                completed_pomodoros: old(self).completed_pomodoros,
                lock_triggered: false,
                is_running: old(self).is_running,
                break_start_time: Some(now_seconds),
                durations: old(self).durations,
            }),
    {
        let next_break = if self.completed_pomodoros % 3 == 0 {
            TimerState::LongBreak
        } else {
            TimerState::ShortBreak
        };
        self.state = next_break;
        self.remaining_seconds = self.durations.for_state(next_break);
        self.lock_triggered = false;
        self.break_start_time = Some(now_seconds);
    }

    /// Return to a fresh focus interval, keeping the completed count and
    /// the running flag.
    fn transition_to_focus(&mut self)
        ensures
            *final(self) == old(self).spec_to_focus(),
    {
        self.state = TimerState::Focus;
        self.remaining_seconds = self.durations.for_state(TimerState::Focus);
        self.lock_triggered = false;
        self.break_start_time = None;
    }

    /// The full reset shared by `reset` and by `start` on an exhausted
    /// countdown.
    fn reset_to_focus(&mut self)
        ensures
            *final(self) == old(self).spec_reset_to_focus(),
    {
        self.state = TimerState::Focus;
        self.remaining_seconds = self.durations.for_state(TimerState::Focus);
        self.completed_pomodoros = 0;
        self.lock_triggered = false;
        self.break_start_time = None;
        self.is_running = false;
    }
}

impl Default for TimerEngine {
    /// A fresh engine with the normal duration profile.
    fn default() -> (e: TimerEngine)
        ensures
            e == TimerEngine::spec_initial(TimerDurations::spec_normal_profile()),
    {
        TimerEngine::new(TimerDurations::from_profile(false))
    }
}

} // verus!
