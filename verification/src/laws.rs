//! The general laws of the timer and of the break guard, stated over the
//! specification functions that the executable contracts use.

use vstd::prelude::*;

use crate::engine::LOCK_DELAY_SECONDS;
use crate::engine::TimerEngine;
use crate::guard::spec_break_active;
use crate::guard::spec_guard_action;
use crate::guard::spec_overlay_after;
use crate::types::TimerState;

verus! {

/// The engine after a whole sequence of ticks, one entry of `times` per
/// tick, each entry the wall-clock second at which that tick ran.
pub open spec fn spec_run_ticks(pre: TimerEngine, times: Seq<u64>) -> TimerEngine
    decreases times.len(),
{
    if times.len() == 0 {
        pre
    } else {
        spec_run_ticks(pre.spec_tick_state(times[0]), times.subrange(1, times.len() as int))
    }
}

/// A tick that finds time on the clock only counts down: the phase, the
/// completed count and the running flag stay; the countdown drops by
/// exactly one.
pub proof fn lemma_tick_counts_down(pre: TimerEngine, now_seconds: u64)
    requires
        pre.wf(),
        pre.is_running,
        pre.remaining_seconds > 0,
    ensures
        pre.spec_tick_state(now_seconds).state == pre.state,
        pre.spec_tick_state(now_seconds).remaining_seconds == pre.remaining_seconds - 1,
        pre.spec_tick_state(now_seconds).completed_pomodoros == pre.completed_pomodoros,
        pre.spec_tick_state(now_seconds).is_running,
        pre.spec_tick_state(now_seconds).wf(),
{
}

/// While the engine runs and no command intervenes, the countdown is
/// non-increasing and drops by exactly one per tick: any run of at most
/// `remaining_seconds` ticks leaves the phase alone and subtracts its
/// length from the countdown.
pub proof fn lemma_run_counts_down(pre: TimerEngine, times: Seq<u64>)
    requires
        pre.wf(),
        pre.is_running,
        times.len() <= pre.remaining_seconds,
    ensures
        spec_run_ticks(pre, times).state == pre.state,
        spec_run_ticks(pre, times).remaining_seconds == pre.remaining_seconds - times.len(),
        spec_run_ticks(pre, times).completed_pomodoros == pre.completed_pomodoros,
        spec_run_ticks(pre, times).durations == pre.durations,
        spec_run_ticks(pre, times).is_running,
        spec_run_ticks(pre, times).wf(),
    decreases times.len(),
{
    if times.len() > 0 {
        let step = pre.spec_tick_state(times[0]);
        lemma_tick_counts_down(pre, times[0]);
        lemma_run_counts_down(step, times.subrange(1, times.len() as int));
    }
}

/// Only the tick that finds the countdown already exhausted performs the
/// phase transition; it enters the other kind of phase, with the
/// countdown reset to that phase's full duration.
pub proof fn lemma_exhausted_tick_transitions(pre: TimerEngine, now_seconds: u64)
    requires
        pre.wf(),
        pre.is_running,
        pre.remaining_seconds == 0,
        pre.state is Focus ==> pre.completed_pomodoros < u32::MAX,
    ensures
        pre.spec_tick_state(now_seconds).state.spec_is_break() == !pre.state.spec_is_break(),
        pre.spec_tick_state(now_seconds).remaining_seconds == pre.spec_tick_state(
            now_seconds,
        ).dur_for(pre.spec_tick_state(now_seconds).state),
        pre.spec_tick_state(now_seconds).is_running,
        pre.spec_tick_state(now_seconds).wf(),
{
}

/// Break-kind law: the break entered when the Nth focus interval
/// completes is a long break exactly when N is a multiple of three, and a
/// short break otherwise.
pub proof fn lemma_break_kind(pre: TimerEngine, now_seconds: u64)
    requires
        pre.wf(),
        pre.is_running,
        pre.remaining_seconds == 0,
        pre.state is Focus,
        pre.completed_pomodoros < u32::MAX,
    ensures
        pre.spec_tick_state(now_seconds).completed_pomodoros == pre.completed_pomodoros + 1,
        pre.spec_tick_state(now_seconds).state is LongBreak <==> (pre.completed_pomodoros + 1) % 3
            == 0,
        pre.spec_tick_state(now_seconds).state is ShortBreak <==> (pre.completed_pomodoros + 1) % 3
            != 0,
        pre.spec_tick_state(now_seconds).break_start_time == Some(now_seconds),
        !pre.spec_tick_state(now_seconds).lock_triggered,
{
}

/// The lock fires only during a running break whose grace period has
/// elapsed, only while the one-shot flag is still clear, and firing
/// latches the flag.
pub proof fn lemma_lock_fires_only_when_due(pre: TimerEngine, now_seconds: u64)
    requires
        pre.wf(),
    ensures
        pre.spec_tick_effects(now_seconds).lock_screen ==> {
            &&& pre.is_running
            &&& pre.state.spec_is_break()
            &&& !pre.lock_triggered
            &&& pre.break_start_time matches Some(t) && now_seconds >= t + LOCK_DELAY_SECONDS
            &&& pre.spec_tick_state(now_seconds).lock_triggered
        },
{
}

/// Once the one-shot flag is set, no later tick fires the lock again; the
/// flag only clears by leaving the break.
pub proof fn lemma_lock_never_refires(pre: TimerEngine, now_seconds: u64)
    requires
        pre.wf(),
        pre.lock_triggered,
    ensures
        !pre.spec_tick_effects(now_seconds).lock_screen,
{
}

/// The lock fires at most once per break instance: no two consecutive
/// ticks both fire it, whatever their wall-clock times.
pub proof fn lemma_lock_at_most_once(pre: TimerEngine, first_now: u64, second_now: u64)
    requires
        pre.wf(),
    ensures
        pre.spec_tick_effects(first_now).lock_screen ==> !pre.spec_tick_state(
            first_now,
        ).spec_tick_effects(second_now).lock_screen,
{
}

/// Entering any phase clears the one-shot flag: the flag is false
/// immediately upon entering a break and immediately upon leaving it.
pub proof fn lemma_phase_entry_clears_lock(pre: TimerEngine, now_seconds: u64)
    requires
        pre.wf(),
        pre.is_running,
        pre.remaining_seconds == 0,
        pre.state is Focus ==> pre.completed_pomodoros < u32::MAX,
    ensures
        !pre.spec_tick_state(now_seconds).lock_triggered,
{
}

/// One enforcement fire drives overlay visibility to exactly "a break is
/// active and running": enforcing while a break is active never toggles
/// the overlay off, and any fire outside an active break leaves it
/// hidden.
pub proof fn lemma_guard_drives_visibility(state: TimerState, running: bool, visible: bool)
    ensures
        spec_overlay_after(spec_guard_action(state, running, visible), visible)
            == spec_break_active(state, running),
{
}

/// Enforcement is idempotent: once a fire has run, a second fire under the
/// same engine state leaves the overlay exactly where the first put it.
pub proof fn lemma_guard_idempotent(state: TimerState, running: bool, visible: bool)
    ensures
        spec_overlay_after(
            spec_guard_action(
                state,
                running,
                spec_overlay_after(spec_guard_action(state, running, visible), visible),
            ),
            spec_overlay_after(spec_guard_action(state, running, visible), visible),
        ) == spec_overlay_after(spec_guard_action(state, running, visible), visible),
{
}

} // verus!
