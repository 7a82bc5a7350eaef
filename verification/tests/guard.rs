use timetothink::guard::guard_action;
use timetothink::guard::main_window_should_hide;
use timetothink::guard::should_block_exit;
use timetothink::guard::GuardAction;
use timetothink::types::TimerState;
use timetothink::types::TimerUpdate;

fn snapshot(state: TimerState, is_running: bool) -> TimerUpdate {
    TimerUpdate { state, remaining_seconds: 5, completed_pomodoros: 1, is_running }
}

#[test]
fn guard_enforces_during_running_breaks() {
    for visible in [false, true] {
        assert_eq!(guard_action(TimerState::ShortBreak, true, visible), GuardAction::Enforce);
        assert_eq!(guard_action(TimerState::LongBreak, true, visible), GuardAction::Enforce);
    }
}

#[test]
fn guard_hides_a_lingering_overlay() {
    assert_eq!(guard_action(TimerState::Focus, true, true), GuardAction::Hide);
    assert_eq!(guard_action(TimerState::Focus, false, true), GuardAction::Hide);
    assert_eq!(guard_action(TimerState::ShortBreak, false, true), GuardAction::Hide);
    assert_eq!(guard_action(TimerState::LongBreak, false, true), GuardAction::Hide);
}

#[test]
fn guard_idles_when_nothing_shows() {
    assert_eq!(guard_action(TimerState::Focus, true, false), GuardAction::Idle);
    assert_eq!(guard_action(TimerState::Focus, false, false), GuardAction::Idle);
    assert_eq!(guard_action(TimerState::ShortBreak, false, false), GuardAction::Idle);
}

#[test]
fn repeated_enforcement_never_drops_the_overlay() {
    // Visibility after a fire is exactly "break active and running", so
    // firing again from that visibility changes nothing.
    let mut visible = false;
    for _ in 0..5 {
        let action = guard_action(TimerState::LongBreak, true, visible);
        assert_eq!(action, GuardAction::Enforce);
        visible = match action {
            GuardAction::Enforce => true,
            GuardAction::Hide => false,
            GuardAction::Idle => visible,
        };
        assert!(visible);
    }
}

#[test]
fn exit_is_blocked_only_under_enforcement() {
    // Enforcement off: never blocked, even mid-break or with the lock busy.
    assert!(!should_block_exit(false, Some(snapshot(TimerState::ShortBreak, true))));
    assert!(!should_block_exit(false, None));
    // Enforcement on: blocked during a running break.
    assert!(should_block_exit(true, Some(snapshot(TimerState::ShortBreak, true))));
    assert!(should_block_exit(true, Some(snapshot(TimerState::LongBreak, true))));
    // A paused break or a focus phase lets the process exit.
    assert!(!should_block_exit(true, Some(snapshot(TimerState::ShortBreak, false))));
    assert!(!should_block_exit(true, Some(snapshot(TimerState::Focus, true))));
    // A busy lock is treated conservatively as "must block".
    assert!(should_block_exit(true, None));
}

#[test]
fn tray_click_toggles_the_main_window() {
    assert!(main_window_should_hide(true, true));
    assert!(!main_window_should_hide(true, false));
    assert!(!main_window_should_hide(false, true));
    assert!(!main_window_should_hide(false, false));
}
