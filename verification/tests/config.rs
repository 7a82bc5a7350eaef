use timetothink::config::enforcement_mode_enabled;
use timetothink::config::fast_durations_enabled;
use timetothink::types::TimerState;

#[test]
fn fast_durations_accepts_each_affirmative_form() {
    assert!(fast_durations_enabled(b"1"));
    assert!(fast_durations_enabled(b"true"));
    assert!(fast_durations_enabled(b"yes"));
    assert!(fast_durations_enabled(b"on"));
}

#[test]
fn fast_durations_ignores_case_and_whitespace() {
    assert!(fast_durations_enabled(b"TRUE"));
    assert!(fast_durations_enabled(b"  Yes\t"));
    assert!(fast_durations_enabled(b"\n on \r"));
    assert!(fast_durations_enabled(b" 1 "));
}

#[test]
fn fast_durations_is_off_by_default() {
    // An absent variable is handed over as the empty value.
    assert!(!fast_durations_enabled(b""));
    assert!(!fast_durations_enabled(b"   "));
    assert!(!fast_durations_enabled(b"0"));
    assert!(!fast_durations_enabled(b"maybe"));
    assert!(!fast_durations_enabled(b"truthy"));
    assert!(!fast_durations_enabled(b"y"));
}

#[test]
fn enforcement_mode_rejects_each_negative_form() {
    assert!(!enforcement_mode_enabled(b"0"));
    assert!(!enforcement_mode_enabled(b"false"));
    assert!(!enforcement_mode_enabled(b"no"));
    assert!(!enforcement_mode_enabled(b"off"));
    assert!(!enforcement_mode_enabled(b" OFF "));
    assert!(!enforcement_mode_enabled(b"False"));
}

#[test]
fn enforcement_mode_is_on_by_default() {
    // An absent variable is handed over as the default value.
    assert!(enforcement_mode_enabled(b"1"));
    assert!(enforcement_mode_enabled(b""));
    assert!(enforcement_mode_enabled(b"on"));
    assert!(enforcement_mode_enabled(b"anything"));
    assert!(enforcement_mode_enabled(b"n"));
}

#[test]
fn display_names_match_the_phases() {
    assert_eq!(TimerState::Focus.display_name(), "FOCUS");
    assert_eq!(TimerState::ShortBreak.display_name(), "SHORT BREAK");
    assert_eq!(TimerState::LongBreak.display_name(), "LONG BREAK");
    assert!(!TimerState::Focus.is_break());
    assert!(TimerState::ShortBreak.is_break());
    assert!(TimerState::LongBreak.is_break());
    assert_eq!(TimerState::Focus.duration_seconds(), 1500);
    assert_eq!(TimerState::ShortBreak.duration_seconds(), 300);
    assert_eq!(TimerState::LongBreak.duration_seconds(), 1500);
}
