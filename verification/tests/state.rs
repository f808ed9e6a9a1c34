use sloggers::syslog::model::{HOUR_NANOS, RETRY_NANOS};
use sloggers::syslog::retry::RetryState;

#[test]
fn retry_interval_is_fifty_milliseconds() {
    assert_eq!(RETRY_NANOS, 50_000_000);
    assert_eq!(HOUR_NANOS, 3_600_000_000_000);
}

#[test]
fn state_is_made_from_its_parts() {
    let state = RetryState::new(Some("sink"), 3, -17);
    assert!(state.is_connected());
    assert_eq!(state.dropped_logs(), 3);
    assert_eq!(state.last_try_time(), -17);

    let state: RetryState<&str> = RetryState::new(None, 0, 5);
    assert!(!state.is_connected());
    assert_eq!(state.dropped_logs(), 0);
    assert_eq!(state.last_try_time(), 5);
}

#[test]
fn incr_dropped_logs_counts_one() {
    let mut state: RetryState<()> = RetryState::new(None, 0, 0);
    state.incr_dropped_logs();
    assert_eq!(state.dropped_logs(), 1);
    state.incr_dropped_logs();
    assert_eq!(state.dropped_logs(), 2);
    assert_eq!(state.last_try_time(), 0);
    assert!(!state.is_connected());
}

#[test]
fn incr_dropped_logs_stops_at_the_largest_count() {
    let mut state = RetryState::new(Some(()), usize::MAX - 1, 0);
    state.incr_dropped_logs();
    assert_eq!(state.dropped_logs(), usize::MAX);
    state.incr_dropped_logs();
    assert_eq!(state.dropped_logs(), usize::MAX);
    assert!(state.is_connected());
}

#[test]
fn should_try_again_waits_for_the_interval() {
    let mut state: RetryState<()> = RetryState::new(None, 4, 1_000);
    assert!(!state.should_try_again(1_000));
    assert!(!state.should_try_again(50_000_999));
    assert_eq!(state.last_try_time(), 1_000);
    assert!(state.should_try_again(50_001_000));
    assert_eq!(state.last_try_time(), 50_001_000);
    // The interval has started anew.
    assert!(!state.should_try_again(50_001_001));
    assert!(!state.should_try_again(100_000_999));
    assert!(state.should_try_again(100_001_000));
    assert_eq!(state.last_try_time(), 100_001_000);
    assert_eq!(state.dropped_logs(), 4);
    assert!(!state.is_connected());
}

#[test]
fn should_try_again_takes_earlier_readings_as_too_early() {
    let mut state: RetryState<()> = RetryState::new(None, 0, 1_000);
    assert!(!state.should_try_again(999));
    assert!(!state.should_try_again(-50_000_000));
    assert!(!state.should_try_again(i128::MIN));
    assert_eq!(state.last_try_time(), 1_000);
}

#[test]
fn should_try_again_works_at_the_ends_of_the_range() {
    // No reading is an interval later than the largest timestamp.
    let mut state: RetryState<()> = RetryState::new(None, 0, i128::MAX);
    assert!(!state.should_try_again(i128::MAX));
    let mut state: RetryState<()> = RetryState::new(None, 0, i128::MAX - 49_999_999);
    assert!(!state.should_try_again(i128::MAX));
    let mut state: RetryState<()> = RetryState::new(None, 0, i128::MAX - 50_000_000);
    assert!(state.should_try_again(i128::MAX));
    assert_eq!(state.last_try_time(), i128::MAX);

    let mut state: RetryState<()> = RetryState::new(None, 0, i128::MIN);
    assert!(!state.should_try_again(i128::MIN + 49_999_999));
    assert!(state.should_try_again(i128::MIN + 50_000_000));
    let mut state: RetryState<()> = RetryState::new(None, 0, i128::MIN);
    assert!(state.should_try_again(i128::MAX));
}

#[test]
fn sink_answered_keeps_a_sink_that_took_the_record() {
    let mut state = RetryState::new(Some("sink"), 2, 9);
    assert!(state.sink_answered(true));
    assert!(state.is_connected());
    assert_eq!(state.dropped_logs(), 2);
    assert_eq!(state.last_try_time(), 9);
}

#[test]
fn sink_answered_throws_away_a_sink_that_refused() {
    let mut state = RetryState::new(Some("sink"), 2, 9);
    assert!(!state.sink_answered(false));
    assert!(!state.is_connected());
    // The drop is counted later, once it is known whether a retry is due.
    assert_eq!(state.dropped_logs(), 2);
    assert_eq!(state.last_try_time(), 9);
}

#[test]
fn sink_answered_delivers_nothing_without_a_sink() {
    let mut state: RetryState<&str> = RetryState::new(None, 2, 9);
    assert!(!state.sink_answered(true));
    assert!(!state.sink_answered(false));
    assert!(!state.is_connected());
    assert_eq!(state.dropped_logs(), 2);
}

#[test]
fn factory_answered_counts_a_failure() {
    let mut state: RetryState<&str> = RetryState::new(None, 2, 9);
    let attempt: Result<&str, u8> = Err(1);
    assert!(state.factory_answered(attempt).is_none());
    assert_eq!(state.dropped_logs(), 3);
    assert!(!state.is_connected());
    assert_eq!(state.last_try_time(), 9);
}

#[test]
fn factory_answered_hands_on_the_sink_and_the_accounting_record() {
    let mut state: RetryState<&str> = RetryState::new(None, 12, 9);
    let attempt: Result<&str, u8> = Ok("fresh");
    let (drain, first) = state.factory_answered(attempt).unwrap();
    assert_eq!(drain, "fresh");
    let first = first.unwrap();
    assert_eq!(first.count, 12);
    assert_eq!(first.message, "disconnected from log service; 12 messages dropped");
    assert_eq!(first.tag, "sloggers::syslog");
    assert_eq!(first.level, slog::Level::Error);
    // Nothing changes until the new sink has answered.
    assert_eq!(state.dropped_logs(), 12);
    assert!(!state.is_connected());
    assert_eq!(state.last_try_time(), 9);
}

#[test]
fn factory_answered_asks_for_no_accounting_where_nothing_was_dropped() {
    let mut state: RetryState<&str> = RetryState::new(None, 0, 9);
    let attempt: Result<&str, u8> = Ok("fresh");
    let (drain, first) = state.factory_answered(attempt).unwrap();
    assert_eq!(drain, "fresh");
    assert!(first.is_none());
    assert_eq!(state.dropped_logs(), 0);
}

#[test]
fn accounting_answered_resets_the_count_only_where_it_was_taken() {
    let mut state: RetryState<&str> = RetryState::new(None, 12, 9);
    assert!(!state.accounting_answered(false));
    assert_eq!(state.dropped_logs(), 13);
    assert!(state.accounting_answered(true));
    assert_eq!(state.dropped_logs(), 0);
    assert!(!state.is_connected());
    assert_eq!(state.last_try_time(), 9);

    let mut state: RetryState<&str> = RetryState::new(None, usize::MAX, 9);
    assert!(!state.accounting_answered(false));
    assert_eq!(state.dropped_logs(), usize::MAX);
}

#[test]
fn record_answered_keeps_a_sink_that_took_the_record() {
    let mut state: RetryState<&str> = RetryState::new(None, 0, 9);
    assert!(state.record_answered("fresh", true));
    assert!(state.is_connected());
    assert_eq!(state.dropped_logs(), 0);
    assert_eq!(state.last_try_time(), 9);
}

#[test]
fn record_answered_throws_away_a_sink_that_refused() {
    let mut state: RetryState<&str> = RetryState::new(None, 0, 9);
    assert!(!state.record_answered("fresh", false));
    assert!(!state.is_connected());
    assert_eq!(state.dropped_logs(), 1);
    assert_eq!(state.last_try_time(), 9);
}
