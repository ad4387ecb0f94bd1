//! Behavior of the retrying writer: bounded attempts, strictly increasing
//! sleeps, and single idempotent clamping.

use monitor_brightness::retry::{
    backoff_delay_ms, clamp_level, RetryAction, RetryPolicy, RetryState, DEFAULT_MAX_ATTEMPTS,
};

#[test]
fn always_failing_write_gets_exactly_the_configured_attempts() {
    let policy = RetryPolicy::standard();
    let mut state = RetryState::new();
    let mut attempts = 0usize;
    let mut sleeps: Vec<u64> = Vec::new();
    loop {
        attempts += 1;
        match state.on_attempt(&policy, false) {
            RetryAction::Done => panic!("a failing write must not report success"),
            RetryAction::Retry { delay_ms } => sleeps.push(delay_ms),
            RetryAction::GiveUp => break,
        }
    }
    assert_eq!(attempts, DEFAULT_MAX_ATTEMPTS);
    assert_eq!(sleeps, vec![10, 20, 40, 80]);
    for pair in sleeps.windows(2) {
        assert!(pair[0] < pair[1], "sleeps must strictly increase");
    }
}

#[test]
fn success_on_first_attempt_is_done_immediately() {
    let policy = RetryPolicy::standard();
    let mut state = RetryState::new();
    assert_eq!(state.on_attempt(&policy, true), RetryAction::Done);
}

#[test]
fn success_after_failures_stops_retrying() {
    let policy = RetryPolicy::standard();
    let mut state = RetryState::new();
    assert_eq!(state.on_attempt(&policy, false), RetryAction::Retry { delay_ms: 10 });
    assert_eq!(state.on_attempt(&policy, false), RetryAction::Retry { delay_ms: 20 });
    assert_eq!(state.on_attempt(&policy, true), RetryAction::Done);
}

#[test]
fn single_attempt_policy_gives_up_at_once() {
    let policy = RetryPolicy { max_attempts: 1 };
    let mut state = RetryState::new();
    assert_eq!(state.on_attempt(&policy, false), RetryAction::GiveUp);
}

#[test]
fn backoff_schedule_doubles_from_ten_milliseconds() {
    assert_eq!(backoff_delay_ms(0), 10);
    assert_eq!(backoff_delay_ms(1), 20);
    assert_eq!(backoff_delay_ms(2), 40);
    assert_eq!(backoff_delay_ms(7), 1280);
}

#[test]
fn out_of_range_level_is_written_clamped() {
    assert_eq!(clamp_level(150, 0, 100), 100);
    assert_eq!(clamp_level(150, 20, 80), 80);
    assert_eq!(clamp_level(5, 20, 80), 20);
}

#[test]
fn clamping_is_idempotent() {
    let once = clamp_level(150, 20, 80);
    assert_eq!(clamp_level(once, 20, 80), once);
    let low = clamp_level(0, 20, 80);
    assert_eq!(clamp_level(low, 20, 80), low);
    // a value already in range never moves
    assert_eq!(clamp_level(42, 20, 80), 42);
}

#[test]
fn extreme_levels_clamp_to_the_range() {
    assert_eq!(clamp_level(u32::MAX, 0, 100), 100);
    assert_eq!(clamp_level(0, 1, u32::MAX), 1);
    assert_eq!(clamp_level(u32::MAX, 0, u32::MAX), u32::MAX);
}

#[test]
fn degenerate_range_pins_the_level() {
    assert_eq!(clamp_level(0, 30, 30), 30);
    assert_eq!(clamp_level(100, 30, 30), 30);
}
