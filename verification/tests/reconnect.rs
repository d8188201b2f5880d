use std::cell::{Cell, RefCell};
use stream_agent::app_state::{ProcessHandle, ProcessStatus, ReconnectPolicy, ReconnectStats};
use stream_agent::reconnect::{
    attempt_failed, attempt_succeeded, begin_cycle, monitor_and_reconnect, reconnect_with_backoff,
    ReconnectError, RetryDecision,
};

fn clock() -> i64 {
    1_700_000_000_000
}

fn quick_policy(max_retries: u32) -> ReconnectPolicy {
    ReconnectPolicy {
        enabled: true,
        max_retries,
        retry_delay_ms: 10,
        backoff_multiplier_milli: 1500,
        max_delay_ms: 1000,
        reset_counter_after_ms: 10000,
    }
}

#[test]
fn test_reconnect_success_on_first_try() {
    let policy = ReconnectPolicy::default();
    let mut stats = ReconnectStats::default();

    let result: Result<i32, ReconnectError<String>> =
        reconnect_with_backoff("test", &policy, &mut stats, || Ok(42), |_delay: u64| {}, clock);

    assert!(result.is_ok());
    assert_eq!(result.unwrap(), 42);
    assert_eq!(stats.consecutive_failures, 0);
}

#[test]
fn test_reconnect_max_retries() {
    let policy = ReconnectPolicy {
        enabled: true,
        max_retries: 3,
        retry_delay_ms: 10,
        backoff_multiplier_milli: 1500,
        max_delay_ms: 1000,
        reset_counter_after_ms: 10000,
    };
    let mut stats = ReconnectStats::default();

    let result: Result<i32, ReconnectError<String>> = reconnect_with_backoff(
        "test",
        &policy,
        &mut stats,
        || Err("Always fails".to_string()),
        |_delay: u64| {},
        clock,
    );

    assert!(result.is_err());
    assert_eq!(stats.restarts, 3);
}

#[test]
fn success_on_first_try_calls_once_and_records_no_failure() {
    let policy = ReconnectPolicy::default();
    let mut stats = ReconnectStats::default();
    let calls = Cell::new(0u32);
    let waits = Cell::new(0u32);
    let result: Result<u8, ReconnectError<String>> = reconnect_with_backoff(
        "w",
        &policy,
        &mut stats,
        || {
            calls.set(calls.get() + 1);
            Ok(7)
        },
        |_delay: u64| waits.set(waits.get() + 1),
        clock,
    );
    assert_eq!(result, Ok(7));
    assert_eq!(calls.get(), 1);
    assert_eq!(waits.get(), 0);
    assert_eq!(stats.restarts, 0);
    assert_eq!(stats.last_restart, None);
    assert_eq!(stats.last_stable_time, Some(1_700_000_000_000));
}

#[test]
fn exhaustion_carries_name_count_and_last_failure() {
    let policy = quick_policy(3);
    let mut stats = ReconnectStats::default();
    let calls = Cell::new(0u32);
    let delays = RefCell::new(Vec::new());
    let result: Result<u8, ReconnectError<String>> = reconnect_with_backoff(
        "relay",
        &policy,
        &mut stats,
        || {
            calls.set(calls.get() + 1);
            Err(format!("failure {}", calls.get()))
        },
        |delay: u64| delays.borrow_mut().push(delay),
        clock,
    );
    assert_eq!(
        result,
        Err(ReconnectError::Exhausted {
            name: "relay".to_string(),
            attempts: 3,
            last_error: "failure 3".to_string(),
        })
    );
    assert_eq!(calls.get(), 3);
    assert_eq!(*delays.borrow(), vec![10, 15]);
    assert_eq!(stats.restarts, 3);
    assert_eq!(stats.consecutive_failures, 3);
    assert_eq!(stats.last_restart, Some(1_700_000_000_000));
    assert_eq!(stats.last_stable_time, None);
}

#[test]
fn success_after_failures_resets_the_run_but_not_the_count() {
    let policy = quick_policy(5);
    let mut stats = ReconnectStats::default();
    let calls = Cell::new(0u32);
    let delays = RefCell::new(Vec::new());
    let result: Result<u32, ReconnectError<String>> = reconnect_with_backoff(
        "w",
        &policy,
        &mut stats,
        || {
            calls.set(calls.get() + 1);
            if calls.get() < 4 {
                Err("not yet".to_string())
            } else {
                Ok(calls.get())
            }
        },
        |delay: u64| delays.borrow_mut().push(delay),
        clock,
    );
    assert_eq!(result, Ok(4));
    assert_eq!(*delays.borrow(), vec![10, 15, 22]);
    assert_eq!(stats.restarts, 3);
    assert_eq!(stats.consecutive_failures, 0);
    assert!(stats.last_stable_time.is_some());
}

#[test]
fn disabled_policy_runs_once_and_keeps_the_statistics() {
    let mut policy = quick_policy(3);
    policy.enabled = false;
    let before = ReconnectStats {
        restarts: 4,
        last_restart: Some(11),
        last_stable_time: Some(5),
        consecutive_failures: 2,
        total_uptime_secs: 9,
    };
    let mut stats = before;
    let calls = Cell::new(0u32);
    let failed: Result<u8, ReconnectError<String>> = reconnect_with_backoff(
        "w",
        &policy,
        &mut stats,
        || {
            calls.set(calls.get() + 1);
            Err("no".to_string())
        },
        |_delay: u64| {},
        clock,
    );
    assert_eq!(failed, Err(ReconnectError::Operation("no".to_string())));
    assert_eq!(calls.get(), 1);
    assert_eq!(stats, before);
    let passed: Result<u8, ReconnectError<String>> =
        reconnect_with_backoff("w", &policy, &mut stats, || Ok(1), |_delay: u64| {}, clock);
    assert_eq!(passed, Ok(1));
    assert_eq!(stats, before);
}

#[test]
fn zero_retries_give_up_after_one_failure() {
    let policy = quick_policy(0);
    let mut stats = ReconnectStats::default();
    let result: Result<u8, ReconnectError<String>> = reconnect_with_backoff(
        "w",
        &policy,
        &mut stats,
        || Err("no".to_string()),
        |_delay: u64| {},
        clock,
    );
    assert_eq!(
        result,
        Err(ReconnectError::Exhausted {
            name: "w".to_string(),
            attempts: 1,
            last_error: "no".to_string()
        })
    );
    assert_eq!(stats.restarts, 1);
}

#[test]
fn should_reset_counter_follows_the_stability_window() {
    let policy = quick_policy(3);
    let mut stats = ReconnectStats::default();
    assert!(!stats.should_reset_counter(&policy, 1_000_000));
    stats.record_success(50_000);
    assert!(!stats.should_reset_counter(&policy, 59_999));
    assert!(stats.should_reset_counter(&policy, 60_000));
    assert!(stats.should_reset_counter(&policy, 60_001));
    assert!(!stats.should_reset_counter(&policy, 40_000));
    assert!(!stats.should_reset_counter(&policy, i64::MIN));
    stats.last_stable_time = Some(i64::MIN);
    assert!(stats.should_reset_counter(&policy, i64::MAX));
    let mut never = quick_policy(3);
    never.reset_counter_after_ms = u64::MAX;
    assert!(stats.should_reset_counter(&never, i64::MAX));
    assert!(!stats.should_reset_counter(&never, i64::MAX - 1));
}

#[test]
fn statistics_record_failures_and_successes() {
    let mut stats = ReconnectStats::default();
    assert_eq!(
        stats,
        ReconnectStats {
            restarts: 0,
            last_restart: None,
            last_stable_time: None,
            consecutive_failures: 0,
            total_uptime_secs: 0
        }
    );
    stats.record_restart(100);
    stats.record_restart(200);
    assert_eq!(stats.restarts, 2);
    assert_eq!(stats.consecutive_failures, 2);
    assert_eq!(stats.last_restart, Some(200));
    stats.record_success(300);
    assert_eq!(stats.restarts, 2);
    assert_eq!(stats.consecutive_failures, 0);
    assert_eq!(stats.last_stable_time, Some(300));
    stats.restarts = u32::MAX;
    stats.record_restart(400);
    assert_eq!(stats.restarts, u32::MAX);
    assert_eq!(stats.consecutive_failures, 1);
}

#[test]
fn cycle_forgives_failures_after_a_stable_period() {
    let policy = quick_policy(3);
    let mut stats = ReconnectStats {
        restarts: 7,
        last_restart: Some(10),
        last_stable_time: Some(1000),
        consecutive_failures: 4,
        total_uptime_secs: 0,
    };
    begin_cycle(&policy, &mut stats, 10_999);
    assert_eq!(stats.consecutive_failures, 4);
    begin_cycle(&policy, &mut stats, 11_000);
    assert_eq!(stats.consecutive_failures, 0);
    assert_eq!(stats.restarts, 7);
    let mut disabled = policy;
    disabled.enabled = false;
    stats.consecutive_failures = 2;
    begin_cycle(&disabled, &mut stats, 1_000_000);
    assert_eq!(stats.consecutive_failures, 2);
}

#[test]
fn steps_decide_between_retry_and_giving_up() {
    let policy = quick_policy(3);
    let mut stats = ReconnectStats::default();
    assert_eq!(
        attempt_failed(&policy, &mut stats, 0, 5),
        RetryDecision::RetryAfter { delay_ms: 10 }
    );
    assert_eq!(
        attempt_failed(&policy, &mut stats, 1, 6),
        RetryDecision::RetryAfter { delay_ms: 15 }
    );
    assert_eq!(attempt_failed(&policy, &mut stats, 2, 7), RetryDecision::GiveUp { attempts: 3 });
    assert_eq!(stats.restarts, 3);
    assert_eq!(stats.last_restart, Some(7));
    assert_eq!(
        attempt_failed(&policy, &mut stats, u32::MAX, 8),
        RetryDecision::GiveUp { attempts: u32::MAX }
    );
    attempt_succeeded(&policy, &mut stats, 9);
    assert_eq!(stats.consecutive_failures, 0);
    assert_eq!(stats.last_stable_time, Some(9));
    let mut disabled = policy;
    disabled.enabled = false;
    let before = stats;
    assert_eq!(attempt_failed(&disabled, &mut stats, 0, 10), RetryDecision::PassThrough);
    attempt_succeeded(&disabled, &mut stats, 11);
    assert_eq!(stats, before);
}

#[test]
fn monitor_tracks_the_status() {
    let policy = quick_policy(2);
    let mut stats = ReconnectStats::default();
    let mut status = ProcessStatus::Stopped;
    let result: Result<ProcessHandle, ReconnectError<String>> = monitor_and_reconnect(
        "relay".to_string(),
        policy,
        &mut stats,
        &mut status,
        || Err("no".to_string()),
        |_delay: u64| {},
        clock,
    );
    assert_eq!(
        result,
        Err(ReconnectError::Exhausted {
            name: "relay".to_string(),
            attempts: 2,
            last_error: "no".to_string()
        })
    );
    assert_eq!(status, ProcessStatus::Failed);
    assert_eq!(stats.restarts, 2);

    let calls = Cell::new(0u32);
    let result: Result<ProcessHandle, ReconnectError<String>> = monitor_and_reconnect(
        "relay".to_string(),
        policy,
        &mut stats,
        &mut status,
        || {
            calls.set(calls.get() + 1);
            if calls.get() == 1 {
                Err("no".to_string())
            } else {
                Ok(ProcessHandle::new("relay".to_string(), 77, 1234))
            }
        },
        |_delay: u64| {},
        clock,
    );
    let handle = result.unwrap();
    assert_eq!(handle.pid, Some(77));
    assert_eq!(handle.child, Some(77));
    assert_eq!(status, ProcessStatus::Running);
    assert_eq!(stats.restarts, 3);
    assert_eq!(stats.consecutive_failures, 0);

    let mut disabled = policy;
    disabled.enabled = false;
    status = ProcessStatus::Stopped;
    let before = stats;
    let result: Result<ProcessHandle, ReconnectError<String>> = monitor_and_reconnect(
        "relay".to_string(),
        disabled,
        &mut stats,
        &mut status,
        || Err("no".to_string()),
        |_delay: u64| {},
        clock,
    );
    assert_eq!(result, Err(ReconnectError::Operation("no".to_string())));
    assert_eq!(status, ProcessStatus::Stopped);
    assert_eq!(stats, before);
}

#[test]
fn each_outcome_is_recorded_at_the_time_the_clock_gives() {
    let policy = quick_policy(5);
    let mut stats = ReconnectStats::default();
    let calls = Cell::new(0u32);
    let ticks = Cell::new(0i64);
    let result: Result<u32, ReconnectError<String>> = reconnect_with_backoff(
        "w",
        &policy,
        &mut stats,
        || {
            calls.set(calls.get() + 1);
            if calls.get() < 3 {
                Err("not yet".to_string())
            } else {
                Ok(calls.get())
            }
        },
        |_delay: u64| {},
        || {
            ticks.set(ticks.get() + 10);
            ticks.get()
        },
    );
    assert_eq!(result, Ok(3));
    // One reading opens the cycle, one follows each of the three attempts.
    assert_eq!(ticks.get(), 40);
    assert_eq!(stats.last_restart, Some(30));
    assert_eq!(stats.last_stable_time, Some(40));
    assert_eq!(stats.restarts, 2);
}
