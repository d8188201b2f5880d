//! The retry engine: it counts failures, decides between another attempt and
//! giving up, and says how long to wait in between. What an attempt does is
//! the caller's business.
//!
//! The engine comes in two forms. The step functions take one outcome at a
//! time and leave the waiting to the caller. The drivers run the whole cycle
//! over an operation and a wait that the caller hands in.

use vstd::prelude::*;
use crate::app_state::{bump, ProcessHandle, ProcessStatus, ReconnectPolicy, ReconnectStats};
use crate::backoff::{backoff_delay, calculate_backoff_delay};

verus! {

/// What follows a failed attempt.
#[derive(Debug, Clone, Copy, PartialEq, Eq)]
pub enum RetryDecision {
    /// Retrying is switched off: the failure goes to the caller as it is.
    PassThrough,
    /// Wait this long, then try again.
    RetryAfter { delay_ms: u64 },
    /// The retries are used up after this many failed attempts.
    GiveUp { attempts: u32 },
}

/// Why a retry cycle ended without a result.
#[derive(Debug, PartialEq, Eq)]
pub enum ReconnectError<E> {
    /// Retrying is switched off and the one attempt failed.
    Operation(E),
    /// Every attempt failed; `last_error` is what the last one reported.
    Exhausted { name: String, attempts: u32, last_error: E },
}

/// The number of failed attempts after which an enabled policy gives up:
/// `max_retries`, and one where that is zero.
pub open spec fn attempt_limit(policy: ReconnectPolicy) -> int {
    if policy.max_retries == 0 {
        1
    } else {
        policy.max_retries as int
    }
}

/// The wait in milliseconds after failure number `attempt` of a cycle.
pub open spec fn retry_delay(policy: ReconnectPolicy, attempt: int) -> u64 {
    backoff_delay(policy, attempt as nat) as u64
}

/// Whether `wait` can be called with every delay that a cycle under
/// `policy` may ask for: the delays after the failures that are followed by
/// another attempt.
pub open spec fn accepts_delays<W: Fn(u64)>(wait: W, policy: ReconnectPolicy) -> bool {
    forall|attempt: int|
        1 <= attempt < attempt_limit(policy) ==> wait.requires(
            (#[trigger] retry_delay(policy, attempt),),
        )
}

/// Whether `time` is a reading of `clock`.
pub open spec fn told_by<C: Fn() -> i64>(clock: C, time: Option<i64>) -> bool {
    time matches Some(at) && clock.ensures((), at)
}

/// What follows a failure that comes after `attempts_before` earlier ones.
pub open spec fn failure_decision(policy: ReconnectPolicy, attempts_before: u32) -> RetryDecision {
    if !policy.enabled {
        RetryDecision::PassThrough
    } else if bump(attempts_before) >= policy.max_retries {
        RetryDecision::GiveUp { attempts: bump(attempts_before) }
    } else {
        RetryDecision::RetryAfter { delay_ms: retry_delay(policy, bump(attempts_before) as int) }
    }
}

/// The statistics with which a cycle starts at `now`: a run of failures is
/// forgiven where the policy retries and the worker has been stable for the
/// whole stability window.
pub open spec fn cycle_start(policy: ReconnectPolicy, stats: ReconnectStats, now: i64)
    -> ReconnectStats {
    if policy.enabled && stats.reset_due(policy, now) {
        stats.with_counter_reset()
    } else {
        stats
    }
}

/// The statistics after a failure seen at `now`. A policy that does not
/// retry keeps no count.
pub open spec fn stats_after_failure(policy: ReconnectPolicy, stats: ReconnectStats, now: i64)
    -> ReconnectStats {
    if policy.enabled {
        stats.with_restart(now)
    } else {
        stats
    }
}

/// The statistics after a success seen at `now`. A policy that does not
/// retry keeps no count.
pub open spec fn stats_after_success(policy: ReconnectPolicy, stats: ReconnectStats, now: i64)
    -> ReconnectStats {
    if policy.enabled {
        stats.with_success(now)
    } else {
        stats
    }
}

/// The status of a worker after a failed attempt with this decision.
pub open spec fn status_after_failure(status: ProcessStatus, decision: RetryDecision)
    -> ProcessStatus {
    match decision {
        RetryDecision::PassThrough => status,
        RetryDecision::RetryAfter { .. } => ProcessStatus::Reconnecting,
        RetryDecision::GiveUp { .. } => ProcessStatus::Failed,
    }
}

/// Opens a retry cycle at `now`.
pub fn begin_cycle(policy: &ReconnectPolicy, stats: &mut ReconnectStats, now: i64)
    ensures
        *final(stats) == cycle_start(*policy, *old(stats), now),
{
    if policy.enabled && stats.should_reset_counter(policy, now) {
        stats.consecutive_failures = 0;
    }
}

/// Takes note of a failed attempt seen at `now`, the one after
/// `attempts_before` earlier failures of this cycle, and says what follows.
pub fn attempt_failed(
    policy: &ReconnectPolicy,
    stats: &mut ReconnectStats,
    attempts_before: u32,
    now: i64,
) -> (decision: RetryDecision)
    requires
        policy.valid(),
    ensures
        *final(stats) == stats_after_failure(*policy, *old(stats), now),
        decision == failure_decision(*policy, attempts_before),
{
    if !policy.enabled {
        return RetryDecision::PassThrough;
    }
    stats.record_restart(now);
    let attempts = attempts_before.saturating_add(1);
    if attempts >= policy.max_retries {
        RetryDecision::GiveUp { attempts }
    } else {
        RetryDecision::RetryAfter { delay_ms: calculate_backoff_delay(attempts, policy) }
    }
}

/// Takes note of a successful attempt seen at `now`.
pub fn attempt_succeeded(policy: &ReconnectPolicy, stats: &mut ReconnectStats, now: i64)
    ensures
        *final(stats) == stats_after_success(*policy, *old(stats), now),
{
    if policy.enabled {
        stats.record_success(now);
    }
}

/// `n + k`, or `u32::MAX` where that does not fit.
pub open spec fn add_capped(n: u32, k: int) -> int {
    if n + k <= u32::MAX {
        n + k
    } else {
        u32::MAX as int
    }
}

/// `after` is `before` with `k` more failures recorded, at whatever times.
pub open spec fn failures_recorded(before: ReconnectStats, after: ReconnectStats, k: int) -> bool {
    &&& k >= 0
    &&& after.restarts == add_capped(before.restarts, k)
    &&& after.consecutive_failures == add_capped(before.consecutive_failures, k)
    &&& after.last_stable_time == before.last_stable_time
    &&& after.total_uptime_secs == before.total_uptime_secs
    &&& (k == 0 ==> after.last_restart == before.last_restart)
    &&& (k > 0 ==> after.last_restart is Some)
}

/// `after` is `before` with `k` failures and then a success recorded, at
/// whatever times.
pub open spec fn success_recorded(before: ReconnectStats, after: ReconnectStats, k: int) -> bool {
    &&& k >= 0
    &&& after.restarts == add_capped(before.restarts, k)
    &&& after.consecutive_failures == 0
    &&& after.last_stable_time is Some
    &&& after.total_uptime_secs == before.total_uptime_secs
    &&& (k == 0 ==> after.last_restart == before.last_restart)
    &&& (k > 0 ==> after.last_restart is Some)
}

/// `start` is `stats` as a cycle may find it: unchanged, or with the run of
/// failures forgiven, which takes an earlier success.
pub open spec fn cycle_opened(stats: ReconnectStats, start: ReconnectStats) -> bool {
    ||| start == stats
    ||| (stats.last_stable_time is Some && start == stats.with_counter_reset())
}

/// How a cycle under an enabled policy relates the statistics and status
/// before it to those after it, given what came out.
pub open spec fn cycle_outcome<T, E>(
    policy: ReconnectPolicy,
    start: ReconnectStats,
    end: ReconnectStats,
    end_status: ProcessStatus,
    result: Result<T, (u32, E)>,
) -> bool {
    match result {
        Ok(_) => {
            &&& end_status == ProcessStatus::Running
            &&& exists|k: int| 0 <= k < attempt_limit(policy) && success_recorded(start, end, k)
        },
        Err((attempts, _)) => {
            &&& end_status == ProcessStatus::Failed
            &&& attempts == attempt_limit(policy)
            &&& failures_recorded(start, end, attempts as int)
        },
    }
}

/// Runs one cycle under an enabled policy: attempts until one succeeds or
/// the retries are used up, waiting between attempts. Each outcome is
/// recorded at the time that `clock` gives after the attempt.
pub(crate) fn run_cycle<T, E, F: Fn() -> Result<T, E>, W: Fn(u64), C: Fn() -> i64>(
    policy: &ReconnectPolicy,
    stats: &mut ReconnectStats,
    status: &mut ProcessStatus,
    attempt: F,
    wait: W,
    clock: C,
) -> (result: Result<T, (u32, E)>)
    requires
        policy.valid(),
        policy.enabled,
        attempt.requires(()),
        accepts_delays(wait, *policy),
        clock.requires(()),
    ensures
        cycle_outcome(*policy, *old(stats), *final(stats), *final(status), result),
        result is Ok ==> told_by(clock, final(stats).last_stable_time),
        final(stats).last_restart != old(stats).last_restart ==> told_by(
            clock,
            final(stats).last_restart,
        ),
        result matches Ok(v) ==> attempt.ensures((), Ok(v)),
        result matches Err((_, e)) ==> attempt.ensures((), Err(e)),
        (forall|x: Result<T, E>| attempt.ensures((), x) ==> x is Ok) ==> result is Ok
            && success_recorded(*old(stats), *final(stats), 0),
        (forall|x: Result<T, E>| attempt.ensures((), x) ==> x is Err) ==> result is Err,
{
    let mut attempts: u32 = 0;
    loop
        invariant
            policy.valid(),
            policy.enabled,
            attempt.requires(()),
            accepts_delays(wait, *policy),
            clock.requires(()),
            stats.last_restart != old(stats).last_restart ==> told_by(clock, stats.last_restart),
            attempts < attempt_limit(*policy),
            failures_recorded(*old(stats), *stats, attempts as int),
            attempts > 0 ==> !(forall|x: Result<T, E>| attempt.ensures((), x) ==> x is Ok),
        decreases attempt_limit(*policy) - attempts,
    {
        let outcome = attempt();
        let now = clock();
        match outcome {
            Ok(v) => {
                attempt_succeeded(policy, stats, now);
                *status = ProcessStatus::Running;
                proof {
                    assert(success_recorded(*old(stats), *stats, attempts as int));
                }
                return Ok(v);
            },
            Err(e) => {
                let decision = attempt_failed(policy, stats, attempts, now);
                proof {
                    assert(attempt.ensures((), Err::<T, E>(e)));
                    assert(failures_recorded(*old(stats), *stats, attempts + 1));
                }
                match decision {
                    RetryDecision::RetryAfter { delay_ms } => {
                        *status = ProcessStatus::Reconnecting;
                        attempts = attempts + 1;
                        assert(delay_ms == retry_delay(*policy, attempts as int));
                        wait(delay_ms);
                    },
                    RetryDecision::GiveUp { attempts: failed } => {
                        *status = ProcessStatus::Failed;
                        return Err((failed, e));
                    },
                    RetryDecision::PassThrough => {
                        return unreached();
                    },
                }
            },
        }
    }
}

/// Runs `reconnect_fn` under `policy`, keeping count in `stats`, and calls
/// `wait_fn` before each retry with `retry_delay` of the number of failures
/// so far. The time of each outcome is what `clock` gives.
///
/// With retrying switched off the operation runs once, its outcome is handed
/// on and `stats` stays as it is. Otherwise a run of failures is first
/// forgiven where the worker has been stable long enough; the operation then
/// runs until it succeeds, which is recorded, or until as many attempts as
/// the policy allows have failed, each of which is recorded.
///
/// An operation that cannot fail succeeds at the first call with no failure
/// recorded; one that cannot succeed ends in `Exhausted` after exactly
/// `attempt_limit` recorded failures.
pub fn reconnect_with_backoff<T, E, F: Fn() -> Result<T, E>, W: Fn(u64), C: Fn() -> i64>(
    name: &str,
    policy: &ReconnectPolicy,
    stats: &mut ReconnectStats,
    reconnect_fn: F,
    wait_fn: W,
    clock: C,
) -> (result: Result<T, ReconnectError<E>>)
    requires
        policy.valid(),
        reconnect_fn.requires(()),
        policy.enabled ==> accepts_delays(wait_fn, *policy) && clock.requires(()),
    ensures
        policy.enabled && result is Ok ==> told_by(clock, final(stats).last_stable_time),
        final(stats).last_restart != old(stats).last_restart ==> told_by(
            clock,
            final(stats).last_restart,
        ),
        !policy.enabled ==> *final(stats) == *old(stats) && match result {
            Ok(v) => reconnect_fn.ensures((), Ok(v)),
            Err(ReconnectError::Operation(e)) => reconnect_fn.ensures((), Err(e)),
            Err(ReconnectError::Exhausted { .. }) => false,
        },
        policy.enabled ==> exists|start: ReconnectStats| #[trigger]
            cycle_opened(*old(stats), start) && match result {
                Ok(v) => reconnect_fn.ensures((), Ok(v)) && exists|k: int|
                    0 <= k < attempt_limit(*policy) && success_recorded(start, *final(stats), k),
                Err(ReconnectError::Exhausted { name: who, attempts, last_error }) => {
                    &&& who@ == name@
                    &&& attempts == attempt_limit(*policy)
                    &&& failures_recorded(start, *final(stats), attempts as int)
                    &&& reconnect_fn.ensures((), Err(last_error))
                },
                Err(ReconnectError::Operation(_)) => false,
            },
        (forall|x: Result<T, E>| reconnect_fn.ensures((), x) ==> x is Ok) ==> {
            &&& result is Ok
            &&& final(stats).restarts == old(stats).restarts
            &&& final(stats).last_restart == old(stats).last_restart
        },
        (forall|x: Result<T, E>| reconnect_fn.ensures((), x) ==> x is Err) ==> {
            &&& result is Err
            &&& policy.enabled ==> final(stats).restarts == add_capped(
                old(stats).restarts,
                attempt_limit(*policy),
            )
        },
{
    if !policy.enabled {
        return match reconnect_fn() {
            Ok(v) => Ok(v),
            Err(e) => Err(ReconnectError::Operation(e)),
        };
    }
    let now = clock();
    begin_cycle(policy, stats, now);
    let ghost start = *stats;
    let mut status = ProcessStatus::Reconnecting;
    proof {
        assert(cycle_opened(*old(stats), start));
    }
    match run_cycle(policy, stats, &mut status, reconnect_fn, wait_fn, clock) {
        Ok(v) => Ok(v),
        Err((attempts, e)) => Err(
            ReconnectError::Exhausted {
                name: String::from_str(name),
                attempts,
                last_error: e,
            },
        ),
    }
}

/// Starts a worker under `policy` and keeps its status as well as its
/// statistics: `Running` after a success, `Reconnecting` while retries are
/// pending, `Failed` once they are used up. With retrying switched off the
/// operation runs once and neither status nor statistics change. The time
/// of each outcome is what `clock` gives.
pub fn monitor_and_reconnect<
    E,
    F: Fn() -> Result<ProcessHandle, E>,
    W: Fn(u64),
    C: Fn() -> i64,
>(
    name: String,
    policy: ReconnectPolicy,
    stats: &mut ReconnectStats,
    status: &mut ProcessStatus,
    start_fn: F,
    wait_fn: W,
    clock: C,
) -> (result: Result<ProcessHandle, ReconnectError<E>>)
    requires
        policy.valid(),
        start_fn.requires(()),
        policy.enabled ==> accepts_delays(wait_fn, policy) && clock.requires(()),
    ensures
        policy.enabled && result is Ok ==> told_by(clock, final(stats).last_stable_time),
        final(stats).last_restart != old(stats).last_restart ==> told_by(
            clock,
            final(stats).last_restart,
        ),
        !policy.enabled ==> {
            &&& *final(stats) == *old(stats)
            &&& *final(status) == *old(status)
            &&& match result {
                Ok(handle) => start_fn.ensures((), Ok(handle)),
                Err(ReconnectError::Operation(e)) => start_fn.ensures((), Err(e)),
                Err(ReconnectError::Exhausted { .. }) => false,
            }
        },
        policy.enabled ==> match result {
            Ok(handle) => {
                &&& start_fn.ensures((), Ok(handle))
                &&& *final(status) == ProcessStatus::Running
                &&& exists|k: int|
                    0 <= k < attempt_limit(policy) && success_recorded(
                        *old(stats),
                        *final(stats),
                        k,
                    )
            },
            Err(ReconnectError::Exhausted { name: who, attempts, last_error }) => {
                &&& who@ == name@
                &&& *final(status) == ProcessStatus::Failed
                &&& attempts == attempt_limit(policy)
                &&& failures_recorded(*old(stats), *final(stats), attempts as int)
                &&& start_fn.ensures((), Err(last_error))
            },
            Err(ReconnectError::Operation(_)) => false,
        },
        (forall|x: Result<ProcessHandle, E>| start_fn.ensures((), x) ==> x is Ok) ==> {
            &&& result is Ok
            &&& final(stats).restarts == old(stats).restarts
            &&& final(stats).last_restart == old(stats).last_restart
        },
        (forall|x: Result<ProcessHandle, E>| start_fn.ensures((), x) ==> x is Err) ==> result is Err,
{
    if !policy.enabled {
        return match start_fn() {
            Ok(handle) => Ok(handle),
            Err(e) => Err(ReconnectError::Operation(e)),
        };
    }
    match run_cycle(&policy, stats, status, start_fn, wait_fn, clock) {
        Ok(handle) => Ok(handle),
        Err((attempts, e)) => Err(ReconnectError::Exhausted { name, attempts, last_error: e }),
    }
}

} // verus!
