//! What holds of the supervisor whatever it is asked to do.

use vstd::prelude::*;
use vstd::arithmetic::power::pow;
use crate::app_state::{
    CameraRuntimeView,
    ProcessHandleView,
    ProcessStatus,
    ReconnectPolicy,
    ReconnectStats,
};
use crate::backoff::{backoff_delay, lemma_pow_base_ordered, lemma_quotient_at_least};
use crate::bignum::{lemma_pow_pos, lemma_pow_step};
use crate::camera_manager::{has_id, index_of, sweep, well_formed, LivenessReportView};
use crate::camera_start::start_refused;
use crate::error::{InvalidStateReason, SupervisorErrorView};
use crate::process_manager::{alive, released, ProbeOutcome};
use crate::reconnect::{cycle_start, stats_after_failure, stats_after_success};

verus! {

/// The first failure is followed by the base delay, or by the cap where the
/// base delay is above it.
pub proof fn law_first_delay_is_base(policy: ReconnectPolicy)
    ensures
        backoff_delay(policy, 1) == if policy.retry_delay_ms <= policy.max_delay_ms {
            policy.retry_delay_ms
        } else {
            policy.max_delay_ms
        },
{
    lemma_pow_step(policy.backoff_multiplier_milli as int, 0);
    lemma_pow_step(1000, 0);
    assert(policy.retry_delay_ms * 1 / 1 == policy.retry_delay_ms as int);
}

/// Under a valid policy the delay never shrinks from one attempt to the
/// next, and never exceeds the cap.
pub proof fn law_delay_never_shrinks(policy: ReconnectPolicy, attempt: nat)
    requires
        policy.valid(),
        attempt >= 1,
    ensures
        backoff_delay(policy, attempt) <= backoff_delay(policy, attempt + 1),
        backoff_delay(policy, attempt + 1) <= policy.max_delay_ms,
{
    let e = (attempt - 1) as nat;
    let p = policy.backoff_multiplier_milli as int;
    let base = policy.retry_delay_ms as int;
    lemma_pow_step(p, e);
    lemma_pow_step(1000, e);
    lemma_pow_pos(p, e);
    lemma_pow_pos(1000, e);
    lemma_pow_pos(1000, e + 1);
    let n = base * pow(p, e);
    let d = pow(1000, e);
    let r = n / d;
    vstd::arithmetic::div_mod::lemma_fundamental_div_mod(n, d);
    assert(r * d <= n) by (nonlinear_arith)
        requires
            n == d * r + n % d,
            0 <= n % d,
    ;
    assert(r >= 0) by (nonlinear_arith)
        requires
            n >= 0,
            d > 0,
            r == n / d,
    ;
    assert(r * (1000 * d) <= base * (p * pow(p, e))) by (nonlinear_arith)
        requires
            r * d <= n,
            n == base * pow(p, e),
            r >= 0,
            n >= 0,
            p >= 1000,
    ;
    lemma_quotient_at_least(base * pow(p, e + 1), pow(1000, e + 1), r);
}

/// A recorded failure and a recorded success never lower the lifetime count
/// of restarts, and only a success, or the forgiving at the start of a
/// cycle, takes the run of failures back to zero.
pub proof fn law_restarts_never_decrease(policy: ReconnectPolicy, stats: ReconnectStats, now: i64)
    ensures
        stats_after_failure(policy, stats, now).restarts >= stats.restarts,
        stats_after_success(policy, stats, now).restarts == stats.restarts,
        cycle_start(policy, stats, now).restarts == stats.restarts,
        stats_after_failure(policy, stats, now).consecutive_failures >= stats.consecutive_failures,
        policy.enabled ==> stats_after_success(policy, stats, now).consecutive_failures == 0,
{
}

/// A handle that has let go of its process has nothing left to let go of,
/// and no probe shows it alive.
pub proof fn law_release_is_idempotent(handle: ProcessHandleView, probe: ProbeOutcome)
    ensures
        released(handle).child is None,
        released(released(handle)) == released(handle),
        !alive(released(handle), probe),
{
}

/// Stopping a camera twice is stopping it once: after the first stop the
/// camera is stopped and owns nothing, and the second stop changes nothing
/// and finds nothing to kill.
pub proof fn law_stop_is_idempotent(camera: CameraRuntimeView)
    ensures
        camera.stopped().status == ProcessStatus::Stopped,
        camera.stopped().stopped() == camera.stopped(),
        camera.stopped().killed_by_stop() is None,
        camera.status == ProcessStatus::Stopped ==> camera.stopped() == camera
            && camera.killed_by_stop() is None,
{
}

/// Stopping the camera registered under `id` a second time leaves the
/// cameras as the first stop left them.
pub proof fn law_stop_twice_changes_nothing(
    ids: Seq<Seq<char>>,
    cameras: Seq<CameraRuntimeView>,
    id: Seq<char>,
)
    requires
        well_formed(ids, cameras),
        has_id(ids, id),
    ensures
        ({
            let i = index_of(ids, id);
            let once = cameras.update(i, cameras[i].stopped());
            once.update(i, once[i].stopped()) == once
        }),
{
    let i = index_of(ids, id);
    let once = cameras.update(i, cameras[i].stopped());
    assert(once.update(i, once[i].stopped()) =~= once);
}

/// A camera that runs cannot be started, and one that is disabled cannot
/// either; any other camera of the registry can.
pub proof fn law_start_refusals(
    ids: Seq<Seq<char>>,
    cameras: Seq<CameraRuntimeView>,
    id: Seq<char>,
)
    requires
        has_id(ids, id),
    ensures
        ({
            let camera = cameras[index_of(ids, id)];
            &&& !camera.config.enabled ==> start_refused(ids, cameras, id) == Some(
                SupervisorErrorView::InvalidState { id, reason: InvalidStateReason::Disabled },
            )
            &&& camera.config.enabled && camera.status == ProcessStatus::Running
                ==> start_refused(ids, cameras, id) == Some(
                SupervisorErrorView::InvalidState { id, reason: InvalidStateReason::AlreadyRunning },
            )
            &&& camera.config.enabled && camera.status != ProcessStatus::Running
                ==> start_refused(ids, cameras, id) is None
        }),
{
}

/// A health sweep leaves no running camera behind whose process it found
/// dead, touches no camera that is not running, and a second sweep with the
/// same reports changes nothing.
pub proof fn law_sweep_settles(
    ids: Seq<Seq<char>>,
    cameras: Seq<CameraRuntimeView>,
    reports: Seq<LivenessReportView>,
)
    ensures
        forall|i: int|
            0 <= i < cameras.len() ==> !(#[trigger] sweep(ids, cameras, reports)[i]).found_dead(
                ids[i],
                reports,
            ),
        forall|i: int|
            0 <= i < cameras.len() && (#[trigger] cameras[i]).status != ProcessStatus::Running
                ==> sweep(ids, cameras, reports)[i] == cameras[i],
        sweep(ids, sweep(ids, cameras, reports), reports) == sweep(ids, cameras, reports),
{
    assert(sweep(ids, sweep(ids, cameras, reports), reports) =~= sweep(ids, cameras, reports));
}

} // verus!
