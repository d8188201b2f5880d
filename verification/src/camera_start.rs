//! Starting a camera: the checks, the launch under the camera's retry
//! policy, and what each outcome leaves behind in the registry.
//!
//! The start comes in two forms. The step functions take one event at a time
//! (the start is asked for, a launch failed, a launch succeeded), so that a
//! caller can let go of the registry while it waits. The drivers run the
//! whole start over a spawning, a waiting and a clock that the caller hands
//! in.

use vstd::prelude::*;
use crate::app_state::{
    CameraConfig,
    CameraConfigView,
    CameraRuntimeView,
    ProcessHandle,
    ProcessHandleView,
    ProcessStatus,
    ReconnectStats,
};
use crate::camera_manager::{
    add_camera,
    config_views,
    has_id,
    index_of,
    lemma_index_is_unique,
    lemma_update_keeps_policies_valid,
    running_count,
    stop_camera,
    CameraRegistry,
};
use crate::error::{InvalidStateReason, SupervisorError, SupervisorErrorView};
use crate::process_manager::{
    camera_output_url,
    ffmpeg_args,
    ffmpeg_command,
    ffmpeg_process_name,
    ProcessCommand,
    ProcessCommandView,
};
use crate::reconnect::{
    accepts_delays,
    attempt_failed,
    attempt_limit,
    attempt_succeeded,
    begin_cycle,
    cycle_opened,
    cycle_start,
    failure_decision,
    failures_recorded,
    retry_delay,
    run_cycle,
    stats_after_failure,
    stats_after_success,
    status_after_failure,
    success_recorded,
    told_by,
    RetryDecision,
};

verus! {

/// The name under which the retries of the camera `id` are reported.
pub open spec fn supervision_name(id: Seq<char>) -> Seq<char> {
    "Camera "@ + id
}

/// How long a reconnect lets things settle between stop and start, in
/// milliseconds.
pub const SETTLE_DELAY_MS: u64 = 500;

impl CameraRuntimeView {
    /// Why this camera cannot be started, if it cannot: it is disabled, or
    /// it is running already.
    pub open spec fn start_refusal(self) -> Option<InvalidStateReason> {
        if !self.config.enabled {
            Some(InvalidStateReason::Disabled)
        } else if self.status == ProcessStatus::Running {
            Some(InvalidStateReason::AlreadyRunning)
        } else {
            None
        }
    }

    /// The encoder to launch for this camera.
    pub open spec fn launch(self) -> ProcessCommandView {
        ProcessCommandView {
            name: ffmpeg_process_name(self.config.id),
            args: ffmpeg_args(
                self.config.rtsp_url,
                camera_output_url(self.config.id),
                self.config.encoding,
                self.config.quality,
                self.config.audio_mode,
            ),
        }
    }

    /// This camera once a start has begun at `now`.
    pub open spec fn start_begun(self, now: i64) -> CameraRuntimeView {
        CameraRuntimeView { stats: cycle_start(self.reconnect_policy, self.stats, now), ..self }
    }

    /// This camera after a launch that failed at `now`, following
    /// `attempts_before` earlier failures of the same start.
    pub open spec fn start_failed(self, attempts_before: u32, now: i64) -> CameraRuntimeView {
        CameraRuntimeView {
            stats: stats_after_failure(self.reconnect_policy, self.stats, now),
            status: status_after_failure(
                self.status,
                failure_decision(self.reconnect_policy, attempts_before),
            ),
            ..self
        }
    }

    /// This camera after a launch that succeeded at `now` and gave `handle`.
    pub open spec fn start_succeeded(self, handle: ProcessHandleView, now: i64)
        -> CameraRuntimeView {
        CameraRuntimeView {
            stats: stats_after_success(self.reconnect_policy, self.stats, now),
            process: Some(handle),
            status: ProcessStatus::Running,
            ..self
        }
    }
}

/// The error with which a start of the camera registered under `id` is
/// refused before anything is launched, if it is: the camera is unknown,
/// disabled or running already.
pub open spec fn start_refused(
    ids: Seq<Seq<char>>,
    cameras: Seq<CameraRuntimeView>,
    id: Seq<char>,
) -> Option<SupervisorErrorView> {
    if !has_id(ids, id) {
        Some(SupervisorErrorView::NotFound { id })
    } else {
        match cameras[index_of(ids, id)].start_refusal() {
            Some(reason) => Some(SupervisorErrorView::InvalidState { id, reason }),
            None => None,
        }
    }
}

/// Whether the camera registered under `id` can be started: its place, or
/// the error if not.
fn check_startable(cameras: &CameraRegistry, id: &str) -> (result: Result<usize, SupervisorError>)
    requires
        cameras.wf(),
    ensures
        match result {
            Ok(i) => {
                &&& start_refused(cameras.keys(), cameras@, id@) is None
                &&& cameras.has(id@)
                &&& i == cameras.place(id@)
                &&& i < cameras@.len()
            },
            Err(e) => start_refused(cameras.keys(), cameras@, id@) == Some(e@),
        },
{
    let i = match cameras.find(id) {
        Some(i) => i,
        None => {
            return Err(SupervisorError::NotFound { id: String::from_str(id) });
        },
    };
    let camera = match cameras.get(id) {
        Some(camera) => camera,
        None => {
            return Err(SupervisorError::NotFound { id: String::from_str(id) });
        },
    };
    if !camera.config.enabled {
        return Err(
            SupervisorError::InvalidState {
                id: String::from_str(id),
                reason: InvalidStateReason::Disabled,
            },
        );
    }
    if camera.status == ProcessStatus::Running {
        return Err(
            SupervisorError::InvalidState {
                id: String::from_str(id),
                reason: InvalidStateReason::AlreadyRunning,
            },
        );
    }
    Ok(i)
}

/// Begins a start of the camera registered under `id` at `now` and says
/// what to launch. A camera that is unknown, disabled or running already is
/// refused, and the registry stays as it is.
pub fn begin_start(cameras: &mut CameraRegistry, id: &str, now: i64) -> (result: Result<
    ProcessCommand,
    SupervisorError,
>)
    requires
        old(cameras).wf(),
    ensures
        final(cameras).wf(),
        final(cameras).keys() == old(cameras).keys(),
        match result {
            Ok(command) => {
                &&& start_refused(old(cameras).keys(), old(cameras)@, id@) is None
                &&& command@ == old(cameras).camera(id@).launch()
                &&& final(cameras)@ == old(cameras)@.update(
                    old(cameras).place(id@),
                    old(cameras).camera(id@).start_begun(now),
                )
            },
            Err(e) => {
                &&& start_refused(old(cameras).keys(), old(cameras)@, id@) == Some(e@)
                &&& final(cameras)@ == old(cameras)@
            },
        },
{
    let i = match check_startable(cameras, id) {
        Ok(i) => i,
        Err(e) => {
            return Err(e);
        },
    };
    let mut camera = cameras.take_out(i);
    let policy = camera.reconnect_policy;
    begin_cycle(&policy, &mut camera.stats, now);
    let command = ffmpeg_command(
        camera.config.id.as_str(),
        camera.config.rtsp_url.as_str(),
        &camera.config.encoding,
        &camera.config.quality,
        &camera.config.audio_mode,
    );
    cameras.put_back(Ghost(old(cameras)@), i, camera);
    proof {
        lemma_update_keeps_policies_valid(old(cameras)@, i as int, camera@);
    }
    Ok(command)
}

/// Takes note that a launch of the camera registered under `id` failed at
/// `now`, after `attempts_before` earlier failures of the same start, and
/// says what follows.
pub fn record_start_failure(cameras: &mut CameraRegistry, id: &str, attempts_before: u32, now: i64)
    -> (result: Result<RetryDecision, SupervisorError>)
    requires
        old(cameras).wf(),
    ensures
        final(cameras).wf(),
        final(cameras).keys() == old(cameras).keys(),
        match result {
            Ok(decision) => {
                &&& old(cameras).has(id@)
                &&& decision == failure_decision(
                    old(cameras).camera(id@).reconnect_policy,
                    attempts_before,
                )
                &&& final(cameras)@ == old(cameras)@.update(
                    old(cameras).place(id@),
                    old(cameras).camera(id@).start_failed(attempts_before, now),
                )
            },
            Err(e) => {
                &&& !old(cameras).has(id@)
                &&& final(cameras)@ == old(cameras)@
                &&& e@ == (SupervisorErrorView::NotFound { id: id@ })
            },
        },
{
    let i = match cameras.find(id) {
        Some(i) => i,
        None => {
            return Err(SupervisorError::NotFound { id: String::from_str(id) });
        },
    };
    let mut camera = cameras.take_out(i);
    let policy = camera.reconnect_policy;
    proof {
        assert(old(cameras)@[i as int].reconnect_policy.valid());
    }
    let decision = attempt_failed(&policy, &mut camera.stats, attempts_before, now);
    match decision {
        RetryDecision::PassThrough => {},
        RetryDecision::RetryAfter { .. } => {
            camera.status = ProcessStatus::Reconnecting;
        },
        RetryDecision::GiveUp { .. } => {
            camera.status = ProcessStatus::Failed;
        },
    }
    cameras.put_back(Ghost(old(cameras)@), i, camera);
    proof {
        lemma_update_keeps_policies_valid(old(cameras)@, i as int, camera@);
    }
    Ok(decision)
}

/// Takes note that a launch of the camera registered under `id` succeeded
/// at `now`: the camera gets the handle and runs.
pub fn complete_start(cameras: &mut CameraRegistry, id: &str, handle: ProcessHandle, now: i64)
    -> (result: Result<(), SupervisorError>)
    requires
        old(cameras).wf(),
    ensures
        final(cameras).wf(),
        final(cameras).keys() == old(cameras).keys(),
        match result {
            Ok(()) => {
                &&& old(cameras).has(id@)
                &&& final(cameras)@ == old(cameras)@.update(
                    old(cameras).place(id@),
                    old(cameras).camera(id@).start_succeeded(handle@, now),
                )
            },
            Err(e) => {
                &&& !old(cameras).has(id@)
                &&& final(cameras)@ == old(cameras)@
                &&& e@ == (SupervisorErrorView::NotFound { id: id@ })
            },
        },
{
    let i = match cameras.find(id) {
        Some(i) => i,
        None => {
            return Err(SupervisorError::NotFound { id: String::from_str(id) });
        },
    };
    let mut camera = cameras.take_out(i);
    let policy = camera.reconnect_policy;
    attempt_succeeded(&policy, &mut camera.stats, now);
    camera.process = Some(handle);
    camera.status = ProcessStatus::Running;
    cameras.put_back(Ghost(old(cameras)@), i, camera);
    proof {
        lemma_update_keeps_policies_valid(old(cameras)@, i as int, camera@);
    }
    Ok(())
}

/// Whether `spawn` can be called with the launch of `launch`.
pub open spec fn spawn_accepts<F: Fn(&ProcessCommand) -> Result<ProcessHandle, String>>(
    spawn: F,
    launch: ProcessCommandView,
) -> bool {
    forall|command: &ProcessCommand| command@ == launch ==> #[trigger] spawn.requires((command,))
}

/// Whether `spawn`, `wait` and `clock` can do their part in a start of
/// `camera`: `spawn` takes the camera's launch, and, where the camera's
/// policy retries, `wait` takes the delays of that policy and `clock` can be
/// read.
pub open spec fn can_start<
    F: Fn(&ProcessCommand) -> Result<ProcessHandle, String>,
    W: Fn(u64),
    C: Fn() -> i64,
>(spawn: F, wait: W, clock: C, camera: CameraRuntimeView) -> bool {
    &&& spawn_accepts(spawn, camera.launch())
    &&& camera.reconnect_policy.enabled ==> accepts_delays(wait, camera.reconnect_policy)
        && clock.requires(())
}

/// Whether `spawn` may have answered the launch of `launch` with `outcome`.
pub open spec fn spawned<F: Fn(&ProcessCommand) -> Result<ProcessHandle, String>>(
    spawn: F,
    launch: ProcessCommandView,
    outcome: Result<ProcessHandle, String>,
) -> bool {
    exists|command: ProcessCommand| command@ == launch && #[trigger] spawn.ensures((&command,), outcome)
}

/// Whether `spawn` answers every launch with a handle.
pub open spec fn cannot_fail<F: Fn(&ProcessCommand) -> Result<ProcessHandle, String>>(
    spawn: F,
) -> bool {
    forall|command: &ProcessCommand, outcome: Result<ProcessHandle, String>|
        #[trigger] spawn.ensures((command,), outcome) ==> outcome is Ok
}

/// How a start that was not refused relates the camera before it to the
/// camera after it, given what came out. `id` is the id under which the
/// camera is registered.
///
/// Configuration and policy stay. On success the camera runs with the
/// handle that the spawning gave. Where the policy retries, the statistics
/// record the failures and the final success at times that the clock gave
/// or, after as many failures as the policy allows, the camera is failed
/// and keeps the handle it had. Where it does not, the one failure leaves
/// the camera as it was. A spawning that cannot fail gives a success with no
/// failure recorded.
pub open spec fn start_result<
    F: Fn(&ProcessCommand) -> Result<ProcessHandle, String>,
    C: Fn() -> i64,
>(
    spawn: F,
    clock: C,
    id: Seq<char>,
    before: CameraRuntimeView,
    after: CameraRuntimeView,
    result: Result<(), SupervisorError>,
) -> bool {
    let policy = before.reconnect_policy;
    &&& after.config == before.config
    &&& after.reconnect_policy == policy
    &&& match result {
        Ok(()) => {
            &&& after.status == ProcessStatus::Running
            &&& exists|handle: ProcessHandle|
                after.process == Some(handle@) && #[trigger] spawned(
                    spawn,
                    before.launch(),
                    Ok(handle),
                )
            &&& if policy.enabled {
                &&& told_by(clock, after.stats.last_stable_time)
                &&& exists|start: ReconnectStats, k: int|
                    #[trigger] cycle_opened(before.stats, start) && 0 <= k < attempt_limit(policy)
                        && #[trigger] success_recorded(start, after.stats, k)
            } else {
                after.stats == before.stats
            }
        },
        Err(SupervisorError::Spawn { name, cause }) => {
            &&& !policy.enabled
            &&& after == before
            &&& name@ == before.launch().name
            &&& spawned(spawn, before.launch(), Err(cause))
        },
        Err(SupervisorError::Exhausted { name, attempts, cause }) => {
            &&& policy.enabled
            &&& after.status == ProcessStatus::Failed
            &&& after.process == before.process
            &&& name@ == supervision_name(id)
            &&& attempts == attempt_limit(policy)
            &&& spawned(spawn, before.launch(), Err(cause))
            &&& exists|start: ReconnectStats| #[trigger]
                cycle_opened(before.stats, start) && failures_recorded(
                    start,
                    after.stats,
                    attempts as int,
                )
        },
        Err(_) => false,
    }
    &&& after.stats.last_restart != before.stats.last_restart ==> told_by(
        clock,
        after.stats.last_restart,
    )
    &&& cannot_fail(spawn) ==> {
        &&& result is Ok
        &&& after.stats.restarts == before.stats.restarts
        &&& after.stats.last_restart == before.stats.last_restart
    }
}

/// Starts the camera registered under `id`: launches its encoder through
/// `spawn` under the camera's retry policy, calling `wait` before each retry
/// with the delay that the policy gives for the number of failures so far,
/// and reading the time of each outcome from `clock`.
///
/// A camera that is unknown, disabled or running already is refused and the
/// registry stays as it is. Otherwise only this camera changes, as
/// `start_result` says.
pub fn start_camera<
    F: Fn(&ProcessCommand) -> Result<ProcessHandle, String>,
    W: Fn(u64),
    C: Fn() -> i64,
>(cameras: &mut CameraRegistry, id: &str, spawn: F, wait: W, clock: C) -> (result: Result<
    (),
    SupervisorError,
>)
    requires
        old(cameras).wf(),
        start_refused(old(cameras).keys(), old(cameras)@, id@) is None ==> can_start(
            spawn,
            wait,
            clock,
            old(cameras).camera(id@),
        ),
    ensures
        final(cameras).wf(),
        final(cameras).keys() == old(cameras).keys(),
        match start_refused(old(cameras).keys(), old(cameras)@, id@) {
            Some(e) => {
                &&& result matches Err(refusal)
                &&& refusal@ == e
                &&& final(cameras)@ == old(cameras)@
            },
            None => {
                &&& final(cameras)@.len() == old(cameras)@.len()
                &&& final(cameras)@ == old(cameras)@.update(
                    old(cameras).place(id@),
                    final(cameras)@[old(cameras).place(id@)],
                )
                &&& start_result(
                    spawn,
                    clock,
                    id@,
                    old(cameras).camera(id@),
                    final(cameras)@[old(cameras).place(id@)],
                    result,
                )
            },
        },
{
    let i = match check_startable(cameras, id) {
        Ok(i) => i,
        Err(e) => {
            return Err(e);
        },
    };
    let ghost before = old(cameras)@[i as int];
    let mut camera = cameras.take_out(i);
    let policy = camera.reconnect_policy;
    let command = ffmpeg_command(
        camera.config.id.as_str(),
        camera.config.rtsp_url.as_str(),
        &camera.config.encoding,
        &camera.config.quality,
        &camera.config.audio_mode,
    );
    proof {
        assert(before.reconnect_policy.valid());
        assert(command@ == before.launch());
    }
    if !policy.enabled {
        let outcome = spawn(&command);
        match outcome {
            Ok(handle) => {
                camera.process = Some(handle);
                camera.status = ProcessStatus::Running;
                cameras.put_back(Ghost(old(cameras)@), i, camera);
                proof {
                    lemma_update_keeps_policies_valid(old(cameras)@, i as int, camera@);
                    assert(spawned(spawn, before.launch(), Ok::<ProcessHandle, String>(handle)));
                }
                return Ok(());
            },
            Err(cause) => {
                cameras.put_back(Ghost(old(cameras)@), i, camera);
                proof {
                    lemma_update_keeps_policies_valid(old(cameras)@, i as int, camera@);
                    assert(spawn.ensures((&command,), Err::<ProcessHandle, String>(cause)));
                    assert(spawned(spawn, before.launch(), Err::<ProcessHandle, String>(cause)));
                }
                return Err(SupervisorError::Spawn { name: command.name, cause });
            },
        }
    }
    let now = clock();
    begin_cycle(&policy, &mut camera.stats, now);
    let ghost start = camera.stats;
    proof {
        assert(cycle_opened(before.stats, start));
    }
    let spawn_ref = &spawn;
    let command_ref = &command;
    let attempt = || -> (outcome: Result<ProcessHandle, String>)
        requires
            spawn_ref.requires((command_ref,)),
        ensures
            spawn_ref.ensures((command_ref,), outcome),
        { spawn_ref(command_ref) };
    proof {
        if cannot_fail(spawn) {
            assert forall|x: Result<ProcessHandle, String>| attempt.ensures((), x) implies x
                is Ok by {
                assert(spawn.ensures((command_ref,), x));
            }
        }
    }
    let outcome = run_cycle(&policy, &mut camera.stats, &mut camera.status, attempt, wait, clock);
    match outcome {
        Ok(handle) => {
            proof {
                assert(spawn.ensures((&command,), Ok::<ProcessHandle, String>(handle)));
                assert(spawned(spawn, before.launch(), Ok::<ProcessHandle, String>(handle)));
            }
            camera.process = Some(handle);
            cameras.put_back(Ghost(old(cameras)@), i, camera);
            proof {
                lemma_update_keeps_policies_valid(old(cameras)@, i as int, camera@);
                let k = choose|k: int|
                    0 <= k < attempt_limit(policy) && success_recorded(start, camera.stats, k);
                assert(cycle_opened(before.stats, start) && success_recorded(
                    start,
                    camera@.stats,
                    k,
                ));
            }
            Ok(())
        },
        Err((attempts, cause)) => {
            proof {
                assert(spawn.ensures((&command,), Err::<ProcessHandle, String>(cause)));
                assert(spawned(spawn, before.launch(), Err::<ProcessHandle, String>(cause)));
            }
            let name = String::from_str("Camera ").concat(id);
            cameras.put_back(Ghost(old(cameras)@), i, camera);
            proof {
                lemma_update_keeps_policies_valid(old(cameras)@, i as int, camera@);
            }
            Err(SupervisorError::Exhausted { name, attempts, cause })
        },
    }
}

/// Restarts the camera registered under `id`: stops it, has `kill` end the
/// process it still owned, lets things settle, and starts it. What the
/// killing comes to does not matter here. The run of failures is not
/// forgiven on this account.
///
/// The outcome is that of a start of the stopped camera.
pub fn reconnect_camera<
    K: Fn(u32),
    F: Fn(&ProcessCommand) -> Result<ProcessHandle, String>,
    W: Fn(u64),
    C: Fn() -> i64,
>(cameras: &mut CameraRegistry, id: &str, kill: K, spawn: F, wait: W, clock: C) -> (result: Result<
    (),
    SupervisorError,
>)
    requires
        old(cameras).wf(),
        wait.requires((SETTLE_DELAY_MS,)),
        old(cameras).has(id@) ==> ({
            let camera = old(cameras).camera(id@);
            &&& camera.killed_by_stop() matches Some(pid) ==> kill.requires((pid,))
            &&& camera.stopped().start_refusal() is None ==> can_start(
                spawn,
                wait,
                clock,
                camera.stopped(),
            )
        }),
    ensures
        final(cameras).wf(),
        final(cameras).keys() == old(cameras).keys(),
        !old(cameras).has(id@) ==> {
            &&& final(cameras)@ == old(cameras)@
            &&& result matches Err(e)
            &&& e@ == (SupervisorErrorView::NotFound { id: id@ })
        },
        old(cameras).has(id@) ==> ({
            let i = old(cameras).place(id@);
            let stopped = old(cameras)@.update(i, old(cameras)@[i].stopped());
            match stopped[i].start_refusal() {
                Some(reason) => {
                    &&& result matches Err(refusal)
                    &&& refusal@ == (SupervisorErrorView::InvalidState { id: id@, reason })
                    &&& final(cameras)@ == stopped
                },
                None => {
                    &&& final(cameras)@ == stopped.update(i, final(cameras)@[i])
                    &&& start_result(spawn, clock, id@, stopped[i], final(cameras)@[i], result)
                },
            }
        }),
{
    match stop_camera(cameras, id) {
        Ok(Some(pid)) => {
            kill(pid);
        },
        Ok(None) => {},
        Err(_) => {},
    }
    wait(SETTLE_DELAY_MS);
    start_camera(cameras, id, spawn, wait, clock)
}

/// The ids of a list of configurations.
pub open spec fn config_ids(configs: Seq<CameraConfigView>) -> Seq<Seq<char>> {
    Seq::new(configs.len(), |i: int| configs[i].id)
}

/// Those of `configs` that get registered when they are gone through in
/// turn in a registry that knows the ids `known`: each one whose id is
/// neither known nor that of one registered before it.
pub open spec fn accepted(known: Seq<Seq<char>>, configs: Seq<CameraConfigView>) -> Seq<
    CameraConfigView,
>
    decreases configs.len(),
{
    if configs.len() == 0 {
        Seq::empty()
    } else {
        let prior = accepted(known, configs.drop_last());
        if has_id(known + config_ids(prior), configs.last().id) {
            prior
        } else {
            prior.push(configs.last())
        }
    }
}

/// What an initialisation leaves of a camera that it registered: the camera
/// as registered, or, where cameras are started and this one is enabled,
/// what a start made of it.
pub open spec fn initialised<
    F: Fn(&ProcessCommand) -> Result<ProcessHandle, String>,
    C: Fn() -> i64,
>(spawn: F, clock: C, auto_start: bool, camera: CameraRuntimeView) -> bool {
    let registered = CameraRuntimeView::registered(camera.config);
    if auto_start && camera.config.enabled {
        exists|result: Result<(), SupervisorError>| #[trigger]
            start_result(spawn, clock, camera.config.id, registered, camera, result)
    } else {
        camera == registered
    }
}

/// What an initialisation did.
#[derive(Debug, Clone, Copy, PartialEq, Eq)]
pub struct InitReport {
    /// How many configurations were gone through.
    pub total: usize,
    /// How many of them were registered.
    pub added: usize,
    /// How many of those were started and run.
    pub started: usize,
}

/// What a spawning, a waiting and a clock can be called with does not
/// depend on whether they are at hand or behind a reference.
proof fn lemma_can_start_by_ref<
    F: Fn(&ProcessCommand) -> Result<ProcessHandle, String>,
    W: Fn(u64),
    C: Fn() -> i64,
>(spawn: &F, wait: &W, clock: &C, camera: CameraRuntimeView)
    requires
        can_start(*spawn, *wait, *clock, camera),
    ensures
        can_start(spawn, wait, clock, camera),
{
    assert forall|command: &ProcessCommand| command@ == camera.launch() implies #[trigger]
        spawn.requires((command,)) by {
        assert((*spawn).requires((command,)));
    }
    if camera.reconnect_policy.enabled {
        assert forall|attempt: int|
            1 <= attempt < attempt_limit(camera.reconnect_policy) implies wait.requires(
            (#[trigger] retry_delay(camera.reconnect_policy, attempt),),
        ) by {
            assert((*wait).requires((retry_delay(camera.reconnect_policy, attempt),)));
        }
        assert((*clock).requires(()));
    }
}

/// What a spawning may answer does not depend on whether it is at hand or
/// behind a reference.
proof fn lemma_spawned_by_ref<F: Fn(&ProcessCommand) -> Result<ProcessHandle, String>>(
    spawn: &F,
    launch: ProcessCommandView,
    outcome: Result<ProcessHandle, String>,
)
    requires
        spawned(spawn, launch, outcome),
    ensures
        spawned(*spawn, launch, outcome),
{
    let command = choose|command: ProcessCommand|
        command@ == launch && #[trigger] spawn.ensures((&command,), outcome);
    assert((*spawn).ensures((&command,), outcome));
}

/// What a start made of a camera does not depend on whether the spawning
/// and the clock were at hand or behind a reference.
proof fn lemma_start_result_by_ref<
    F: Fn(&ProcessCommand) -> Result<ProcessHandle, String>,
    C: Fn() -> i64,
>(
    spawn: &F,
    clock: &C,
    id: Seq<char>,
    before: CameraRuntimeView,
    after: CameraRuntimeView,
    result: Result<(), SupervisorError>,
)
    requires
        start_result(spawn, clock, id, before, after, result),
    ensures
        start_result(*spawn, *clock, id, before, after, result),
{
    match result {
        Ok(()) => {
            let handle = choose|handle: ProcessHandle|
                after.process == Some(handle@) && #[trigger] spawned(
                    spawn,
                    before.launch(),
                    Ok(handle),
                );
            lemma_spawned_by_ref(spawn, before.launch(), Ok(handle));
            if before.reconnect_policy.enabled {
                let at = after.stats.last_stable_time->Some_0;
                assert(clock.ensures((), at));
                assert((*clock).ensures((), at));
            }
        },
        Err(SupervisorError::Spawn { name, cause }) => {
            lemma_spawned_by_ref(spawn, before.launch(), Err(cause));
        },
        Err(SupervisorError::Exhausted { name, attempts, cause }) => {
            lemma_spawned_by_ref(spawn, before.launch(), Err(cause));
        },
        Err(_) => {},
    }
    if after.stats.last_restart != before.stats.last_restart {
        let at = after.stats.last_restart->Some_0;
        assert(clock.ensures((), at));
        assert((*clock).ensures((), at));
    }
    if cannot_fail(*spawn) {
        assert forall|command: &ProcessCommand, outcome: Result<ProcessHandle, String>|
            #[trigger] spawn.ensures((command,), outcome) implies outcome is Ok by {
            assert((*spawn).ensures((command,), outcome));
        }
    }
}

/// Registers every configuration of `configs` in turn under its id, and,
/// where `auto_start` is set, starts each camera that it registered and
/// that is enabled. A configuration whose id is registered already is
/// passed over, and a start that fails leaves its camera behind as failed:
/// neither keeps the rest from being gone through.
///
/// The cameras that were there before stay as they were.
pub fn init_cameras_from_config<
    F: Fn(&ProcessCommand) -> Result<ProcessHandle, String>,
    W: Fn(u64),
    C: Fn() -> i64,
>(
    cameras: &mut CameraRegistry,
    configs: &Vec<CameraConfig>,
    auto_start: bool,
    spawn: F,
    wait: W,
    clock: C,
) -> (report: InitReport)
    requires
        old(cameras).wf(),
        auto_start ==> forall|j: int|
            0 <= j < configs@.len() && (#[trigger] configs@[j]).enabled ==> can_start(
                spawn,
                wait,
                clock,
                CameraRuntimeView::registered(configs@[j]@),
            ),
    ensures
        final(cameras).wf(),
        report.total == configs@.len(),
        report.started <= report.added <= report.total,
        report.added == accepted(old(cameras).keys(), config_views(configs@)).len(),
        final(cameras)@.len() == old(cameras)@.len() + report.added,
        final(cameras).keys() == old(cameras).keys() + config_ids(
            accepted(old(cameras).keys(), config_views(configs@)),
        ),
        forall|i: int|
            0 <= i < old(cameras)@.len() ==> #[trigger] final(cameras)@[i] == old(cameras)@[i],
        forall|k: int|
            0 <= k < report.added ==> {
                &&& (#[trigger] final(cameras)@[old(cameras)@.len() + k]).config == accepted(
                    old(cameras).keys(),
                    config_views(configs@),
                )[k]
                &&& initialised(spawn, clock, auto_start, final(cameras)@[old(cameras)@.len() + k])
            },
        report.started == running_count(
            final(cameras)@.subrange(old(cameras)@.len() as int, final(cameras)@.len() as int),
        ),
{
    let n0 = cameras.len();
    let mut added: usize = 0;
    let mut started: usize = 0;
    let mut j: usize = 0;
    let ghost known = old(cameras).keys();
    let ghost views = config_views(configs@);
    proof {
        assert(views.take(0) =~= Seq::<CameraConfigView>::empty());
        assert(cameras@.subrange(n0 as int, n0 as int) =~= Seq::<CameraRuntimeView>::empty());
        assert(cameras.keys() =~= known + config_ids(accepted(known, views.take(0))));
    }
    while j < configs.len()
        invariant
            j <= configs.len(),
            n0 == old(cameras)@.len(),
            known == old(cameras).keys(),
            views == config_views(configs@),
            cameras.wf(),
            auto_start ==> forall|j: int|
                0 <= j < configs@.len() && (#[trigger] configs@[j]).enabled ==> can_start(
                    spawn,
                    wait,
                    clock,
                    CameraRuntimeView::registered(configs@[j]@),
                ),
            started <= added <= j,
            added == accepted(known, views.take(j as int)).len(),
            cameras@.len() == n0 + added,
            cameras.keys() == known + config_ids(accepted(known, views.take(j as int))),
            forall|i: int| 0 <= i < n0 ==> #[trigger] cameras@[i] == old(cameras)@[i],
            forall|k: int|
                0 <= k < added ==> {
                    &&& (#[trigger] cameras@[n0 + k]).config == accepted(
                        known,
                        views.take(j as int),
                    )[k]
                    &&& initialised(spawn, clock, auto_start, cameras@[n0 + k])
                },
            started == running_count(cameras@.subrange(n0 as int, cameras@.len() as int)),
        decreases configs.len() - j,
    {
        let config = configs[j].clone();
        let enabled = config.enabled;
        let id = config.id.clone();
        let ghost before = cameras@;
        let ghost view = config@;
        let ghost prior = accepted(known, views.take(j as int));
        proof {
            assert(views.take(j + 1).drop_last() =~= views.take(j as int));
            assert(views.take(j + 1).last() == view);
        }
        match add_camera(cameras, config) {
            Ok(()) => {
                let ghost fresh = CameraRuntimeView::registered(view);
                let ghost mid = cameras@;
                let ghost last = before.len() as int;
                proof {
                    assert(accepted(known, views.take(j + 1)) == prior.push(view));
                    assert(cameras.keys() =~= known + config_ids(prior.push(view)));
                    assert(mid.subrange(n0 as int, mid.len() as int).drop_last() =~= before.subrange(
                        n0 as int,
                        before.len() as int,
                    ));
                    assert(cameras.keys()[last] == id@);
                    assert(cameras.has(id@));
                    lemma_index_is_unique(cameras.keys(), last, cameras.place(id@));
                    assert forall|k: int| 0 <= k < added + 1 implies {
                        &&& (#[trigger] mid[n0 + k]).config == prior.push(view)[k]
                        &&& (n0 + k < last ==> initialised(spawn, clock, auto_start, mid[n0 + k]))
                    } by {
                        if k < added {
                            assert(mid[n0 + k] == before[n0 + k]);
                        }
                    }
                }
                added = added + 1;
                if auto_start && enabled {
                    proof {
                        assert(configs@[j as int].enabled);
                        lemma_can_start_by_ref(&spawn, &wait, &clock, fresh);
                    }
                    let result = start_camera(cameras, id.as_str(), &spawn, &wait, &clock);
                    proof {
                        let after = cameras@;
                        assert(after == mid.update(last, after[last]));
                        lemma_start_result_by_ref(&spawn, &clock, id@, fresh, after[last], result);
                        assert(after.subrange(n0 as int, after.len() as int).drop_last()
                            =~= before.subrange(n0 as int, before.len() as int));
                        assert(after.subrange(n0 as int, after.len() as int).last() == after[last]);
                        assert forall|k: int| 0 <= k < added implies {
                            &&& (#[trigger] after[n0 + k]).config == prior.push(view)[k]
                            &&& initialised(spawn, clock, auto_start, after[n0 + k])
                        } by {
                            if n0 + k < last {
                                assert(after[n0 + k] == mid[n0 + k]);
                            }
                        }
                    }
                    if result.is_ok() {
                        started = started + 1;
                    }
                }
            },
            Err(_) => {
                proof {
                    assert(accepted(known, views.take(j + 1)) == prior);
                }
            },
        }
        j += 1;
    }
    proof {
        assert(views.take(configs@.len() as int) =~= views);
    }
    InitReport { total: configs.len(), added, started }
}

} // verus!
