//! The camera registry: which cameras are known, and what stopping and
//! watching them does to their state.
//!
//! The registry keeps its cameras in the order in which they were added,
//! each under the id it was added with, and never holds two under the same
//! id. Killing processes is the caller's part: operations that end a
//! process hand back the process to kill.

use vstd::prelude::*;
use crate::app_state::{
    CameraConfig,
    CameraConfigView,
    CameraInfo,
    CameraInfoView,
    CameraRuntime,
    CameraRuntimeView,
    ProcessHandleView,
    ProcessStatus,
};
use crate::error::{SupervisorError, SupervisorErrorView};
use crate::process_manager::{alive, is_process_running, ProbeOutcome};
use crate::text::texts;

verus! {

/// Whether `id` is one of `ids`.
pub open spec fn has_id(ids: Seq<Seq<char>>, id: Seq<char>) -> bool {
    exists|i: int| 0 <= i < ids.len() && #[trigger] ids[i] == id
}

/// The place of `id` among `ids`, where it is there.
pub open spec fn index_of(ids: Seq<Seq<char>>, id: Seq<char>) -> int {
    choose|i: int| 0 <= i < ids.len() && #[trigger] ids[i] == id
}

/// No id occurs twice.
pub open spec fn unique_ids(ids: Seq<Seq<char>>) -> bool {
    forall|i: int, j: int| 0 <= i < j < ids.len() ==> #[trigger] ids[i] != #[trigger] ids[j]
}

/// Every camera's retry policy is valid.
pub open spec fn policies_valid(cameras: Seq<CameraRuntimeView>) -> bool {
    forall|i: int| 0 <= i < cameras.len() ==> (#[trigger] cameras[i]).reconnect_policy.valid()
}

/// What holds of the ids and the cameras of every registry: each camera has
/// its id, no id occurs twice, and every policy is valid.
pub open spec fn well_formed(ids: Seq<Seq<char>>, cameras: Seq<CameraRuntimeView>) -> bool {
    ids.len() == cameras.len() && unique_ids(ids) && policies_valid(cameras)
}

impl CameraRuntimeView {
    /// The process that this camera's handle still owns.
    pub open spec fn owned_process(self) -> Option<u32> {
        match self.process {
            Some(handle) => handle.child,
            None => None,
        }
    }

    /// This camera with its configuration replaced by `config`.
    pub open spec fn reconfigured(self, config: CameraConfigView) -> CameraRuntimeView {
        CameraRuntimeView { config, ..self }
    }

    /// This camera after a stop: a stopped camera stays as it is, any other
    /// gives up its handle and becomes stopped.
    pub open spec fn stopped(self) -> CameraRuntimeView {
        if self.status == ProcessStatus::Stopped {
            self
        } else {
            CameraRuntimeView { process: None, status: ProcessStatus::Stopped, ..self }
        }
    }

    /// The process to kill when this camera is stopped.
    pub open spec fn killed_by_stop(self) -> Option<u32> {
        if self.status == ProcessStatus::Stopped {
            None
        } else {
            self.owned_process()
        }
    }
}

/// The cameras under supervision, each under the id it was added with.
pub struct CameraRegistry {
    ids: Vec<String>,
    entries: Vec<CameraRuntime>,
}

impl View for CameraRegistry {
    type V = Seq<CameraRuntimeView>;

    closed spec fn view(&self) -> Seq<CameraRuntimeView> {
        Seq::new(self.entries@.len(), |i: int| self.entries@[i]@)
    }
}

/// In a list without repeated ids, two places with the same id are one.
pub proof fn lemma_index_is_unique(ids: Seq<Seq<char>>, a: int, b: int)
    requires
        unique_ids(ids),
        0 <= a < ids.len(),
        0 <= b < ids.len(),
        ids[a] == ids[b],
    ensures
        a == b,
{
    if a < b {
        assert(ids[a] != ids[b]);
    }
    if b < a {
        assert(ids[b] != ids[a]);
    }
}

/// Replacing a camera by one with a valid policy keeps every policy valid.
pub proof fn lemma_update_keeps_policies_valid(
    cameras: Seq<CameraRuntimeView>,
    i: int,
    camera: CameraRuntimeView,
)
    requires
        policies_valid(cameras),
        0 <= i < cameras.len(),
        camera.reconnect_policy.valid(),
    ensures
        policies_valid(cameras.update(i, camera)),
{
    let after = cameras.update(i, camera);
    assert forall|a: int| 0 <= a < after.len() implies (
    #[trigger] after[a]).reconnect_policy.valid() by {
        assert(cameras[a].reconnect_policy.valid());
    }
}

impl CameraRegistry {
    /// The ids under which the cameras are registered: `self.keys()[i]` is
    /// the id of the camera `self@[i]`. A camera keeps it whatever becomes
    /// of its configuration.
    pub closed spec fn keys(&self) -> Seq<Seq<char>> {
        texts(self.ids@)
    }

    /// What holds of every registry: each camera has its id, no id occurs
    /// twice, every policy is valid.
    pub open spec fn wf(&self) -> bool {
        well_formed(self.keys(), self@)
    }

    /// Whether a camera is registered under `id`.
    pub open spec fn has(&self, id: Seq<char>) -> bool {
        has_id(self.keys(), id)
    }

    /// The place of the camera registered under `id`.
    pub open spec fn place(&self, id: Seq<char>) -> int {
        index_of(self.keys(), id)
    }

    /// The camera registered under `id`.
    pub open spec fn camera(&self, id: Seq<char>) -> CameraRuntimeView {
        self@[self.place(id)]
    }

    /// A registry without cameras.
    pub fn new() -> (cameras: CameraRegistry)
        ensures
            cameras.wf(),
            cameras@ == Seq::<CameraRuntimeView>::empty(),
            cameras.keys() == Seq::<Seq<char>>::empty(),
    {
        let cameras = CameraRegistry { ids: Vec::new(), entries: Vec::new() };
        assert(cameras@ =~= Seq::<CameraRuntimeView>::empty());
        assert(cameras.keys() =~= Seq::<Seq<char>>::empty());
        cameras
    }

    /// How many cameras are registered.
    pub fn len(&self) -> (n: usize)
        ensures
            n == self@.len(),
    {
        self.entries.len()
    }

    /// Whether no camera is registered.
    pub fn is_empty(&self) -> (empty: bool)
        ensures
            empty == (self@.len() == 0),
    {
        self.entries.len() == 0
    }

    /// Forgets every camera. Whatever processes they own are the caller's to
    /// deal with beforehand.
    pub fn clear(&mut self)
        ensures
            final(self).wf(),
            final(self)@ == Seq::<CameraRuntimeView>::empty(),
            final(self).keys() == Seq::<Seq<char>>::empty(),
    {
        self.ids.clear();
        self.entries.clear();
        assert(self@ =~= Seq::<CameraRuntimeView>::empty());
        assert(self.keys() =~= Seq::<Seq<char>>::empty());
    }

    /// The place of the camera registered under `id`.
    pub(crate) fn find(&self, id: &str) -> (place: Option<usize>)
        requires
            self.wf(),
        ensures
            match place {
                Some(i) => self.has(id@) && i == self.place(id@) && i < self@.len(),
                None => !self.has(id@),
            },
    {
        let key = String::from_str(id);
        let mut i: usize = 0;
        while i < self.ids.len()
            invariant
                self.wf(),
                i <= self.ids.len(),
                self.ids@.len() == self.keys().len(),
                key@ == id@,
                forall|j: int| 0 <= j < i ==> #[trigger] self.keys()[j] != id@,
            decreases self.ids.len() - i,
        {
            if self.ids[i] == key {
                proof {
                    assert(self.keys()[i as int] == id@);
                    lemma_index_is_unique(self.keys(), i as int, index_of(self.keys(), id@));
                }
                return Some(i);
            }
            i += 1;
        }
        None
    }

    /// Whether a camera is registered under `id`.
    pub fn contains(&self, id: &str) -> (found: bool)
        requires
            self.wf(),
        ensures
            found == self.has(id@),
    {
        self.find(id).is_some()
    }

    /// The camera registered under `id`.
    pub fn get(&self, id: &str) -> (camera: Option<&CameraRuntime>)
        requires
            self.wf(),
        ensures
            match camera {
                Some(found) => self.has(id@) && found@ == self.camera(id@),
                None => !self.has(id@),
            },
    {
        match self.find(id) {
            Some(i) => Some(&self.entries[i]),
            None => None,
        }
    }

    /// Takes the camera at place `i` out of the registry, leaving its id
    /// behind.
    pub(crate) fn take_out(&mut self, i: usize) -> (camera: CameraRuntime)
        requires
            i < old(self)@.len(),
        ensures
            camera@ == old(self)@[i as int],
            final(self)@ == old(self)@.remove(i as int),
            final(self).keys() == old(self).keys(),
    {
        let camera = self.entries.remove(i);
        assert(self@ =~= old(self)@.remove(i as int));
        camera
    }

    /// Puts `camera` back where `take_out` took one from.
    pub(crate) fn put_back(
        &mut self,
        before: Ghost<Seq<CameraRuntimeView>>,
        i: usize,
        camera: CameraRuntime,
    )
        requires
            i < before@.len(),
            old(self)@ == before@.remove(i as int),
        ensures
            final(self)@ == before@.update(i as int, camera@),
            final(self).keys() == old(self).keys(),
    {
        assert(self@.len() == self.entries@.len());
        assert(before@.remove(i as int).len() == before@.len() - 1);
        self.entries.insert(i, camera);
        assert(self@ =~= old(self)@.insert(i as int, camera@));
        assert(self@ =~= before@.update(i as int, camera@));
    }
}

/// Registers a camera under the id of its configuration: stopped, without
/// a process, under the default retry policy. An id that is registered
/// already is refused and the registry stays as it is.
pub fn add_camera(cameras: &mut CameraRegistry, config: CameraConfig) -> (result: Result<
    (),
    SupervisorError,
>)
    requires
        old(cameras).wf(),
    ensures
        final(cameras).wf(),
        match result {
            Ok(()) => {
                &&& !old(cameras).has(config@.id)
                &&& final(cameras)@ == old(cameras)@.push(CameraRuntimeView::registered(config@))
                &&& final(cameras).keys() == old(cameras).keys().push(config@.id)
            },
            Err(e) => {
                &&& old(cameras).has(config@.id)
                &&& final(cameras)@ == old(cameras)@
                &&& final(cameras).keys() == old(cameras).keys()
                &&& e@ == (SupervisorErrorView::DuplicateId { id: config@.id })
            },
        },
{
    if cameras.contains(config.id.as_str()) {
        return Err(SupervisorError::DuplicateId { id: config.id });
    }
    let id = config.id.clone();
    let camera = CameraRuntime::new(config);
    cameras.ids.push(id);
    cameras.entries.push(camera);
    proof {
        let ids = old(cameras).keys();
        let before = old(cameras)@;
        assert(cameras@ =~= before.push(CameraRuntimeView::registered(config@)));
        assert(cameras.keys() =~= ids.push(config@.id));
        assert forall|a: int, b: int| 0 <= a < b < cameras.keys().len() implies #[trigger]
            cameras.keys()[a] != #[trigger] cameras.keys()[b] by {
            if b < ids.len() {
                assert(ids[a] != ids[b]);
            } else {
                assert(ids[a] != config@.id);
            }
        }
        assert forall|a: int| 0 <= a < cameras@.len() implies (
        #[trigger] cameras@[a]).reconnect_policy.valid() by {
            if a < before.len() {
                assert(before[a].reconnect_policy.valid());
            }
        }
    }
    Ok(())
}

/// Replaces the configuration of the camera registered under `id` by
/// `updated_config`, whole. The camera stays registered under `id` and
/// keeps its process, its status and its statistics: a running camera goes
/// on with the old settings until it is restarted.
pub fn update_camera(cameras: &mut CameraRegistry, id: &str, updated_config: CameraConfig) -> (result:
    Result<(), SupervisorError>)
    requires
        old(cameras).wf(),
    ensures
        final(cameras).wf(),
        final(cameras).keys() == old(cameras).keys(),
        match result {
            Ok(()) => {
                &&& old(cameras).has(id@)
                &&& final(cameras)@ == old(cameras)@.update(
                    old(cameras).place(id@),
                    old(cameras).camera(id@).reconfigured(updated_config@),
                )
            },
            Err(e) => {
                &&& !old(cameras).has(id@)
                &&& final(cameras)@ == old(cameras)@
                &&& e@ == (SupervisorErrorView::NotFound { id: id@ })
            },
        },
{
    let i = match cameras.find(id) {
        Some(i) => i,
        None => {
            return Err(SupervisorError::NotFound { id: String::from_str(id) });
        },
    };
    let mut camera = cameras.take_out(i);
    camera.config = updated_config;
    cameras.put_back(Ghost(old(cameras)@), i, camera);
    proof {
        lemma_update_keeps_policies_valid(old(cameras)@, i as int, camera@);
    }
    Ok(())
}

/// Takes the camera registered under `id` out of the registry and returns
/// the process to kill, if the camera still owned one.
pub fn remove_camera(cameras: &mut CameraRegistry, id: &str) -> (result: Result<
    Option<u32>,
    SupervisorError,
>)
    requires
        old(cameras).wf(),
    ensures
        final(cameras).wf(),
        match result {
            Ok(to_kill) => {
                &&& old(cameras).has(id@)
                &&& !final(cameras).has(id@)
                &&& final(cameras)@ == old(cameras)@.remove(old(cameras).place(id@))
                &&& final(cameras).keys() == old(cameras).keys().remove(old(cameras).place(id@))
                &&& to_kill == old(cameras).camera(id@).owned_process()
            },
            Err(e) => {
                &&& !old(cameras).has(id@)
                &&& final(cameras)@ == old(cameras)@
                &&& final(cameras).keys() == old(cameras).keys()
                &&& e@ == (SupervisorErrorView::NotFound { id: id@ })
            },
        },
{
    let i = match cameras.find(id) {
        Some(i) => i,
        None => {
            return Err(SupervisorError::NotFound { id: String::from_str(id) });
        },
    };
    let camera = cameras.entries.remove(i);
    let removed = cameras.ids.remove(i);
    proof {
        let ids = old(cameras).keys();
        let before = old(cameras)@;
        let after_ids = cameras.keys();
        let after = cameras@;
        assert(after =~= before.remove(i as int));
        assert(after_ids =~= ids.remove(i as int));
        assert forall|a: int, b: int| 0 <= a < b < after_ids.len() implies #[trigger] after_ids[a]
            != #[trigger] after_ids[b] by {
            let a0 = if a < i { a } else { a + 1 };
            let b0 = if b < i { b } else { b + 1 };
            assert(ids[a0] != ids[b0]);
        }
        assert forall|a: int| 0 <= a < after.len() implies (
        #[trigger] after[a]).reconnect_policy.valid() by {
            let a0 = if a < i { a } else { a + 1 };
            assert(before[a0].reconnect_policy.valid());
        }
        if has_id(after_ids, id@) {
            let a = index_of(after_ids, id@);
            let a0 = if a < i { a } else { a + 1 };
            assert(ids[a0] == id@);
            lemma_index_is_unique(ids, a0, i as int);
        }
    }
    match camera.process {
        Some(handle) => Ok(handle.child),
        None => Ok(None),
    }
}

/// Stops the camera registered under `id` and returns the process to kill,
/// if there is one. A camera that is stopped already stays exactly as it is
/// and nothing is to be killed. Any other camera gives up its handle and
/// becomes stopped, whatever the killing will come to.
pub fn stop_camera(cameras: &mut CameraRegistry, id: &str) -> (result: Result<
    Option<u32>,
    SupervisorError,
>)
    requires
        old(cameras).wf(),
    ensures
        final(cameras).wf(),
        final(cameras).keys() == old(cameras).keys(),
        match result {
            Ok(to_kill) => {
                &&& old(cameras).has(id@)
                &&& final(cameras)@ == old(cameras)@.update(
                    old(cameras).place(id@),
                    old(cameras).camera(id@).stopped(),
                )
                &&& to_kill == old(cameras).camera(id@).killed_by_stop()
            },
            Err(e) => {
                &&& !old(cameras).has(id@)
                &&& final(cameras)@ == old(cameras)@
                &&& e@ == (SupervisorErrorView::NotFound { id: id@ })
            },
        },
        old(cameras).has(id@) && old(cameras).camera(id@).status == ProcessStatus::Stopped ==> {
            &&& final(cameras)@ == old(cameras)@
            &&& result == Ok::<Option<u32>, SupervisorError>(None)
        },
{
    let i = match cameras.find(id) {
        Some(i) => i,
        None => {
            return Err(SupervisorError::NotFound { id: String::from_str(id) });
        },
    };
    let mut camera = cameras.take_out(i);
    let to_kill = stop_runtime(&mut camera);
    cameras.put_back(Ghost(old(cameras)@), i, camera);
    proof {
        lemma_update_keeps_policies_valid(old(cameras)@, i as int, camera@);
        if old(cameras)@[i as int].status == ProcessStatus::Stopped {
            assert(cameras@ =~= old(cameras)@);
        }
    }
    Ok(to_kill)
}

/// Stops one camera and returns the process to kill.
pub(crate) fn stop_runtime(camera: &mut CameraRuntime) -> (to_kill: Option<u32>)
    ensures
        final(camera)@ == old(camera)@.stopped(),
        to_kill == old(camera)@.killed_by_stop(),
{
    if camera.status == ProcessStatus::Stopped {
        return None;
    }
    let to_kill = match &camera.process {
        Some(handle) => handle.child,
        None => None,
    };
    camera.process = None;
    camera.status = ProcessStatus::Stopped;
    to_kill
}

/// What a listing shows of `camera`.
fn info_of(camera: &CameraRuntime) -> (info: CameraInfo)
    ensures
        info@ == camera@.info(),
{
    CameraInfo {
        id: camera.config.id.clone(),
        name: camera.config.name.clone(),
        rtsp_url: camera.config.rtsp_url.clone(),
        enabled: camera.config.enabled,
        encoding: camera.config.encoding,
        quality: camera.config.quality,
        audio_mode: camera.config.audio_mode,
        status: camera.status,
        restarts: camera.stats.restarts,
        last_restart: camera.stats.last_restart,
    }
}

/// The listing of `cameras`: one entry for each camera, in the order in
/// which the cameras were added.
pub open spec fn listing(cameras: Seq<CameraRuntimeView>) -> Seq<CameraInfoView> {
    Seq::new(cameras.len(), |i: int| cameras[i].info())
}

/// The views of a list of listing entries.
pub open spec fn info_views(infos: Seq<CameraInfo>) -> Seq<CameraInfoView> {
    Seq::new(infos.len(), |i: int| infos[i]@)
}

/// Lists every camera.
pub fn list_cameras(cameras: &CameraRegistry) -> (infos: Vec<CameraInfo>)
    ensures
        info_views(infos@) == listing(cameras@),
{
    let mut infos: Vec<CameraInfo> = Vec::new();
    let mut i: usize = 0;
    while i < cameras.entries.len()
        invariant
            i <= cameras.entries.len(),
            infos@.len() == i,
            forall|j: int| 0 <= j < i ==> (#[trigger] infos@[j])@ == cameras@[j].info(),
        decreases cameras.entries.len() - i,
    {
        let info = info_of(&cameras.entries[i]);
        infos.push(info);
        i += 1;
    }
    assert(info_views(infos@) =~= listing(cameras@));
    infos
}

/// What a look at the process of one camera found.
#[derive(Debug, PartialEq, Eq)]
pub struct LivenessReport {
    pub id: String,
    pub probe: ProbeOutcome,
}

/// A liveness report as a mathematical value.
pub struct LivenessReportView {
    pub id: Seq<char>,
    pub probe: ProbeOutcome,
}

impl View for LivenessReport {
    type V = LivenessReportView;

    open spec fn view(&self) -> LivenessReportView {
        LivenessReportView { id: self.id@, probe: self.probe }
    }
}

/// The views of a list of liveness reports.
pub open spec fn report_views(reports: Seq<LivenessReport>) -> Seq<LivenessReportView> {
    Seq::new(reports.len(), |i: int| reports[i]@)
}

/// Whether some report on the camera `id` shows the process of `handle` not
/// alive.
pub open spec fn reported_dead(
    reports: Seq<LivenessReportView>,
    id: Seq<char>,
    handle: ProcessHandleView,
) -> bool {
    exists|j: int|
        0 <= j < reports.len() && (#[trigger] reports[j]).id == id && !alive(
            handle,
            reports[j].probe,
        )
}

impl CameraRuntimeView {
    /// Whether a health sweep with these reports finds the process of this
    /// camera, registered under `id`, dead: the camera is running with a
    /// handle, and the handle has let go of its process or a report on `id`
    /// shows the process not alive.
    pub open spec fn found_dead(self, id: Seq<char>, reports: Seq<LivenessReportView>) -> bool {
        &&& self.status == ProcessStatus::Running
        &&& self.process matches Some(handle)
        &&& (handle.child is None || reported_dead(reports, id, handle))
    }

    /// This camera after a health sweep: failed and without a handle where
    /// its process was found dead, unchanged otherwise.
    pub open spec fn swept(self, id: Seq<char>, reports: Seq<LivenessReportView>)
        -> CameraRuntimeView {
        if self.found_dead(id, reports) {
            CameraRuntimeView { process: None, status: ProcessStatus::Failed, ..self }
        } else {
            self
        }
    }
}

/// The cameras of a registry after a health sweep.
pub open spec fn sweep(
    ids: Seq<Seq<char>>,
    cameras: Seq<CameraRuntimeView>,
    reports: Seq<LivenessReportView>,
) -> Seq<CameraRuntimeView> {
    Seq::new(cameras.len(), |i: int| cameras[i].swept(ids[i], reports))
}

/// Whether a health sweep with these reports finds the process of `camera`,
/// registered under `id`, dead.
fn process_found_dead(camera: &CameraRuntime, id: &String, reports: &Vec<LivenessReport>) -> (dead:
    bool)
    ensures
        dead == camera@.found_dead(id@, report_views(reports@)),
{
    if camera.status != ProcessStatus::Running {
        return false;
    }
    let handle = match &camera.process {
        Some(handle) => handle,
        None => {
            return false;
        },
    };
    if handle.child.is_none() {
        return true;
    }
    let mut j: usize = 0;
    while j < reports.len()
        invariant
            j <= reports.len(),
            camera@.status == ProcessStatus::Running,
            camera@.process == Some(handle@),
            handle@.child is Some,
            forall|k: int|
                0 <= k < j ==> !((#[trigger] report_views(reports@)[k]).id == id@ && !alive(
                    handle@,
                    report_views(reports@)[k].probe,
                )),
        decreases reports.len() - j,
    {
        let report = &reports[j];
        if report.id == *id && !is_process_running(handle, report.probe) {
            assert(report_views(reports@)[j as int] == report@);
            assert(reported_dead(report_views(reports@), id@, handle@));
            return true;
        }
        assert(report_views(reports@)[j as int] == report@);
        j += 1;
    }
    false
}

/// Sweeps the registry for dead processes. A running camera whose process is
/// found dead loses its handle and becomes failed; every other camera
/// stays as it is. Nothing is restarted.
pub fn check_cameras_health(cameras: &mut CameraRegistry, reports: &Vec<LivenessReport>)
    requires
        old(cameras).wf(),
    ensures
        final(cameras).wf(),
        final(cameras).keys() == old(cameras).keys(),
        final(cameras)@ == sweep(old(cameras).keys(), old(cameras)@, report_views(reports@)),
{
    let n = cameras.len();
    let mut i: usize = 0;
    while i < n
        invariant
            i <= n,
            n == old(cameras)@.len(),
            cameras@.len() == n,
            cameras.wf(),
            cameras.keys() == old(cameras).keys(),
            cameras.ids@.len() == n,
            forall|j: int|
                0 <= j < i ==> #[trigger] cameras@[j] == old(cameras)@[j].swept(
                    old(cameras).keys()[j],
                    report_views(reports@),
                ),
            forall|j: int| i <= j < n ==> #[trigger] cameras@[j] == old(cameras)@[j],
        decreases n - i,
    {
        let ghost before = cameras@;
        let mut camera = cameras.take_out(i);
        if process_found_dead(&camera, &cameras.ids[i], reports) {
            camera.status = ProcessStatus::Failed;
            camera.process = None;
        }
        cameras.put_back(Ghost(before), i, camera);
        proof {
            lemma_update_keeps_policies_valid(before, i as int, camera@);
        }
        i += 1;
    }
    assert(cameras@ =~= sweep(old(cameras).keys(), old(cameras)@, report_views(reports@)));
}

/// A process to look at in a health sweep.
#[derive(Debug, PartialEq, Eq)]
pub struct ProbeTarget {
    pub id: String,
    pub pid: u32,
}

impl CameraRuntimeView {
    /// The process to look at in a health sweep: that of a running camera
    /// whose handle still owns one.
    pub open spec fn process_to_probe(self) -> Option<u32> {
        if self.status == ProcessStatus::Running {
            self.owned_process()
        } else {
            None
        }
    }
}

/// A probe target as a mathematical value: the camera's id and the process.
pub open spec fn target_views(targets: Seq<ProbeTarget>) -> Seq<(Seq<char>, u32)> {
    Seq::new(targets.len(), |k: int| (targets[k].id@, targets[k].pid))
}

/// The processes to look at among the first `n` cameras, each with the id
/// of its camera, in the order of the registry.
pub open spec fn processes_to_probe(
    ids: Seq<Seq<char>>,
    cameras: Seq<CameraRuntimeView>,
    n: nat,
) -> Seq<(Seq<char>, u32)>
    decreases n,
{
    if n == 0 {
        Seq::empty()
    } else {
        let earlier = processes_to_probe(ids, cameras, (n - 1) as nat);
        match cameras[n - 1].process_to_probe() {
            Some(pid) => earlier.push((ids[n - 1], pid)),
            None => earlier,
        }
    }
}

/// The processes to look at in a health sweep: one target for each running
/// camera whose handle still owns a process, under the id of the camera, in
/// the order of the registry.
pub fn probe_targets(cameras: &CameraRegistry) -> (targets: Vec<ProbeTarget>)
    requires
        cameras.wf(),
    ensures
        target_views(targets@) == processes_to_probe(cameras.keys(), cameras@, cameras@.len()),
{
    let mut targets: Vec<ProbeTarget> = Vec::new();
    let mut i: usize = 0;
    proof {
        assert(target_views(targets@) =~= Seq::<(Seq<char>, u32)>::empty());
    }
    while i < cameras.entries.len()
        invariant
            cameras.wf(),
            cameras.ids@.len() == cameras.entries@.len(),
            i <= cameras.entries.len(),
            target_views(targets@) == processes_to_probe(cameras.keys(), cameras@, i as nat),
        decreases cameras.entries.len() - i,
    {
        let camera = &cameras.entries[i];
        let ghost before = target_views(targets@);
        if camera.status == ProcessStatus::Running {
            match &camera.process {
                Some(handle) => match handle.child {
                    Some(pid) => {
                        targets.push(ProbeTarget { id: cameras.ids[i].clone(), pid });
                        assert(target_views(targets@) =~= before.push(
                            (cameras.keys()[i as int], pid),
                        ));
                    },
                    None => {},
                },
                None => {},
            }
        }
        i += 1;
    }
    targets
}

/// The registry after every camera was stopped.
pub open spec fn all_stopped(cameras: Seq<CameraRuntimeView>) -> Seq<CameraRuntimeView> {
    Seq::new(cameras.len(), |i: int| cameras[i].stopped())
}

/// The processes to kill when every camera of `cameras` is stopped, in the
/// order of the registry.
pub open spec fn killed_by_stop_all(cameras: Seq<CameraRuntimeView>) -> Seq<u32>
    decreases cameras.len(),
{
    if cameras.len() == 0 {
        Seq::empty()
    } else {
        let earlier = killed_by_stop_all(cameras.drop_last());
        match cameras.last().killed_by_stop() {
            Some(pid) => earlier.push(pid),
            None => earlier,
        }
    }
}

/// Stops every camera and returns the processes to kill: those that the
/// cameras which were not stopped still owned, in the order of the
/// registry. Whatever the killing comes to, every camera ends up stopped.
pub fn stop_all_cameras(cameras: &mut CameraRegistry) -> (to_kill: Vec<u32>)
    requires
        old(cameras).wf(),
    ensures
        final(cameras).wf(),
        final(cameras).keys() == old(cameras).keys(),
        final(cameras)@ == all_stopped(old(cameras)@),
        to_kill@ == killed_by_stop_all(old(cameras)@),
{
    let mut to_kill: Vec<u32> = Vec::new();
    let n = cameras.len();
    let mut i: usize = 0;
    proof {
        assert(old(cameras)@.take(0) =~= Seq::<CameraRuntimeView>::empty());
    }
    while i < n
        invariant
            i <= n,
            n == old(cameras)@.len(),
            cameras@.len() == n,
            cameras.wf(),
            cameras.keys() == old(cameras).keys(),
            forall|j: int| 0 <= j < i ==> #[trigger] cameras@[j] == old(cameras)@[j].stopped(),
            forall|j: int| i <= j < n ==> #[trigger] cameras@[j] == old(cameras)@[j],
            to_kill@ == killed_by_stop_all(old(cameras)@.take(i as int)),
        decreases n - i,
    {
        let ghost before = cameras@;
        let mut camera = cameras.take_out(i);
        let released = stop_runtime(&mut camera);
        cameras.put_back(Ghost(before), i, camera);
        match released {
            Some(pid) => {
                to_kill.push(pid);
            },
            None => {},
        }
        proof {
            lemma_update_keeps_policies_valid(before, i as int, camera@);
            assert(old(cameras)@.take(i + 1).drop_last() =~= old(cameras)@.take(i as int));
            assert(old(cameras)@.take(i + 1).last() == old(cameras)@[i as int]);
        }
        i += 1;
    }
    proof {
        assert(cameras@ =~= all_stopped(old(cameras)@));
        assert(old(cameras)@.take(n as int) =~= old(cameras)@);
    }
    to_kill
}

/// The configurations of a list of cameras.
pub open spec fn configs_of(cameras: Seq<CameraRuntimeView>) -> Seq<CameraConfigView> {
    Seq::new(cameras.len(), |i: int| cameras[i].config)
}

/// The views of a list of configurations.
pub open spec fn config_views(configs: Seq<CameraConfig>) -> Seq<CameraConfigView> {
    Seq::new(configs.len(), |i: int| configs[i]@)
}

/// The configuration of every camera, in the order of the registry: what
/// is kept on disk of a registry.
pub fn camera_configs(cameras: &CameraRegistry) -> (configs: Vec<CameraConfig>)
    ensures
        config_views(configs@) == configs_of(cameras@),
{
    let mut configs: Vec<CameraConfig> = Vec::new();
    let mut i: usize = 0;
    while i < cameras.entries.len()
        invariant
            i <= cameras.entries.len(),
            configs@.len() == i,
            forall|j: int| 0 <= j < i ==> (#[trigger] configs@[j])@ == cameras@[j].config,
        decreases cameras.entries.len() - i,
    {
        configs.push(cameras.entries[i].config.clone());
        i += 1;
    }
    assert(config_views(configs@) =~= configs_of(cameras@));
    configs
}

/// How many of `cameras` are running.
pub open spec fn running_count(cameras: Seq<CameraRuntimeView>) -> int
    decreases cameras.len(),
{
    if cameras.len() == 0 {
        0
    } else {
        running_count(cameras.drop_last()) + if cameras.last().status == ProcessStatus::Running {
            1int
        } else {
            0int
        }
    }
}

/// Counts the cameras that are running.
pub fn count_running(cameras: &CameraRegistry) -> (count: usize)
    ensures
        count == running_count(cameras@),
{
    let mut count: usize = 0;
    let mut i: usize = 0;
    assert(cameras@.take(0) =~= Seq::<CameraRuntimeView>::empty());
    while i < cameras.entries.len()
        invariant
            i <= cameras.entries.len(),
            count <= i,
            count == running_count(cameras@.take(i as int)),
        decreases cameras.entries.len() - i,
    {
        assert(cameras@.take(i + 1).drop_last() =~= cameras@.take(i as int));
        assert(cameras@.take(i + 1).last() == cameras@[i as int]);
        if cameras.entries[i].status == ProcessStatus::Running {
            count = count + 1;
        }
        i += 1;
    }
    assert(cameras@.take(cameras@.len() as int) =~= cameras@);
    count
}

} // verus!
