//! The data that every part of the supervisor shares: what a camera is
//! configured to do, what its worker process is doing, and how often it has
//! been restarted.
//!
//! Points in time are milliseconds since the Unix epoch (UTC), signed.

use vstd::prelude::*;

verus! {

/// How the video stream of a camera is produced.
#[derive(Debug, Clone, Copy, PartialEq, Eq, Structural)]
pub enum EncodingMode {
    Copy,
    Transcode,
}

/// Picture size and bitrate of a transcoded stream.
#[derive(Debug, Clone, Copy, PartialEq, Eq, Structural)]
pub enum QualityPreset {
    Low,
    Medium,
    High,
}

/// What happens to the audio track of a transcoded stream.
#[derive(Debug, Clone, Copy, PartialEq, Eq, Structural)]
pub enum AudioMode {
    Disabled,
    Copy,
    Transcode,
}

/// Where a worker stands in its life cycle.
#[derive(Debug, Clone, Copy, PartialEq, Eq, Structural)]
pub enum ProcessStatus {
    Stopped,
    Running,
    Reconnecting,
    Failed,
}

/// The encoding mode of a camera whose configuration names none.
pub fn default_encoding() -> (mode: EncodingMode)
    ensures
        mode == EncodingMode::Copy,
{
    EncodingMode::Copy
}

/// The quality preset of a camera whose configuration names none.
pub fn default_quality() -> (quality: QualityPreset)
    ensures
        quality == QualityPreset::Medium,
{
    QualityPreset::Medium
}

/// The audio mode of a camera whose configuration names none.
pub fn default_audio() -> (mode: AudioMode)
    ensures
        mode == AudioMode::Copy,
{
    AudioMode::Copy
}

/// What the user declares about one camera. The `id` identifies it.
#[derive(Debug, PartialEq, Eq)]
pub struct CameraConfig {
    pub id: String,
    pub name: String,
    pub rtsp_url: String,
    pub enabled: bool,
    pub encoding: EncodingMode,
    pub quality: QualityPreset,
    pub audio_mode: AudioMode,
}

/// A camera configuration as a mathematical value.
pub struct CameraConfigView {
    pub id: Seq<char>,
    pub name: Seq<char>,
    pub rtsp_url: Seq<char>,
    pub enabled: bool,
    pub encoding: EncodingMode,
    pub quality: QualityPreset,
    pub audio_mode: AudioMode,
}

impl View for CameraConfig {
    type V = CameraConfigView;

    open spec fn view(&self) -> CameraConfigView {
        CameraConfigView {
            id: self.id@,
            name: self.name@,
            rtsp_url: self.rtsp_url@,
            enabled: self.enabled,
            encoding: self.encoding,
            quality: self.quality,
            audio_mode: self.audio_mode,
        }
    }
}

impl Clone for CameraConfig {
    fn clone(&self) -> (copy: Self)
        ensures
            copy == *self,
    {
        CameraConfig {
            id: self.id.clone(),
            name: self.name.clone(),
            rtsp_url: self.rtsp_url.clone(),
            enabled: self.enabled,
            encoding: self.encoding,
            quality: self.quality,
            audio_mode: self.audio_mode,
        }
    }
}

/// How a failed worker is retried. The multiplier is held in thousandths:
/// `2000` doubles the delay with every attempt, `1500` grows it by half.
#[derive(Debug, Clone, Copy, PartialEq, Eq)]
pub struct ReconnectPolicy {
    pub enabled: bool,
    pub max_retries: u32,
    pub retry_delay_ms: u64,
    pub backoff_multiplier_milli: u32,
    pub max_delay_ms: u64,
    pub reset_counter_after_ms: u64,
}

impl ReconnectPolicy {
    /// A policy is valid when its multiplier is at least one.
    pub open spec fn valid(&self) -> bool {
        self.backoff_multiplier_milli >= 1000
    }

    /// Whether the policy is valid.
    pub fn is_valid(&self) -> (ok: bool)
        ensures
            ok == self.valid(),
    {
        self.backoff_multiplier_milli >= 1000
    }

    /// The policy that `default` returns.
    pub open spec fn standard() -> ReconnectPolicy {
        ReconnectPolicy {
            enabled: true,
            max_retries: 10,
            retry_delay_ms: 3000,
            backoff_multiplier_milli: 2000,
            max_delay_ms: 60000,
            reset_counter_after_ms: 300000,
        }
    }
}

impl Default for ReconnectPolicy {
    fn default() -> (policy: Self)
        ensures
            policy == ReconnectPolicy::standard(),
            policy.valid(),
    {
        ReconnectPolicy {
            enabled: true,
            max_retries: 10,
            retry_delay_ms: 3000,
            backoff_multiplier_milli: 2000,
            max_delay_ms: 60000,
            reset_counter_after_ms: 300000,
        }
    }
}

/// What a worker's restarts have added up to. `restarts` counts every
/// recorded failure over the worker's life and never decreases; it and
/// `consecutive_failures` stop at `u32::MAX`.
#[derive(Debug, Clone, Copy, PartialEq, Eq)]
pub struct ReconnectStats {
    pub restarts: u32,
    pub last_restart: Option<i64>,
    pub last_stable_time: Option<i64>,
    pub consecutive_failures: u32,
    pub total_uptime_secs: u64,
}

/// `n + 1`, or `u32::MAX` where that does not fit.
pub open spec fn bump(n: u32) -> u32 {
    if n < u32::MAX {
        (n + 1) as u32
    } else {
        n
    }
}

impl ReconnectStats {
    /// The statistics of a worker that was never started.
    pub open spec fn fresh() -> ReconnectStats {
        ReconnectStats {
            restarts: 0,
            last_restart: None,
            last_stable_time: None,
            consecutive_failures: 0,
            total_uptime_secs: 0,
        }
    }

    /// These statistics after one more failure, seen at `now`.
    pub open spec fn with_restart(self, now: i64) -> ReconnectStats {
        ReconnectStats {
            restarts: bump(self.restarts),
            consecutive_failures: bump(self.consecutive_failures),
            last_restart: Some(now),
            ..self
        }
    }

    /// These statistics after a success, seen at `now`.
    pub open spec fn with_success(self, now: i64) -> ReconnectStats {
        ReconnectStats { consecutive_failures: 0, last_stable_time: Some(now), ..self }
    }

    /// These statistics with the run of failures forgiven.
    pub open spec fn with_counter_reset(self) -> ReconnectStats {
        ReconnectStats { consecutive_failures: 0, ..self }
    }

    /// Whether, at `now`, the worker has been stable for the policy's whole
    /// stability window since its last success.
    pub open spec fn reset_due(self, policy: ReconnectPolicy, now: i64) -> bool {
        match self.last_stable_time {
            Some(stable) => now - stable >= policy.reset_counter_after_ms,
            None => false,
        }
    }

    /// Records a failure seen at `now`.
    pub fn record_restart(&mut self, now: i64)
        ensures
            *final(self) == old(self).with_restart(now),
    {
        self.restarts = self.restarts.saturating_add(1);
        self.consecutive_failures = self.consecutive_failures.saturating_add(1);
        self.last_restart = Some(now);
    }

    /// Records a success seen at `now`.
    pub fn record_success(&mut self, now: i64)
        ensures
            *final(self) == old(self).with_success(now),
    {
        self.consecutive_failures = 0;
        self.last_stable_time = Some(now);
    }

    /// Whether the run of failures is to be forgiven at `now`: never before
    /// a first success, and afterwards exactly when the stability window has
    /// passed since the last one.
    pub fn should_reset_counter(&self, policy: &ReconnectPolicy, now: i64) -> (due: bool)
        ensures
            due == self.reset_due(*policy, now),
            self.last_stable_time is None ==> !due,
    {
        match self.last_stable_time {
            Some(stable) => {
                let elapsed: i128 = now as i128 - stable as i128;
                elapsed >= policy.reset_counter_after_ms as i128
            },
            None => false,
        }
    }
}

impl Default for ReconnectStats {
    fn default() -> (stats: Self)
        ensures
            stats == ReconnectStats::fresh(),
    {
        ReconnectStats {
            restarts: 0,
            last_restart: None,
            last_stable_time: None,
            consecutive_failures: 0,
            total_uptime_secs: 0,
        }
    }
}

/// What the supervisor knows of one spawned OS process. `child` names the
/// process that the handle still owns, by its OS identifier; it is `None`
/// once the process has been released. `pid` stays for display.
#[derive(Debug, PartialEq, Eq)]
pub struct ProcessHandle {
    pub child: Option<u32>,
    pub pid: Option<u32>,
    pub started_at: i64,
    pub name: String,
}

/// A process handle as a mathematical value.
pub struct ProcessHandleView {
    pub child: Option<u32>,
    pub pid: Option<u32>,
    pub started_at: i64,
    pub name: Seq<char>,
}

impl View for ProcessHandle {
    type V = ProcessHandleView;

    open spec fn view(&self) -> ProcessHandleView {
        ProcessHandleView {
            child: self.child,
            pid: self.pid,
            started_at: self.started_at,
            name: self.name@,
        }
    }
}

/// The whole seconds from `started_at` to `now`, zero where the clock ran
/// backwards.
pub open spec fn uptime_secs(started_at: i64, now: i64) -> int {
    if now >= started_at {
        (now - started_at) / 1000
    } else {
        0
    }
}

impl ProcessHandle {
    /// The handle of the process `pid`, spawned at `started_at`.
    pub fn new(name: String, pid: u32, started_at: i64) -> (handle: Self)
        ensures
            handle@ == (ProcessHandleView {
                child: Some(pid),
                pid: Some(pid),
                started_at,
                name: name@,
            }),
    {
        ProcessHandle { child: Some(pid), pid: Some(pid), started_at, name }
    }

    /// For how many whole seconds the process has been up at `now`.
    pub fn uptime(&self, now: i64) -> (secs: u64)
        ensures
            secs == uptime_secs(self.started_at, now),
    {
        if now >= self.started_at {
            let elapsed: i128 = now as i128 - self.started_at as i128;
            (elapsed / 1000) as u64
        } else {
            0
        }
    }
}

impl Clone for ProcessHandle {
    fn clone(&self) -> (copy: Self)
        ensures
            copy == *self,
    {
        ProcessHandle {
            child: self.child,
            pid: self.pid,
            started_at: self.started_at,
            name: self.name.clone(),
        }
    }
}

/// One camera under supervision: its configuration, the process that
/// serves it, and the record of its restarts.
#[derive(Debug, PartialEq, Eq)]
pub struct CameraRuntime {
    pub config: CameraConfig,
    pub process: Option<ProcessHandle>,
    pub status: ProcessStatus,
    pub stats: ReconnectStats,
    pub reconnect_policy: ReconnectPolicy,
}

/// A camera under supervision as a mathematical value.
pub struct CameraRuntimeView {
    pub config: CameraConfigView,
    pub process: Option<ProcessHandleView>,
    pub status: ProcessStatus,
    pub stats: ReconnectStats,
    pub reconnect_policy: ReconnectPolicy,
}

/// The view of a handle that may be absent.
pub open spec fn process_view(process: Option<ProcessHandle>) -> Option<ProcessHandleView> {
    match process {
        Some(handle) => Some(handle@),
        None => None,
    }
}

impl View for CameraRuntime {
    type V = CameraRuntimeView;

    open spec fn view(&self) -> CameraRuntimeView {
        CameraRuntimeView {
            config: self.config@,
            process: process_view(self.process),
            status: self.status,
            stats: self.stats,
            reconnect_policy: self.reconnect_policy,
        }
    }
}

impl CameraRuntimeView {
    /// A camera that was registered and never started.
    pub open spec fn registered(config: CameraConfigView) -> CameraRuntimeView {
        CameraRuntimeView {
            config,
            process: None,
            status: ProcessStatus::Stopped,
            stats: ReconnectStats::fresh(),
            reconnect_policy: ReconnectPolicy::standard(),
        }
    }
}

impl CameraRuntime {
    /// A camera with this configuration, stopped, with no process and the
    /// default retry policy.
    pub fn new(config: CameraConfig) -> (runtime: Self)
        ensures
            runtime.config == config,
            runtime@ == CameraRuntimeView::registered(config@),
    {
        CameraRuntime {
            config,
            process: None,
            status: ProcessStatus::Stopped,
            stats: ReconnectStats::default(),
            reconnect_policy: ReconnectPolicy::default(),
        }
    }
}

/// What a listing shows of one camera.
#[derive(Debug, PartialEq, Eq)]
pub struct CameraInfo {
    pub id: String,
    pub name: String,
    pub rtsp_url: String,
    pub enabled: bool,
    pub encoding: EncodingMode,
    pub quality: QualityPreset,
    pub audio_mode: AudioMode,
    pub status: ProcessStatus,
    pub restarts: u32,
    pub last_restart: Option<i64>,
}

/// A listing entry as a mathematical value.
pub struct CameraInfoView {
    pub id: Seq<char>,
    pub name: Seq<char>,
    pub rtsp_url: Seq<char>,
    pub enabled: bool,
    pub encoding: EncodingMode,
    pub quality: QualityPreset,
    pub audio_mode: AudioMode,
    pub status: ProcessStatus,
    pub restarts: u32,
    pub last_restart: Option<i64>,
}

impl View for CameraInfo {
    type V = CameraInfoView;

    open spec fn view(&self) -> CameraInfoView {
        CameraInfoView {
            id: self.id@,
            name: self.name@,
            rtsp_url: self.rtsp_url@,
            enabled: self.enabled,
            encoding: self.encoding,
            quality: self.quality,
            audio_mode: self.audio_mode,
            status: self.status,
            restarts: self.restarts,
            last_restart: self.last_restart,
        }
    }
}

impl CameraRuntimeView {
    /// What a listing shows of this camera.
    pub open spec fn info(self) -> CameraInfoView {
        CameraInfoView {
            id: self.config.id,
            name: self.config.name,
            rtsp_url: self.config.rtsp_url,
            enabled: self.config.enabled,
            encoding: self.config.encoding,
            quality: self.config.quality,
            audio_mode: self.config.audio_mode,
            status: self.status,
            restarts: self.stats.restarts,
            last_restart: self.stats.last_restart,
        }
    }
}

/// A listing of cameras.
#[derive(Debug, PartialEq, Eq)]
pub struct CameraList {
    pub cameras: Vec<CameraInfo>,
}

/// The set of camera configurations as it is kept on disk.
#[derive(Debug, PartialEq, Eq)]
pub struct CamerasConfigFile {
    pub cameras: Vec<CameraConfig>,
}

impl Default for CamerasConfigFile {
    fn default() -> (file: Self)
        ensures
            file.cameras@.len() == 0,
    {
        CamerasConfigFile { cameras: Vec::new() }
    }
}

/// What the agent as a whole is configured with.
#[derive(Debug, PartialEq, Eq)]
pub struct AgentConfig {
    pub server_url: String,
    pub location_id: String,
    pub location_name: String,
    pub tunnel_name: String,
    pub tunnel_id: Option<String>,
    pub tunnel_hostname: Option<String>,
}

/// The text of a string that may be absent.
pub open spec fn text_of(text: Option<String>) -> Option<Seq<char>> {
    match text {
        Some(text) => Some(text@),
        None => None,
    }
}

impl Default for AgentConfig {
    fn default() -> (config: Self)
        ensures
            config.server_url@ == "https://padel.noaservice.org"@,
            config.location_id@ == "1"@,
            config.location_name@ == "Ubicación Principal"@,
            config.tunnel_name@ == "stream-agent"@,
            config.tunnel_id is None,
            config.tunnel_hostname is None,
    {
        AgentConfig {
            server_url: String::from_str("https://padel.noaservice.org"),
            location_id: String::from_str("1"),
            location_name: String::from_str("Ubicación Principal"),
            tunnel_name: String::from_str("stream-agent"),
            tunnel_id: None,
            tunnel_hostname: None,
        }
    }
}

/// What the agent as a whole is doing.
#[derive(Debug, PartialEq, Eq)]
pub struct AgentStatus {
    pub running: bool,
    pub mediamtx_running: bool,
    pub cloudflared_running: bool,
    pub cameras_running: u32,
    pub cameras_total: u32,
    pub tunnel_url: Option<String>,
    pub uptime_secs: u64,
}

} // verus!
