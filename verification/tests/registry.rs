use stream_agent::app_state::{
    AudioMode, CameraConfig, CameraRuntime, EncodingMode, ProcessHandle, ProcessStatus,
    QualityPreset, ReconnectPolicy, ReconnectStats,
};
use stream_agent::camera_manager::{
    add_camera, camera_configs, check_cameras_health, count_running, list_cameras, probe_targets,
    remove_camera, stop_all_cameras, stop_camera, update_camera, CameraRegistry, LivenessReport,
    ProbeTarget,
};
use stream_agent::camera_start::complete_start;
use stream_agent::error::SupervisorError;
use stream_agent::process_manager::ProbeOutcome;

fn config(id: &str) -> CameraConfig {
    CameraConfig {
        id: id.to_string(),
        name: format!("Camera {}", id),
        rtsp_url: format!("rtsp://10.0.0.1/{}", id),
        enabled: true,
        encoding: EncodingMode::Copy,
        quality: QualityPreset::Medium,
        audio_mode: AudioMode::Copy,
    }
}

fn registry(ids: &[&str]) -> CameraRegistry {
    let mut cameras = CameraRegistry::new();
    for id in ids {
        add_camera(&mut cameras, config(id)).unwrap();
    }
    cameras
}

fn run(cameras: &mut CameraRegistry, id: &str, pid: u32) {
    complete_start(cameras, id, ProcessHandle::new(format!("ffmpeg-{}", id), pid, 1000), 2000)
        .unwrap();
}

fn report(id: &str, probe: ProbeOutcome) -> LivenessReport {
    LivenessReport { id: id.to_string(), probe }
}

#[test]
fn a_new_registry_is_empty() {
    let cameras = CameraRegistry::new();
    assert_eq!(cameras.len(), 0);
    assert!(cameras.is_empty());
    assert!(!cameras.contains("a"));
    assert!(cameras.get("a").is_none());
    assert!(list_cameras(&cameras).is_empty());
}

#[test]
fn add_registers_a_stopped_camera() {
    let mut cameras = CameraRegistry::new();
    assert_eq!(add_camera(&mut cameras, config("a")), Ok(()));
    assert_eq!(cameras.len(), 1);
    assert!(cameras.contains("a"));
    let camera = cameras.get("a").unwrap();
    assert_eq!(
        *camera,
        CameraRuntime {
            config: config("a"),
            process: None,
            status: ProcessStatus::Stopped,
            stats: ReconnectStats::default(),
            reconnect_policy: ReconnectPolicy::default(),
        }
    );
    assert_eq!(*camera, CameraRuntime::new(config("a")));
}

#[test]
fn add_refuses_a_duplicate_id_and_changes_nothing() {
    let mut cameras = registry(&["a", "b"]);
    run(&mut cameras, "a", 10);
    let before = list_cameras(&cameras);
    let mut other = config("a");
    other.name = "another".to_string();
    assert_eq!(
        add_camera(&mut cameras, other),
        Err(SupervisorError::DuplicateId { id: "a".to_string() })
    );
    assert_eq!(cameras.len(), 2);
    assert_eq!(list_cameras(&cameras), before);
    assert_eq!(cameras.get("a").unwrap().config.name, "Camera a");
}

#[test]
fn update_replaces_the_configuration_in_place() {
    let mut cameras = registry(&["a", "b", "c"]);
    run(&mut cameras, "b", 20);
    let mut updated = config("b");
    updated.name = "renamed".to_string();
    updated.rtsp_url = "rtsp://elsewhere".to_string();
    updated.enabled = false;
    updated.encoding = EncodingMode::Transcode;
    updated.quality = QualityPreset::High;
    updated.audio_mode = AudioMode::Disabled;
    assert_eq!(update_camera(&mut cameras, "b", updated), Ok(()));
    let camera = cameras.get("b").unwrap();
    assert_eq!(camera.config.name, "renamed");
    assert_eq!(camera.config.rtsp_url, "rtsp://elsewhere");
    assert!(!camera.config.enabled);
    assert_eq!(camera.config.encoding, EncodingMode::Transcode);
    assert_eq!(camera.config.quality, QualityPreset::High);
    assert_eq!(camera.config.audio_mode, AudioMode::Disabled);
    assert_eq!(camera.status, ProcessStatus::Running);
    assert_eq!(camera.process.as_ref().unwrap().pid, Some(20));
    let ids: Vec<String> = list_cameras(&cameras).into_iter().map(|info| info.id).collect();
    assert_eq!(ids, vec!["a", "b", "c"]);
}

#[test]
fn update_replaces_the_whole_configuration_and_keeps_the_place() {
    let mut cameras = registry(&["a", "b"]);
    run(&mut cameras, "a", 10);
    let stats = cameras.get("a").unwrap().stats;
    assert_eq!(update_camera(&mut cameras, "a", config("z")), Ok(()));
    assert_eq!(cameras.len(), 2);
    let camera = cameras.get("a").unwrap();
    assert_eq!(camera.config, config("z"));
    assert_eq!(camera.status, ProcessStatus::Running);
    assert_eq!(camera.process.as_ref().unwrap().child, Some(10));
    assert_eq!(camera.stats, stats);
    assert_eq!(camera.reconnect_policy, ReconnectPolicy::default());
    assert_eq!(*cameras.get("b").unwrap(), CameraRuntime::new(config("b")));
    // The camera stays registered under the id it was added with.
    assert!(cameras.contains("a"));
    assert!(!cameras.contains("z"));
    assert_eq!(
        update_camera(&mut cameras, "z", config("z")),
        Err(SupervisorError::NotFound { id: "z".to_string() })
    );
    assert_eq!(add_camera(&mut cameras, config("z")), Ok(()));
    assert_eq!(
        add_camera(&mut cameras, config("a")),
        Err(SupervisorError::DuplicateId { id: "a".to_string() })
    );
    let ids: Vec<String> = list_cameras(&cameras).into_iter().map(|info| info.id).collect();
    assert_eq!(ids, vec!["z", "b", "z"]);
    assert_eq!(stop_camera(&mut cameras, "a"), Ok(Some(10)));
    assert_eq!(remove_camera(&mut cameras, "a"), Ok(None));
    assert_eq!(cameras.get("z").unwrap().status, ProcessStatus::Stopped);
    assert_eq!(cameras.len(), 2);
}

#[test]
fn a_sweep_goes_by_the_id_a_camera_was_added_with() {
    let mut cameras = registry(&["a", "b"]);
    run(&mut cameras, "a", 10);
    run(&mut cameras, "b", 20);
    update_camera(&mut cameras, "a", config("b")).unwrap();
    assert_eq!(
        probe_targets(&cameras),
        vec![
            ProbeTarget { id: "a".to_string(), pid: 10 },
            ProbeTarget { id: "b".to_string(), pid: 20 }
        ]
    );
    check_cameras_health(&mut cameras, &vec![report("b", ProbeOutcome::Exited)]);
    assert_eq!(cameras.get("a").unwrap().status, ProcessStatus::Running);
    assert_eq!(cameras.get("b").unwrap().status, ProcessStatus::Failed);
}

#[test]
fn update_of_an_unknown_camera_is_refused() {
    let mut cameras = registry(&["a"]);
    assert_eq!(
        update_camera(&mut cameras, "x", config("x")),
        Err(SupervisorError::NotFound { id: "x".to_string() })
    );
    assert_eq!(cameras.len(), 1);
    assert_eq!(*cameras.get("a").unwrap(), CameraRuntime::new(config("a")));
}

#[test]
fn remove_hands_back_the_process_to_kill() {
    let mut cameras = registry(&["a", "b", "c"]);
    run(&mut cameras, "b", 20);
    assert_eq!(remove_camera(&mut cameras, "b"), Ok(Some(20)));
    assert!(!cameras.contains("b"));
    assert_eq!(remove_camera(&mut cameras, "a"), Ok(None));
    assert_eq!(
        remove_camera(&mut cameras, "a"),
        Err(SupervisorError::NotFound { id: "a".to_string() })
    );
    let ids: Vec<String> = list_cameras(&cameras).into_iter().map(|info| info.id).collect();
    assert_eq!(ids, vec!["c"]);
}

#[test]
fn stop_releases_the_handle() {
    let mut cameras = registry(&["a", "b"]);
    run(&mut cameras, "a", 10);
    assert_eq!(stop_camera(&mut cameras, "a"), Ok(Some(10)));
    let camera = cameras.get("a").unwrap();
    assert_eq!(camera.status, ProcessStatus::Stopped);
    assert!(camera.process.is_none());
    assert_eq!(*cameras.get("b").unwrap(), CameraRuntime::new(config("b")));
}

#[test]
fn stop_of_a_stopped_camera_twice_changes_nothing() {
    let mut cameras = registry(&["a"]);
    let before = list_cameras(&cameras);
    assert_eq!(stop_camera(&mut cameras, "a"), Ok(None));
    assert_eq!(list_cameras(&cameras), before);
    assert_eq!(*cameras.get("a").unwrap(), CameraRuntime::new(config("a")));
    assert_eq!(stop_camera(&mut cameras, "a"), Ok(None));
    assert_eq!(list_cameras(&cameras), before);
    assert_eq!(*cameras.get("a").unwrap(), CameraRuntime::new(config("a")));

    run(&mut cameras, "a", 10);
    assert_eq!(stop_camera(&mut cameras, "a"), Ok(Some(10)));
    let after_first = list_cameras(&cameras);
    assert_eq!(stop_camera(&mut cameras, "a"), Ok(None));
    assert_eq!(stop_camera(&mut cameras, "a"), Ok(None));
    assert_eq!(list_cameras(&cameras), after_first);
    assert!(cameras.get("a").unwrap().process.is_none());
}

#[test]
fn stop_of_an_unknown_camera_is_refused() {
    let mut cameras = registry(&["a"]);
    assert_eq!(
        stop_camera(&mut cameras, "zz"),
        Err(SupervisorError::NotFound { id: "zz".to_string() })
    );
}

#[test]
fn stop_clears_a_failed_camera_too() {
    let mut cameras = registry(&["a"]);
    run(&mut cameras, "a", 10);
    check_cameras_health(&mut cameras, &vec![report("a", ProbeOutcome::Exited)]);
    assert_eq!(cameras.get("a").unwrap().status, ProcessStatus::Failed);
    assert_eq!(stop_camera(&mut cameras, "a"), Ok(None));
    assert_eq!(cameras.get("a").unwrap().status, ProcessStatus::Stopped);
}

#[test]
fn list_shows_every_camera_in_order() {
    let mut cameras = registry(&["b", "a"]);
    run(&mut cameras, "a", 10);
    let infos = list_cameras(&cameras);
    assert_eq!(infos.len(), 2);
    assert_eq!(infos[0].id, "b");
    assert_eq!(infos[0].name, "Camera b");
    assert_eq!(infos[0].rtsp_url, "rtsp://10.0.0.1/b");
    assert!(infos[0].enabled);
    assert_eq!(infos[0].encoding, EncodingMode::Copy);
    assert_eq!(infos[0].quality, QualityPreset::Medium);
    assert_eq!(infos[0].audio_mode, AudioMode::Copy);
    assert_eq!(infos[0].status, ProcessStatus::Stopped);
    assert_eq!(infos[0].restarts, 0);
    assert_eq!(infos[0].last_restart, None);
    assert_eq!(infos[1].id, "a");
    assert_eq!(infos[1].status, ProcessStatus::Running);
    assert_eq!(list_cameras(&cameras), infos);
}

#[test]
fn health_sweep_fails_cameras_whose_process_died() {
    let mut cameras = registry(&["a", "b", "c", "d"]);
    run(&mut cameras, "a", 10);
    run(&mut cameras, "b", 20);
    run(&mut cameras, "c", 30);
    let reports = vec![
        report("a", ProbeOutcome::StillRunning),
        report("b", ProbeOutcome::Exited),
        report("c", ProbeOutcome::ProbeFailed),
        report("d", ProbeOutcome::Exited),
        report("nobody", ProbeOutcome::Exited),
    ];
    check_cameras_health(&mut cameras, &reports);
    assert_eq!(cameras.get("a").unwrap().status, ProcessStatus::Running);
    assert_eq!(cameras.get("a").unwrap().process.as_ref().unwrap().child, Some(10));
    assert_eq!(cameras.get("b").unwrap().status, ProcessStatus::Failed);
    assert!(cameras.get("b").unwrap().process.is_none());
    assert_eq!(cameras.get("c").unwrap().status, ProcessStatus::Failed);
    assert!(cameras.get("c").unwrap().process.is_none());
    assert_eq!(*cameras.get("d").unwrap(), CameraRuntime::new(config("d")));
    assert_eq!(count_running(&cameras), 1);
}

#[test]
fn health_sweep_without_reports_keeps_running_cameras() {
    let mut cameras = registry(&["a"]);
    run(&mut cameras, "a", 10);
    check_cameras_health(&mut cameras, &Vec::new());
    assert_eq!(cameras.get("a").unwrap().status, ProcessStatus::Running);
}

#[test]
fn health_sweep_fails_a_camera_whose_handle_let_go() {
    let mut cameras = registry(&["a"]);
    let mut handle = ProcessHandle::new("ffmpeg-a".to_string(), 10, 1000);
    handle.child = None;
    complete_start(&mut cameras, "a", handle, 2000).unwrap();
    check_cameras_health(&mut cameras, &Vec::new());
    assert_eq!(cameras.get("a").unwrap().status, ProcessStatus::Failed);
    assert!(cameras.get("a").unwrap().process.is_none());
}

#[test]
fn one_bad_report_among_good_ones_counts() {
    let mut cameras = registry(&["a"]);
    run(&mut cameras, "a", 10);
    let reports =
        vec![report("a", ProbeOutcome::StillRunning), report("a", ProbeOutcome::Exited)];
    check_cameras_health(&mut cameras, &reports);
    assert_eq!(cameras.get("a").unwrap().status, ProcessStatus::Failed);
}

#[test]
fn probe_targets_are_the_running_processes() {
    let mut cameras = registry(&["a", "b", "c"]);
    run(&mut cameras, "a", 10);
    run(&mut cameras, "c", 30);
    assert_eq!(
        probe_targets(&cameras),
        vec![
            ProbeTarget { id: "a".to_string(), pid: 10 },
            ProbeTarget { id: "c".to_string(), pid: 30 }
        ]
    );
    stop_camera(&mut cameras, "a").unwrap();
    assert_eq!(probe_targets(&cameras), vec![ProbeTarget { id: "c".to_string(), pid: 30 }]);
}

#[test]
fn stop_all_stops_everything_and_lists_what_to_kill() {
    let mut cameras = registry(&["a", "b", "c"]);
    run(&mut cameras, "a", 10);
    run(&mut cameras, "c", 30);
    check_cameras_health(&mut cameras, &vec![report("c", ProbeOutcome::Exited)]);
    assert_eq!(stop_all_cameras(&mut cameras), vec![10]);
    for info in list_cameras(&cameras) {
        assert_eq!(info.status, ProcessStatus::Stopped);
    }
    assert!(cameras.get("a").unwrap().process.is_none());
    assert_eq!(stop_all_cameras(&mut cameras), Vec::<u32>::new());
    assert_eq!(count_running(&cameras), 0);
}

#[test]
fn configurations_come_out_as_they_went_in() {
    let mut cameras = registry(&["a", "b"]);
    let mut updated = config("b");
    updated.quality = QualityPreset::Low;
    update_camera(&mut cameras, "b", updated).unwrap();
    let mut expected_b = config("b");
    expected_b.quality = QualityPreset::Low;
    assert_eq!(camera_configs(&cameras), vec![config("a"), expected_b]);
    cameras.clear();
    assert!(camera_configs(&cameras).is_empty());
    assert!(cameras.is_empty());
}
