use stream_agent::app_state::{AudioMode, EncodingMode, ProcessHandle, QualityPreset};
use stream_agent::process_manager::{
    build_ffmpeg_args, cloudflared_command, cloudflared_quick_tunnel_command, ffmpeg_command,
    is_process_running, mediamtx_command, quality_params, stop_process, ProbeOutcome,
};

fn input() -> Vec<&'static str> {
    vec![
        "-rtsp_transport",
        "tcp",
        "-rtsp_flags",
        "prefer_tcp",
        "-fflags",
        "+genpts+discardcorrupt",
        "-analyzeduration",
        "5000000",
        "-probesize",
        "5000000",
        "-i",
        "rtsp://cam/1",
    ]
}

fn output() -> Vec<&'static str> {
    vec!["-f", "rtsp", "-rtsp_transport", "tcp", "rtsp://localhost:8554/cam1"]
}

fn video(scale: &'static str, preset: &'static str, rates: [&'static str; 3], gop: &'static str) -> Vec<&'static str> {
    vec![
        "-vf", scale, "-c:v", "libx264", "-preset", preset, "-b:v", rates[0], "-maxrate", rates[1],
        "-bufsize", rates[2], "-g", gop, "-keyint_min", gop, "-sc_threshold", "0", "-pix_fmt",
        "yuv420p",
    ]
}

fn joined(parts: Vec<Vec<&'static str>>) -> Vec<String> {
    parts.into_iter().flatten().map(|s| s.to_string()).collect()
}

#[test]
fn copy_mode_copies_the_stream_whatever_the_rest() {
    let expected = joined(vec![input(), vec!["-c", "copy"], output()]);
    for quality in [QualityPreset::Low, QualityPreset::Medium, QualityPreset::High] {
        for audio in [AudioMode::Disabled, AudioMode::Copy, AudioMode::Transcode] {
            let args = build_ffmpeg_args(
                "rtsp://cam/1",
                "rtsp://localhost:8554/cam1",
                &EncodingMode::Copy,
                &quality,
                &audio,
            );
            assert_eq!(args, expected);
        }
    }
}

#[test]
fn transcode_low_without_audio() {
    let args = build_ffmpeg_args(
        "rtsp://cam/1",
        "rtsp://localhost:8554/cam1",
        &EncodingMode::Transcode,
        &QualityPreset::Low,
        &AudioMode::Disabled,
    );
    let expected = joined(vec![
        input(),
        video(
            "scale=640:360:force_original_aspect_ratio=decrease,fps=15",
            "fast",
            ["1000k", "1200k", "4000k"],
            "30",
        ),
        vec!["-an"],
        output(),
    ]);
    assert_eq!(args, expected);
}

#[test]
fn transcode_medium_with_copied_audio() {
    let args = build_ffmpeg_args(
        "rtsp://cam/1",
        "rtsp://localhost:8554/cam1",
        &EncodingMode::Transcode,
        &QualityPreset::Medium,
        &AudioMode::Copy,
    );
    let expected = joined(vec![
        input(),
        video(
            "scale=1280:720:force_original_aspect_ratio=decrease,fps=25",
            "medium",
            ["2500k", "3000k", "10000k"],
            "50",
        ),
        vec!["-c:a", "copy"],
        output(),
    ]);
    assert_eq!(args, expected);
}

#[test]
fn transcode_high_with_transcoded_audio() {
    let args = build_ffmpeg_args(
        "rtsp://cam/1",
        "rtsp://localhost:8554/cam1",
        &EncodingMode::Transcode,
        &QualityPreset::High,
        &AudioMode::Transcode,
    );
    let expected = joined(vec![
        input(),
        video(
            "scale=1920:1080:force_original_aspect_ratio=decrease,fps=30",
            "medium",
            ["5000k", "6000k", "20000k"],
            "60",
        ),
        vec!["-c:a", "aac", "-b:a", "128k", "-ar", "44100"],
        output(),
    ]);
    assert_eq!(args, expected);
}

#[test]
fn peak_rate_and_buffer_follow_the_bitrate() {
    for quality in [QualityPreset::Low, QualityPreset::Medium, QualityPreset::High] {
        let params = quality_params(quality);
        let bitrate: u32 = params.bitrate.trim_end_matches('k').parse().unwrap();
        assert_eq!(params.max_bitrate, format!("{}k", (bitrate as f32 * 1.2) as u32));
        assert_eq!(params.bufsize, format!("{}k", bitrate * 4));
    }
}

#[test]
fn commands_of_the_workers() {
    let ffmpeg = ffmpeg_command(
        "cam1",
        "rtsp://cam/1",
        &EncodingMode::Copy,
        &QualityPreset::Low,
        &AudioMode::Copy,
    );
    assert_eq!(ffmpeg.name, "ffmpeg-cam1");
    assert_eq!(ffmpeg.args, joined(vec![input(), vec!["-c", "copy"], output()]));

    let relay = mediamtx_command("/etc/agent/mediamtx.yml");
    assert_eq!(relay.name, "mediamtx");
    assert_eq!(relay.args, vec!["/etc/agent/mediamtx.yml"]);

    let tunnel = cloudflared_command("/etc/agent/tunnel.yml");
    assert_eq!(tunnel.name, "cloudflared");
    assert_eq!(tunnel.args, vec!["tunnel", "--config", "/etc/agent/tunnel.yml", "run"]);

    let quick = cloudflared_quick_tunnel_command(8888);
    assert_eq!(quick.name, "cloudflared-quick");
    assert_eq!(quick.args, vec!["tunnel", "--url", "http://localhost:8888"]);
    assert_eq!(cloudflared_quick_tunnel_command(0).args[2], "http://localhost:0");
    assert_eq!(cloudflared_quick_tunnel_command(65535).args[2], "http://localhost:65535");
}

#[test]
fn a_probe_shows_life_only_while_the_process_runs() {
    let mut handle = ProcessHandle::new("w".to_string(), 9, 100);
    assert!(is_process_running(&handle, ProbeOutcome::StillRunning));
    assert!(!is_process_running(&handle, ProbeOutcome::Exited));
    assert!(!is_process_running(&handle, ProbeOutcome::ProbeFailed));
    assert_eq!(stop_process(&mut handle), Some(9));
    assert!(!is_process_running(&handle, ProbeOutcome::StillRunning));
}

#[test]
fn a_handle_lets_go_once() {
    let mut handle = ProcessHandle::new("w".to_string(), 9, 100);
    assert_eq!(stop_process(&mut handle), Some(9));
    assert_eq!(handle.child, None);
    assert_eq!(handle.pid, Some(9));
    assert_eq!(handle.name, "w");
    assert_eq!(handle.started_at, 100);
    assert_eq!(stop_process(&mut handle), None);
    assert_eq!(stop_process(&mut handle), None);
    assert_eq!(handle.pid, Some(9));
}

#[test]
fn uptime_is_never_negative() {
    let handle = ProcessHandle::new("w".to_string(), 9, 10_000);
    assert_eq!(handle.uptime(10_000), 0);
    assert_eq!(handle.uptime(10_999), 0);
    assert_eq!(handle.uptime(11_000), 1);
    assert_eq!(handle.uptime(73_500), 63);
    assert_eq!(handle.uptime(9_000), 0);
    assert_eq!(handle.uptime(i64::MIN), 0);
    let early = ProcessHandle::new("w".to_string(), 9, i64::MIN);
    assert_eq!(early.uptime(i64::MAX), 18446744073709551);
    let now = ProcessHandle::new("w".to_string(), 3, 42);
    assert_eq!(now.child, Some(3));
    assert_eq!(now.started_at, 42);
    assert_eq!(now.clone(), now);
}
