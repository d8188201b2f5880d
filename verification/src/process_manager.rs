//! Worker processes: what to launch for each kind of worker, how to read a
//! liveness probe, and how a handle lets go of its process.
//!
//! Spawning, probing and killing are left to the caller. This module says
//! what to spawn, what a probe means and which process to kill.

use vstd::prelude::*;
use crate::app_state::{AudioMode, EncodingMode, ProcessHandle, ProcessHandleView, QualityPreset};
use crate::text::{decimal, decimal_text, push_text, texts};

verus! {

/// What a non-blocking look at a process found.
#[derive(Debug, Clone, Copy, PartialEq, Eq, Structural)]
pub enum ProbeOutcome {
    /// The process has not exited.
    StillRunning,
    /// The process has exited.
    Exited,
    /// The look itself failed.
    ProbeFailed,
}

/// A worker to launch: the name its handle will carry and the arguments of
/// its command line, in order.
#[derive(Debug, PartialEq, Eq)]
pub struct ProcessCommand {
    pub name: String,
    pub args: Vec<String>,
}

/// A worker to launch as a mathematical value.
pub struct ProcessCommandView {
    pub name: Seq<char>,
    pub args: Seq<Seq<char>>,
}

impl View for ProcessCommand {
    type V = ProcessCommandView;

    open spec fn view(&self) -> ProcessCommandView {
        ProcessCommandView { name: self.name@, args: texts(self.args@) }
    }
}

/// The encoder settings of a quality preset, as they stand on the command
/// line.
pub struct QualityParams {
    pub scale_filter: &'static str,
    pub preset: &'static str,
    pub bitrate: &'static str,
    pub max_bitrate: &'static str,
    pub bufsize: &'static str,
    pub gop: &'static str,
}

/// Scaling and frame rate of a quality preset.
pub open spec fn scale_filter_text(quality: QualityPreset) -> Seq<char> {
    match quality {
        QualityPreset::Low => "scale=640:360:force_original_aspect_ratio=decrease,fps=15"@,
        QualityPreset::Medium => "scale=1280:720:force_original_aspect_ratio=decrease,fps=25"@,
        QualityPreset::High => "scale=1920:1080:force_original_aspect_ratio=decrease,fps=30"@,
    }
}

/// Encoder speed of a quality preset.
pub open spec fn preset_text(quality: QualityPreset) -> Seq<char> {
    match quality {
        QualityPreset::Low => "fast"@,
        QualityPreset::Medium => "medium"@,
        QualityPreset::High => "medium"@,
    }
}

/// Target bitrate of a quality preset.
pub open spec fn bitrate_text(quality: QualityPreset) -> Seq<char> {
    match quality {
        QualityPreset::Low => "1000k"@,
        QualityPreset::Medium => "2500k"@,
        QualityPreset::High => "5000k"@,
    }
}

/// Peak bitrate of a quality preset: the target and a fifth.
pub open spec fn max_bitrate_text(quality: QualityPreset) -> Seq<char> {
    match quality {
        QualityPreset::Low => "1200k"@,
        QualityPreset::Medium => "3000k"@,
        QualityPreset::High => "6000k"@,
    }
}

/// Rate-control buffer of a quality preset: four times the target.
pub open spec fn bufsize_text(quality: QualityPreset) -> Seq<char> {
    match quality {
        QualityPreset::Low => "4000k"@,
        QualityPreset::Medium => "10000k"@,
        QualityPreset::High => "20000k"@,
    }
}

/// Key-frame distance of a quality preset: two seconds of frames.
pub open spec fn gop_text(quality: QualityPreset) -> Seq<char> {
    match quality {
        QualityPreset::Low => "30"@,
        QualityPreset::Medium => "50"@,
        QualityPreset::High => "60"@,
    }
}

/// The encoder settings of `quality`.
pub fn quality_params(quality: QualityPreset) -> (params: QualityParams)
    ensures
        params.scale_filter@ == scale_filter_text(quality),
        params.preset@ == preset_text(quality),
        params.bitrate@ == bitrate_text(quality),
        params.max_bitrate@ == max_bitrate_text(quality),
        params.bufsize@ == bufsize_text(quality),
        params.gop@ == gop_text(quality),
{
    match quality {
        QualityPreset::Low => QualityParams {
            scale_filter: "scale=640:360:force_original_aspect_ratio=decrease,fps=15",
            preset: "fast",
            bitrate: "1000k",
            max_bitrate: "1200k",
            bufsize: "4000k",
            gop: "30",
        },
        QualityPreset::Medium => QualityParams {
            scale_filter: "scale=1280:720:force_original_aspect_ratio=decrease,fps=25",
            preset: "medium",
            bitrate: "2500k",
            max_bitrate: "3000k",
            bufsize: "10000k",
            gop: "50",
        },
        QualityPreset::High => QualityParams {
            scale_filter: "scale=1920:1080:force_original_aspect_ratio=decrease,fps=30",
            preset: "medium",
            bitrate: "5000k",
            max_bitrate: "6000k",
            bufsize: "20000k",
            gop: "60",
        },
    }
}

/// The arguments that make the encoder read `input_url` over TCP.
pub open spec fn input_args(input_url: Seq<char>) -> Seq<Seq<char>> {
    seq![
        "-rtsp_transport"@,
        "tcp"@,
        "-rtsp_flags"@,
        "prefer_tcp"@,
        "-fflags"@,
        "+genpts+discardcorrupt"@,
        "-analyzeduration"@,
        "5000000"@,
        "-probesize"@,
        "5000000"@,
        "-i"@,
        input_url,
    ]
}

/// The arguments that re-encode the picture at `quality`.
pub open spec fn video_args(quality: QualityPreset) -> Seq<Seq<char>> {
    seq![
        "-vf"@,
        scale_filter_text(quality),
        "-c:v"@,
        "libx264"@,
        "-preset"@,
        preset_text(quality),
        "-b:v"@,
        bitrate_text(quality),
        "-maxrate"@,
        max_bitrate_text(quality),
        "-bufsize"@,
        bufsize_text(quality),
        "-g"@,
        gop_text(quality),
        "-keyint_min"@,
        gop_text(quality),
        "-sc_threshold"@,
        "0"@,
        "-pix_fmt"@,
        "yuv420p"@,
    ]
}

/// The arguments that deal with the sound of a re-encoded stream.
pub open spec fn audio_args(audio_mode: AudioMode) -> Seq<Seq<char>> {
    match audio_mode {
        AudioMode::Disabled => seq!["-an"@],
        AudioMode::Copy => seq!["-c:a"@, "copy"@],
        AudioMode::Transcode => seq!["-c:a"@, "aac"@, "-b:a"@, "128k"@, "-ar"@, "44100"@],
    }
}

/// The arguments between input and output: a plain copy of the stream, or
/// picture and sound re-encoded. The audio mode counts only when
/// re-encoding.
pub open spec fn codec_args(encoding: EncodingMode, quality: QualityPreset, audio_mode: AudioMode)
    -> Seq<Seq<char>> {
    match encoding {
        EncodingMode::Copy => seq!["-c"@, "copy"@],
        EncodingMode::Transcode => video_args(quality) + audio_args(audio_mode),
    }
}

/// The arguments that publish the stream at `output_url` over TCP.
pub open spec fn output_args(output_url: Seq<char>) -> Seq<Seq<char>> {
    seq!["-f"@, "rtsp"@, "-rtsp_transport"@, "tcp"@, output_url]
}

/// The encoder's whole command line.
pub open spec fn ffmpeg_args(
    input_url: Seq<char>,
    output_url: Seq<char>,
    encoding: EncodingMode,
    quality: QualityPreset,
    audio_mode: AudioMode,
) -> Seq<Seq<char>> {
    input_args(input_url) + codec_args(encoding, quality, audio_mode) + output_args(output_url)
}

fn push_input_args(args: &mut Vec<String>, input_url: &str)
    ensures
        texts(final(args)@) == texts(old(args)@) + input_args(input_url@),
{
    push_text(args, "-rtsp_transport");
    push_text(args, "tcp");
    push_text(args, "-rtsp_flags");
    push_text(args, "prefer_tcp");
    push_text(args, "-fflags");
    push_text(args, "+genpts+discardcorrupt");
    push_text(args, "-analyzeduration");
    push_text(args, "5000000");
    push_text(args, "-probesize");
    push_text(args, "5000000");
    push_text(args, "-i");
    push_text(args, input_url);
    assert(texts(args@) =~= texts(old(args)@) + input_args(input_url@));
}

fn push_video_args(args: &mut Vec<String>, quality: QualityPreset)
    ensures
        texts(final(args)@) == texts(old(args)@) + video_args(quality),
{
    let params = quality_params(quality);
    push_text(args, "-vf");
    push_text(args, params.scale_filter);
    push_text(args, "-c:v");
    push_text(args, "libx264");
    push_text(args, "-preset");
    push_text(args, params.preset);
    push_text(args, "-b:v");
    push_text(args, params.bitrate);
    push_text(args, "-maxrate");
    push_text(args, params.max_bitrate);
    push_text(args, "-bufsize");
    push_text(args, params.bufsize);
    push_text(args, "-g");
    push_text(args, params.gop);
    push_text(args, "-keyint_min");
    push_text(args, params.gop);
    push_text(args, "-sc_threshold");
    push_text(args, "0");
    push_text(args, "-pix_fmt");
    push_text(args, "yuv420p");
    assert(texts(args@) =~= texts(old(args)@) + video_args(quality));
}

fn push_audio_args(args: &mut Vec<String>, audio_mode: AudioMode)
    ensures
        texts(final(args)@) == texts(old(args)@) + audio_args(audio_mode),
{
    match audio_mode {
        AudioMode::Disabled => {
            push_text(args, "-an");
        },
        AudioMode::Copy => {
            push_text(args, "-c:a");
            push_text(args, "copy");
        },
        AudioMode::Transcode => {
            push_text(args, "-c:a");
            push_text(args, "aac");
            push_text(args, "-b:a");
            push_text(args, "128k");
            push_text(args, "-ar");
            push_text(args, "44100");
        },
    }
    assert(texts(args@) =~= texts(old(args)@) + audio_args(audio_mode));
}

fn push_output_args(args: &mut Vec<String>, output_url: &str)
    ensures
        texts(final(args)@) == texts(old(args)@) + output_args(output_url@),
{
    push_text(args, "-f");
    push_text(args, "rtsp");
    push_text(args, "-rtsp_transport");
    push_text(args, "tcp");
    push_text(args, output_url);
    assert(texts(args@) =~= texts(old(args)@) + output_args(output_url@));
}

/// The command line of the encoder that reads `input_url` and publishes at
/// `output_url`.
pub fn build_ffmpeg_args(
    input_url: &str,
    output_url: &str,
    encoding: &EncodingMode,
    quality: &QualityPreset,
    audio_mode: &AudioMode,
) -> (args: Vec<String>)
    ensures
        texts(args@) == ffmpeg_args(input_url@, output_url@, *encoding, *quality, *audio_mode),
{
    let mut args: Vec<String> = Vec::new();
    assert(texts(args@) =~= Seq::<Seq<char>>::empty());
    push_input_args(&mut args, input_url);
    match encoding {
        EncodingMode::Copy => {
            let ghost before = args@;
            push_text(&mut args, "-c");
            push_text(&mut args, "copy");
            assert(texts(args@) =~= texts(before) + codec_args(*encoding, *quality, *audio_mode));
        },
        EncodingMode::Transcode => {
            push_video_args(&mut args, *quality);
            push_audio_args(&mut args, *audio_mode);
        },
    }
    push_output_args(&mut args, output_url);
    assert(texts(args@) =~= ffmpeg_args(
        input_url@,
        output_url@,
        *encoding,
        *quality,
        *audio_mode,
    ));
    args
}

/// Where the relay publishes the stream of camera `camera_id`.
pub open spec fn camera_output_url(camera_id: Seq<char>) -> Seq<char> {
    "rtsp://localhost:8554/"@ + camera_id
}

/// The name of the encoder process of camera `camera_id`.
pub open spec fn ffmpeg_process_name(camera_id: Seq<char>) -> Seq<char> {
    "ffmpeg-"@ + camera_id
}

/// The encoder to launch for a camera.
pub fn ffmpeg_command(
    camera_id: &str,
    rtsp_url: &str,
    encoding: &EncodingMode,
    quality: &QualityPreset,
    audio_mode: &AudioMode,
) -> (command: ProcessCommand)
    ensures
        command@.name == ffmpeg_process_name(camera_id@),
        command@.args == ffmpeg_args(
            rtsp_url@,
            camera_output_url(camera_id@),
            *encoding,
            *quality,
            *audio_mode,
        ),
{
    let output_url = String::from_str("rtsp://localhost:8554/").concat(camera_id);
    let args = build_ffmpeg_args(rtsp_url, output_url.as_str(), encoding, quality, audio_mode);
    let name = String::from_str("ffmpeg-").concat(camera_id);
    ProcessCommand { name, args }
}

/// The relay server to launch with the configuration at `config_path`.
pub fn mediamtx_command(config_path: &str) -> (command: ProcessCommand)
    ensures
        command@.name == "mediamtx"@,
        command@.args == seq![config_path@],
{
    let mut args: Vec<String> = Vec::new();
    assert(texts(args@) =~= Seq::<Seq<char>>::empty());
    push_text(&mut args, config_path);
    assert(texts(args@) =~= seq![config_path@]);
    ProcessCommand { name: String::from_str("mediamtx"), args }
}

/// The tunnel client to launch with the configuration at `config_path`.
pub fn cloudflared_command(config_path: &str) -> (command: ProcessCommand)
    ensures
        command@.name == "cloudflared"@,
        command@.args == seq!["tunnel"@, "--config"@, config_path@, "run"@],
{
    let mut args: Vec<String> = Vec::new();
    assert(texts(args@) =~= Seq::<Seq<char>>::empty());
    push_text(&mut args, "tunnel");
    push_text(&mut args, "--config");
    push_text(&mut args, config_path);
    push_text(&mut args, "run");
    assert(texts(args@) =~= seq!["tunnel"@, "--config"@, config_path@, "run"@]);
    ProcessCommand { name: String::from_str("cloudflared"), args }
}

/// The address that a quick tunnel forwards to.
pub open spec fn local_url(port: u16) -> Seq<char> {
    "http://localhost:"@ + decimal_text(port as nat)
}

/// The tunnel client to launch as a quick tunnel to the local port `port`,
/// with no configuration of its own.
pub fn cloudflared_quick_tunnel_command(local_port: u16) -> (command: ProcessCommand)
    ensures
        command@.name == "cloudflared-quick"@,
        command@.args == seq!["tunnel"@, "--url"@, local_url(local_port)],
{
    let port = decimal(local_port as u64);
    let url = String::from_str("http://localhost:").concat(port.as_str());
    let mut args: Vec<String> = Vec::new();
    assert(texts(args@) =~= Seq::<Seq<char>>::empty());
    push_text(&mut args, "tunnel");
    push_text(&mut args, "--url");
    push_text(&mut args, url.as_str());
    assert(texts(args@) =~= seq!["tunnel"@, "--url"@, local_url(local_port)]);
    ProcessCommand { name: String::from_str("cloudflared-quick"), args }
}

/// Whether a probe shows the process of a handle alive. A handle that has
/// let go of its process, a process that has exited and a probe that failed
/// all count as not alive.
pub open spec fn alive(handle: ProcessHandleView, probe: ProbeOutcome) -> bool {
    handle.child is Some && probe == ProbeOutcome::StillRunning
}

/// Whether the process of `handle` is still running, going by `probe`.
pub fn is_process_running(handle: &ProcessHandle, probe: ProbeOutcome) -> (running: bool)
    ensures
        running == alive(handle@, probe),
{
    match handle.child {
        Some(_) => match probe {
            ProbeOutcome::StillRunning => true,
            ProbeOutcome::Exited => false,
            ProbeOutcome::ProbeFailed => false,
        },
        None => false,
    }
}

/// A handle after it has let go of its process.
pub open spec fn released(handle: ProcessHandleView) -> ProcessHandleView {
    ProcessHandleView { child: None, ..handle }
}

/// Makes `handle` let go of its process and returns the process to kill, if
/// the handle still held one. A second call finds nothing to kill.
pub fn stop_process(handle: &mut ProcessHandle) -> (to_kill: Option<u32>)
    ensures
        to_kill == old(handle)@.child,
        final(handle)@ == released(old(handle)@),
        final(handle).name == old(handle).name,
{
    let to_kill = handle.child;
    handle.child = None;
    to_kill
}

} // verus!
