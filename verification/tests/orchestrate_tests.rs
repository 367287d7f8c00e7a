use sends::backend::select_backend;
use sends::descriptor::{RunError, SessionDescriptor};
use sends::orchestrate::build_plan;

fn sealed_descriptor() -> SessionDescriptor {
    SessionDescriptor {
        platform: "linux".to_string(),
        dest: "udp://127.0.0.1:9000".to_string(),
        resolution: "native".to_string(),
        framerate: "60".to_string(),
        audio_source: "mic".to_string(),
        mplayer: "mpv".to_string(),
        ffmpeg_binary: "ffmpeg".to_string(),
        record_video: true,
        record_audio: true,
        default_pulse_sink: "alsa_output".to_string(),
        enable_pulse_hack: false,
        playback: false,
    }
}

#[test]
fn backend_for_linux() {
    let b = select_backend("linux").unwrap();
    assert_eq!(b.capture_driver, "x11grab");
    assert_eq!(b.audio_driver, "pulse");
    assert_eq!(b.capture_input, ":0");
    assert_eq!(b.default_encoder, "ffmpeg");
    assert_eq!(b.default_preview, "mpv");
}

#[test]
fn backend_for_windows() {
    let b = select_backend("windows").unwrap();
    assert_eq!(b.capture_driver, "dshow");
    assert_eq!(b.capture_input, "desktop");
}

#[test]
fn backend_unknown_platform_is_fatal() {
    assert!(matches!(select_backend("darwin"), Err(RunError::UnsupportedPlatform)));
}

#[test]
fn native_resolution_omits_size_flag() {
    let d = sealed_descriptor();
    let plan = build_plan(&d);
    assert_eq!(plan.encoder.program, "ffmpeg");
    let expected = vec![
        "-f", "x11grab", "-framerate", "60", "-i", ":0", "-f", "pulse", "-i", "mic", "-c:v",
        "libx264", "-preset", "ultrafast", "-tune", "zerolatency", "-f", "mpegts",
        "udp://127.0.0.1:9000",
    ];
    assert_eq!(plan.encoder.args, expected);
    assert!(!plan.encoder.args.iter().any(|a| a == "-s"));
}

#[test]
fn explicit_resolution_carries_size_flag() {
    let mut d = sealed_descriptor();
    d.resolution = "1280x720".to_string();
    d.dest = "udp://10.0.0.9:9000".to_string();
    let plan = build_plan(&d);
    let expected = vec![
        "-f", "x11grab", "-framerate", "60", "-s", "1280x720", "-i", ":0", "-f", "pulse", "-i",
        "mic", "-c:v", "libx264", "-preset", "ultrafast", "-tune", "zerolatency", "-f", "mpegts",
        "udp://10.0.0.9:9000",
    ];
    assert_eq!(plan.encoder.args, expected);
    assert_eq!(plan.encoder.args[4], "-s");
    assert_eq!(plan.encoder.args[5], "1280x720");
}

#[test]
fn preview_spawns_for_loopback_destination() {
    let d = sealed_descriptor();
    let plan = build_plan(&d);
    let preview = plan.preview.expect("loopback destination wants a preview");
    assert_eq!(preview.program, "mpv");
    assert_eq!(preview.args, vec!["udp://127.0.0.1:9000", "-profile=low-latency"]);
}

#[test]
fn no_preview_for_remote_destination() {
    let mut d = sealed_descriptor();
    d.dest = "udp://10.0.0.9:9000".to_string();
    let plan = build_plan(&d);
    assert!(plan.preview.is_none());
}

#[test]
fn playback_forces_preview_even_remotely() {
    let mut d = sealed_descriptor();
    d.dest = "udp://10.0.0.9:9000".to_string();
    d.playback = true;
    let plan = build_plan(&d);
    assert!(plan.preview.is_some());
}

#[test]
fn pulse_command_present_only_with_the_hack() {
    let mut d = sealed_descriptor();
    assert!(build_plan(&d).pulse.is_none());
    d.enable_pulse_hack = true;
    let plan = build_plan(&d);
    let pulse = plan.pulse.expect("hack enabled wants the routing call");
    assert_eq!(pulse.program, "pactl");
    assert_eq!(
        pulse.args,
        vec!["load-module", "module-combine-sink", "sink_name=sends", "slaves=alsa_output"]
    );
}

#[test]
fn windows_backend_flows_into_the_plan() {
    let mut d = sealed_descriptor();
    d.platform = "windows".to_string();
    let plan = build_plan(&d);
    assert_eq!(plan.encoder.args[1], "dshow");
    assert_eq!(plan.encoder.args[5], "desktop");
}
