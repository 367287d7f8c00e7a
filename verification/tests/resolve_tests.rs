use sends::args::{ArgOverrides, parse_args};
use sends::config_file::{FileConfig, parse_config_text};
use sends::descriptor::RunError;
use sends::prompt::PromptMachine;
use sends::resolve::{needs_prompt, resolve_session};

fn no_args() -> ArgOverrides {
    ArgOverrides { help: false, local: false, pulse: false, config_path: None }
}

fn file_with(
    dest: Option<&str>,
    framerate: Option<i64>,
    resolution: Option<&str>,
    audio: Option<&str>,
) -> FileConfig {
    FileConfig {
        dest: dest.map(|s| s.to_string()),
        framerate,
        resolution: resolution.map(|s| s.to_string()),
        mplayer: None,
        ffmpeg_binary: None,
        audio_source: audio.map(|s| s.to_string()),
        default_pulse_sink: None,
        empty: false,
    }
}

#[test]
fn local_flag_resolves_to_loopback_with_default_binaries() {
    // config file contributes only the audio source; the -l flag fixes the
    // destination, the prompt preset governs resolution and framerate
    let args = parse_args(&vec!["-l".to_string()]);
    let f = file_with(None, None, None, Some("mic"));
    assert!(needs_prompt(&args, &f));
    let mut m = PromptMachine::new();
    m.step("ignored-destination");
    m.step("p1");
    let d = resolve_session("linux", &args, &f, Some(&m)).unwrap();
    assert_eq!(d.dest, "udp://127.0.0.1:9000");
    assert_eq!(d.resolution, "native");
    assert_eq!(d.framerate, "60");
    assert_eq!(d.mplayer, "mpv");
    assert_eq!(d.ffmpeg_binary, "ffmpeg");
    assert_eq!(d.platform, "linux");
}

#[test]
fn absent_file_without_prompt_is_missing_configuration() {
    let args = parse_args(&vec!["-l".to_string()]);
    let f = FileConfig::absent();
    let r = resolve_session("linux", &args, &f, None);
    assert!(matches!(r, Err(RunError::MissingConfiguration)));
}

#[test]
fn file_values_resolve_without_prompting_for_them() {
    let text = "[config]\ndest = \"udp://10.0.0.9:9000\"\nresolution = \"1280x720\"\nframerate = 30\naudio_source = \"mic\"\n";
    let f = parse_config_text(text).unwrap();
    let args = no_args();
    assert!(!needs_prompt(&args, &f));
    let d = resolve_session("linux", &args, &f, None).unwrap();
    assert_eq!(d.resolution, "1280x720");
    assert_eq!(d.framerate, "30");
    assert_eq!(d.dest, "udp://10.0.0.9:9000");
    assert_eq!(d.audio_source, "mic");
}

#[test]
fn argument_destination_wins_over_file() {
    let mut args = no_args();
    args.local = true;
    let f = file_with(Some("udp://10.9.9.9:9000"), Some(30), Some("native"), Some("mic"));
    let d = resolve_session("linux", &args, &f, None).unwrap();
    assert_eq!(d.dest, "udp://127.0.0.1:9000");
}

#[test]
fn file_values_win_over_prompt_values() {
    let f = file_with(Some("udp://10.9.9.9:9000"), Some(24), Some("640x480"), Some("mic"));
    let mut m = PromptMachine::new();
    m.step("local");
    m.step("p2");
    let d = resolve_session("linux", &no_args(), &f, Some(&m)).unwrap();
    assert_eq!(d.dest, "udp://10.9.9.9:9000");
    assert_eq!(d.resolution, "640x480");
    assert_eq!(d.framerate, "24");
}

#[test]
fn pulse_flag_is_taken_as_given() {
    let mut args = no_args();
    args.pulse = true;
    args.local = true;
    let f = file_with(None, Some(30), Some("native"), Some("mic"));
    let d = resolve_session("linux", &args, &f, None).unwrap();
    assert!(d.enable_pulse_hack);
    let mut args2 = no_args();
    args2.local = true;
    let d2 = resolve_session("linux", &args2, &f, None).unwrap();
    assert!(!d2.enable_pulse_hack);
}

#[test]
fn local_shorthand_in_file_is_normalized() {
    let f = file_with(Some("local"), Some(30), Some("native"), Some("mic"));
    let d = resolve_session("linux", &no_args(), &f, None).unwrap();
    assert_eq!(d.dest, "udp://127.0.0.1:9000");
}

#[test]
fn line_shaped_fields_are_trimmed() {
    let f = file_with(Some("  local  "), Some(30), Some(" native \n"), Some("mic"));
    let d = resolve_session("linux", &no_args(), &f, None).unwrap();
    assert_eq!(d.dest, "udp://127.0.0.1:9000");
    assert_eq!(d.resolution, "native");
}

#[test]
fn missing_resolution_aborts() {
    let f = file_with(Some("local"), Some(30), None, Some("mic"));
    let r = resolve_session("linux", &no_args(), &f, None);
    assert!(matches!(r, Err(RunError::MissingConfiguration)));
}

#[test]
fn missing_framerate_aborts() {
    let f = file_with(Some("local"), None, Some("native"), Some("mic"));
    let r = resolve_session("linux", &no_args(), &f, None);
    assert!(matches!(r, Err(RunError::MissingConfiguration)));
}

#[test]
fn missing_audio_source_aborts() {
    let f = file_with(Some("local"), Some(30), Some("native"), None);
    let r = resolve_session("linux", &no_args(), &f, None);
    assert!(matches!(r, Err(RunError::MissingConfiguration)));
}

#[test]
fn blank_destination_aborts() {
    let f = file_with(Some("   "), Some(30), Some("native"), Some("mic"));
    let r = resolve_session("linux", &no_args(), &f, None);
    assert!(matches!(r, Err(RunError::MissingConfiguration)));
}

#[test]
fn unsupported_platform_aborts() {
    let f = file_with(Some("local"), Some(30), Some("native"), Some("mic"));
    let r = resolve_session("plan9", &no_args(), &f, None);
    assert!(matches!(r, Err(RunError::UnsupportedPlatform)));
}

#[test]
fn file_binaries_override_defaults() {
    let mut f = file_with(Some("local"), Some(30), Some("native"), Some("mic"));
    f.mplayer = Some("vlc".to_string());
    f.ffmpeg_binary = Some("avconv".to_string());
    let d = resolve_session("linux", &no_args(), &f, None).unwrap();
    assert_eq!(d.mplayer, "vlc");
    assert_eq!(d.ffmpeg_binary, "avconv");
}

#[test]
fn resolving_a_sealed_descriptor_again_is_idempotent() {
    let f = file_with(Some("local"), Some(30), Some(" 1280x720"), Some("mic"));
    let mut args = no_args();
    args.pulse = true;
    let d = resolve_session("linux", &args, &f, None).unwrap();
    // feed the sealed descriptor's own fields back through the same logic
    let mut f2 = FileConfig::absent();
    f2.dest = Some(d.dest.clone());
    f2.audio_source = Some(d.audio_source.clone());
    f2.mplayer = Some(d.mplayer.clone());
    f2.ffmpeg_binary = Some(d.ffmpeg_binary.clone());
    f2.default_pulse_sink = Some(d.default_pulse_sink.clone());
    let m2 = PromptMachine {
        state: sends::prompt::PromptState::Done,
        dest: None,
        resolution: Some(d.resolution.clone()),
        framerate: Some(d.framerate.clone()),
    };
    let mut args2 = no_args();
    args2.pulse = d.enable_pulse_hack;
    let d2 = resolve_session(d.platform.as_str(), &args2, &f2, Some(&m2)).unwrap();
    assert_eq!(d2.dest, d.dest);
    assert_eq!(d2.resolution, d.resolution);
    assert_eq!(d2.framerate, d.framerate);
    assert_eq!(d2.audio_source, d.audio_source);
    assert_eq!(d2.mplayer, d.mplayer);
    assert_eq!(d2.ffmpeg_binary, d.ffmpeg_binary);
    assert_eq!(d2.default_pulse_sink, d.default_pulse_sink);
    assert_eq!(d2.enable_pulse_hack, d.enable_pulse_hack);
    assert_eq!(d2.platform, d.platform);
}
