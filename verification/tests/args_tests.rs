use sends::args::{help_lines, parse_args};

fn toks(v: &[&str]) -> Vec<String> {
    v.iter().map(|s| s.to_string()).collect()
}

#[test]
fn local_flag_both_forms() {
    let r = parse_args(&toks(&["-l"]));
    assert!(r.local && !r.help && !r.pulse && r.config_path.is_none());
    let r = parse_args(&toks(&["--local"]));
    assert!(r.local);
}

#[test]
fn help_flag_both_forms() {
    assert!(parse_args(&toks(&["-h"])).help);
    assert!(parse_args(&toks(&["--help"])).help);
    assert!(!parse_args(&toks(&["-l"])).help);
}

#[test]
fn pulse_flag_both_forms() {
    assert!(parse_args(&toks(&["-p"])).pulse);
    assert!(parse_args(&toks(&["--pulse"])).pulse);
}

#[test]
fn config_flag_takes_following_token() {
    let r = parse_args(&toks(&["-c", "my.toml"]));
    assert_eq!(r.config_path.as_deref(), Some("my.toml"));
    let r = parse_args(&toks(&["--config", "a", "-c", "b"]));
    assert_eq!(r.config_path.as_deref(), Some("b"));
}

#[test]
fn config_flag_without_value_is_ignored() {
    let r = parse_args(&toks(&["-c"]));
    assert!(r.config_path.is_none());
}

#[test]
fn config_value_token_is_still_scanned() {
    // the token after the config flag is taken as its value and also
    // scanned as a flag of its own
    let r = parse_args(&toks(&["-c", "-l"]));
    assert_eq!(r.config_path.as_deref(), Some("-l"));
    assert!(r.local);
}

#[test]
fn unknown_tokens_are_ignored() {
    let r = parse_args(&toks(&["--frob", "x", "-l", "y"]));
    assert!(r.local && !r.help && !r.pulse);
    assert!(r.config_path.is_none());
}

#[test]
fn empty_arguments() {
    let r = parse_args(&Vec::new());
    assert!(!r.help && !r.local && !r.pulse && r.config_path.is_none());
}

#[test]
fn help_text_lines() {
    let lines = help_lines();
    assert_eq!(lines.len(), 5);
    assert_eq!(
        lines[0],
        "Sends, a simple application to stream video and audio to friends"
    );
    assert_eq!(lines[1], " -l, --local\t\tStream to udp://127.0.0.1:9000");
    assert_eq!(lines[4], " -h, --help\t\tPrint this message");
}
