use sends::prompt::{PromptMachine, PromptNote, PromptState, mode_menu_lines};

#[test]
fn quit_at_destination() {
    let mut m = PromptMachine::new();
    assert!(matches!(m.state, PromptState::AwaitDestination));
    let note = m.step("q");
    assert!(matches!(note, PromptNote::Silent));
    assert!(matches!(m.state, PromptState::Quit));
    assert!(m.dest.is_none() && m.resolution.is_none() && m.framerate.is_none());
    assert!(!m.in_progress());
}

#[test]
fn quit_at_destination_with_surrounding_whitespace() {
    let mut m = PromptMachine::new();
    m.step("  q \n");
    assert!(matches!(m.state, PromptState::Quit));
}

#[test]
fn destination_is_trimmed_and_kept() {
    let mut m = PromptMachine::new();
    let note = m.step(" udp://10.0.0.2:9000 \n");
    assert!(matches!(note, PromptNote::Silent));
    assert!(matches!(m.state, PromptState::AwaitMode));
    assert_eq!(m.dest.as_deref(), Some("udp://10.0.0.2:9000"));
}

#[test]
fn preset_two_gives_hd_at_thirty() {
    let mut m = PromptMachine::new();
    m.step("local");
    let note = m.step("p2");
    assert!(matches!(note, PromptNote::Silent));
    assert!(matches!(m.state, PromptState::Done));
    assert_eq!(m.resolution.as_deref(), Some("1280x720"));
    assert_eq!(m.framerate.as_deref(), Some("30"));
    assert_eq!(m.dest.as_deref(), Some("local"));
}

#[test]
fn preset_one_gives_native_at_sixty() {
    let mut m = PromptMachine::new();
    m.step("local");
    m.step("p1");
    assert!(matches!(m.state, PromptState::Done));
    assert_eq!(m.resolution.as_deref(), Some("native"));
    assert_eq!(m.framerate.as_deref(), Some("60"));
}

#[test]
fn preset_three_gives_native_at_thirty() {
    let mut m = PromptMachine::new();
    m.step("local");
    m.step("p3");
    assert!(matches!(m.state, PromptState::Done));
    assert_eq!(m.resolution.as_deref(), Some("native"));
    assert_eq!(m.framerate.as_deref(), Some("30"));
}

#[test]
fn help_loops_at_mode() {
    let mut m = PromptMachine::new();
    m.step("local");
    let note = m.step("h");
    assert!(matches!(note, PromptNote::ShowMenu));
    assert!(matches!(m.state, PromptState::AwaitMode));
}

#[test]
fn unrecognized_mode_reprompts() {
    let mut m = PromptMachine::new();
    m.step("local");
    let note = m.step("bogus");
    assert!(matches!(note, PromptNote::Unrecognized));
    assert!(matches!(m.state, PromptState::AwaitMode));
    let note = m.step("p3");
    assert!(matches!(note, PromptNote::Silent));
    assert!(matches!(m.state, PromptState::Done));
}

#[test]
fn quit_at_mode() {
    let mut m = PromptMachine::new();
    m.step("local");
    m.step("q");
    assert!(matches!(m.state, PromptState::Quit));
}

#[test]
fn custom_flow_collects_both_values() {
    let mut m = PromptMachine::new();
    m.step("local");
    m.step("c");
    assert!(matches!(m.state, PromptState::AwaitResolution));
    m.step(" 640x480 \n");
    assert!(matches!(m.state, PromptState::AwaitFramerate));
    m.step(" 25 \n");
    assert!(matches!(m.state, PromptState::Done));
    assert_eq!(m.resolution.as_deref(), Some("640x480"));
    assert_eq!(m.framerate.as_deref(), Some("25"));
}

#[test]
fn menu_text_lines() {
    let lines = mode_menu_lines();
    assert_eq!(lines.len(), 6);
    assert_eq!(lines[1], " p2\t1280x720 at 30 fps");
}
