use vstd::prelude::*;

use crate::strutil::{spec_trim, str_eq_value, trim_line};

verus! {

/// The states of the interactive prompt driver.
#[derive(Clone, Copy, Debug, PartialEq, Eq, Structural)]
pub enum PromptState {
    /// Waiting for a destination, or "q" to quit.
    AwaitDestination,
    /// Waiting for an operating mode: a preset, custom, help, or quit.
    AwaitMode,
    /// Custom mode: waiting for a resolution.
    AwaitResolution,
    /// Custom mode: waiting for a framerate.
    AwaitFramerate,
    /// Every requested field was collected.
    Done,
    /// The user quit; the run ends with nothing launched and no error.
    Quit,
}

/// What the driver asks its caller to print after a step.
#[derive(Clone, Copy, Debug, PartialEq, Eq, Structural)]
pub enum PromptNote {
    /// Nothing to print.
    Silent,
    /// Print the mode menu.
    ShowMenu,
    /// Re-prompt: the input was not recognized.
    Unrecognized,
}

/// The line-input state machine that collects the missing descriptor fields.
#[derive(Debug, Clone)]
pub struct PromptMachine {
    pub state: PromptState,
    pub dest: Option<String>,
    pub resolution: Option<String>,
    pub framerate: Option<String>,
}

/// The mathematical picture of the prompt driver.
#[verifier::ext_equal]
pub struct PromptView {
    pub state: PromptState,
    pub dest: Option<Seq<char>>,
    pub resolution: Option<Seq<char>>,
    pub framerate: Option<Seq<char>>,
}

impl View for PromptMachine {
    type V = PromptView;

    open spec fn view(&self) -> PromptView {
        PromptView {
            state: self.state,
            dest: match self.dest {
                Some(s) => Some(s@),
                None => None,
            },
            resolution: match self.resolution {
                Some(s) => Some(s@),
                None => None,
            },
            framerate: match self.framerate {
                Some(s) => Some(s@),
                None => None,
            },
        }
    }
}

/// The fresh driver, waiting for a destination.
pub open spec fn initial_prompt() -> PromptView {
    PromptView { state: PromptState::AwaitDestination, dest: None, resolution: None, framerate: None }
}

/// The transition table: what one line of input does to the driver. Input is
/// trimmed as an explicit step before it is interpreted.
pub open spec fn prompt_step_spec(m: PromptView, line: Seq<char>) -> (PromptView, PromptNote) {
    let t = spec_trim(line);
    match m.state {
        PromptState::AwaitDestination => {
            if t == "q"@ {
                (PromptView { state: PromptState::Quit, ..m }, PromptNote::Silent)
            } else {
                (
                    PromptView { state: PromptState::AwaitMode, dest: Some(t), ..m },
                    PromptNote::Silent,
                )
            }
        },
        PromptState::AwaitMode => {
            if t == "q"@ {
                (PromptView { state: PromptState::Quit, ..m }, PromptNote::Silent)
            } else if t == "h"@ {
                (m, PromptNote::ShowMenu)
            } else if t == "p1"@ {
                (
                    PromptView {
                        state: PromptState::Done,
                        resolution: Some("native"@),
                        framerate: Some("60"@),
                        ..m
                    },
                    PromptNote::Silent,
                )
            } else if t == "p2"@ {
                (
                    PromptView {
                        state: PromptState::Done,
                        resolution: Some("1280x720"@),
                        framerate: Some("30"@),
                        ..m
                    },
                    PromptNote::Silent,
                )
            } else if t == "p3"@ {
                (
                    PromptView {
                        state: PromptState::Done,
                        resolution: Some("native"@),
                        framerate: Some("30"@),
                        ..m
                    },
                    PromptNote::Silent,
                )
            } else if t == "c"@ {
                (PromptView { state: PromptState::AwaitResolution, ..m }, PromptNote::Silent)
            } else {
                (m, PromptNote::Unrecognized)
            }
        },
        PromptState::AwaitResolution => {
            (
                PromptView { state: PromptState::AwaitFramerate, resolution: Some(t), ..m },
                PromptNote::Silent,
            )
        },
        PromptState::AwaitFramerate => {
            (
                PromptView { state: PromptState::Done, framerate: Some(t), ..m },
                PromptNote::Silent,
            )
        },
        PromptState::Done => (m, PromptNote::Silent),
        PromptState::Quit => (m, PromptNote::Silent),
    }
}

impl PromptMachine {
    /// A fresh driver.
    pub fn new() -> (r: PromptMachine)
        ensures
            r@ == initial_prompt(),
    {
        let r = PromptMachine {
            state: PromptState::AwaitDestination,
            dest: None,
            resolution: None,
            framerate: None,
        };
        proof {
            assert(r@ =~= initial_prompt());
        }
        r
    }

    /// Whether the driver still wants a line of input.
    pub fn in_progress(&self) -> (r: bool)
        ensures
            r == !(self@.state is Done || self@.state is Quit),
    {
        match self.state {
            PromptState::Done => false,
            PromptState::Quit => false,
            _ => true,
        }
    }

    /// Feed one line of input to the driver.
    pub fn step(&mut self, line: &str) -> (note: PromptNote)
        ensures
            final(self)@ == prompt_step_spec(old(self)@, line@).0,
            note == prompt_step_spec(old(self)@, line@).1,
    {
        let t = trim_line(line);
        match self.state {
            PromptState::AwaitDestination => {
                if str_eq_value(t.as_str(), "q") {
                    self.state = PromptState::Quit;
                    proof {
                        assert(self@ =~= prompt_step_spec(old(self)@, line@).0);
                    }
                    PromptNote::Silent
                } else {
                    self.state = PromptState::AwaitMode;
                    self.dest = Some(t);
                    proof {
                        assert(self@ =~= prompt_step_spec(old(self)@, line@).0);
                    }
                    PromptNote::Silent
                }
            },
            PromptState::AwaitMode => {
                if str_eq_value(t.as_str(), "q") {
                    self.state = PromptState::Quit;
                    proof {
                        assert(self@ =~= prompt_step_spec(old(self)@, line@).0);
                    }
                    PromptNote::Silent
                } else if str_eq_value(t.as_str(), "h") {
                    proof {
                        assert(self@ =~= prompt_step_spec(old(self)@, line@).0);
                    }
                    PromptNote::ShowMenu
                } else if str_eq_value(t.as_str(), "p1") {
                    self.state = PromptState::Done;
                    self.resolution = Some("native".to_owned());
                    self.framerate = Some("60".to_owned());
                    proof {
                        assert(self@ =~= prompt_step_spec(old(self)@, line@).0);
                    }
                    PromptNote::Silent
                } else if str_eq_value(t.as_str(), "p2") {
                    self.state = PromptState::Done;
                    self.resolution = Some("1280x720".to_owned());
                    self.framerate = Some("30".to_owned());
                    proof {
                        assert(self@ =~= prompt_step_spec(old(self)@, line@).0);
                    }
                    PromptNote::Silent
                } else if str_eq_value(t.as_str(), "p3") {
                    self.state = PromptState::Done;
                    self.resolution = Some("native".to_owned());
                    self.framerate = Some("30".to_owned());
                    proof {
                        assert(self@ =~= prompt_step_spec(old(self)@, line@).0);
                    }
                    PromptNote::Silent
                } else if str_eq_value(t.as_str(), "c") {
                    self.state = PromptState::AwaitResolution;
                    proof {
                        assert(self@ =~= prompt_step_spec(old(self)@, line@).0);
                    }
                    PromptNote::Silent
                } else {
                    proof {
                        assert(self@ =~= prompt_step_spec(old(self)@, line@).0);
                    }
                    PromptNote::Unrecognized
                }
            },
            PromptState::AwaitResolution => {
                self.state = PromptState::AwaitFramerate;
                self.resolution = Some(t);
                proof {
                    assert(self@ =~= prompt_step_spec(old(self)@, line@).0);
                }
                PromptNote::Silent
            },
            PromptState::AwaitFramerate => {
                self.state = PromptState::Done;
                self.framerate = Some(t);
                proof {
                    assert(self@ =~= prompt_step_spec(old(self)@, line@).0);
                }
                PromptNote::Silent
            },
            PromptState::Done => {
                proof {
                    assert(self@ =~= prompt_step_spec(old(self)@, line@).0);
                }
                PromptNote::Silent
            },
            PromptState::Quit => {
                proof {
                    assert(self@ =~= prompt_step_spec(old(self)@, line@).0);
                }
                PromptNote::Silent
            },
        }
    }
}

/// The mode menu, one line per entry.
pub open spec fn mode_menu_text() -> Seq<Seq<char>> {
    seq![
        " p1\tnative resolution at 60 fps"@,
        " p2\t1280x720 at 30 fps"@,
        " p3\tnative resolution at 30 fps"@,
        " c\tcustom resolution and framerate"@,
        " h\tprint this menu"@,
        " q\tquit"@,
    ]
}

/// The mode menu printed for `h` at the mode prompt.
pub fn mode_menu_lines() -> (r: Vec<String>)
    ensures
        r.deep_view() == mode_menu_text(),
{
    let mut r: Vec<String> = Vec::new();
    r.push(" p1\tnative resolution at 60 fps".to_owned());
    r.push(" p2\t1280x720 at 30 fps".to_owned());
    r.push(" p3\tnative resolution at 30 fps".to_owned());
    r.push(" c\tcustom resolution and framerate".to_owned());
    r.push(" h\tprint this menu".to_owned());
    r.push(" q\tquit".to_owned());
    proof {
        assert(r.deep_view() =~~= mode_menu_text());
    }
    r
}

/// What holds of every reachable driver: each state past the destination
/// prompt has a destination, and a finished dialogue collected every field.
pub open spec fn prompt_inv(m: PromptView) -> bool {
    &&& (m.state is AwaitMode || m.state is AwaitResolution || m.state is AwaitFramerate
        || m.state is Done) ==> m.dest is Some
    &&& m.state is AwaitFramerate ==> m.resolution is Some
    &&& m.state is Done ==> m.resolution is Some && m.framerate is Some
}

/// The fresh driver satisfies the invariant.
pub proof fn lemma_prompt_inv_init()
    ensures
        prompt_inv(initial_prompt()),
{
}

/// Every step preserves the invariant: however the dialogue went, a driver
/// that reports `Done` holds a destination, a resolution and a framerate.
pub proof fn lemma_prompt_inv_step(m: PromptView, line: Seq<char>)
    requires
        prompt_inv(m),
    ensures
        prompt_inv(prompt_step_spec(m, line).0),
{
}

/// Entering "q" at the destination prompt quits: the machine reaches its
/// terminal `Quit` state, so no descriptor is produced and nothing is
/// launched.
pub proof fn lemma_quit_at_destination(m: PromptView, line: Seq<char>)
    requires
        m.state is AwaitDestination,
        spec_trim(line) == "q"@,
    ensures
        prompt_step_spec(m, line).0.state is Quit,
{
}

/// Entering "p2" at the mode prompt selects the 1280x720 at 30 fps preset
/// and finishes the dialogue.
pub proof fn lemma_preset_two(m: PromptView, line: Seq<char>)
    requires
        m.state is AwaitMode,
        spec_trim(line) == "p2"@,
    ensures
        prompt_step_spec(m, line).0.state is Done,
        prompt_step_spec(m, line).0.resolution == Some("1280x720"@),
        prompt_step_spec(m, line).0.framerate == Some("30"@),
        prompt_step_spec(m, line).0.dest == m.dest,
{
    reveal_strlit("p2");
    reveal_strlit("q");
    reveal_strlit("h");
    reveal_strlit("p1");
    assert("p2"@.len() == 2 && "q"@.len() == 1 && "h"@.len() == 1);
    assert("p2"@[1] == '2' && "p1"@[1] == '1');
}

} // verus!
