use vstd::prelude::*;

use crate::strutil::str_eq_value;

verus! {

/// The overrides and control flags read from the process start arguments.
#[derive(Debug, Clone)]
pub struct ArgOverrides {
    /// Usage was requested; the run stops right after printing it.
    pub help: bool,
    /// The local-destination shortcut: force the loopback destination.
    pub local: bool,
    /// Enable the audio-routing hack.
    pub pulse: bool,
    /// An explicit settings-file path, when one was given.
    pub config_path: Option<String>,
}

/// The mathematical picture of the parsed arguments.
#[verifier::ext_equal]
pub struct ArgView {
    pub help: bool,
    pub local: bool,
    pub pulse: bool,
    pub config_path: Option<Seq<char>>,
}

impl View for ArgOverrides {
    type V = ArgView;

    open spec fn view(&self) -> ArgView {
        ArgView {
            help: self.help,
            local: self.local,
            pulse: self.pulse,
            config_path: match self.config_path {
                Some(p) => Some(p@),
                None => None,
            },
        }
    }
}

pub open spec fn is_help_tok(t: Seq<char>) -> bool {
    t == "-h"@ || t == "--help"@
}

pub open spec fn is_local_tok(t: Seq<char>) -> bool {
    t == "-l"@ || t == "--local"@
}

pub open spec fn is_pulse_tok(t: Seq<char>) -> bool {
    t == "-p"@ || t == "--pulse"@
}

pub open spec fn is_config_tok(t: Seq<char>) -> bool {
    t == "-c"@ || t == "--config"@
}

pub open spec fn has_help(args: Seq<Seq<char>>) -> bool {
    exists|i: int| 0 <= i < args.len() && is_help_tok(args[i])
}

pub open spec fn has_local(args: Seq<Seq<char>>) -> bool {
    exists|i: int| 0 <= i < args.len() && is_local_tok(args[i])
}

pub open spec fn has_pulse(args: Seq<Seq<char>>) -> bool {
    exists|i: int| 0 <= i < args.len() && is_pulse_tok(args[i])
}

/// The settings-file path named by the tokens before position `m`: the value
/// after the last config flag that has a following token. The value token is
/// not consumed; it is scanned like any other token.
pub open spec fn config_path_upto(args: Seq<Seq<char>>, m: int) -> Option<Seq<char>>
    decreases m,
{
    if m <= 0 {
        None
    } else if is_config_tok(args[m - 1]) && m < args.len() {
        Some(args[m])
    } else {
        config_path_upto(args, m - 1)
    }
}

/// The settings-file path named by the arguments, if any.
pub open spec fn config_path_of(args: Seq<Seq<char>>) -> Option<Seq<char>> {
    config_path_upto(args, args.len() as int)
}

/// What parsing a token sequence yields.
pub open spec fn parse_args_spec(args: Seq<Seq<char>>) -> ArgView {
    ArgView {
        help: has_help(args),
        local: has_local(args),
        pulse: has_pulse(args),
        config_path: config_path_of(args),
    }
}

/// Parse the process start arguments (the program name excluded). Recognized
/// flags set their overrides; unrecognized tokens are ignored.
pub fn parse_args(args: &Vec<String>) -> (r: ArgOverrides)
    ensures
        r@ == parse_args_spec(args.deep_view()),
{
    let ghost v = args.deep_view();
    proof {
        assert(forall|k: int| 0 <= k < v.len() ==> v[k] == args@[k]@);
    }
    let n = args.len();
    let mut help = false;
    let mut local = false;
    let mut pulse = false;
    let mut config_path: Option<String> = None;
    let mut i: usize = 0;
    while i < n
        invariant
            n == v.len(),
            n == args@.len(),
            i <= n,
            forall|k: int| 0 <= k < v.len() ==> v[k] == args@[k]@,
            help == (exists|k: int| 0 <= k < i && is_help_tok(v[k])),
            local == (exists|k: int| 0 <= k < i && is_local_tok(v[k])),
            pulse == (exists|k: int| 0 <= k < i && is_pulse_tok(v[k])),
            match config_path {
                Some(p) => config_path_upto(v, i as int) == Some(p@),
                None => config_path_upto(v, i as int) is None,
            },
        decreases n - i,
    {
        let tok = &args[i];
        let tok_help = str_eq_value(tok.as_str(), "-h") || str_eq_value(tok.as_str(), "--help");
        let tok_local = str_eq_value(tok.as_str(), "-l") || str_eq_value(tok.as_str(), "--local");
        let tok_pulse = str_eq_value(tok.as_str(), "-p") || str_eq_value(tok.as_str(), "--pulse");
        let tok_config = str_eq_value(tok.as_str(), "-c") || str_eq_value(tok.as_str(), "--config");
        if tok_help {
            help = true;
        }
        if tok_local {
            local = true;
        }
        if tok_pulse {
            pulse = true;
        }
        if tok_config && i + 1 < n {
            config_path = Some(args[i + 1].clone());
        }
        i = i + 1;
        proof {
            assert(help == (exists|k: int| 0 <= k < i && is_help_tok(v[k]))) by {
                if help && !(exists|k: int| 0 <= k < i - 1 && is_help_tok(v[k])) {
                    assert(is_help_tok(v[i - 1]));
                }
            }
            assert(local == (exists|k: int| 0 <= k < i && is_local_tok(v[k]))) by {
                if local && !(exists|k: int| 0 <= k < i - 1 && is_local_tok(v[k])) {
                    assert(is_local_tok(v[i - 1]));
                }
            }
            assert(pulse == (exists|k: int| 0 <= k < i && is_pulse_tok(v[k]))) by {
                if pulse && !(exists|k: int| 0 <= k < i - 1 && is_pulse_tok(v[k])) {
                    assert(is_pulse_tok(v[i - 1]));
                }
            }
        }
    }
    let r = ArgOverrides { help, local, pulse, config_path };
    proof {
        assert(r@ =~= parse_args_spec(v));
    }
    r
}

/// The usage text, one line per entry.
pub open spec fn help_text() -> Seq<Seq<char>> {
    seq![
        "Sends, a simple application to stream video and audio to friends"@,
        " -l, --local\t\tStream to udp://127.0.0.1:9000"@,
        " -c, --config\t\tPath to config file"@,
        " -p, --pulse\t\tUse pulseaudio's module-combine-sink"@,
        " -h, --help\t\tPrint this message"@,
    ]
}

/// The usage text printed for the help flag.
pub fn help_lines() -> (r: Vec<String>)
    ensures
        r.deep_view() == help_text(),
{
    let mut r: Vec<String> = Vec::new();
    r.push("Sends, a simple application to stream video and audio to friends".to_owned());
    r.push(" -l, --local\t\tStream to udp://127.0.0.1:9000".to_owned());
    r.push(" -c, --config\t\tPath to config file".to_owned());
    r.push(" -p, --pulse\t\tUse pulseaudio's module-combine-sink".to_owned());
    r.push(" -h, --help\t\tPrint this message".to_owned());
    proof {
        assert(r.deep_view() =~~= help_text());
    }
    r
}

} // verus!
