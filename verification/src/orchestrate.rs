use vstd::pervasive::arbitrary;
use vstd::pervasive::unreached;
use vstd::prelude::*;
use vstd::string::StringExecFns;

use crate::backend::{Backend, BackendView, backend_for, select_backend};
use crate::descriptor::{DescView, SessionDescriptor, sealed};
use crate::loopback_uri;
use crate::loopback_uri_str;
use crate::strutil::str_eq_value;

verus! {

/// One external process to start: its executable and its arguments.
#[derive(Debug, Clone)]
pub struct CommandSpec {
    pub program: String,
    pub args: Vec<String>,
}

/// The mathematical picture of a command.
#[verifier::ext_equal]
pub struct CommandView {
    pub program: Seq<char>,
    pub args: Seq<Seq<char>>,
}

impl View for CommandSpec {
    type V = CommandView;

    open spec fn view(&self) -> CommandView {
        CommandView { program: self.program@, args: self.args.deep_view() }
    }
}

/// Everything one run launches, in order: the fire-and-forget audio-routing
/// call, the detached preview player, and the foreground encoder whose exit
/// status becomes the run's own.
#[derive(Debug, Clone)]
pub struct LaunchPlan {
    pub pulse: Option<CommandSpec>,
    pub preview: Option<CommandSpec>,
    pub encoder: CommandSpec,
}

/// The mathematical picture of a launch plan.
#[verifier::ext_equal]
pub struct LaunchPlanView {
    pub pulse: Option<CommandView>,
    pub preview: Option<CommandView>,
    pub encoder: CommandView,
}

impl View for LaunchPlan {
    type V = LaunchPlanView;

    open spec fn view(&self) -> LaunchPlanView {
        LaunchPlanView {
            pulse: match self.pulse {
                Some(c) => Some(c@),
                None => None,
            },
            preview: match self.preview {
                Some(c) => Some(c@),
                None => None,
            },
            encoder: self.encoder@,
        }
    }
}

/// The audio-routing call: build a combined sink over the configured
/// default sink.
pub open spec fn pulse_cmd(d: DescView) -> CommandView {
    CommandView {
        program: "pactl"@,
        args: seq![
            "load-module"@,
            "module-combine-sink"@,
            "sink_name=sends"@,
            "slaves="@ + d.default_pulse_sink,
        ],
    }
}

/// Whether a preview player is launched: the destination is the loopback
/// address, or the run is playback-only.
pub open spec fn wants_preview(d: DescView) -> bool {
    d.dest == loopback_uri() || d.playback
}

/// The preview call: the player on the destination, low-latency profile.
pub open spec fn preview_cmd(d: DescView) -> CommandView {
    CommandView { program: d.mplayer, args: seq![d.dest, "-profile=low-latency"@] }
}

pub open spec fn ea_head(d: DescView, b: BackendView) -> Seq<Seq<char>> {
    seq!["-f"@, b.capture_driver, "-framerate"@, d.framerate]
}

pub open spec fn ea_size(d: DescView) -> Seq<Seq<char>> {
    if d.resolution == "native"@ {
        Seq::empty()
    } else {
        seq!["-s"@, d.resolution]
    }
}

pub open spec fn ea_input(b: BackendView) -> Seq<Seq<char>> {
    seq!["-i"@, b.capture_input]
}

pub open spec fn ea_audio(d: DescView, b: BackendView) -> Seq<Seq<char>> {
    if d.record_audio {
        seq!["-f"@, b.audio_driver, "-i"@, d.audio_source]
    } else {
        Seq::empty()
    }
}

pub open spec fn ea_tail(d: DescView) -> Seq<Seq<char>> {
    seq![
        "-c:v"@,
        "libx264"@,
        "-preset"@,
        "ultrafast"@,
        "-tune"@,
        "zerolatency"@,
        "-f"@,
        "mpegts"@,
        d.dest,
    ]
}

/// The full encoder argument list: capture driver and framerate, the
/// explicit frame size unless the resolution is "native", the capture
/// input, the audio input when audio is recorded, the fixed fast and
/// low-latency encoding parameters, the output container, and the
/// destination.
pub open spec fn encoder_args(d: DescView, b: BackendView) -> Seq<Seq<char>> {
    ea_head(d, b) + ea_size(d) + ea_input(b) + ea_audio(d, b) + ea_tail(d)
}

/// What a sealed descriptor launches.
pub open spec fn plan_spec(d: DescView) -> LaunchPlanView {
    match backend_for(d.platform) {
        Some(b) => LaunchPlanView {
            pulse: if d.enable_pulse_hack {
                Some(pulse_cmd(d))
            } else {
                None
            },
            preview: if wants_preview(d) {
                Some(preview_cmd(d))
            } else {
                None
            },
            encoder: CommandView { program: d.ffmpeg_binary, args: encoder_args(d, b) },
        },
        None => arbitrary(),
    }
}

/// Build the launch plan of a sealed descriptor. The caller performs the
/// plan in order: start the audio-routing call without waiting on it, start
/// the preview detached with its output discarded, then block on the
/// encoder and take its exit status.
pub fn build_plan(d: &SessionDescriptor) -> (r: LaunchPlan)
    requires
        sealed(d@),
    ensures
        r@ == plan_spec(d@),
{
    let b: Backend = match select_backend(d.platform.as_str()) {
        Ok(b) => b,
        Err(_) => unreached(),
    };
    let pulse: Option<CommandSpec> = if d.enable_pulse_hack {
        let mut pargs: Vec<String> = Vec::new();
        pargs.push("load-module".to_owned());
        pargs.push("module-combine-sink".to_owned());
        pargs.push("sink_name=sends".to_owned());
        let mut slaves = "slaves=".to_owned();
        slaves.append(d.default_pulse_sink.as_str());
        pargs.push(slaves);
        let c = CommandSpec { program: "pactl".to_owned(), args: pargs };
        proof {
            assert(c@ =~~= pulse_cmd(d@));
        }
        Some(c)
    } else {
        None
    };
    let preview: Option<CommandSpec> = if str_eq_value(d.dest.as_str(), loopback_uri_str())
        || d.playback {
        let mut vargs: Vec<String> = Vec::new();
        vargs.push(d.dest.clone());
        vargs.push("-profile=low-latency".to_owned());
        let c = CommandSpec { program: d.mplayer.clone(), args: vargs };
        proof {
            assert(c@ =~~= preview_cmd(d@));
        }
        Some(c)
    } else {
        None
    };
    let mut ea: Vec<String> = Vec::new();
    ea.push("-f".to_owned());
    ea.push(b.capture_driver.clone());
    ea.push("-framerate".to_owned());
    ea.push(d.framerate.clone());
    proof {
        assert(ea.deep_view() =~~= ea_head(d@, b@));
    }
    if !str_eq_value(d.resolution.as_str(), "native") {
        ea.push("-s".to_owned());
        ea.push(d.resolution.clone());
    }
    proof {
        assert(ea.deep_view() =~~= ea_head(d@, b@) + ea_size(d@));
    }
    ea.push("-i".to_owned());
    ea.push(b.capture_input.clone());
    proof {
        assert(ea.deep_view() =~~= ea_head(d@, b@) + ea_size(d@) + ea_input(b@));
    }
    if d.record_audio {
        ea.push("-f".to_owned());
        ea.push(b.audio_driver.clone());
        ea.push("-i".to_owned());
        ea.push(d.audio_source.clone());
    }
    proof {
        assert(ea.deep_view() =~~= ea_head(d@, b@) + ea_size(d@) + ea_input(b@) + ea_audio(
            d@,
            b@,
        ));
    }
    ea.push("-c:v".to_owned());
    ea.push("libx264".to_owned());
    ea.push("-preset".to_owned());
    ea.push("ultrafast".to_owned());
    ea.push("-tune".to_owned());
    ea.push("zerolatency".to_owned());
    ea.push("-f".to_owned());
    ea.push("mpegts".to_owned());
    ea.push(d.dest.clone());
    proof {
        assert(ea.deep_view() =~~= encoder_args(d@, b@));
    }
    let r = LaunchPlan {
        pulse,
        preview,
        encoder: CommandSpec { program: d.ffmpeg_binary.clone(), args: ea },
    };
    proof {
        assert(r@ =~~= plan_spec(d@));
    }
    r
}

/// The size flag is present exactly away from the "native" resolution: a
/// "native" run's encoder arguments hold no size flag anywhere, and any
/// other run's hold it, followed by the exact resolution value. The inputs
/// whose own values collide with the flag token are left aside.
pub proof fn lemma_size_flag(d: DescView, b: BackendView)
    requires
        backend_for(d.platform) == Some(b),
        d.record_audio,
        d.framerate != "-s"@,
        d.audio_source != "-s"@,
        d.dest != "-s"@,
    ensures
        d.resolution == "native"@ ==> forall|i: int|
            0 <= i < encoder_args(d, b).len() ==> encoder_args(d, b)[i] != "-s"@,
        d.resolution != "native"@ ==> encoder_args(d, b)[4] == "-s"@ && encoder_args(d, b)[5]
            == d.resolution,
{
    reveal_strlit("-s");
    reveal_strlit("-f");
    reveal_strlit("-framerate");
    reveal_strlit("-i");
    reveal_strlit("-c:v");
    reveal_strlit("libx264");
    reveal_strlit("-preset");
    reveal_strlit("ultrafast");
    reveal_strlit("-tune");
    reveal_strlit("zerolatency");
    reveal_strlit("mpegts");
    reveal_strlit("linux");
    reveal_strlit("windows");
    reveal_strlit("x11grab");
    reveal_strlit("dshow");
    reveal_strlit("pulse");
    reveal_strlit(":0");
    reveal_strlit("desktop");
    let e = encoder_args(d, b);
    assert(b.capture_driver != "-s"@ && b.audio_driver != "-s"@ && b.capture_input != "-s"@) by {
        reveal_strlit("-s");
        reveal_strlit("x11grab");
        reveal_strlit("dshow");
        reveal_strlit("pulse");
        reveal_strlit(":0");
        reveal_strlit("desktop");
        assert(d.platform == "linux"@ || d.platform == "windows"@);
        if d.platform == "linux"@ {
            assert(b.capture_driver == "x11grab"@);
            assert(b.audio_driver == "pulse"@);
            assert(b.capture_input == ":0"@);
            assert(":0"@[0] == ':' && "-s"@[0] == '-');
            assert("x11grab"@.len() == 7 && "pulse"@.len() == 5 && "-s"@.len() == 2);
        } else {
            assert(b.capture_driver == "dshow"@);
            assert(b.audio_driver == "dshow"@);
            assert(b.capture_input == "desktop"@);
            assert("dshow"@.len() == 5 && "desktop"@.len() == 7 && "-s"@.len() == 2);
        }
    }
    if d.resolution == "native"@ {
        assert(e =~~= seq![
            "-f"@,
            b.capture_driver,
            "-framerate"@,
            d.framerate,
            "-i"@,
            b.capture_input,
            "-f"@,
            b.audio_driver,
            "-i"@,
            d.audio_source,
            "-c:v"@,
            "libx264"@,
            "-preset"@,
            "ultrafast"@,
            "-tune"@,
            "zerolatency"@,
            "-f"@,
            "mpegts"@,
            d.dest,
        ]);
        assert("-f"@ != "-s"@ && "-framerate"@ != "-s"@ && "-i"@ != "-s"@ && "-c:v"@ != "-s"@
            && "libx264"@ != "-s"@ && "-preset"@ != "-s"@ && "ultrafast"@ != "-s"@ && "-tune"@
            != "-s"@ && "zerolatency"@ != "-s"@ && "mpegts"@ != "-s"@) by {
            reveal_strlit("-s");
            reveal_strlit("-f");
            reveal_strlit("-framerate");
            reveal_strlit("-i");
            reveal_strlit("-c:v");
            reveal_strlit("libx264");
            reveal_strlit("-preset");
            reveal_strlit("ultrafast");
            reveal_strlit("-tune");
            reveal_strlit("zerolatency");
            reveal_strlit("mpegts");
            assert("-f"@[1] == 'f' && "-s"@[1] == 's');
            assert("-i"@[1] == 'i');
        }
        assert forall|i: int| 0 <= i < e.len() implies e[i] != "-s"@ by {
            assert(e.len() == 19);
            assert(e[0] == "-f"@);
            assert(e[1] == b.capture_driver);
            assert(e[2] == "-framerate"@);
            assert(e[3] == d.framerate);
            assert(e[4] == "-i"@);
            assert(e[5] == b.capture_input);
            assert(e[6] == "-f"@);
            assert(e[7] == b.audio_driver);
            assert(e[8] == "-i"@);
            assert(e[9] == d.audio_source);
            assert(e[10] == "-c:v"@);
            assert(e[11] == "libx264"@);
            assert(e[12] == "-preset"@);
            assert(e[13] == "ultrafast"@);
            assert(e[14] == "-tune"@);
            assert(e[15] == "zerolatency"@);
            assert(e[16] == "-f"@);
            assert(e[17] == "mpegts"@);
            assert(e[18] == d.dest);
        }
    } else {
        assert(e[4] == "-s"@ && e[5] == d.resolution);
    }
}

} // verus!
