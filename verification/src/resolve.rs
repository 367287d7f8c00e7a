use vstd::prelude::*;

use crate::args::{ArgOverrides, ArgView};
use crate::backend::{Backend, backend_for, select_backend};
use crate::config_file::{FileConfig, FileConfigView};
use crate::descriptor::{DescView, RunError, SessionDescriptor, sealed};
use crate::prompt::{PromptMachine, PromptView};
use crate::strutil::{
    dec_int, i64_to_string, lemma_trim_idempotent, lemma_trim_identity, opt_str_view, spec_trim,
    str_eq_value, trim_line,
};
use crate::{local_shorthand, loopback_uri, loopback_uri_str};

verus! {

/// The merged field candidates, one per descriptor field, before trimming,
/// normalization and validation seal them.
#[verifier::ext_equal]
pub struct CandView {
    pub dest: Option<Seq<char>>,
    pub resolution: Option<Seq<char>>,
    pub framerate: Option<Seq<char>>,
    pub audio_source: Option<Seq<char>>,
    pub mplayer: Option<Seq<char>>,
    pub ffmpeg_binary: Option<Seq<char>>,
    pub default_pulse_sink: Option<Seq<char>>,
    pub pulse_hack: bool,
}

/// The first value a ranked chain of sources offers.
pub open spec fn first_some(
    a: Option<Seq<char>>,
    b: Option<Seq<char>>,
    c: Option<Seq<char>>,
) -> Option<Seq<char>> {
    if a is Some {
        a
    } else if b is Some {
        b
    } else {
        c
    }
}

/// What the arguments offer for the destination: the shorthand, when the
/// local flag is set.
pub open spec fn arg_dest(a: ArgView) -> Option<Seq<char>> {
    if a.local {
        Some(local_shorthand())
    } else {
        None
    }
}

pub open spec fn prompt_dest(p: Option<PromptView>) -> Option<Seq<char>> {
    match p {
        Some(m) => m.dest,
        None => None,
    }
}

pub open spec fn prompt_resolution(p: Option<PromptView>) -> Option<Seq<char>> {
    match p {
        Some(m) => m.resolution,
        None => None,
    }
}

pub open spec fn prompt_framerate(p: Option<PromptView>) -> Option<Seq<char>> {
    match p {
        Some(m) => m.framerate,
        None => None,
    }
}

/// What the file offers for the framerate, in printed form.
pub open spec fn file_framerate_chars(f: FileConfigView) -> Option<Seq<char>> {
    match f.framerate {
        Some(n) => Some(dec_int(n)),
        None => None,
    }
}

/// The field-by-field merge, by the fixed precedence: explicit argument,
/// then config file, then interactive input. Defaults come at sealing.
pub open spec fn merge_spec(a: ArgView, f: FileConfigView, p: Option<PromptView>) -> CandView {
    CandView {
        dest: first_some(arg_dest(a), f.dest, prompt_dest(p)),
        resolution: first_some(None, f.resolution, prompt_resolution(p)),
        framerate: first_some(None, file_framerate_chars(f), prompt_framerate(p)),
        audio_source: f.audio_source,
        mplayer: f.mplayer,
        ffmpeg_binary: f.ffmpeg_binary,
        default_pulse_sink: f.default_pulse_sink,
        pulse_hack: a.pulse,
    }
}

/// A candidate after the explicit trimming step; absent counts as empty.
pub open spec fn opt_trimmed(o: Option<Seq<char>>) -> Seq<char> {
    match o {
        Some(s) => spec_trim(s),
        None => Seq::empty(),
    }
}

/// A candidate that falls back to a default when absent or empty.
pub open spec fn opt_or(o: Option<Seq<char>>, dflt: Seq<char>) -> Seq<char> {
    match o {
        Some(s) => if s.len() > 0 {
            s
        } else {
            dflt
        },
        None => dflt,
    }
}

/// Seal the merged candidates: trim the line-shaped fields, reject a run
/// with a mandatory field still empty, select the platform backend, default
/// the binaries, and normalize the local shorthand to the loopback address.
pub open spec fn seal_spec(platform: Seq<char>, c: CandView) -> Result<DescView, RunError> {
    let dest_t = opt_trimmed(c.dest);
    let res_t = opt_trimmed(c.resolution);
    let fr_t = opt_trimmed(c.framerate);
    let audio = match c.audio_source {
        Some(s) => s,
        None => Seq::<char>::empty(),
    };
    if dest_t.len() == 0 || res_t.len() == 0 || fr_t.len() == 0 || audio.len() == 0 {
        Err(RunError::MissingConfiguration)
    } else {
        match backend_for(platform) {
            None => Err(RunError::UnsupportedPlatform),
            Some(b) => Ok(
                DescView {
                    platform,
                    dest: if dest_t == local_shorthand() {
                        loopback_uri()
                    } else {
                        dest_t
                    },
                    resolution: res_t,
                    framerate: fr_t,
                    audio_source: audio,
                    mplayer: opt_or(c.mplayer, b.default_preview),
                    ffmpeg_binary: opt_or(c.ffmpeg_binary, b.default_encoder),
                    default_pulse_sink: match c.default_pulse_sink {
                        Some(s) => s,
                        None => Seq::<char>::empty(),
                    },
                    record_video: true,
                    record_audio: true,
                    enable_pulse_hack: c.pulse_hack,
                    playback: false,
                },
            ),
        }
    }
}

/// The whole resolution: merge, then seal.
pub open spec fn resolve_spec(
    platform: Seq<char>,
    a: ArgView,
    f: FileConfigView,
    p: Option<PromptView>,
) -> Result<DescView, RunError> {
    seal_spec(platform, merge_spec(a, f, p))
}

/// Whether the prompt driver must be consulted: arguments and file left a
/// mandatory line-shaped field without any candidate.
pub open spec fn prompt_needed(a: ArgView, f: FileConfigView) -> bool {
    let c = merge_spec(a, f, None);
    c.dest is None || c.resolution is None || c.framerate is None
}

/// Whether interactive prompting is required before resolution can finish.
pub fn needs_prompt(a: &ArgOverrides, f: &FileConfig) -> (r: bool)
    ensures
        r == prompt_needed(a@, f@),
{
    let dest_missing = !a.local && f.dest.is_none();
    let res_missing = f.resolution.is_none();
    let fr_missing = f.framerate.is_none();
    dest_missing || res_missing || fr_missing
}

/// A copy of an optional string.
fn clone_opt(o: &Option<String>) -> (r: Option<String>)
    ensures
        opt_str_view(r) == opt_str_view(*o),
{
    match o {
        Some(s) => Some(s.clone()),
        None => None,
    }
}

/// The first value a ranked chain of sources offers.
fn first_some_exec(x: Option<String>, y: Option<String>, z: Option<String>) -> (r: Option<String>)
    ensures
        opt_str_view(r) == first_some(opt_str_view(x), opt_str_view(y), opt_str_view(z)),
{
    if x.is_some() {
        x
    } else if y.is_some() {
        y
    } else {
        z
    }
}

/// Trim a candidate; an absent one trims to the empty string.
fn trim_opt(o: &Option<String>) -> (r: String)
    ensures
        r@ == opt_trimmed(opt_str_view(*o)),
{
    match o {
        Some(s) => trim_line(s.as_str()),
        None => String::new(),
    }
}

/// Take the candidate when it is non-empty, else the default.
fn or_default(o: &Option<String>, dflt: String) -> (r: String)
    ensures
        r@ == opt_or(opt_str_view(*o), dflt@),
{
    match o {
        Some(s) => {
            if !s.as_str().is_empty() {
                s.clone()
            } else {
                dflt
            }
        },
        None => dflt,
    }
}

/// The view of the optionally consulted prompt driver.
pub open spec fn prompt_view_opt(p: Option<&PromptMachine>) -> Option<PromptView> {
    match p {
        Some(m) => Some(m@),
        None => None,
    }
}

/// Resolve one run: merge the sources field by field, trim, validate, pick
/// the platform backend, default the binaries, and normalize the local
/// shorthand. The run must abort, with nothing launched, on the returned
/// error: a mandatory field still empty, or an unrecognized platform.
pub fn resolve_session(
    platform: &str,
    a: &ArgOverrides,
    f: &FileConfig,
    p: Option<&PromptMachine>,
) -> (r: Result<SessionDescriptor, RunError>)
    ensures
        match r {
            Ok(d) => resolve_spec(platform@, a@, f@, prompt_view_opt(p)) == Ok::<
                DescView,
                RunError,
            >(d@) && sealed(d@),
            Err(e) => resolve_spec(platform@, a@, f@, prompt_view_opt(p)) == Err::<
                DescView,
                RunError,
            >(e),
        },
{
    let ghost c = merge_spec(a@, f@, prompt_view_opt(p));
    let arg_dest_val: Option<String> = if a.local {
        Some("local".to_owned())
    } else {
        None
    };
    let p_dest: Option<String> = match p {
        Some(m) => clone_opt(&m.dest),
        None => None,
    };
    let p_res: Option<String> = match p {
        Some(m) => clone_opt(&m.resolution),
        None => None,
    };
    let p_fr: Option<String> = match p {
        Some(m) => clone_opt(&m.framerate),
        None => None,
    };
    let f_fr: Option<String> = match f.framerate {
        Some(n) => Some(i64_to_string(n)),
        None => None,
    };
    let dest_c = first_some_exec(arg_dest_val, clone_opt(&f.dest), p_dest);
    let res_c = first_some_exec(None, clone_opt(&f.resolution), p_res);
    let fr_c = first_some_exec(None, f_fr, p_fr);
    proof {
        assert(opt_str_view(dest_c) == c.dest);
        assert(opt_str_view(res_c) == c.resolution);
        assert(opt_str_view(fr_c) == c.framerate);
    }
    let dest_t = trim_opt(&dest_c);
    let res_t = trim_opt(&res_c);
    let fr_t = trim_opt(&fr_c);
    let audio: String = match &f.audio_source {
        Some(s) => s.clone(),
        None => String::new(),
    };
    if dest_t.as_str().is_empty() || res_t.as_str().is_empty() || fr_t.as_str().is_empty()
        || audio.as_str().is_empty() {
        return Err(RunError::MissingConfiguration);
    }
    let b: Backend = match select_backend(platform) {
        Ok(b) => b,
        Err(e) => {
            return Err(e);
        },
    };
    let dest: String = if str_eq_value(dest_t.as_str(), "local") {
        loopback_uri_str().to_owned()
    } else {
        dest_t
    };
    let d = SessionDescriptor {
        platform: platform.to_owned(),
        dest,
        resolution: res_t,
        framerate: fr_t,
        audio_source: audio,
        mplayer: or_default(&f.mplayer, b.default_preview),
        ffmpeg_binary: or_default(&f.ffmpeg_binary, b.default_encoder),
        record_video: true,
        record_audio: true,
        default_pulse_sink: match &f.default_pulse_sink {
            Some(s) => s.clone(),
            None => String::new(),
        },
        enable_pulse_hack: a.pulse,
        playback: false,
    };
    proof {
        assert(seal_spec(platform@, c) =~= Ok::<DescView, RunError>(d@));
        assert(sealed(d@)) by {
            reveal_strlit("udp://127.0.0.1:9000");
            reveal_strlit("ffmpeg");
            reveal_strlit("mpv");
        }
    }
    Ok(d)
}

/// Precedence law: when the highest-ranked source offers a value, the merge
/// takes it; no lower-ranked source overrides it.
pub proof fn lemma_first_some_precedence(
    a: Option<Seq<char>>,
    b: Option<Seq<char>>,
    c: Option<Seq<char>>,
)
    requires
        a is Some,
    ensures
        first_some(a, b, c) == a,
{
}

/// Explicit-argument values survive resolution: the local flag fixes the
/// destination to the loopback address and the pulse toggle is taken as
/// given, whatever the file or the prompt contributed.
pub proof fn lemma_argument_precedence(
    platform: Seq<char>,
    a: ArgView,
    f: FileConfigView,
    p: Option<PromptView>,
    d: DescView,
)
    requires
        resolve_spec(platform, a, f, p) == Ok::<DescView, RunError>(d),
    ensures
        a.local ==> d.dest == loopback_uri(),
        d.enable_pulse_hack == a.pulse,
{
    if a.local {
        reveal_strlit("local");
        lemma_trim_identity(local_shorthand());
    }
}

/// When the settings file names no binaries — as with an empty or absent
/// `config` section — the resolved binaries are the platform's built-in
/// defaults.
pub proof fn lemma_default_binaries(
    platform: Seq<char>,
    a: ArgView,
    f: FileConfigView,
    p: Option<PromptView>,
    d: DescView,
)
    requires
        f.mplayer is None,
        f.ffmpeg_binary is None,
        resolve_spec(platform, a, f, p) == Ok::<DescView, RunError>(d),
    ensures
        backend_for(platform) matches Some(b) && d.mplayer == b.default_preview
            && d.ffmpeg_binary == b.default_encoder,
{
}

/// The local shorthand, whether from the flag or from any source's value,
/// resolves to the canonical loopback address.
pub proof fn lemma_local_normalization(
    platform: Seq<char>,
    a: ArgView,
    f: FileConfigView,
    p: Option<PromptView>,
    d: DescView,
)
    requires
        resolve_spec(platform, a, f, p) == Ok::<DescView, RunError>(d),
        a.local || (merge_spec(a, f, p).dest matches Some(cd) && spec_trim(cd)
            == local_shorthand()),
    ensures
        d.dest == loopback_uri(),
{
    reveal_strlit("local");
    lemma_trim_identity(local_shorthand());
}

/// A mandatory field still empty after the merge and the trimming step
/// resolves to the missing-configuration failure, whatever the platform:
/// the caller then aborts with nothing launched.
pub proof fn lemma_missing_configuration(
    platform: Seq<char>,
    a: ArgView,
    f: FileConfigView,
    p: Option<PromptView>,
)
    requires
        ({
            let c = merge_spec(a, f, p);
            ||| opt_trimmed(c.dest).len() == 0
            ||| opt_trimmed(c.resolution).len() == 0
            ||| opt_trimmed(c.framerate).len() == 0
            ||| (match c.audio_source {
                Some(s) => s,
                None => Seq::<char>::empty(),
            }).len() == 0
        }),
    ensures
        resolve_spec(platform, a, f, p) == Err::<DescView, RunError>(RunError::MissingConfiguration),
{
}

/// A sealed descriptor's own fields, fed back as merge candidates.
pub open spec fn candidates_of(d: DescView) -> CandView {
    CandView {
        dest: Some(d.dest),
        resolution: Some(d.resolution),
        framerate: Some(d.framerate),
        audio_source: Some(d.audio_source),
        mplayer: Some(d.mplayer),
        ffmpeg_binary: Some(d.ffmpeg_binary),
        default_pulse_sink: Some(d.default_pulse_sink),
        pulse_hack: d.enable_pulse_hack,
    }
}

/// Sealing is idempotent: a descriptor that came out of sealing comes out
/// unchanged when its own fields are sealed again.
pub proof fn lemma_reseal_idempotent(platform: Seq<char>, c: CandView, d: DescView)
    requires
        seal_spec(platform, c) == Ok::<DescView, RunError>(d),
    ensures
        seal_spec(platform, candidates_of(d)) == Ok::<DescView, RunError>(d),
{
    reveal_strlit("local");
    reveal_strlit("udp://127.0.0.1:9000");
    let dest_t = opt_trimmed(c.dest);
    match c.dest {
        Some(s) => {
            lemma_trim_idempotent(s);
            if dest_t == local_shorthand() {
                lemma_trim_identity(loopback_uri());
                assert(loopback_uri() != local_shorthand());
            }
        },
        None => {
            assert(false);
        },
    }
    match c.resolution {
        Some(s) => {
            lemma_trim_idempotent(s);
        },
        None => {
            assert(false);
        },
    }
    match c.framerate {
        Some(s) => {
            lemma_trim_idempotent(s);
        },
        None => {
            assert(false);
        },
    }
    assert(seal_spec(platform, candidates_of(d)) =~= Ok::<DescView, RunError>(d));
}

} // verus!
