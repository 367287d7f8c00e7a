use vstd::prelude::*;

use crate::backend::backend_for;

verus! {

/// The fatal conditions a run can end in before any process is launched.
#[derive(Clone, Copy, Debug, PartialEq, Eq, Structural)]
pub enum RunError {
    /// The settings file exists but is not valid structured data, or a
    /// recognized key holds a value of the wrong type.
    ConfigParseFailure,
    /// A mandatory field is still empty after every source was consulted.
    MissingConfiguration,
    /// The operating system is not in the recognized set.
    UnsupportedPlatform,
}

/// The fully resolved parameters of one capture/stream run, the single source
/// of truth handed from resolution to orchestration.
#[derive(Debug, Clone)]
pub struct SessionDescriptor {
    /// The operating system the run executes on.
    pub platform: String,
    /// The playback/stream sink: the canonical loopback address or a
    /// transport URI.
    pub dest: String,
    /// Either the literal "native" or an explicit WIDTHxHEIGHT value.
    pub resolution: String,
    /// Frames per second, kept in its printed form for argument building.
    pub framerate: String,
    /// The platform audio-capture device.
    pub audio_source: String,
    /// The preview player executable.
    pub mplayer: String,
    /// The encoder executable.
    pub ffmpeg_binary: String,
    /// Whether video capture is part of the run.
    pub record_video: bool,
    /// Whether audio capture is part of the run.
    pub record_audio: bool,
    /// The sink the audio-routing helper builds its combined sink from.
    pub default_pulse_sink: String,
    /// Whether the audio-routing helper runs before the encoder.
    pub enable_pulse_hack: bool,
    /// Whether a preview is wanted even away from the loopback destination.
    pub playback: bool,
}

/// The mathematical picture of a session descriptor.
#[verifier::ext_equal]
pub struct DescView {
    pub platform: Seq<char>,
    pub dest: Seq<char>,
    pub resolution: Seq<char>,
    pub framerate: Seq<char>,
    pub audio_source: Seq<char>,
    pub mplayer: Seq<char>,
    pub ffmpeg_binary: Seq<char>,
    pub record_video: bool,
    pub record_audio: bool,
    pub default_pulse_sink: Seq<char>,
    pub enable_pulse_hack: bool,
    pub playback: bool,
}

impl View for SessionDescriptor {
    type V = DescView;

    open spec fn view(&self) -> DescView {
        DescView {
            platform: self.platform@,
            dest: self.dest@,
            resolution: self.resolution@,
            framerate: self.framerate@,
            audio_source: self.audio_source@,
            mplayer: self.mplayer@,
            ffmpeg_binary: self.ffmpeg_binary@,
            record_video: self.record_video,
            record_audio: self.record_audio,
            default_pulse_sink: self.default_pulse_sink@,
            enable_pulse_hack: self.enable_pulse_hack,
            playback: self.playback,
        }
    }
}

/// A descriptor is sealed when every mandatory field is filled and the
/// platform is recognized; only sealed descriptors reach orchestration.
pub open spec fn sealed(d: DescView) -> bool {
    &&& d.dest.len() > 0
    &&& d.resolution.len() > 0
    &&& d.framerate.len() > 0
    &&& d.audio_source.len() > 0
    &&& d.mplayer.len() > 0
    &&& d.ffmpeg_binary.len() > 0
    &&& backend_for(d.platform) is Some
}

} // verus!
