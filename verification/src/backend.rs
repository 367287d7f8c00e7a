use vstd::prelude::*;

use crate::descriptor::RunError;
use crate::strutil::str_eq_value;

verus! {

/// The platform-specific capture identifiers and default binary names that
/// the orchestrator consumes uniformly.
#[derive(Debug, Clone)]
pub struct Backend {
    /// The capture input-device driver handed to the encoder.
    pub capture_driver: String,
    /// The audio input driver handed to the encoder.
    pub audio_driver: String,
    /// The capture input identifier (the display or desktop to grab).
    pub capture_input: String,
    /// The encoder binary used when the configuration names none.
    pub default_encoder: String,
    /// The preview binary used when the configuration names none.
    pub default_preview: String,
}

/// The mathematical picture of a backend.
#[verifier::ext_equal]
pub struct BackendView {
    pub capture_driver: Seq<char>,
    pub audio_driver: Seq<char>,
    pub capture_input: Seq<char>,
    pub default_encoder: Seq<char>,
    pub default_preview: Seq<char>,
}

impl View for Backend {
    type V = BackendView;

    open spec fn view(&self) -> BackendView {
        BackendView {
            capture_driver: self.capture_driver@,
            audio_driver: self.audio_driver@,
            capture_input: self.capture_input@,
            default_encoder: self.default_encoder@,
            default_preview: self.default_preview@,
        }
    }
}

/// The backend of each recognized platform; `None` for every other one.
pub open spec fn backend_for(platform: Seq<char>) -> Option<BackendView> {
    if platform == "linux"@ {
        Some(
            BackendView {
                capture_driver: "x11grab"@,
                audio_driver: "pulse"@,
                capture_input: ":0"@,
                default_encoder: "ffmpeg"@,
                default_preview: "mpv"@,
            },
        )
    } else if platform == "windows"@ {
        Some(
            BackendView {
                capture_driver: "dshow"@,
                audio_driver: "dshow"@,
                capture_input: "desktop"@,
                default_encoder: "ffmpeg"@,
                default_preview: "mpv"@,
            },
        )
    } else {
        None
    }
}

/// Map the detected operating system to its capture drivers and default
/// binaries; an unrecognized platform is fatal, there is no generic fallback.
pub fn select_backend(platform: &str) -> (r: Result<Backend, RunError>)
    ensures
        match r {
            Ok(b) => backend_for(platform@) == Some(b@),
            Err(e) => backend_for(platform@) is None && e == RunError::UnsupportedPlatform,
        },
{
    if str_eq_value(platform, "linux") {
        let b = Backend {
            capture_driver: "x11grab".to_owned(),
            audio_driver: "pulse".to_owned(),
            capture_input: ":0".to_owned(),
            default_encoder: "ffmpeg".to_owned(),
            default_preview: "mpv".to_owned(),
        };
        proof {
            assert(Some(b@) =~= backend_for(platform@));
        }
        Ok(b)
    } else if str_eq_value(platform, "windows") {
        let b = Backend {
            capture_driver: "dshow".to_owned(),
            audio_driver: "dshow".to_owned(),
            capture_input: "desktop".to_owned(),
            default_encoder: "ffmpeg".to_owned(),
            default_preview: "mpv".to_owned(),
        };
        proof {
            assert(Some(b@) =~= backend_for(platform@));
        }
        Ok(b)
    } else {
        Err(RunError::UnsupportedPlatform)
    }
}

} // verus!
