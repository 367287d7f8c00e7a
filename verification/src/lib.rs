//! Configuration resolution and session orchestration for a screen-capture
//! streamer: command-line flags, an optional TOML settings file and an
//! interactive dialogue are merged, with a fixed precedence, into one sealed
//! session descriptor, from which the exact argument lists of the external
//! encoder, preview and audio-routing processes are built. The surrounding
//! binary performs the I/O and spawns the processes; everything that decides
//! lives here, with its contract.

pub mod args;
pub mod backend;
pub mod config_file;
pub mod descriptor;
pub mod orchestrate;
pub mod prompt;
pub mod resolve;
pub mod strutil;
pub mod toml_data;

use vstd::prelude::*;

verus! {

/// The canonical loopback delivery address: the destination used when the
/// user asks for a local stream.
pub open spec fn loopback_uri() -> Seq<char> {
    "udp://127.0.0.1:9000"@
}

/// The shorthand a user may give for the loopback destination.
pub open spec fn local_shorthand() -> Seq<char> {
    "local"@
}

/// The canonical loopback delivery address, for executable callers.
pub fn loopback_uri_str() -> (r: &'static str)
    ensures
        r@ == loopback_uri(),
{
    "udp://127.0.0.1:9000"
}

} // verus!
