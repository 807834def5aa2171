//! Verified core of the vinyl music visualizer: the Spotify PKCE sign-in and
//! now-playing state machine, the glyph-atlas packer, the disc mesh indices,
//! the spectrum binning arithmetic and the HUD decisions.
use vstd::prelude::*;

pub mod encoding;
pub mod text;
pub mod config;
pub mod pkce;
pub mod spotify;
pub mod atlas;
pub mod disc;
pub mod audio;
pub mod hud;
pub mod media;

verus! {

/// Name of the application as shown in the startup message.
pub const APP_NAME: &'static str = "Vinyl Audio Visualizer";

/// Status line appended to the startup message.
pub const STATUS: &'static str = "Rust rewrite baseline is ready.";

/// The message printed at startup: the application name, a dash and the status.
pub fn startup_message() -> (res: String)
    ensures
        res@ == APP_NAME@ + " - "@ + STATUS@,
{
    let mut s = String::from_str(APP_NAME);
    s.append(" - ");
    s.append(STATUS);
    s
}

} // verus!
