//! Decisions of the visualizer's window: switching Spotify mode on and off,
//! and the status lines of the heads-up display.
use vstd::prelude::*;
use vstd::string::*;

verus! {

broadcast use vstd::string::group_string_axioms;

/// The outcome of pressing the Spotify key.
pub struct SpotifyToggle {
    /// Spotify mode after the key press.
    pub mode: bool,
    /// Whether a sign-in should begin now.
    pub start_auth: bool,
}

/// Pressing the Spotify key flips the mode; switching it on while neither
/// connected nor signing in begins a sign-in.
pub fn toggle_spotify(mode: bool, connected: bool, auth_in_progress: bool) -> (res: SpotifyToggle)
    ensures
        res.mode == !mode,
        res.start_auth == (!mode && !connected && !auth_in_progress),
{
    let new_mode = !mode;
    SpotifyToggle { mode: new_mode, start_auth: new_mode && !connected && !auth_in_progress }
}

/// `"ON"` or `"OFF"`.
pub fn on_off(on: bool) -> (res: &'static str)
    ensures
        on ==> res@ == "ON"@,
        !on ==> res@ == "OFF"@,
{
    if on {
        "ON"
    } else {
        "OFF"
    }
}

/// The line naming the audio input device.
pub fn audio_line(device_name: &str) -> (res: String)
    ensures
        res@ == "Audio: "@ + device_name@,
{
    let mut s = String::from_str("Audio: ");
    s.append(device_name);
    s
}

/// The Spotify status line of the HUD, when there is one.
pub open spec fn spotify_line_spec(
    mode: bool,
    connected: bool,
    has_track: bool,
    auth_in_progress: bool,
    track: Seq<char>,
    artist: Seq<char>,
) -> Option<Seq<char>> {
    if !mode {
        None
    } else if connected && has_track {
        Some("+ "@ + track + " - "@ + artist)
    } else if auth_in_progress {
        Some("Spotify: connecting..."@)
    } else if connected {
        Some("Spotify: nothing playing"@)
    } else {
        None
    }
}

/// The HUD shows a track only for a connected client that knows a track:
/// then the line is exactly `+ <track> - <artist>`.  A disconnected client
/// shows no track line: only the connecting notice while signing in, and no
/// line at all otherwise.  With Spotify mode off there is never a line.
pub proof fn law_track_line_only_when_connected(
    mode: bool,
    connected: bool,
    has_track: bool,
    auth_in_progress: bool,
    track: Seq<char>,
    artist: Seq<char>,
)
    ensures
        ({
            let line = spotify_line_spec(mode, connected, has_track, auth_in_progress, track, artist);
            &&& (!mode ==> line is None)
            &&& (mode && connected && has_track ==> line == Some("+ "@ + track + " - "@ + artist))
            &&& (!connected ==> line != Some("+ "@ + track + " - "@ + artist))
            &&& (!connected && !auth_in_progress ==> line is None)
            &&& (mode && !connected && auth_in_progress ==> line == Some(
                "Spotify: connecting..."@,
            ))
            &&& (mode && connected && !has_track && !auth_in_progress ==> line == Some(
                "Spotify: nothing playing"@,
            ))
        }),
{
    reveal_strlit("+ ");
    reveal_strlit("Spotify: connecting...");
    let tl = "+ "@ + track + " - "@ + artist;
    assert(tl[0] == '+');
    assert("Spotify: connecting..."@[0] == 'S');
}

/// The Spotify status line: the playing track and artist, a connecting or
/// nothing-playing notice, or no line at all when Spotify mode is off or
/// there is nothing to say.
pub fn spotify_line(
    mode: bool,
    connected: bool,
    has_track: bool,
    auth_in_progress: bool,
    track: &str,
    artist: &str,
) -> (res: Option<String>)
    ensures
        match res {
            Some(s) => spotify_line_spec(mode, connected, has_track, auth_in_progress, track@, artist@)
                == Some(s@),
            None => spotify_line_spec(mode, connected, has_track, auth_in_progress, track@, artist@) is None,
        },
{
    if !mode {
        None
    } else if connected && has_track {
        let mut s = String::from_str("+ ");
        s.append(track);
        s.append(" - ");
        s.append(artist);
        Some(s)
    } else if auth_in_progress {
        Some(String::from_str("Spotify: connecting..."))
    } else if connected {
        Some(String::from_str("Spotify: nothing playing"))
    } else {
        None
    }
}

/// What a frame does besides drawing the disc.
pub struct FramePlan {
    /// Take newly downloaded album art for upload: only in Spotify mode.
    pub take_album_art: bool,
    /// Draw the disc as lines rather than filled triangles.
    pub line_mode: bool,
}

/// Plans a frame: new album art is taken only in Spotify mode, and the disc
/// is drawn as lines exactly in wireframe mode.
pub fn frame_plan(spotify_mode: bool, wireframe: bool) -> (res: FramePlan)
    ensures
        res.take_album_art == spotify_mode,
        res.line_mode == wireframe,
{
    FramePlan { take_album_art: spotify_mode, line_mode: wireframe }
}

/// Album art is drawn on the disc only in Spotify mode, once art has been
/// uploaded and its texture exists.
pub fn show_album_art(mode: bool, has_album: bool, has_texture: bool) -> (res: bool)
    ensures
        res == (mode && has_album && has_texture),
{
    mode && has_album && has_texture
}

} // verus!
