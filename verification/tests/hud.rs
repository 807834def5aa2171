use vinyl_viz::hud::{audio_line, on_off, show_album_art, spotify_line, toggle_spotify};

#[test]
fn toggle_starts_sign_in_only_when_idle() {
    let t = toggle_spotify(false, false, false);
    assert!(t.mode && t.start_auth);
    let t = toggle_spotify(false, true, false);
    assert!(t.mode && !t.start_auth);
    let t = toggle_spotify(false, false, true);
    assert!(t.mode && !t.start_auth);
    let t = toggle_spotify(true, false, false);
    assert!(!t.mode && !t.start_auth);
}

#[test]
fn hud_labels() {
    assert_eq!(on_off(true), "ON");
    assert_eq!(on_off(false), "OFF");
    assert_eq!(audio_line("Mic"), "Audio: Mic");
    assert_eq!(audio_line(""), "Audio: ");
}

#[test]
fn spotify_line_reflects_state() {
    assert_eq!(spotify_line(false, true, true, false, "T", "A"), None);
    assert_eq!(
        spotify_line(true, true, true, false, "Track", "Artist"),
        Some("+ Track - Artist".to_string())
    );
    assert_eq!(
        spotify_line(true, false, false, true, "", ""),
        Some("Spotify: connecting...".to_string())
    );
    assert_eq!(
        spotify_line(true, true, false, false, "", ""),
        Some("Spotify: nothing playing".to_string())
    );
    assert_eq!(spotify_line(true, false, false, false, "", ""), None);
}

#[test]
fn album_art_shown_only_when_ready() {
    assert!(show_album_art(true, true, true));
    assert!(!show_album_art(false, true, true));
    assert!(!show_album_art(true, false, true));
    assert!(!show_album_art(true, true, false));
}
