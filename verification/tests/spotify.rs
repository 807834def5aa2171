use vinyl_viz::pkce::{authorize_url, code_challenge, code_verifier_from, token_request_body};
use vinyl_viz::spotify::{
    best_image_url, join_artist_names, AlbumImage, CurrentlyPlaying, SpotifyClient, TokenReply,
    TokenResponse, TrackItem,
};

fn configured() -> SpotifyClient {
    SpotifyClient::new(Some("spotify.client_id=cid\n"))
}

fn token(access: &str, refresh: &str, expires_in: i64) -> TokenReply {
    TokenReply::Token(TokenResponse {
        access_token: access.to_string(),
        refresh_token: refresh.to_string(),
        expires_in,
    })
}

fn image(width: Option<i64>, url: Option<&str>) -> AlbumImage {
    AlbumImage { width, url: url.map(|u| u.to_string()) }
}

fn item(name: Option<&str>, artists: Option<Vec<Option<&str>>>, images: Option<Vec<AlbumImage>>) -> CurrentlyPlaying {
    CurrentlyPlaying {
        item: Some(TrackItem {
            name: name.map(|n| n.to_string()),
            artists: artists.map(|a| a.into_iter().map(|n| n.map(|s| s.to_string())).collect()),
            images,
        }),
    }
}

#[test]
fn new_client_starts_idle() {
    let c = configured();
    assert!(!c.is_connected());
    assert!(!c.is_auth_in_progress());
    assert!(!c.has_track());
    assert_eq!(c.track_name(), "");
    assert_eq!(c.artist_name(), "");
    assert!(!c.is_stop_requested());
}

#[test]
fn start_auth_needs_client_id() {
    let mut c = SpotifyClient::new(None);
    assert!(!c.start_auth());
    assert!(!c.is_auth_in_progress());
    let mut c = SpotifyClient::new(Some("spotify.client_id=YOUR_ID"));
    assert!(!c.start_auth());
}

#[test]
fn start_auth_runs_once_at_a_time() {
    let mut c = configured();
    assert!(c.start_auth());
    assert!(c.is_auth_in_progress());
    assert!(!c.start_auth());
    c.auth_failed();
    assert!(!c.is_auth_in_progress());
    assert!(c.start_auth());
}

#[test]
fn token_reply_connects() {
    let mut c = configured();
    c.start_auth();
    assert!(c.on_token_response(token("acc", "ref", 3600), 1_000));
    assert!(c.is_connected());
    assert!(!c.is_auth_in_progress());
    assert_eq!(c.poll_authorization(), Some("Bearer acc".to_string()));
    assert!(!c.needs_refresh(1_000 + 3_539_999));
    assert!(c.needs_refresh(1_000 + 3_540_000));
}

#[test]
fn empty_or_failed_token_reply_ends_sign_in_unconnected() {
    let mut c = configured();
    c.start_auth();
    assert!(!c.on_token_response(token("", "ref", 3600), 0));
    assert!(!c.is_connected());
    assert!(!c.is_auth_in_progress());
    c.start_auth();
    assert!(!c.on_token_response(TokenReply::Failed, 0));
    assert!(!c.is_auth_in_progress());
    c.start_auth();
    assert!(!c.on_token_response(TokenReply::Unreadable, 0));
    assert!(!c.is_connected());
}

#[test]
fn refresh_body_needs_refresh_token() {
    let mut c = configured();
    assert_eq!(c.refresh_body(), None);
    c.on_token_response(token("acc", "r t", 120), 0);
    assert_eq!(
        c.refresh_body(),
        Some("grant_type=refresh_token&refresh_token=r+t&client_id=cid".to_string())
    );
}

#[test]
fn refresh_reply_updates_tokens() {
    let mut c = configured();
    c.on_token_response(token("acc", "ref", 120), 0);
    c.on_refresh_response(token("acc2", "", 100), 10_000);
    assert_eq!(c.poll_authorization(), Some("Bearer acc2".to_string()));
    assert_eq!(
        c.refresh_body(),
        Some("grant_type=refresh_token&refresh_token=ref&client_id=cid".to_string())
    );
    assert!(!c.needs_refresh(49_999));
    assert!(c.needs_refresh(50_000));
    c.on_refresh_response(token("acc3", "ref3", 60), 60_000);
    assert!(c.needs_refresh(60_000));
    assert_eq!(
        c.refresh_body(),
        Some("grant_type=refresh_token&refresh_token=ref3&client_id=cid".to_string())
    );
}

#[test]
fn refresh_failure_disconnects_unreadable_changes_nothing() {
    let mut c = configured();
    c.on_token_response(token("acc", "ref", 120), 0);
    c.on_refresh_response(TokenReply::Unreadable, 5);
    assert!(c.is_connected());
    assert_eq!(c.poll_authorization(), Some("Bearer acc".to_string()));
    c.on_refresh_response(TokenReply::Failed, 5);
    assert!(!c.is_connected());
    assert_eq!(c.poll_authorization(), None);
}

#[test]
fn stop_disconnects_and_requests_stop() {
    let mut c = configured();
    c.on_token_response(token("acc", "ref", 120), 0);
    c.stop();
    assert!(!c.is_connected());
    assert!(c.is_stop_requested());
    assert_eq!(c.poll_authorization(), None);
}

#[test]
fn currently_playing_sets_track_and_art() {
    let mut c = configured();
    let reply = item(
        Some("Song"),
        Some(vec![Some("A"), None, Some("B")]),
        Some(vec![
            image(Some(640), Some("big")),
            image(Some(300), Some("mid")),
            image(Some(64), Some("small")),
        ]),
    );
    assert_eq!(c.handle_currently_playing(&reply), Some("mid".to_string()));
    assert!(c.has_track());
    assert_eq!(c.track_name(), "Song");
    assert_eq!(c.artist_name(), "A, B");
    assert_eq!(c.handle_currently_playing(&reply), None);
}

#[test]
fn currently_playing_without_item_clears_track() {
    let mut c = configured();
    c.handle_currently_playing(&item(Some("Song"), None, None));
    assert_eq!(c.track_name(), "Song");
    assert_eq!(c.artist_name(), "");
    assert_eq!(c.handle_currently_playing(&CurrentlyPlaying { item: None }), None);
    assert!(!c.has_track());
    c.handle_currently_playing(&item(Some("Song"), Some(vec![Some("X")]), None));
    c.on_nothing_playing();
    assert_eq!(c.track_name(), "");
    assert_eq!(c.artist_name(), "");
}

#[test]
fn album_art_is_handed_out_once() {
    let mut c = configured();
    assert_eq!(c.consume_new_album_art(), None);
    c.on_album_art(vec![1, 2, 3]);
    assert_eq!(c.consume_new_album_art(), Some(vec![1, 2, 3]));
    assert_eq!(c.consume_new_album_art(), None);
}

#[test]
fn best_image_prefers_width_near_300() {
    let imgs = vec![
        image(Some(640), Some("a")),
        image(Some(250), Some("b")),
        image(Some(350), Some("c")),
        image(Some(299), Some("")),
        image(None, Some("d")),
    ];
    assert_eq!(best_image_url(&imgs), Some("b".to_string()));
    assert_eq!(best_image_url(&vec![image(Some(300), None)]), None);
    assert_eq!(best_image_url(&vec![]), None);
    assert_eq!(best_image_url(&vec![image(None, Some("zero"))]), Some("zero".to_string()));
}

#[test]
fn join_artist_names_skips_missing() {
    assert_eq!(join_artist_names(&vec![]), "");
    assert_eq!(join_artist_names(&vec![None]), "");
    assert_eq!(join_artist_names(&vec![None, Some("Solo".to_string())]), "Solo");
    assert_eq!(
        join_artist_names(&vec![Some("A".to_string()), Some("B".to_string()), Some("C".to_string())]),
        "A, B, C"
    );
}

#[test]
fn token_response_empty_reads_as_defaults() {
    let t = TokenResponse::default();
    assert_eq!(t.access_token, "");
    assert_eq!(t.refresh_token, "");
    assert_eq!(t.expires_in, 0);
}

#[test]
fn refresh_never_connects_a_disconnected_client() {
    let mut c = configured();
    c.on_refresh_response(token("acc", "ref", 3600), 0);
    assert!(!c.is_connected());
    assert_eq!(c.poll_authorization(), None);
}

#[test]
fn same_now_playing_twice_changes_nothing() {
    let mut c = configured();
    let reply = item(Some("S"), Some(vec![Some("A")]), Some(vec![image(Some(300), Some("u"))]));
    assert_eq!(c.handle_currently_playing(&reply), Some("u".to_string()));
    assert_eq!(c.handle_currently_playing(&reply), None);
    assert_eq!(c.track_name(), "S");
    assert_eq!(c.artist_name(), "A");
    let other = item(Some("S2"), None, Some(vec![image(Some(300), Some("v"))]));
    assert_eq!(c.handle_currently_playing(&other), Some("v".to_string()));
    assert_eq!(c.handle_currently_playing(&reply), Some("u".to_string()));
}

#[test]
fn sign_in_sends_the_verifier_whose_challenge_went_out() {
    let mut c = configured();
    assert!(c.start_auth());
    let random: Vec<u8> = (0u8..64).collect();
    let url = c.begin_sign_in_with(&random).unwrap();
    let verifier = code_verifier_from(&random);
    let challenge = code_challenge(&verifier);
    assert_eq!(url, authorize_url("cid", &challenge));
    assert_eq!(c.code_exchange_body(), None);
    c.open_callback_window(1_000);
    assert!(c.awaiting_callback(1_000));
    assert!(c.awaiting_callback(120_999));
    assert!(!c.awaiting_callback(121_000));
    assert_eq!(c.on_callback("/callback?error=denied"), "<h1 style='color:#f44'>Failed</h1>");
    assert!(c.awaiting_callback(2_000));
    assert!(c.on_callback("/callback?code=A%2FB").contains("Connected!"));
    assert!(!c.awaiting_callback(2_000));
    assert_eq!(c.code_exchange_body(), Some(token_request_body("A/B", "cid", &verifier)));
    assert!(c.on_token_response(token("acc", "ref", 3600), 5_000));
    assert_eq!(c.code_exchange_body(), None);
}

#[test]
fn sign_in_without_client_id_gives_no_url() {
    let mut c = SpotifyClient::new(None);
    assert_eq!(c.begin_sign_in(), None);
    assert_eq!(c.code_exchange_body(), None);
}

#[test]
fn random_sign_in_url_carries_a_fresh_challenge() {
    let mut c = configured();
    let u1 = c.begin_sign_in().unwrap();
    let u2 = c.begin_sign_in().unwrap();
    assert!(u1.contains("code_challenge_method=S256&code_challenge="));
    assert_ne!(u1, u2);
    c.auth_failed();
    assert_eq!(c.code_exchange_body(), None);
}
