use vinyl_viz::config::parse_client_id;

#[test]
fn client_id_is_read_from_its_key() {
    assert_eq!(
        parse_client_id("spotify.client_id=abc123\n"),
        Some("abc123".to_string())
    );
    assert_eq!(
        parse_client_id("# comment\n\n  spotify.client_id =  xyz \r\nother=1"),
        Some("xyz".to_string())
    );
}

#[test]
fn client_id_placeholder_and_empty_are_skipped() {
    assert_eq!(parse_client_id("spotify.client_id=YOUR_CLIENT_ID"), None);
    assert_eq!(parse_client_id("spotify.client_id=   "), None);
    assert_eq!(
        parse_client_id("spotify.client_id=\nspotify.client_id=later"),
        Some("later".to_string())
    );
    assert_eq!(parse_client_id(""), None);
}

#[test]
fn client_id_comments_and_other_keys_are_ignored() {
    assert_eq!(parse_client_id("#spotify.client_id=abc"), None);
    assert_eq!(parse_client_id("spotify.client=abc\nfoo=bar"), None);
    assert_eq!(parse_client_id("spotify.client_id abc"), None);
    assert_eq!(
        parse_client_id("spotify.client_id=a=b"),
        Some("a=b".to_string())
    );
}

#[test]
fn client_id_first_valid_line_wins() {
    assert_eq!(
        parse_client_id("spotify.client_id=one\nspotify.client_id=two"),
        Some("one".to_string())
    );
    assert_eq!(
        parse_client_id("\u{3000}spotify.client_id\t=\u{a0}id\u{2003}"),
        Some("id".to_string())
    );
}
