use vinyl_viz::encoding::form_urlencode_str;
use vinyl_viz::pkce::{
    authorize_url, callback_code_raw, callback_page, challenge_from_digest, code_challenge,
    code_verifier_from, new_code_verifier, parse_callback_code, refresh_request_body,
    token_request_body, REDIRECT_URI,
};

#[test]
fn base64_url_rfc4648_vectors() {
    assert_eq!(code_verifier_from(b""), "");
    assert_eq!(code_verifier_from(b"f"), "Zg");
    assert_eq!(code_verifier_from(b"fo"), "Zm8");
    assert_eq!(code_verifier_from(b"foo"), "Zm9v");
    assert_eq!(code_verifier_from(b"foob"), "Zm9vYg");
    assert_eq!(code_verifier_from(b"fooba"), "Zm9vYmE");
    assert_eq!(code_verifier_from(b"foobar"), "Zm9vYmFy");
}

#[test]
fn base64_url_uses_url_safe_alphabet() {
    assert_eq!(code_verifier_from(&[0xfb, 0xff]), "-_8");
    assert_eq!(code_verifier_from(&[0xff, 0xff, 0xff]), "____");
    assert_eq!(code_verifier_from(&[0x00, 0x00, 0x00]), "AAAA");
}

#[test]
fn new_code_verifier_meets_rfc7636() {
    let v = new_code_verifier();
    assert_eq!(v.chars().count(), 86);
    assert!(v
        .chars()
        .all(|c| c.is_ascii_alphanumeric() || c == '-' || c == '_' || c == '.' || c == '~'));
    let w = new_code_verifier();
    assert_ne!(v, w);
}

#[test]
fn code_challenge_rfc7636_appendix_b() {
    let challenge = code_challenge("dBjftJeZ4CVP-mB92K27uhbUJU1p1r_wW1gFWFOEjXk");
    assert_eq!(challenge, "E9Melhoa2OwvFrEMTJguCHaoeK1t8URWbuGJSstw-cM");
    assert_eq!(challenge.len(), 43);
}

#[test]
fn challenge_from_digest_encodes_32_bytes() {
    let digest = [0u8; 32];
    assert_eq!(
        challenge_from_digest(&digest),
        "AAAAAAAAAAAAAAAAAAAAAAAAAAAAAAAAAAAAAAAAAAA"
    );
}

#[test]
fn form_urlencode_escapes_reserved_bytes() {
    assert_eq!(form_urlencode_str("*-._09AZaz"), "*-._09AZaz");
    assert_eq!(form_urlencode_str("a b&c=d/\u{e9}~"), "a+b%26c%3Dd%2F%C3%A9%7E");
    assert_eq!(
        form_urlencode_str(REDIRECT_URI),
        "http%3A%2F%2F127.0.0.1%3A8888%2Fcallback"
    );
    assert_eq!(form_urlencode_str(""), "");
}

#[test]
fn authorize_url_is_composed_in_order() {
    assert_eq!(
        authorize_url("abc", "xyz"),
        "https://accounts.spotify.com/authorize?response_type=code&client_id=abc\
         &redirect_uri=http%3A%2F%2F127.0.0.1%3A8888%2Fcallback\
         &code_challenge_method=S256&code_challenge=xyz\
         &scope=user-read-currently-playing+user-read-playback-state"
    );
}

#[test]
fn token_request_body_encodes_each_field() {
    assert_eq!(
        token_request_body("c/d", "id 1", "ver~"),
        "grant_type=authorization_code&code=c%2Fd\
         &redirect_uri=http%3A%2F%2F127.0.0.1%3A8888%2Fcallback&client_id=id+1\
         &code_verifier=ver%7E"
    );
}

#[test]
fn refresh_request_body_encodes_each_field() {
    assert_eq!(
        refresh_request_body("r=1", "cid"),
        "grant_type=refresh_token&refresh_token=r%3D1&client_id=cid"
    );
}

#[test]
fn callback_code_is_found_and_decoded() {
    assert_eq!(
        callback_code_raw("/callback?code=AQB%2Fx&state=1"),
        Some("AQB%2Fx".to_string())
    );
    assert_eq!(
        parse_callback_code("/callback?code=AQB%2Fx&state=1"),
        Some("AQB/x".to_string())
    );
    assert_eq!(
        parse_callback_code("/callback?x=1&code=a+b"),
        Some("a b".to_string())
    );
    assert_eq!(parse_callback_code("/callback?code=plain-Code_1.2"), Some("plain-Code_1.2".to_string()));
}

#[test]
fn callback_last_code_wins() {
    assert_eq!(
        parse_callback_code("/callback?code=first&code=second"),
        Some("second".to_string())
    );
}

#[test]
fn callback_without_code_gives_none() {
    assert_eq!(parse_callback_code("/callback?error=access_denied"), None);
    assert_eq!(parse_callback_code("/callback"), None);
    assert_eq!(parse_callback_code("/callback?codex=1"), None);
    assert_eq!(parse_callback_code("/callback?code=&"), Some(String::new()));
    assert_eq!(parse_callback_code("/code=x"), None);
}

#[test]
fn callback_query_starts_after_first_question_mark() {
    assert_eq!(
        parse_callback_code("/cb?a=1?code=x&code=y?z"),
        Some("y?z".to_string())
    );
}

#[test]
fn callback_page_reports_outcome() {
    assert!(callback_page(true).contains("Connected!"));
    assert_eq!(callback_page(false), "<h1 style='color:#f44'>Failed</h1>");
}

#[test]
fn form_urlencode_never_emits_query_separators() {
    let all: Vec<u8> = (0u8..=255).collect();
    let s = unsafe_free_bytes_to_string(&all);
    let enc = form_urlencode_str(&s);
    assert!(enc
        .chars()
        .all(|c| c.is_ascii_alphanumeric() || "*-._+%".contains(c)));
}

fn unsafe_free_bytes_to_string(bytes: &[u8]) -> String {
    bytes.iter().map(|&b| b as char).collect()
}

#[test]
fn verifier_and_challenge_need_no_escaping() {
    let v = new_code_verifier();
    assert_eq!(form_urlencode_str(&v), v);
    let ch = code_challenge(&v);
    let url = authorize_url("client id", &ch);
    assert!(url.contains(&format!("&code_challenge_method=S256&code_challenge={}&scope=", ch)));
    let body = token_request_body("code", "cid", &v);
    assert!(body.ends_with(&format!("&code_verifier={}", v)));
}
