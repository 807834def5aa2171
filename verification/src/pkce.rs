//! The Spotify authorization-code flow with PKCE (RFC 7636): the code
//! verifier and its S256 challenge, the authorization URL, the redirect
//! callback, and the bodies of the token requests.
use crate::encoding::{
    all_unreserved, base64_len, base64_url, base64_url_spec, form_decoded_value, form_urldecode,
    form_urlencode_str, form_urlencoded_str, law_base64_travels_unescaped, lemma_base64_url_shape,
    rand_bytes, sha256, sha256_digest,
};
use crate::text::{chars_of, find_char, first_index_of, lemma_first_index_of, range_starts_with, starts_with};
use vstd::prelude::*;
use vstd::string::*;

verus! {

broadcast use vstd::string::group_string_axioms;

/// Where Spotify sends the browser back after sign-in.
pub const REDIRECT_URI: &'static str = "http://127.0.0.1:8888/callback";

/// The permissions asked for.
pub const AUTH_SCOPE: &'static str = "user-read-currently-playing user-read-playback-state";

/// How many random bytes make a code verifier.
pub const VERIFIER_BYTES: usize = 64;

/// The code verifier made from `random`: its URL-safe base64.
pub fn code_verifier_from(random: &[u8]) -> (res: String)
    requires
        base64_len(random@.len() as int) <= usize::MAX,
    ensures
        res@ == base64_url_spec(random@),
{
    base64_url(random)
}

/// A fresh code verifier: the URL-safe base64 of 64 random bytes.  It has 86
/// characters, all unreserved, so it meets RFC 7636 (43 to 128 unreserved
/// characters).
pub fn new_code_verifier() -> (res: String)
    ensures
        exists|r: Seq<u8>| r.len() == VERIFIER_BYTES && res@ == #[trigger] base64_url_spec(r),
        res@.len() == 86,
        43 <= res@.len() <= 128,
        all_unreserved(res@),
{
    let random = rand_bytes(VERIFIER_BYTES);
    let v = code_verifier_from(random.as_slice());
    proof {
        lemma_base64_url_shape(random@);
    }
    v
}

/// The S256 code challenge for a SHA-256 digest: its URL-safe base64.
pub fn challenge_from_digest(digest: &[u8]) -> (res: String)
    requires
        digest@.len() == 32,
    ensures
        res@ == base64_url_spec(digest@),
        res@.len() == 43,
        all_unreserved(res@),
{
    proof {
        lemma_base64_url_shape(digest@);
    }
    base64_url(digest)
}

/// The S256 code challenge of a verifier: the URL-safe base64 of the SHA-256
/// of the verifier's UTF-8 bytes.
pub fn code_challenge(verifier: &str) -> (res: String)
    ensures
        res@ == base64_url_spec(sha256_digest(verifier.spec_bytes())),
        res@.len() == 43,
        all_unreserved(res@),
{
    let digest = sha256(verifier.as_bytes());
    challenge_from_digest(digest.as_slice())
}

/// The authorization URL for a client id and code challenge.
pub open spec fn authorize_url_spec(client_id: Seq<char>, challenge: Seq<char>) -> Seq<char> {
    "https://accounts.spotify.com/authorize?response_type=code&client_id="@ + form_urlencoded_str(
        client_id,
    ) + "&redirect_uri="@ + form_urlencoded_str(REDIRECT_URI@)
        + "&code_challenge_method=S256&code_challenge="@ + form_urlencoded_str(challenge)
        + "&scope="@ + form_urlencoded_str(AUTH_SCOPE@)
}

/// The URL that the browser opens to sign in.
pub fn authorize_url(client_id: &str, challenge: &str) -> (res: String)
    ensures
        res@ == authorize_url_spec(client_id@, challenge@),
{
    let mut url = String::from_str(
        "https://accounts.spotify.com/authorize?response_type=code&client_id=",
    );
    url.append(form_urlencode_str(client_id).as_str());
    url.append("&redirect_uri=");
    url.append(form_urlencode_str(REDIRECT_URI).as_str());
    url.append("&code_challenge_method=S256&code_challenge=");
    url.append(form_urlencode_str(challenge).as_str());
    url.append("&scope=");
    url.append(form_urlencode_str(AUTH_SCOPE).as_str());
    url
}

/// The body of the request that trades the authorization code for tokens.
pub open spec fn token_request_body_spec(
    code: Seq<char>,
    client_id: Seq<char>,
    verifier: Seq<char>,
) -> Seq<char> {
    "grant_type=authorization_code&code="@ + form_urlencoded_str(code) + "&redirect_uri="@
        + form_urlencoded_str(REDIRECT_URI@) + "&client_id="@ + form_urlencoded_str(client_id)
        + "&code_verifier="@ + form_urlencoded_str(verifier)
}

/// Builds the form body that trades the authorization code for tokens.
pub fn token_request_body(code: &str, client_id: &str, verifier: &str) -> (res: String)
    ensures
        res@ == token_request_body_spec(code@, client_id@, verifier@),
{
    let mut body = String::from_str("grant_type=authorization_code&code=");
    body.append(form_urlencode_str(code).as_str());
    body.append("&redirect_uri=");
    body.append(form_urlencode_str(REDIRECT_URI).as_str());
    body.append("&client_id=");
    body.append(form_urlencode_str(client_id).as_str());
    body.append("&code_verifier=");
    body.append(form_urlencode_str(verifier).as_str());
    body
}

/// The body of the request that renews the access token.
pub open spec fn refresh_request_body_spec(refresh: Seq<char>, client_id: Seq<char>) -> Seq<char> {
    "grant_type=refresh_token&refresh_token="@ + form_urlencoded_str(refresh) + "&client_id="@
        + form_urlencoded_str(client_id)
}

/// Builds the form body that renews the access token.
pub fn refresh_request_body(refresh: &str, client_id: &str) -> (res: String)
    ensures
        res@ == refresh_request_body_spec(refresh@, client_id@),
{
    let mut body = String::from_str("grant_type=refresh_token&refresh_token=");
    body.append(form_urlencode_str(refresh).as_str());
    body.append("&client_id=");
    body.append(form_urlencode_str(client_id).as_str());
    body
}

/// The query of a request target: what follows its first `?`, or nothing.
pub open spec fn query_of(url: Seq<char>) -> Seq<char> {
    let q = first_index_of(url, '?');
    if q < url.len() {
        url.skip(q + 1)
    } else {
        seq![]
    }
}

/// The raw value of the last `code=` pair of a query whose pairs are
/// separated by `&`.
pub open spec fn code_param(q: Seq<char>) -> Option<Seq<char>>
    decreases q.len(),
{
    let end = first_index_of(q, '&');
    let seg = q.take(end);
    let here = if starts_with(seg, "code="@) {
        Some(seg.skip(5))
    } else {
        None
    };
    if 0 <= end < q.len() {
        match code_param(q.skip(end + 1)) {
            Some(v) => Some(v),
            None => here,
        }
    } else {
        here
    }
}

/// The raw (still encoded) authorization code in the target of a callback
/// request: the value of the last `code=` pair of its query.
pub fn callback_code_raw(url: &str) -> (res: Option<String>)
    ensures
        match res {
            Some(v) => code_param(query_of(url@)) == Some(v@),
            None => code_param(query_of(url@)) is None,
        },
{
    proof {
        reveal_strlit("code=");
    }
    let chars = chars_of(url);
    let n = chars.len();
    let q = find_char(&chars, 0, n, '?');
    proof {
        assert(chars@.subrange(0, n as int) =~= chars@);
        lemma_first_index_of(chars@, '?');
    }
    if q == n {
        proof {
            let e: Seq<char> = seq![];
            assert(!starts_with(e.take(0), "code="@));
        }
        return None;
    }
    proof {
        assert(query_of(url@) =~= chars@.subrange(q + 1, n as int));
    }
    let mut start = q + 1;
    let mut found: Option<(usize, usize)> = None;
    loop
        invariant_except_break
            q + 1 <= start <= n,
            ({
                let full = code_param(chars@.subrange(q + 1, n as int));
                let rest = code_param(chars@.subrange(start as int, n as int));
                match found {
                    Some((a, b)) => {
                        &&& a <= b <= n
                        &&& full == (match rest {
                            Some(v) => Some(v),
                            None => Some(chars@.subrange(a as int, b as int)),
                        })
                    },
                    None => full == rest,
                }
            }),
        invariant
            n == chars@.len(),
            chars@ == url@,
            "code="@.len() == 5,
        ensures
            ({
                let full = code_param(chars@.subrange(q + 1, n as int));
                match found {
                    Some((a, b)) => a <= b <= n && full == Some(chars@.subrange(a as int, b as int)),
                    None => full is None,
                }
            }),
        decreases n - start,
    {
        let ghost rest = chars@.subrange(start as int, n as int);
        let ghost old_found = found;
        let end = find_char(&chars, start, n, '&');
        let ghost seg = rest.take(end - start);
        proof {
            lemma_first_index_of(rest, '&');
            assert(seg =~= chars@.subrange(start as int, end as int));
        }
        if range_starts_with(&chars, start, end, "code=") {
            proof {
                assert(seg.skip(5) =~= chars@.subrange(start + 5, end as int));
            }
            found = Some((start + 5, end));
        }
        if end == n {
            break ;
        }
        proof {
            assert(rest.skip(end - start + 1) =~= chars@.subrange(end + 1, n as int));
        }
        start = end + 1;
    }
    match found {
        Some((a, b)) => Some(String::from_str(url.substring_char(a, b))),
        None => None,
    }
}

/// The authorization code that a callback request carries: the last `code=`
/// value of its query, form-urldecoded.
pub fn parse_callback_code(url: &str) -> (res: Option<String>)
    ensures
        match res {
            Some(v) => code_param(query_of(url@)) matches Some(raw) && v@ == form_decoded_value(
                raw,
            ),
            None => code_param(query_of(url@)) is None,
        },
{
    match callback_code_raw(url) {
        Some(raw) => Some(form_urldecode(raw.as_str())),
        None => None,
    }
}

/// The page that the callback answers the browser with.
pub open spec fn callback_page_spec(got_code: bool) -> Seq<char> {
    if got_code {
        "<h1 style='color:#1DB954'>&#10003; Connected!</h1><p>Return to visualizer.</p>"@
    } else {
        "<h1 style='color:#f44'>Failed</h1>"@
    }
}

/// The page that the callback answers the browser with.
pub fn callback_page(got_code: bool) -> (res: &'static str)
    ensures
        res@ == callback_page_spec(got_code),
{
    if got_code {
        "<h1 style='color:#1DB954'>&#10003; Connected!</h1><p>Return to visualizer.</p>"
    } else {
        "<h1 style='color:#f44'>Failed</h1>"
    }
}

/// The S256 challenge of a verifier reaches Spotify unaltered: it stands
/// verbatim after `code_challenge=` in the authorization URL.
pub proof fn law_challenge_sent_verbatim(client_id: Seq<char>, verifier: Seq<char>)
    ensures
        ({
            let challenge = base64_url_spec(sha256_digest(vstd::utf8::encode_utf8(verifier)));
            authorize_url_spec(client_id, challenge)
                == "https://accounts.spotify.com/authorize?response_type=code&client_id="@
                + form_urlencoded_str(client_id) + "&redirect_uri="@ + form_urlencoded_str(
                REDIRECT_URI@,
            ) + "&code_challenge_method=S256&code_challenge="@ + challenge + "&scope="@
                + form_urlencoded_str(AUTH_SCOPE@)
        }),
{
    law_base64_travels_unescaped(sha256_digest(vstd::utf8::encode_utf8(verifier)));
}

/// A verifier made from random bytes reaches the token endpoint unaltered:
/// it stands verbatim after `code_verifier=` in the code-exchange body.
pub proof fn law_verifier_sent_verbatim(code: Seq<char>, client_id: Seq<char>, random: Seq<u8>)
    ensures
        ({
            let verifier = base64_url_spec(random);
            token_request_body_spec(code, client_id, verifier)
                == "grant_type=authorization_code&code="@ + form_urlencoded_str(code)
                + "&redirect_uri="@ + form_urlencoded_str(REDIRECT_URI@) + "&client_id="@
                + form_urlencoded_str(client_id) + "&code_verifier="@ + verifier
        }),
{
    law_base64_travels_unescaped(random);
}

} // verus!
