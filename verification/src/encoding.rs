//! Byte and text encodings used by the OAuth sign-in: URL-safe base64 without
//! padding, the `application/x-www-form-urlencoded` byte serializer and value
//! decoder, SHA-256 and a source of random bytes.
use base64::Engine;
use rand::RngCore;
use sha2::Digest;
use vstd::prelude::*;
use vstd::string::*;

verus! {

// ---------------------------------------------------------------------------
// URL-safe base64 without padding (RFC 4648, section 5)
// ---------------------------------------------------------------------------

/// The symbol for a 6-bit value in the URL-safe base64 alphabet
/// `A-Z a-z 0-9 - _`.
pub open spec fn base64_symbol(v: int) -> char {
    if v < 26 {
        (65 + v) as char
    } else if v < 52 {
        (97 + (v - 26)) as char
    } else if v < 62 {
        (48 + (v - 52)) as char
    } else if v == 62 {
        '-'
    } else {
        '_'
    }
}

/// URL-safe base64 of `b` without padding: each group of three bytes becomes
/// four symbols, a final group of two bytes three symbols, a final single byte
/// two symbols.
pub open spec fn base64_url_spec(b: Seq<u8>) -> Seq<char>
    decreases b.len(),
{
    if b.len() == 0 {
        seq![]
    } else if b.len() == 1 {
        seq![base64_symbol((b[0] / 4) as int), base64_symbol((b[0] % 4) * 16)]
    } else if b.len() == 2 {
        seq![
            base64_symbol((b[0] / 4) as int),
            base64_symbol((b[0] % 4) * 16 + b[1] / 16),
            base64_symbol((b[1] % 16) * 4),
        ]
    } else {
        seq![
            base64_symbol((b[0] / 4) as int),
            base64_symbol((b[0] % 4) * 16 + b[1] / 16),
            base64_symbol((b[1] % 16) * 4 + b[2] / 64),
            base64_symbol((b[2] % 64) as int),
        ] + base64_url_spec(b.skip(3))
    }
}

/// The length of the unpadded base64 encoding of `n` bytes.
pub open spec fn base64_len(n: int) -> int {
    (4 * n + 2) / 3
}

/// A character that RFC 3986 calls unreserved: `A-Z a-z 0-9 - . _ ~`.
pub open spec fn is_unreserved(c: char) -> bool {
    ||| ('A' <= c && c <= 'Z')
    ||| ('a' <= c && c <= 'z')
    ||| ('0' <= c && c <= '9')
    ||| c == '-'
    ||| c == '.'
    ||| c == '_'
    ||| c == '~'
}

/// Every character of `s` is unreserved.
pub open spec fn all_unreserved(s: Seq<char>) -> bool {
    forall|i: int| 0 <= i < s.len() ==> #[trigger] is_unreserved(s[i])
}

/// The base64 encoding has `base64_len` symbols, each of them unreserved.
pub proof fn lemma_base64_url_shape(b: Seq<u8>)
    ensures
        base64_url_spec(b).len() == base64_len(b.len() as int),
        all_unreserved(base64_url_spec(b)),
        forall|i: int|
            0 <= i < base64_url_spec(b).len() ==> #[trigger] form_plain_char(base64_url_spec(b)[i]),
    decreases b.len(),
{
    if b.len() >= 3 {
        lemma_base64_url_shape(b.skip(3));
        let head = seq![
            base64_symbol((b[0] / 4) as int),
            base64_symbol((b[0] % 4) * 16 + b[1] / 16),
            base64_symbol((b[1] % 16) * 4 + b[2] / 64),
            base64_symbol((b[2] % 64) as int),
        ];
        let tail = base64_url_spec(b.skip(3));
        assert(base64_url_spec(b) == head + tail);
        assert forall|i: int| 0 <= i < (head + tail).len() implies #[trigger] is_unreserved(
            (head + tail)[i],
        ) && form_plain_char((head + tail)[i]) by {
            if i >= 4 {
                assert((head + tail)[i] == tail[i - 4]);
            }
        }
    }
}

/// URL-safe base64 of `bytes`, without padding.
///
/// Trusted: calls `encode` of the `URL_SAFE_NO_PAD` engine of the `base64`
/// crate, which encodes by RFC 4648 section 5 with no `=` padding; the contract
/// states that encoding in full.  The engine panics when the encoded length
/// overflows `usize`, which `requires` rules out.
#[verifier::external_body]
pub(crate) fn base64_url(bytes: &[u8]) -> (res: String)
    requires
        base64_len(bytes@.len() as int) <= usize::MAX,
    ensures
        res@ == base64_url_spec(bytes@),
{
    base64::engine::general_purpose::URL_SAFE_NO_PAD.encode(bytes)
}

// ---------------------------------------------------------------------------
// application/x-www-form-urlencoded
// ---------------------------------------------------------------------------

/// A byte that the form-urlencoded byte serializer leaves as it is:
/// `* - . 0-9 A-Z _ a-z`.
pub open spec fn form_unchanged(b: u8) -> bool {
    ||| b == 42
    ||| b == 45
    ||| b == 46
    ||| (48 <= b && b <= 57)
    ||| (65 <= b && b <= 90)
    ||| b == 95
    ||| (97 <= b && b <= 122)
}

/// An upper-case hexadecimal digit for `d` in `0..16`.
pub open spec fn hex_upper(d: int) -> char {
    if d < 10 {
        (48 + d) as char
    } else {
        (55 + d) as char
    }
}

/// The serialization of one byte: itself when unchanged, `+` for a space,
/// `%XX` with upper-case hex digits otherwise.
pub open spec fn form_encode_byte(b: u8) -> Seq<char> {
    if form_unchanged(b) {
        seq![b as char]
    } else if b == 32 {
        seq!['+']
    } else {
        seq!['%', hex_upper((b / 16) as int), hex_upper((b % 16) as int)]
    }
}

/// The `application/x-www-form-urlencoded` byte serialization of `bytes`.
pub open spec fn form_urlencoded_spec(bytes: Seq<u8>) -> Seq<char>
    decreases bytes.len(),
{
    if bytes.len() == 0 {
        seq![]
    } else {
        form_urlencoded_spec(bytes.drop_last()) + form_encode_byte(bytes.last())
    }
}

/// Form-urlencodes a string through its UTF-8 bytes.
pub open spec fn form_urlencoded_str(s: Seq<char>) -> Seq<char> {
    form_urlencoded_spec(vstd::utf8::encode_utf8(s))
}

/// The form-urlencoded serialization of `bytes`.
///
/// Trusted: collects `url::form_urlencoded::byte_serialize` into a `String`.
/// Its source keeps `* - . 0-9 A-Z _ a-z`, turns a space into `+` and every
/// other byte into `%XX` with upper-case hex digits, as the contract states.
#[verifier::external_body]
pub(crate) fn form_urlencode(bytes: &[u8]) -> (res: String)
    ensures
        res@ == form_urlencoded_spec(bytes@),
{
    url::form_urlencoded::byte_serialize(bytes).collect::<String>()
}

/// Form-urlencodes a string through its UTF-8 bytes.
pub fn form_urlencode_str(s: &str) -> (res: String)
    ensures
        res@ == form_urlencoded_str(s@),
{
    form_urlencode(s.as_bytes())
}

/// A character that the form-urlencoded decoder hands through unchanged when
/// the whole value consists of such characters: the unchanged set of the
/// serializer.
pub open spec fn form_plain_char(c: char) -> bool {
    ||| c == '*'
    ||| c == '-'
    ||| c == '.'
    ||| ('0' <= c && c <= '9')
    ||| ('A' <= c && c <= 'Z')
    ||| c == '_'
    ||| ('a' <= c && c <= 'z')
}

/// The value of the first pair that `url::form_urlencoded::parse` finds in
/// `input`, if it finds any: `+` becomes a space, `%XX` a byte, and the bytes
/// are read as UTF-8 with replacement characters.
pub uninterp spec fn first_form_value(input: Seq<u8>) -> Option<Seq<char>>;

/// The bytes `x=` followed by `bytes`: a single pair named `x`.
pub open spec fn x_pair(bytes: Seq<u8>) -> Seq<u8> {
    seq![120u8, 61u8] + bytes
}

/// What a form-urlencoded value `s` decodes to: the value of the pair
/// `x=<s>`, or `s` itself should no pair be found.
pub open spec fn form_decoded_value(s: Seq<char>) -> Seq<char> {
    match first_form_value(x_pair(vstd::utf8::encode_utf8(s))) {
        Some(v) => v,
        None => s,
    }
}

/// Bytes that the serializer leaves unchanged come out as the same
/// characters.
proof fn lemma_form_urlencoded_unchanged(b: Seq<u8>)
    requires
        forall|i: int| 0 <= i < b.len() ==> #[trigger] form_unchanged(b[i]),
    ensures
        form_urlencoded_spec(b) == Seq::new(b.len(), |i: int| b[i] as char),
    decreases b.len(),
{
    if b.len() > 0 {
        lemma_form_urlencoded_unchanged(b.drop_last());
        assert(form_unchanged(b[b.len() - 1]));
        assert(form_urlencoded_spec(b) =~= Seq::new(b.len(), |i: int| b[i] as char));
    } else {
        assert(form_urlencoded_spec(b) =~= Seq::new(b.len(), |i: int| b[i] as char));
    }
}

/// A string made only of `* - . 0-9 A-Z _ a-z` is form-urlencoded as itself.
pub proof fn lemma_form_urlencoded_plain(s: Seq<char>)
    requires
        forall|i: int| 0 <= i < s.len() ==> #[trigger] form_plain_char(s[i]),
    ensures
        form_urlencoded_str(s) == s,
{
    assert(vstd::utf8::is_ascii_chars(s)) by {
        assert forall|i: int| 0 <= i < s.len() implies '\0' <= #[trigger] s[i] <= '\u{7f}' by {
            assert(form_plain_char(s[i]));
        }
    }
    vstd::utf8::is_ascii_chars_encode_utf8(s);
    let b = vstd::utf8::encode_utf8(s);
    assert forall|i: int| 0 <= i < b.len() implies #[trigger] form_unchanged(b[i]) by {
        assert(form_plain_char(s[i]));
        assert(s[i] as u8 == b[i]);
    }
    lemma_form_urlencoded_unchanged(b);
    assert forall|i: int| 0 <= i < s.len() implies (b[i] as char) == s[i] by {
        assert(form_plain_char(s[i]));
        assert(s[i] as u8 == b[i]);
    }
    assert(form_urlencoded_str(s) =~= s);
}

/// URL-safe base64 text needs no escaping: form-urlencoding leaves it as it is,
/// so a code verifier or challenge travels verbatim in a URL or form body.
pub proof fn law_base64_travels_unescaped(b: Seq<u8>)
    ensures
        form_urlencoded_str(base64_url_spec(b)) == base64_url_spec(b),
{
    lemma_base64_url_shape(b);
    lemma_form_urlencoded_plain(base64_url_spec(b));
}

/// A character that the form-urlencoded serializer can produce.
pub open spec fn form_output_char(c: char) -> bool {
    form_plain_char(c) || c == '+' || c == '%'
}

/// The form-urlencoded serialization of any bytes consists only of
/// `* - . 0-9 A-Z _ a-z`, `+` and `%`: it never holds a `&`, `=`, `?` or
/// space that would break up a query.
pub proof fn law_form_urlencoded_charset(bytes: Seq<u8>)
    ensures
        forall|i: int|
            0 <= i < form_urlencoded_spec(bytes).len() ==> #[trigger] form_output_char(
                form_urlencoded_spec(bytes)[i],
            ),
    decreases bytes.len(),
{
    if bytes.len() > 0 {
        law_form_urlencoded_charset(bytes.drop_last());
        let pre = form_urlencoded_spec(bytes.drop_last());
        let last = form_encode_byte(bytes.last());
        let b = bytes.last();
        assert forall|i: int| 0 <= i < last.len() implies #[trigger] form_output_char(last[i]) by {
            if !form_unchanged(b) && b != 32 {
                assert(0 <= b / 16 < 16);
                assert(0 <= b % 16 < 16);
            }
        }
        assert forall|i: int| 0 <= i < (pre + last).len() implies #[trigger] form_output_char(
            (pre + last)[i],
        ) by {
            if i >= pre.len() {
                assert((pre + last)[i] == last[i - pre.len()]);
            } else {
                assert((pre + last)[i] == pre[i]);
            }
        }
    }
}

/// The value of the first pair of a form-urlencoded byte string.
///
/// Trusted: takes the first item of `url::form_urlencoded::parse(input)` and
/// keeps its value.  The result is named by `first_form_value`.  The facts
/// added are those the source shows plainly: the iterator yields a pair for
/// any input that does not start with `&`; the pair `x=<b>` with `b` made only
/// of `* - . 0-9 A-Z _ a-z` gives back `b` as it is; and the pair `x=<t>` with
/// `t` the form-urlencoded serialization of a string gives back that string,
/// since decoding undoes each escape that the serializer writes.  Lossy UTF-8
/// decoding of other escapes is left unsaid.
#[verifier::external_body]
fn parse_first_value(input: &[u8]) -> (res: Option<String>)
    ensures
        opt_chars(res) == first_form_value(input@),
        input@.len() > 0 && input@[0] != 38 ==> res is Some,
        forall|b: Seq<u8>|
            input@ == #[trigger] x_pair(b) && (forall|i: int|
                0 <= i < b.len() ==> form_unchanged(b[i])) ==> opt_chars(res) == Some(
                Seq::new(b.len(), |i: int| b[i] as char),
            ),
        forall|t: Seq<char>|
            input@ == #[trigger] x_pair(vstd::utf8::encode_utf8(form_urlencoded_str(t)))
                ==> opt_chars(res) == Some(t),
{
    url::form_urlencoded::parse(input).next().map(|(_, v)| v.into_owned())
}

/// The view of an optional string.
pub open spec fn opt_chars(o: Option<String>) -> Option<Seq<char>> {
    match o {
        Some(s) => Some(s@),
        None => None,
    }
}

/// Decodes one form-urlencoded value, as the value of the pair `x=<s>`.
/// A value made only of `* - . 0-9 A-Z _ a-z` comes back as it is, and the
/// form-urlencoding of a string decodes back to that string.
pub fn form_urldecode(s: &str) -> (res: String)
    ensures
        res@ == form_decoded_value(s@),
        (forall|i: int| 0 <= i < s@.len() ==> #[trigger] form_plain_char(s@[i])) ==> res@ == s@,
        forall|t: Seq<char>| s@ == #[trigger] form_urlencoded_str(t) ==> res@ == t,
{
    let bytes = s.as_bytes();
    let mut input: Vec<u8> = Vec::new();
    input.push(120);
    input.push(61);
    let n = bytes.len();
    let mut i: usize = 0;
    while i < n
        invariant
            n == bytes@.len(),
            i <= n,
            input@ == seq![120u8, 61u8] + bytes@.take(i as int),
        decreases n - i,
    {
        input.push(bytes[i]);
        assert(bytes@.take(i + 1) =~= bytes@.take(i as int).push(bytes@[i as int]));
        i = i + 1;
    }
    assert(bytes@.take(n as int) =~= bytes@);
    assert(input@ == x_pair(vstd::utf8::encode_utf8(s@)));
    let res = match parse_first_value(input.as_slice()) {
        Some(v) => v,
        None => String::from_str(s),
    };
    proof {
        if forall|i: int| 0 <= i < s@.len() ==> #[trigger] form_plain_char(s@[i]) {
            lemma_plain_bytes(s@);
            let b = vstd::utf8::encode_utf8(s@);
            assert(input@ == x_pair(b));
            assert(Seq::new(b.len(), |i: int| b[i] as char) =~= s@);
        }
        assert forall|t: Seq<char>| s@ == #[trigger] form_urlencoded_str(t) implies res@ == t by {
            assert(input@ == x_pair(vstd::utf8::encode_utf8(form_urlencoded_str(t))));
        }
    }
    res
}

/// The UTF-8 bytes of a string of plain characters are those characters,
/// each a byte the serializer leaves unchanged.
proof fn lemma_plain_bytes(s: Seq<char>)
    requires
        forall|i: int| 0 <= i < s.len() ==> #[trigger] form_plain_char(s[i]),
    ensures
        vstd::utf8::encode_utf8(s).len() == s.len(),
        forall|i: int|
            0 <= i < s.len() ==> #[trigger] vstd::utf8::encode_utf8(s)[i] as char == s[i]
                && form_unchanged(vstd::utf8::encode_utf8(s)[i]),
{
    assert(vstd::utf8::is_ascii_chars(s)) by {
        assert forall|i: int| 0 <= i < s.len() implies '\0' <= #[trigger] s[i] <= '\u{7f}' by {
            assert(form_plain_char(s[i]));
        }
    }
    vstd::utf8::is_ascii_chars_encode_utf8(s);
    let b = vstd::utf8::encode_utf8(s);
    assert forall|i: int| 0 <= i < s.len() implies #[trigger] b[i] as char == s[i]
        && form_unchanged(b[i]) by {
        assert(form_plain_char(s[i]));
        assert(s[i] as u8 == b[i]);
    }
}

// ---------------------------------------------------------------------------
// SHA-256 and randomness
// ---------------------------------------------------------------------------

/// The SHA-256 digest of `data`.
pub uninterp spec fn sha256_digest(data: Seq<u8>) -> Seq<u8>;

/// SHA-256 of `data`.
///
/// Trusted: runs `sha2::Sha256` (`new`, `update`, `finalize`) over `data`.
/// The result is named by `sha256_digest`; the only fact added is the output
/// size of the hash, 32 bytes.
#[verifier::external_body]
pub(crate) fn sha256(data: &[u8]) -> (res: Vec<u8>)
    ensures
        res@ == sha256_digest(data@),
        res@.len() == 32,
{
    let mut hasher = sha2::Sha256::new();
    hasher.update(data);
    hasher.finalize().to_vec()
}

/// `n` random bytes.
///
/// Trusted: fills a buffer of `n` zero bytes with `rand::thread_rng().fill_bytes`.
/// What the bytes are rests on chance: only the length is stated.
#[verifier::external_body]
pub(crate) fn rand_bytes(n: usize) -> (res: Vec<u8>)
    ensures
        res@.len() == n,
{
    let mut buf = vec![0u8; n];
    rand::thread_rng().fill_bytes(&mut buf);
    buf
}

} // verus!
