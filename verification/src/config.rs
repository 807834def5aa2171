//! The `spotify.properties` file: finding the Spotify client id in it.
use crate::text::{chars_of, find_char, first_index_of, lemma_first_index_of, lemma_trim_idempotent, range_eq_str, range_starts_with, starts_with, trim, trim_range};
use vstd::prelude::*;
use vstd::string::*;

verus! {

broadcast use vstd::string::group_string_axioms;

/// The client id that one line of the properties file sets, if any.
///
/// The line is trimmed; empty lines and `#` comments set nothing.  Otherwise
/// the line is split at its first `=`; when the trimmed key is
/// `spotify.client_id`, the trimmed value counts if it is not empty and does
/// not start with the placeholder prefix `YOUR_`.
pub open spec fn client_id_in_line(line: Seq<char>) -> Option<Seq<char>> {
    let t = trim(line);
    if t.len() == 0 || t[0] == '#' {
        None
    } else {
        let eq = first_index_of(t, '=');
        if eq < t.len() && trim(t.take(eq)) == "spotify.client_id"@ {
            let v = trim(t.skip(eq + 1));
            if v.len() > 0 && !starts_with(v, "YOUR_"@) {
                Some(v)
            } else {
                None
            }
        } else {
            None
        }
    }
}

/// The client id of a properties text: that of the first line, in order,
/// that sets one.  Lines are the pieces between `\n` characters; a `\r`
/// before the `\n` is whitespace and trimmed away with the rest.
pub open spec fn client_id_from(s: Seq<char>) -> Option<Seq<char>>
    decreases s.len(),
{
    let end = first_index_of(s, '\n');
    match client_id_in_line(s.take(end)) {
        Some(v) => Some(v),
        None => if 0 <= end < s.len() {
            client_id_from(s.skip(end + 1))
        } else {
            None
        },
    }
}

/// Finds the Spotify client id in the text of `spotify.properties`.
pub fn parse_client_id(content: &str) -> (res: Option<String>)
    ensures
        match res {
            Some(v) => client_id_from(content@) == Some(v@),
            None => client_id_from(content@) is None,
        },
{
    let chars = chars_of(content);
    let n = chars.len();
    let mut start: usize = 0;
    assert(chars@.subrange(0, n as int) =~= chars@);
    loop
        invariant
            n == chars@.len(),
            chars@ == content@,
            start <= n,
            client_id_from(content@) == client_id_from(chars@.subrange(start as int, n as int)),
        decreases n - start,
    {
        let ghost rest = chars@.subrange(start as int, n as int);
        let end = find_char(&chars, start, n, '\n');
        proof {
            lemma_first_index_of(rest, '\n');
            assert(rest.take(end - start) =~= chars@.subrange(start as int, end as int));
        }
        let found = line_client_id(&chars, content, start, end);
        if let Some(v) = found {
            return Some(v);
        }
        if end == n {
            return None;
        }
        proof {
            assert(rest.skip(end - start + 1) =~= chars@.subrange(end + 1, n as int));
        }
        start = end + 1;
    }
}

/// The client id that the line `chars[start..end]` sets, if any.
fn line_client_id(chars: &Vec<char>, content: &str, start: usize, end: usize) -> (res: Option<
    String,
>)
    requires
        start <= end <= chars@.len(),
        chars@ == content@,
    ensures
        match res {
            Some(v) => client_id_in_line(chars@.subrange(start as int, end as int)) == Some(v@),
            None => client_id_in_line(chars@.subrange(start as int, end as int)) is None,
        },
{
    let ghost line = chars@.subrange(start as int, end as int);
    let (a, b) = trim_range(chars, start, end);
    let ghost t = chars@.subrange(a as int, b as int);
    if a == b || chars[a] == '#' {
        return None;
    }
    let eq = find_char(chars, a, b, '=');
    proof {
        lemma_first_index_of(t, '=');
    }
    if eq == b {
        return None;
    }
    let (ka, kb) = trim_range(chars, a, eq);
    proof {
        assert(t.take(eq - a) =~= chars@.subrange(a as int, eq as int));
    }
    if !range_eq_str(chars, ka, kb, "spotify.client_id") {
        return None;
    }
    let (va, vb) = trim_range(chars, eq + 1, b);
    proof {
        assert(t.skip(eq - a + 1) =~= chars@.subrange(eq + 1, b as int));
    }
    if va == vb || range_starts_with(chars, va, vb, "YOUR_") {
        return None;
    }
    let v = content.substring_char(va, vb);
    Some(String::from_str(v))
}

/// A client id found in the properties file is never empty, never the
/// `YOUR_...` placeholder, and carries no surrounding whitespace.
pub proof fn law_client_id_is_clean(s: Seq<char>)
    ensures
        client_id_from(s) matches Some(v) ==> v.len() > 0 && !starts_with(v, "YOUR_"@) && trim(v)
            == v,
    decreases s.len(),
{
    let end = first_index_of(s, '\n');
    let line = s.take(end);
    match client_id_in_line(line) {
        Some(v) => {
            let t = trim(line);
            let eq = first_index_of(t, '=');
            lemma_trim_idempotent(t.skip(eq + 1));
        },
        None => {
            if 0 <= end < s.len() {
                law_client_id_is_clean(s.skip(end + 1));
            }
        },
    }
}

/// `first_index_of` of a line without `\n` followed by `\n` and more text
/// is the line's length.
proof fn lemma_first_newline(l: Seq<char>, s: Seq<char>)
    requires
        forall|i: int| 0 <= i < l.len() ==> l[i] != '\n',
    ensures
        first_index_of(l + seq!['\n'] + s, '\n') == l.len(),
    decreases l.len(),
{
    let t = l + seq!['\n'] + s;
    if l.len() > 0 {
        lemma_first_newline(l.drop_first(), s);
        assert(t.drop_first() =~= l.drop_first() + seq!['\n'] + s);
    }
}

/// The properties text is read line by line in order: a first line that sets
/// a client id gives that id whatever follows, and a first line that sets
/// none (a comment, a blank line, another key, an empty or placeholder value)
/// is passed over, leaving the result to the lines after it.
pub proof fn law_client_id_first_setting_line(l: Seq<char>, s: Seq<char>)
    requires
        forall|i: int| 0 <= i < l.len() ==> l[i] != '\n',
    ensures
        client_id_in_line(l) is None ==> client_id_from(l + seq!['\n'] + s) == client_id_from(s),
        client_id_in_line(l) matches Some(v) ==> client_id_from(l + seq!['\n'] + s) == Some(v),
        client_id_from(l) == client_id_in_line(l),
{
    let t = l + seq!['\n'] + s;
    lemma_first_newline(l, s);
    assert(t.take(l.len() as int) =~= l);
    assert(t.skip(l.len() as int + 1) =~= s);
    lemma_first_index_of(l, '\n');
    assert(l.take(l.len() as int) =~= l);
}

} // verus!
