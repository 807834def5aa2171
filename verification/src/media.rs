//! Decoding the downloaded album art into RGBA pixels, and choosing the HUD
//! font among the candidate font files that could be read.
use vstd::prelude::*;

verus! {

/// What `image::load_from_memory(bytes)` followed by `to_rgba8` gives: the
/// width, height and RGBA pixels of the decoded image, or nothing when the
/// bytes are not an image the decoder reads.
pub uninterp spec fn decoded_rgba8(bytes: Seq<u8>) -> Option<(u32, u32, Seq<u8>)>;

/// Decodes an image to 8-bit RGBA.
///
/// Trusted: calls `image::load_from_memory` and, on success, `to_rgba8`,
/// handing out the width, height and raw buffer.  The result is named by
/// `decoded_rgba8`; the one fact added is the buffer invariant of an RGBA
/// `ImageBuffer`: four bytes per pixel.
#[verifier::external_body]
fn load_rgba8(bytes: &[u8]) -> (res: Option<(u32, u32, Vec<u8>)>)
    ensures
        match res {
            Some((w, h, px)) => decoded_rgba8(bytes@) == Some((w, h, px@)) && px@.len() == 4 * w
                * h,
            None => decoded_rgba8(bytes@) is None,
        },
{
    match image::load_from_memory(bytes) {
        Ok(img) => {
            let rgba = img.to_rgba8();
            Some((rgba.width(), rgba.height(), rgba.into_raw()))
        },
        Err(_) => None,
    }
}

/// Decoded album art: its size and its pixels, four bytes (RGBA) each, row
/// by row.
pub struct AlbumArt {
    pub width: u32,
    pub height: u32,
    pub pixels: Vec<u8>,
}

/// Decodes downloaded album art, or gives nothing when the bytes are not an
/// image that can be read.
pub fn decode_album_art(bytes: &[u8]) -> (res: Option<AlbumArt>)
    ensures
        match res {
            Some(a) => decoded_rgba8(bytes@) == Some((a.width, a.height, a.pixels@))
                && a.pixels@.len() == 4 * a.width * a.height,
            None => decoded_rgba8(bytes@) is None,
        },
{
    match load_rgba8(bytes) {
        Some((width, height, pixels)) => Some(AlbumArt { width, height, pixels }),
        None => None,
    }
}

/// Whether `ab_glyph` reads `bytes` as a font.
pub uninterp spec fn font_parses(bytes: Seq<u8>) -> bool;

/// Whether the bytes of a font file make a usable font.
///
/// Trusted: calls `ab_glyph::FontArc::try_from_vec` on a copy of the bytes
/// and reports whether it succeeded; the answer is named by `font_parses`.
#[verifier::external_body]
fn is_usable_font(bytes: &[u8]) -> (res: bool)
    ensures
        res == font_parses(bytes@),
{
    ab_glyph::FontArc::try_from_vec(bytes.to_vec()).is_ok()
}

/// A candidate font file that was read and parses.
pub open spec fn usable_candidate(c: Option<Vec<u8>>) -> bool {
    c matches Some(b) && font_parses(b@)
}

/// The first candidate font that was read and parses, in order; `None` when
/// there is none.
pub fn first_usable_font(candidates: &Vec<Option<Vec<u8>>>) -> (res: Option<usize>)
    ensures
        match res {
            Some(i) => i < candidates@.len() && usable_candidate(candidates@[i as int]) && forall|
                j: int,
            | 0 <= j < i ==> !usable_candidate(#[trigger] candidates@[j]),
            None => forall|j: int|
                0 <= j < candidates@.len() ==> !usable_candidate(#[trigger] candidates@[j]),
        },
{
    let n = candidates.len();
    let mut i: usize = 0;
    while i < n
        invariant
            n == candidates@.len(),
            i <= n,
            forall|j: int| 0 <= j < i ==> !usable_candidate(#[trigger] candidates@[j]),
        decreases n - i,
    {
        match &candidates[i] {
            Some(b) => {
                if is_usable_font(b.as_slice()) {
                    return Some(i);
                }
            },
            None => {},
        }
        i = i + 1;
    }
    None
}

} // verus!
