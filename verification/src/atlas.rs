//! The glyph atlas of the HUD text: which characters are baked, how glyph
//! boxes are packed into rows of a single-channel texture 1024 pixels wide
//! that doubles its height when full, and which glyph a character is drawn
//! with.
use vstd::prelude::*;

verus! {

/// Width of the atlas texture in pixels.
pub const ATLAS_WIDTH: u32 = 1024;

/// Height of the atlas texture before it grows.
pub const ATLAS_START_HEIGHT: u32 = 256;

/// The atlas may grow up to this height; one more doubling would overflow
/// the `u32` pixel count.
pub const ATLAS_MAX_HEIGHT: u32 = 0x20_0000;

/// A glyph box placed in the atlas: its top-left pixel and its size.
pub struct GlyphRect {
    pub x: int,
    pub y: int,
    pub w: int,
    pub h: int,
}

/// Two boxes share no pixel.
pub open spec fn disjoint(a: GlyphRect, b: GlyphRect) -> bool {
    ||| a.x + a.w <= b.x
    ||| b.x + b.w <= a.x
    ||| a.y + a.h <= b.y
    ||| b.y + b.h <= a.y
}

/// The abstract state of an atlas under construction.
pub struct AtlasModel {
    pub height: int,
    pub pixels: Seq<u8>,
    /// Where the next glyph goes when it fits in the current row.
    pub cursor_x: int,
    /// Top of the current row.
    pub cursor_y: int,
    /// Height of the tallest glyph in the current row.
    pub row_height: int,
    /// The boxes placed so far, in order.
    pub placed: Seq<GlyphRect>,
}

/// A single-channel glyph atlas being packed row by row.
pub struct GlyphAtlas {
    height: u32,
    pixels: Vec<u8>,
    x: u32,
    y: u32,
    row_h: u32,
    placed: Ghost<Seq<GlyphRect>>,
}

impl View for GlyphAtlas {
    type V = AtlasModel;

    closed spec fn view(&self) -> AtlasModel {
        AtlasModel {
            height: self.height as int,
            pixels: self.pixels@,
            cursor_x: self.x as int,
            cursor_y: self.y as int,
            row_height: self.row_h as int,
            placed: self.placed@,
        }
    }
}

/// The heights an atlas takes: the start height doubled up to 13 times.
pub open spec fn is_atlas_height(h: int) -> bool {
    ||| h == 0x100
    ||| h == 0x200
    ||| h == 0x400
    ||| h == 0x800
    ||| h == 0x1000
    ||| h == 0x2000
    ||| h == 0x4000
    ||| h == 0x8000
    ||| h == 0x1_0000
    ||| h == 0x2_0000
    ||| h == 0x4_0000
    ||| h == 0x8_0000
    ||| h == 0x10_0000
    ||| h == 0x20_0000
}

impl AtlasModel {
    /// The structure every atlas keeps: one byte per pixel, a height that is
    /// the start height doubled a few times, the cursor inside the texture.
    pub open spec fn wf(self) -> bool {
        &&& is_atlas_height(self.height)
        &&& self.pixels.len() == ATLAS_WIDTH * self.height
        &&& 1 <= self.cursor_x <= u32::MAX
        &&& 1 <= self.cursor_y < self.height
        &&& 0 <= self.row_height
        &&& self.cursor_y + self.row_height < self.height
    }

    /// Whether the next glyph of width `gw` starts a new row.
    pub open spec fn wraps(self, gw: int) -> bool {
        self.cursor_x + gw + 1 >= ATLAS_WIDTH
    }

    /// Where a glyph of width `gw` goes: the cursor, or the start of the next
    /// row when it does not fit in the current one.
    pub open spec fn next_x(self, gw: int) -> int {
        if self.wraps(gw) {
            1
        } else {
            self.cursor_x
        }
    }

    /// The row top of the next glyph of width `gw`.
    pub open spec fn next_y(self, gw: int) -> int {
        if self.wraps(gw) {
            self.cursor_y + self.row_height + 1
        } else {
            self.cursor_y
        }
    }

    /// The height of the current row once a glyph of size `gw` by `gh` is in it.
    pub open spec fn next_row_height(self, gw: int, gh: int) -> int {
        if self.wraps(gw) {
            gh
        } else if gh > self.row_height {
            gh
        } else {
            self.row_height
        }
    }

    /// A glyph of size `gw` by `gh` can be placed without any counter
    /// overflowing and without the atlas outgrowing `ATLAS_MAX_HEIGHT`.
    pub open spec fn can_place(self, gw: int, gh: int) -> bool {
        &&& self.cursor_x + gw + 1 <= u32::MAX
        &&& self.next_y(gw) + gh + 1 < ATLAS_MAX_HEIGHT
    }

    /// Every placed box lies inside the atlas, no two share a pixel, and each
    /// either lies above the current row or sits in it left of the cursor.
    pub open spec fn packing_sound(self) -> bool {
        &&& forall|i: int|
            0 <= i < self.placed.len() ==> {
                let r = #[trigger] self.placed[i];
                &&& 1 <= r.x
                &&& 0 <= r.w
                &&& r.x + r.w < ATLAS_WIDTH
                &&& 1 <= r.y
                &&& 0 <= r.h
                &&& r.y + r.h < self.height
                &&& (r.y + r.h < self.cursor_y || (r.y == self.cursor_y && r.x + r.w
                    < self.cursor_x && r.h <= self.row_height))
            }
        &&& forall|i: int, j: int|
            0 <= i < j < self.placed.len() ==> disjoint(
                #[trigger] self.placed[i],
                #[trigger] self.placed[j],
            )
    }
}

/// The smallest doubling of `h` that leaves a free pixel row below a glyph
/// of height `gh` at row top `y`.
pub open spec fn grown_height(h: int, y: int, gh: int) -> int
    decreases 2 * ATLAS_MAX_HEIGHT - h,
{
    if h <= 0 || h >= ATLAS_MAX_HEIGHT || y + gh + 1 < h {
        h
    } else {
        grown_height(2 * h, y, gh)
    }
}

/// An all-zero pixel run.
pub open spec fn zeros(n: int) -> Seq<u8> {
    Seq::new(n as nat, |i: int| 0u8)
}

/// Appends zero bytes to `v` until it holds `n` of them.
fn extend_zeros(v: &mut Vec<u8>, n: usize)
    requires
        old(v)@.len() <= n,
    ensures
        final(v)@ == old(v)@ + zeros(n - old(v)@.len()),
{
    while v.len() < n
        invariant
            old(v)@.len() <= v@.len() <= n,
            v@ == old(v)@ + zeros(v@.len() - old(v)@.len()),
        decreases n - v.len(),
    {
        v.push(0);
        assert(v@ =~= old(v)@ + zeros(v@.len() - old(v)@.len()));
    }
}

impl GlyphAtlas {
    /// An empty atlas 1024 by 256 pixels, all zero, with the cursor at (1, 1).
    pub fn new() -> (res: GlyphAtlas)
        ensures
            res@.wf(),
            res@.packing_sound(),
            res@.height == ATLAS_START_HEIGHT,
            res@.pixels == zeros(ATLAS_WIDTH * ATLAS_START_HEIGHT),
            res@.cursor_x == 1,
            res@.cursor_y == 1,
            res@.row_height == 0,
            res@.placed.len() == 0,
    {
        let n: usize = 1024 * 256;
        let mut pixels: Vec<u8> = Vec::new();
        while pixels.len() < n
            invariant
                pixels.len() <= n,
                pixels@ == zeros(pixels.len() as int),
            decreases n - pixels.len(),
        {
            pixels.push(0);
            assert(pixels@ =~= zeros(pixels.len() as int));
        }
        GlyphAtlas {
            height: ATLAS_START_HEIGHT,
            pixels,
            x: 1,
            y: 1,
            row_h: 0,
            placed: Ghost(Seq::empty()),
        }
    }

    /// Height of the atlas in pixels.
    pub fn height(&self) -> (res: u32)
        ensures
            res == self@.height,
    {
        self.height
    }

    /// The pixels, row by row, 1024 to a row.
    pub fn pixels(&self) -> (res: &Vec<u8>)
        ensures
            res@ == self@.pixels,
    {
        &self.pixels
    }

    /// Whether a glyph of `gw` by `gh` pixels can be placed without a counter
    /// overflowing or the atlas outgrowing `ATLAS_MAX_HEIGHT`.
    pub fn can_place(&self, gw: u32, gh: u32) -> (res: bool)
        requires
            self@.wf(),
        ensures
            res == self@.can_place(gw as int, gh as int),
    {
        if self.x as u64 + gw as u64 + 1 > u32::MAX as u64 {
            return false;
        }
        let next_y: u64 = if self.x as u64 + gw as u64 + 1 >= ATLAS_WIDTH as u64 {
            self.y as u64 + self.row_h as u64 + 1
        } else {
            self.y as u64
        };
        next_y + gh as u64 + 1 < ATLAS_MAX_HEIGHT as u64
    }

    /// Places a glyph box of `gw` by `gh` pixels and returns its top-left
    /// corner.  The box goes at the cursor when a free column remains right
    /// of it, else at the start of the next row; the atlas doubles its height
    /// until a free pixel row remains below the box, the new rows zero.
    /// While every box is narrower than the atlas less two pixels, the boxes
    /// stay inside the atlas and pairwise disjoint.
    pub fn place(&mut self, gw: u32, gh: u32) -> (res: (u32, u32))
        requires
            old(self)@.wf(),
            old(self)@.can_place(gw as int, gh as int),
        ensures
            final(self)@.wf(),
            res.0 == old(self)@.next_x(gw as int),
            res.1 == old(self)@.next_y(gw as int),
            final(self)@.height == grown_height(old(self)@.height, res.1 as int, gh as int),
            final(self)@.pixels == old(self)@.pixels + zeros(
                final(self)@.pixels.len() - old(self)@.pixels.len(),
            ),
            final(self)@.cursor_x == res.0 + gw + 1,
            final(self)@.cursor_y == res.1,
            final(self)@.row_height == old(self)@.next_row_height(gw as int, gh as int),
            final(self)@.placed == old(self)@.placed.push(
                GlyphRect { x: res.0 as int, y: res.1 as int, w: gw as int, h: gh as int },
            ),
            old(self)@.packing_sound() && gw + 2 < ATLAS_WIDTH ==> final(self)@.packing_sound(),
    {
        let ghost old_model = self@;
        let wrap = self.x + gw + 1 >= ATLAS_WIDTH;
        let px: u32 = if wrap {
            1
        } else {
            self.x
        };
        let py: u32 = if wrap {
            self.y + self.row_h + 1
        } else {
            self.y
        };
        let row: u32 = if wrap {
            0
        } else {
            self.row_h
        };
        let mut height = self.height;
        while py + gh + 1 >= height
            invariant
                py + gh + 1 < ATLAS_MAX_HEIGHT,
                self.placed@ == old_model.placed,
                is_atlas_height(height as int),
                old_model.height <= height,
                grown_height(old_model.height, py as int, gh as int) == grown_height(
                    height as int,
                    py as int,
                    gh as int,
                ),
                self.pixels@.len() == ATLAS_WIDTH * height,
                self.pixels@ == old_model.pixels + zeros(
                    self.pixels@.len() - old_model.pixels.len(),
                ),
                old_model.pixels.len() == ATLAS_WIDTH * old_model.height,
            decreases ATLAS_MAX_HEIGHT - height,
        {
            height = height * 2;
            extend_zeros(&mut self.pixels, (ATLAS_WIDTH * height) as usize);
            assert(self.pixels@ =~= old_model.pixels + zeros(
                self.pixels@.len() - old_model.pixels.len(),
            ));
        }
        self.height = height;
        self.x = px + gw + 1;
        self.y = py;
        self.row_h = if gh > row {
            gh
        } else {
            row
        };
        let ghost rect = GlyphRect { x: px as int, y: py as int, w: gw as int, h: gh as int };
        self.placed = Ghost(self.placed@.push(rect));
        proof {
            let m = self@;
            if old_model.packing_sound() && gw + 2 < ATLAS_WIDTH {
                assert forall|i: int| 0 <= i < m.placed.len() implies {
                    let r = #[trigger] m.placed[i];
                    &&& 1 <= r.x
                    &&& 0 <= r.w
                    &&& r.x + r.w < ATLAS_WIDTH
                    &&& 1 <= r.y
                    &&& 0 <= r.h
                    &&& r.y + r.h < m.height
                    &&& (r.y + r.h < m.cursor_y || (r.y == m.cursor_y && r.x + r.w < m.cursor_x
                        && r.h <= m.row_height))
                } by {
                    if i < old_model.placed.len() {
                        assert(m.placed[i] == old_model.placed[i]);
                    }
                }
                assert forall|i: int, j: int| 0 <= i < j < m.placed.len() implies disjoint(
                    #[trigger] m.placed[i],
                    #[trigger] m.placed[j],
                ) by {
                    assert(m.placed[i] == old_model.placed[i]);
                    if j < old_model.placed.len() {
                        assert(m.placed[j] == old_model.placed[j]);
                    } else {
                        assert(m.placed[j] == rect);
                    }
                }
            }
        }
        (px, py)
    }

    /// Writes one coverage byte of a glyph placed at (`gx`, `gy`): pixel
    /// (`px`, `py`) of the glyph, at index `(gy + py) * 1024 + gx + px`.
    pub fn put_pixel(&mut self, gx: u32, gy: u32, px: u32, py: u32, value: u8)
        requires
            old(self)@.wf(),
            (gy + py) * ATLAS_WIDTH + gx + px < old(self)@.pixels.len(),
        ensures
            final(self)@ == (AtlasModel {
                pixels: old(self)@.pixels.update((gy + py) * ATLAS_WIDTH + gx + px, value),
                ..old(self)@
            }),
    {
        let i: usize = ((gy + py) * ATLAS_WIDTH + (gx + px)) as usize;
        self.pixels.set(i, value);
    }
}

/// A Unicode scalar value: a code point outside the surrogate range.
pub open spec fn is_char_code(code: u32) -> bool {
    code <= 0xd7ff || (0xe000 <= code && code <= 0x10ffff)
}

/// The character with code `code`, if it is one.
///
/// Trusted: calls `char::from_u32`, which its documentation says returns the
/// character for a Unicode scalar value and `None` otherwise.
#[verifier::external_body]
fn char_from_u32(code: u32) -> (res: Option<char>)
    ensures
        is_char_code(code) ==> res == Some(code as char),
        !is_char_code(code) ==> res is None,
{
    char::from_u32(code)
}

/// The `k`-th character code baked into the atlas: printable ASCII
/// (33..127), Latin-1 Supplement and Latin Extended-A (160..384), then
/// General Punctuation dashes and quotes (0x2010..0x2020).
pub open spec fn atlas_code(k: int) -> int {
    if k < 94 {
        33 + k
    } else if k < 318 {
        160 + (k - 94)
    } else {
        0x2010 + (k - 318)
    }
}

/// How many characters the atlas bakes.
pub const ATLAS_CHAR_COUNT: usize = 334;

/// Appends the characters with codes `from..to` to `out`.
fn push_code_range(out: &mut Vec<char>, from: u32, to: u32, base: Ghost<int>)
    requires
        from <= to,
        to <= 0xd800,
        old(out)@.len() == base@,
        forall|k: int| 0 <= k < base@ ==> #[trigger] old(out)@[k] as int == atlas_code(k),
        forall|k: int| base@ <= k < base@ + (to - from) ==> atlas_code(k) == from + (k - base@),
    ensures
        final(out)@.len() == base@ + (to - from),
        forall|k: int| 0 <= k < final(out)@.len() ==> #[trigger] final(out)@[k] as int == atlas_code(k),
{
    let mut code = from;
    while code < to
        invariant
            from <= code <= to <= 0xd800,
            out@.len() == base@ + (code - from),
            forall|k: int| 0 <= k < out@.len() ==> #[trigger] out@[k] as int == atlas_code(k),
            forall|k: int| base@ <= k < base@ + (to - from) ==> atlas_code(k) == from + (k - base@),
        decreases to - code,
    {
        match char_from_u32(code) {
            Some(c) => out.push(c),
            None => {},
        }
        code = code + 1;
    }
}

/// The characters the atlas bakes a glyph for, in baking order.
pub fn atlas_chars() -> (res: Vec<char>)
    ensures
        res@.len() == ATLAS_CHAR_COUNT,
        forall|k: int| 0 <= k < res@.len() ==> #[trigger] res@[k] as int == atlas_code(k),
{
    let mut out: Vec<char> = Vec::new();
    push_code_range(&mut out, 33, 127, Ghost(0));
    push_code_range(&mut out, 160, 384, Ghost(94));
    push_code_range(&mut out, 0x2010, 0x2020, Ghost(318));
    out
}

/// How a character of a HUD line is drawn.
pub enum GlyphChoice {
    /// A space: the pen only advances.
    Space,
    /// The character's own glyph.
    Own,
    /// The `?` glyph, standing in for a character that was not baked.
    Fallback,
    /// Neither glyph exists: the pen advances as for a space.
    Missing,
}

/// How to draw `ch`, given whether its glyph and the `?` glyph are baked.
pub fn glyph_choice(ch: char, baked: bool, fallback_baked: bool) -> (res: GlyphChoice)
    ensures
        ch == ' ' ==> res is Space,
        ch != ' ' && baked ==> res is Own,
        ch != ' ' && !baked && fallback_baked ==> res is Fallback,
        ch != ' ' && !baked && !fallback_baked ==> res is Missing,
{
    if ch == ' ' {
        GlyphChoice::Space
    } else if baked {
        GlyphChoice::Own
    } else if fallback_baked {
        GlyphChoice::Fallback
    } else {
        GlyphChoice::Missing
    }
}

} // verus!
