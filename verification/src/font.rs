//! In-memory font data.
//!
//! A font is an immutable table of glyph records at the typeface's design
//! resolution: per character, a bounding box in font units, placement
//! offsets, a horizontal advance, and a row-major coverage map. Coverage is
//! a fraction of [`COV_ONE`]: `COV_ONE` means the pixel is fully inside the
//! outline, `0` means fully outside. The rasterizer scales these records to
//! a requested pixel size.

use vstd::prelude::*;

verus! {

/// Denominator of the fractional coverage values a glyph record stores:
/// a stored value `v` stands for the coverage `v / COV_ONE` in `[0, 1]`.
pub const COV_ONE: u16 = 256;

/// One character's outline data at the font's design resolution.
pub struct Glyph {
    /// The character this record renders.
    pub ch: char,
    /// Bounding-box width in font units; zero means the glyph has no ink.
    pub box_w: u16,
    /// Bounding-box height in font units; zero means the glyph has no ink.
    pub box_h: u16,
    /// Horizontal placement offset within the layout cell, in font units.
    pub x_off: i16,
    /// Vertical placement offset within the layout cell, in font units.
    pub y_off: i16,
    /// Horizontal advance to the next glyph, in font units.
    pub advance: u16,
    /// Row-major fractional coverage, one value per bounding-box cell,
    /// each at most [`COV_ONE`].
    pub coverage: Vec<u16>,
}

impl Glyph {
    pub open spec fn wf(self) -> bool {
        &&& self.coverage.len() == self.box_w * self.box_h
        &&& forall|k: int|
            0 <= k < self.coverage.len() ==> self.coverage[k] <= COV_ONE
    }
}

/// An immutable, shared typeface: design resolution plus one record per
/// supported character. Characters the table lacks rasterize to nothing.
pub struct Font {
    /// Size of the em box in font units; positive.
    pub units_per_em: u16,
    /// The glyph records; a lookup takes the first record for a character.
    pub glyphs: Vec<Glyph>,
}

/// The record for `c` at or after position `i` in `s`, first match wins.
pub open spec fn find_glyph_from(s: Seq<Glyph>, c: char, i: int) -> Option<Glyph>
    decreases s.len() - i,
{
    if i < 0 || i >= s.len() {
        None
    } else if s[i].ch == c {
        Some(s[i])
    } else {
        find_glyph_from(s, c, i + 1)
    }
}

/// The record a font uses for character `c`: the first matching entry.
pub open spec fn spec_find_glyph(font: Font, c: char) -> Option<Glyph> {
    find_glyph_from(font.glyphs@, c, 0)
}

impl Font {
    pub open spec fn wf(self) -> bool {
        &&& self.units_per_em > 0
        &&& forall|i: int| 0 <= i < self.glyphs.len() ==> #[trigger] self.glyphs[i].wf()
    }

    /// Look up the first record for character `c`.
    pub fn find_glyph(&self, c: char) -> (r: Option<&Glyph>)
        ensures
            match r {
                Some(g) => spec_find_glyph(*self, c) == Some(*g),
                None => spec_find_glyph(*self, c) is None,
            },
    {
        let n = self.glyphs.len();
        let mut i: usize = 0;
        while i < n
            invariant
                0 <= i <= n,
                n == self.glyphs.len(),
                find_glyph_from(self.glyphs@, c, 0) == find_glyph_from(
                    self.glyphs@,
                    c,
                    i as int,
                ),
            decreases n - i,
        {
            if self.glyphs[i].ch == c {
                return Some(&self.glyphs[i]);
            }
            i = i + 1;
        }
        None
    }
}

/// A record that a lookup in a well-formed sequence finds is well-formed.
proof fn lemma_find_from_wf(s: Seq<Glyph>, c: char, i: int)
    requires
        forall|k: int| 0 <= k < s.len() ==> #[trigger] s[k].wf(),
        find_glyph_from(s, c, i) is Some,
    ensures
        find_glyph_from(s, c, i).unwrap().wf(),
    decreases s.len() - i,
{
    if i < 0 || i >= s.len() {
    } else if s[i].ch == c {
    } else {
        lemma_find_from_wf(s, c, i + 1);
    }
}

/// The glyph record a well-formed font finds is itself well-formed.
pub proof fn lemma_find_glyph_wf(font: Font, c: char)
    requires
        font.wf(),
        spec_find_glyph(font, c) is Some,
    ensures
        spec_find_glyph(font, c).unwrap().wf(),
{
    lemma_find_from_wf(font.glyphs@, c, 0);
}

/// A text style: a shared font and a pixel size. Freely copyable; one value
/// per UI state, handed to every glyph operation.
pub struct TextStyle<'a> {
    pub font: &'a Font,
    /// Em size in pixels; positive.
    pub size: u16,
}

impl<'a> TextStyle<'a> {
    pub open spec fn wf(self) -> bool {
        &&& self.font.wf()
        &&& self.size > 0
    }
}

} // verus!
