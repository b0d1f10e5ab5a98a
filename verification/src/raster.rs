//! Glyph rasterization and glyph metrics.
//!
//! A glyph is laid out at a requested pixel size by scaling its design-unit
//! bounding box to pixels (rounding up, so visible ink never collapses to an
//! empty bitmap). Every output pixel samples the record's fractional
//! coverage and converts it to an 8-bit intensity by `round(v * 255)`; the
//! intensity is replicated across all four output channels, a deliberate
//! memory-for-shader-simplicity tradeoff.
//!
//! Metrics are reported normalized: bounding-box ratios against the
//! reference character's box in the same style, so they are fractions of
//! the em box rather than raw pixel counts. When either glyph lacks visible
//! ink the metrics fall back to a fixed, valid default instead of failing.

use vstd::arithmetic::div_mod::{
    lemma_div_by_self, lemma_div_is_ordered, lemma_div_pos_is_pos, lemma_fundamental_div_mod,
    lemma_mod_bound, lemma_multiply_divide_le, lemma_multiply_divide_lt,
};
use vstd::arithmetic::mul::{lemma_mul_inequality, lemma_mul_strict_inequality};
use vstd::prelude::*;

use crate::font::{spec_find_glyph, Font, Glyph, COV_ONE};
use crate::frac::Frac;

verus! {

/// The character whose bounding box defines the normalization unit for
/// glyph metrics: each glyph's box is reported relative to this one's.
pub const REFERENCE_CHAR: char = 'M';

/// A rasterized glyph: a row-major bitmap with four bytes per pixel, the
/// same intensity in every channel.
pub struct GlyphBitmap {
    pub width: u32,
    pub height: u32,
    pub pixels: Vec<u8>,
}

/// Normalized glyph metrics. `width` and `height` are ratios of pixel
/// bounding boxes (this glyph's over the reference character's); offsets and
/// advance are fractions of the em box. All fields are size-independent
/// ratios except as the pixel rounding of `width`/`height` dictates.
#[derive(Clone, Copy, PartialEq, Eq, Structural, Debug)]
pub struct GlyphMetrics {
    pub width: Frac,
    pub height: Frac,
    pub x_offset: Frac,
    pub y_offset: Frac,
    pub x_advance: Frac,
}

impl GlyphMetrics {
    /// A metrics value a layout engine can always consume: every field is a
    /// valid fraction and the two dimensions are non-negative.
    pub open spec fn valid(self) -> bool {
        &&& self.width.valid()
        &&& self.height.valid()
        &&& self.x_offset.valid()
        &&& self.y_offset.valid()
        &&& self.x_advance.valid()
        &&& self.width.is_non_negative()
        &&& self.height.is_non_negative()
    }
}

/// The degraded-but-valid fallback reported when exact rasterized bounds
/// are unavailable, e.g. the glyph or the reference character has no ink.
pub open spec fn spec_default_metrics() -> GlyphMetrics {
    GlyphMetrics {
        width: Frac { num: 1, den: 1 },
        height: Frac { num: 1, den: 1 },
        x_offset: Frac { num: 0, den: 1 },
        y_offset: Frac { num: 1, den: 1 },
        x_advance: Frac { num: 1, den: 1 },
    }
}

/// A design-unit length scaled to pixels at `size`, rounded up.
pub open spec fn spec_px_dim(units: int, size: int, upem: int) -> int {
    (units * size + upem - 1) / upem
}

/// Whether the font has a record for `c` with a non-empty bounding box.
pub open spec fn spec_has_ink(font: Font, c: char) -> bool {
    match spec_find_glyph(font, c) {
        Some(g) => g.box_w > 0 && g.box_h > 0,
        None => false,
    }
}

/// Pixel bounding-box width of `c` at `size`, zero without a record.
pub open spec fn spec_px_w(font: Font, size: u16, c: char) -> int {
    match spec_find_glyph(font, c) {
        Some(g) => spec_px_dim(g.box_w as int, size as int, font.units_per_em as int),
        None => 0,
    }
}

/// Pixel bounding-box height of `c` at `size`, zero without a record.
pub open spec fn spec_px_h(font: Font, size: u16, c: char) -> int {
    match spec_find_glyph(font, c) {
        Some(g) => spec_px_dim(g.box_h as int, size as int, font.units_per_em as int),
        None => 0,
    }
}

/// Whether the rasterized bitmap of `c` at `size` fits in this machine's
/// memory: four bytes per pixel of the scaled bounding box.
pub open spec fn spec_bitmap_fits(font: Font, size: u16, c: char) -> bool {
    4 * spec_px_w(font, size, c) * spec_px_h(font, size, c) <= usize::MAX
}

/// An 8-bit intensity from a fractional coverage value `cov / COV_ONE`:
/// exactly `round(cov / COV_ONE * 255)`.
pub open spec fn spec_intensity(cov: int) -> int {
    (cov * 255 + 128) / 256
}

/// The coverage value an output pixel `(x, y)` samples, with the bitmap
/// `pw` pixels wide and `ph` high: nearest lower source cell.
pub open spec fn spec_sample(g: Glyph, pw: int, ph: int, x: int, y: int) -> int {
    g.coverage@[(y * g.box_h / ph) * g.box_w + x * g.box_w / pw] as int
}

/// Byte `ch` of pixel `(x, y)` in a row-major four-channel buffer.
pub open spec fn spec_px_value(pixels: Seq<u8>, pw: int, x: int, y: int, ch: int) -> int {
    pixels[4 * (y * pw + x) + ch] as int
}

/// The bitmap is the rasterization of `g` at `size`: dimensions are the
/// scaled bounding box and every byte is the channel-replicated intensity
/// of the coverage its pixel samples.
pub open spec fn is_raster_of(bm: GlyphBitmap, g: Glyph, size: u16, upem: u16) -> bool {
    let pw = spec_px_dim(g.box_w as int, size as int, upem as int);
    let ph = spec_px_dim(g.box_h as int, size as int, upem as int);
    &&& bm.width == pw
    &&& bm.height == ph
    &&& bm.pixels.len() == pw * ph * 4
    &&& forall|x: int, y: int, ch: int|
        0 <= x < pw && 0 <= y < ph && 0 <= ch < 4 ==> #[trigger] spec_px_value(
            bm.pixels@,
            pw,
            x,
            y,
            ch,
        ) == spec_intensity(spec_sample(g, pw, ph, x, y))
}

/// A positive design-unit length scales to a pixel count between one and
/// `units * size`: rounding up never produces an empty dimension.
pub proof fn lemma_px_dim_bounds(units: int, size: int, upem: int)
    requires
        units > 0,
        size > 0,
        upem > 0,
    ensures
        1 <= spec_px_dim(units, size, upem) <= units * size,
{
    assert(units * size >= 1) by (nonlinear_arith)
        requires
            units > 0,
            size > 0,
    ;
    assert(units * size + upem - 1 >= upem);
    lemma_div_is_ordered(upem, units * size + upem - 1, upem);
    lemma_div_by_self(upem);
    assert(units * size + upem - 1 <= upem * (units * size)) by (nonlinear_arith)
        requires
            units > 0,
            size > 0,
            upem > 0,
    ;
    lemma_multiply_divide_le(units * size + upem - 1, upem, units * size);
}

/// The scaled pixel count of a design-unit length also fits comfortably in
/// 32 bits, since both factors are 16-bit values.
pub proof fn lemma_px_dim_bounds_u16(units: u16, size: u16, upem: u16)
    requires
        units > 0,
        size > 0,
        upem > 0,
    ensures
        1 <= spec_px_dim(units as int, size as int, upem as int) <= 0xFFFE_0001,
{
    lemma_px_dim_bounds(units as int, size as int, upem as int);
    assert((units as int) * (size as int) <= 0xFFFE_0001) by (nonlinear_arith)
        requires
            units as int <= 0xFFFF,
            size as int <= 0xFFFF,
    ;
}

/// Every intensity an in-range coverage value yields fits in a byte.
pub proof fn lemma_intensity_range(cov: int)
    requires
        0 <= cov <= COV_ONE,
    ensures
        0 <= spec_intensity(cov) <= 255,
{
}

/// A design-unit length scaled to pixels, rounded up. Wrapped by
/// [`rasterize`] and [`metrics`]; public so callers can size buffers.
pub fn px_dim(units: u16, size: u16, upem: u16) -> (r: u32)
    requires
        upem > 0,
    ensures
        r == spec_px_dim(units as int, size as int, upem as int),
{
    proof {
        assert((units as int) * (size as int) <= 0xFFFE_0001) by (nonlinear_arith)
            requires
                units as int <= 0xFFFF,
                size as int <= 0xFFFF,
        ;
    }
    (units as u32 * size as u32 + upem as u32 - 1) / upem as u32
}

/// Rasterize one character of `font` at pixel size `size`.
///
/// Returns `None` exactly when the glyph occupies no visible area: the
/// character has no record or its bounding box is empty. Undefined
/// characters are not an error. When ink exists, the bitmap's dimensions
/// are the scaled bounding box and its length is `width * height * 4`;
/// every byte is pinned by [`is_raster_of`].
pub fn rasterize(font: &Font, size: u16, c: char) -> (r: Option<GlyphBitmap>)
    requires
        font.wf(),
        size > 0,
        spec_has_ink(*font, c) ==> spec_bitmap_fits(*font, size, c),
    ensures
        r is Some <==> spec_has_ink(*font, c),
        r matches Some(bm) ==> {
            &&& spec_find_glyph(*font, c) matches Some(g) && is_raster_of(
                bm,
                g,
                size,
                font.units_per_em,
            )
            &&& bm.width == spec_px_w(*font, size, c)
            &&& bm.height == spec_px_h(*font, size, c)
            &&& bm.pixels.len() == bm.width * bm.height * 4
        },
{
    let g = match font.find_glyph(c) {
        Some(g) => g,
        None => {
            return None;
        },
    };
    if g.box_w == 0 || g.box_h == 0 {
        return None;
    }
    let upem = font.units_per_em;
    let bw = g.box_w;
    let bh = g.box_h;
    proof {
        crate::font::lemma_find_glyph_wf(*font, c);
        lemma_px_dim_bounds(bw as int, size as int, upem as int);
        lemma_px_dim_bounds(bh as int, size as int, upem as int);
        lemma_px_dim_bounds_u16(bw, size, upem);
        lemma_px_dim_bounds_u16(bh, size, upem);
    }
    let pw = px_dim(bw, size, upem);
    let ph = px_dim(bh, size, upem);
    let ghost gg: Glyph = *g;
    proof {
        assert(spec_px_w(*font, size, c) == pw as int);
        assert(spec_px_h(*font, size, c) == ph as int);
    }
    let mut pixels: Vec<u8> = Vec::new();
    let mut y: u32 = 0;
    proof {
        assert(4 * (y as int) * (pw as int) == 0) by (nonlinear_arith)
            requires
                y as int == 0,
        ;
    }
    while y < ph
        invariant
            font.wf(),
            spec_find_glyph(*font, c) == Some(gg),
            gg == *g,
            g.wf(),
            bw == g.box_w,
            bh == g.box_h,
            bw > 0,
            bh > 0,
            size > 0,
            upem == font.units_per_em,
            upem > 0,
            pw == spec_px_dim(bw as int, size as int, upem as int),
            ph == spec_px_dim(bh as int, size as int, upem as int),
            1 <= pw <= 0xFFFE_0001,
            1 <= ph <= 0xFFFE_0001,
            4 * (pw as int) * (ph as int) <= usize::MAX,
            0 <= y <= ph,
            pixels.len() == 4 * (y as int) * (pw as int),
            forall|x0: int, y0: int, c0: int|
                0 <= x0 < pw && 0 <= y0 < y && 0 <= c0 < 4 ==> #[trigger] spec_px_value(
                    pixels@,
                    pw as int,
                    x0,
                    y0,
                    c0,
                ) == spec_intensity(spec_sample(gg, pw as int, ph as int, x0, y0)),
        decreases ph - y,
    {
        proof {
            assert((y as int) * (bh as int) <= 0xFFFE_0001 * 0xFFFF) by (nonlinear_arith)
                requires
                    0 <= y as int <= 0xFFFE_0001,
                    0 <= bh as int <= 0xFFFF,
            ;
            assert((y as int) * (bh as int) < (ph as int) * (bh as int)) by {
                lemma_mul_strict_inequality(y as int, ph as int, bh as int);
            }
            assert((y as int) * (bh as int) / (ph as int) < bh as int) by {
                lemma_multiply_divide_lt((y as int) * (bh as int), ph as int, bh as int);
            }
        }
        let sy = (y as u64 * bh as u64 / ph as u64) as u32;
        proof {
            assert((sy as int) * (bw as int) <= (bh - 1) * (bw as int)) by {
                lemma_mul_inequality(sy as int, bh as int - 1, bw as int);
            }
            assert((bh - 1) * (bw as int) <= 0xFFFF * 0xFFFF) by (nonlinear_arith)
                requires
                    1 <= bh as int <= 0xFFFF,
                    0 <= bw as int <= 0xFFFF,
            ;
        }
        let row_base = sy * bw as u32;
        let mut x: u32 = 0;
        while x < pw
            invariant
                font.wf(),
                spec_find_glyph(*font, c) == Some(gg),
                gg == *g,
                g.wf(),
                bw == g.box_w,
                bh == g.box_h,
                bw > 0,
                bh > 0,
                size > 0,
                upem == font.units_per_em,
                upem > 0,
                pw == spec_px_dim(bw as int, size as int, upem as int),
                ph == spec_px_dim(bh as int, size as int, upem as int),
                1 <= pw <= 0xFFFE_0001,
                1 <= ph <= 0xFFFE_0001,
                4 * (pw as int) * (ph as int) <= usize::MAX,
                0 <= y < ph,
                0 <= x <= pw,
                sy == (y as int) * (bh as int) / (ph as int),
                sy < bh,
                row_base == (sy as int) * (bw as int),
                row_base <= (bh - 1) * (bw as int),
                pixels.len() == 4 * (y as int) * (pw as int) + 4 * (x as int),
                forall|x0: int, y0: int, c0: int|
                    0 <= x0 < pw && 0 <= y0 < y && 0 <= c0 < 4 ==> #[trigger] spec_px_value(
                        pixels@,
                        pw as int,
                        x0,
                        y0,
                        c0,
                    ) == spec_intensity(spec_sample(gg, pw as int, ph as int, x0, y0)),
                forall|x0: int, c0: int|
                    0 <= x0 < x && 0 <= c0 < 4 ==> #[trigger] spec_px_value(
                        pixels@,
                        pw as int,
                        x0,
                        y as int,
                        c0,
                    ) == spec_intensity(spec_sample(gg, pw as int, ph as int, x0, y as int)),
            decreases pw - x,
        {
            proof {
                assert((x as int) * (bw as int) <= 0xFFFE_0001 * 0xFFFF) by (nonlinear_arith)
                    requires
                        0 <= x as int <= 0xFFFE_0001,
                        0 <= bw as int <= 0xFFFF,
                ;
                assert((x as int) * (bw as int) < (pw as int) * (bw as int)) by {
                    lemma_mul_strict_inequality(x as int, pw as int, bw as int);
                }
                assert((x as int) * (bw as int) / (pw as int) < bw as int) by {
                    lemma_multiply_divide_lt((x as int) * (bw as int), pw as int, bw as int);
                }
            }
            let sx = (x as u64 * bw as u64 / pw as u64) as u32;
            proof {
                assert(row_base + sx < bw * bh <= 0xFFFF_FFFF) by (nonlinear_arith)
                    requires
                        row_base == (sy as int) * (bw as int),
                        sy < bh,
                        sx < bw,
                        0 < bw <= 0xFFFF,
                        0 < bh <= 0xFFFF,
                ;
            }
            let cov = g.coverage[(row_base + sx) as usize];
            let inten = ((cov as u32 * 255 + 128) / 256) as u8;
            proof {
                lemma_intensity_range(cov as int);
                assert(4 * (y as int) * (pw as int) + 4 * (x as int) + 4 <= 4 * (pw as int) * (
                ph as int)) by (nonlinear_arith)
                    requires
                        0 <= y < ph,
                        0 <= x < pw,
                ;
            }
            let ghost before = pixels@;
            pixels.push(inten);
            pixels.push(inten);
            pixels.push(inten);
            pixels.push(inten);
            proof {
                let pwi = pw as int;
                let phi = ph as int;
                assert forall|x0: int, y0: int, c0: int|
                    0 <= x0 < pwi && 0 <= y0 < y && 0 <= c0 < 4 implies #[trigger] spec_px_value(
                    pixels@,
                    pwi,
                    x0,
                    y0,
                    c0,
                ) == spec_intensity(spec_sample(gg, pwi, phi, x0, y0)) by {
                    assert(4 * (y0 * pwi + x0) + c0 < 4 * (y as int) * pwi) by (nonlinear_arith)
                        requires
                            0 <= x0 < pwi,
                            0 <= y0 < y,
                            0 <= c0 < 4,
                    ;
                    assert(4 * (y0 * pwi + x0) + c0 < before.len());
                    assert(pixels@[4 * (y0 * pwi + x0) + c0] == before[4 * (y0 * pwi + x0) + c0]);
                    assert(spec_px_value(before, pwi, x0, y0, c0) == spec_intensity(
                        spec_sample(gg, pwi, phi, x0, y0),
                    ));
                }
                assert forall|x0: int, c0: int| 0 <= x0 < x + 1 && 0 <= c0 < 4 implies #[trigger] spec_px_value(
                    pixels@,
                    pwi,
                    x0,
                    y as int,
                    c0,
                ) == spec_intensity(spec_sample(gg, pwi, phi, x0, y as int)) by {
                    if x0 < x {
                        assert(4 * ((y as int) * pwi + x0) + c0 < 4 * (y as int) * pwi + 4 * (
                        x as int)) by (nonlinear_arith)
                            requires
                                0 <= x0 < x,
                                0 <= c0 < 4,
                        ;
                        assert(4 * ((y as int) * pwi + x0) + c0 < before.len());
                        assert(pixels@[4 * ((y as int) * pwi + x0) + c0] == before[4 * ((y as int)
                            * pwi + x0) + c0]);
                        assert(spec_px_value(before, pwi, x0, y as int, c0) == spec_intensity(
                            spec_sample(gg, pwi, phi, x0, y as int),
                        ));
                    } else {
                        assert(4 * ((y as int) * pwi + x0) + c0 == 4 * (y as int) * pwi + 4 * (
                        x as int) + c0) by (nonlinear_arith)
                            requires
                                x0 == x as int,
                        ;
                        assert(4 * ((y as int) * pwi + x0) + c0 == before.len() + c0);
                        assert(pixels@[before.len() + c0] == inten);
                        assert(spec_sample(gg, pwi, phi, x as int, y as int) == cov as int);
                    }
                }
            }
            x = x + 1;
        }
        proof {
            assert(4 * ((y + 1) as int) * (pw as int) == 4 * (y as int) * (pw as int) + 4 * (
            pw as int)) by (nonlinear_arith);
        }
        y = y + 1;
    }
    proof {
        assert(pixels.len() == 4 * (ph as int) * (pw as int));
        assert(4 * (ph as int) * (pw as int) == (pw as int) * (ph as int) * 4) by (nonlinear_arith);
    }
    Some(GlyphBitmap { width: pw, height: ph, pixels })
}

/// The normalized metrics of `c` at `size` in `font`: the value
/// [`metrics`] returns, as a pure function of its inputs.
pub open spec fn spec_metrics(font: Font, size: u16, c: char) -> GlyphMetrics {
    if spec_has_ink(font, c) && spec_has_ink(font, REFERENCE_CHAR) {
        let g = match spec_find_glyph(font, c) {
            Some(g) => g,
            None => arbitrary(),
        };
        GlyphMetrics {
            width: Frac {
                num: spec_px_w(font, size, c) as i64,
                den: spec_px_w(font, size, REFERENCE_CHAR) as u64,
            },
            height: Frac {
                num: spec_px_h(font, size, c) as i64,
                den: spec_px_h(font, size, REFERENCE_CHAR) as u64,
            },
            x_offset: Frac { num: g.x_off as i64, den: font.units_per_em as u64 },
            y_offset: Frac { num: g.y_off as i64, den: font.units_per_em as u64 },
            x_advance: Frac { num: g.advance as i64, den: font.units_per_em as u64 },
        }
    } else {
        spec_default_metrics()
    }
}

/// Glyph metrics for `c` at `size`, computed without rasterizing.
///
/// `width` and `height` are the glyph's pixel bounding box over the
/// reference character's; offsets and advance are fractions of the em box.
/// When either box is empty the fixed fallback metrics come back instead:
/// a degraded but valid value, not an error.
pub fn metrics(font: &Font, size: u16, c: char) -> (m: GlyphMetrics)
    requires
        font.wf(),
        size > 0,
    ensures
        m == spec_metrics(*font, size, c),
        m.valid(),
{
    proof {
        lemma_metrics_valid(*font, size, c);
    }
    let g = match font.find_glyph(c) {
        Some(g) => g,
        None => {
            return default_metrics();
        },
    };
    let r = match font.find_glyph(REFERENCE_CHAR) {
        Some(r) => r,
        None => {
            return default_metrics();
        },
    };
    if g.box_w == 0 || g.box_h == 0 || r.box_w == 0 || r.box_h == 0 {
        return default_metrics();
    }
    let upem = font.units_per_em;
    proof {
        lemma_px_dim_bounds_u16(g.box_w, size, upem);
        lemma_px_dim_bounds_u16(g.box_h, size, upem);
        lemma_px_dim_bounds_u16(r.box_w, size, upem);
        lemma_px_dim_bounds_u16(r.box_h, size, upem);
    }
    let ref_w = px_dim(r.box_w, size, upem);
    let ref_h = px_dim(r.box_h, size, upem);
    GlyphMetrics {
        width: Frac::new(px_dim(g.box_w, size, upem) as i64, ref_w as u64),
        height: Frac::new(px_dim(g.box_h, size, upem) as i64, ref_h as u64),
        x_offset: Frac::new(g.x_off as i64, upem as u64),
        y_offset: Frac::new(g.y_off as i64, upem as u64),
        x_advance: Frac::new(g.advance as i64, upem as u64),
    }
}

/// The fixed fallback metrics, as an executable value.
pub fn default_metrics() -> (m: GlyphMetrics)
    ensures
        m == spec_default_metrics(),
{
    GlyphMetrics {
        width: Frac::new(1, 1),
        height: Frac::new(1, 1),
        x_offset: Frac::new(0, 1),
        y_offset: Frac::new(1, 1),
        x_advance: Frac::new(1, 1),
    }
}

/// Pairwise kerning between consecutive characters `a` and `b` at the
/// style's size. Policy: exact pair kerning is not computed; the
/// adjustment is always zero, an accepted approximation the layout
/// self-corrects around since every frame is redrawn.
#[allow(unused_variables)]
pub fn kerning(font: &Font, size: u16, a: char, b: char) -> (r: Frac)
    requires
        font.wf(),
        size > 0,
    ensures
        r.num == 0,
        r.den == 1,
        r.valid(),
{
    Frac::zero()
}

/// Metrics are always a valid, non-negative-dimensioned value, for every
/// font, size and character — also when the glyph or the reference
/// character has no visible ink and the fallback is reported.
pub proof fn lemma_metrics_valid(font: Font, size: u16, c: char)
    requires
        font.wf(),
        size > 0,
    ensures
        spec_metrics(font, size, c).valid(),
{
    if spec_has_ink(font, c) && spec_has_ink(font, REFERENCE_CHAR) {
        let g = spec_find_glyph(font, c).unwrap();
        let r = spec_find_glyph(font, REFERENCE_CHAR).unwrap();
        lemma_px_dim_bounds_u16(g.box_w, size, font.units_per_em);
        lemma_px_dim_bounds_u16(g.box_h, size, font.units_per_em);
        lemma_px_dim_bounds_u16(r.box_w, size, font.units_per_em);
        lemma_px_dim_bounds_u16(r.box_h, size, font.units_per_em);
    }
}

/// The reference character's own normalized width and height denote
/// exactly one, at every size: the metrics are normalized against its very
/// box. This also holds of the fallback value, so it needs no ink
/// assumption.
pub proof fn lemma_reference_metrics_unit(font: Font, size: u16)
    requires
        font.wf(),
        size > 0,
    ensures
        spec_metrics(font, size, REFERENCE_CHAR).width.is_one(),
        spec_metrics(font, size, REFERENCE_CHAR).height.is_one(),
        spec_metrics(font, size, REFERENCE_CHAR).width.same_value(Frac { num: 1, den: 1 }),
        spec_metrics(font, size, REFERENCE_CHAR).height.same_value(Frac { num: 1, den: 1 }),
{
    if spec_has_ink(font, REFERENCE_CHAR) {
        let r = spec_find_glyph(font, REFERENCE_CHAR).unwrap();
        lemma_px_dim_bounds_u16(r.box_w, size, font.units_per_em);
        lemma_px_dim_bounds_u16(r.box_h, size, font.units_per_em);
    }
}

/// Rasterization is deterministic: [`is_raster_of`] pins every byte, so
/// any two bitmaps that rasterize the same glyph at the same size are
/// identical, dimension for dimension and byte for byte.
pub proof fn lemma_raster_deterministic(
    b1: GlyphBitmap,
    b2: GlyphBitmap,
    g: Glyph,
    size: u16,
    upem: u16,
)
    requires
        g.box_w > 0,
        g.box_h > 0,
        size > 0,
        upem > 0,
        is_raster_of(b1, g, size, upem),
        is_raster_of(b2, g, size, upem),
    ensures
        b1.width == b2.width,
        b1.height == b2.height,
        b1.pixels@ == b2.pixels@,
{
    let pw = spec_px_dim(g.box_w as int, size as int, upem as int);
    let ph = spec_px_dim(g.box_h as int, size as int, upem as int);
    lemma_px_dim_bounds(g.box_w as int, size as int, upem as int);
    lemma_px_dim_bounds(g.box_h as int, size as int, upem as int);
    assert forall|k: int| 0 <= k < b1.pixels@.len() implies b1.pixels@[k] == b2.pixels@[k] by {
        let q = k / 4;
        let c = k % 4;
        lemma_fundamental_div_mod(k, 4);
        lemma_mod_bound(k, 4);
        lemma_div_pos_is_pos(k, 4);
        let y = q / pw;
        let x = q % pw;
        lemma_fundamental_div_mod(q, pw);
        lemma_mod_bound(q, pw);
        lemma_div_pos_is_pos(q, pw);
        assert(4 * q < 4 * (pw * ph)) by (nonlinear_arith)
            requires
                4 * q + c < pw * ph * 4,
                0 <= c,
        ;
        assert(q < pw * ph);
        assert(q < ph * pw) by (nonlinear_arith)
            requires
                q < pw * ph,
        ;
        assert(y < ph) by {
            lemma_multiply_divide_lt(q, pw, ph);
        }
        assert(q == pw * y + x);
        assert(k == 4 * (y * pw + x) + c) by (nonlinear_arith)
            requires
                k == 4 * q + c,
                q == pw * y + x,
        ;
        assert(spec_px_value(b1.pixels@, pw, x, y, c) == spec_intensity(
            spec_sample(g, pw, ph, x, y),
        ));
        assert(spec_px_value(b2.pixels@, pw, x, y, c) == spec_intensity(
            spec_sample(g, pw, ph, x, y),
        ));
    }
    assert(b1.pixels@ =~= b2.pixels@);
}

/// Glyph metrics are a pure function of font, size and character: any two
/// query results for the same inputs are identical, because the rasterizer
/// holds no state between calls.
pub proof fn lemma_metrics_idempotent(
    font: Font,
    size: u16,
    c: char,
    m1: GlyphMetrics,
    m2: GlyphMetrics,
)
    requires
        m1 == spec_metrics(font, size, c),
        m2 == spec_metrics(font, size, c),
    ensures
        m1 == m2,
{
}

} // verus!
