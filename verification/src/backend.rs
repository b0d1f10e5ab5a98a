//! The draw backend: the capability set a layout engine depends on.
//!
//! One [`Backend`] value implements the whole contract — draw a textured
//! triangle under a transform, report an image's aspect ratio, rasterize
//! and draw a glyph, report line height, kerning and glyph metrics. Every
//! operation appends to the [`Frame`] the caller passes in; the backend
//! itself only allocates texture handles. Triangle vertices are derived
//! from the texture coordinates by mapping the unit UV square onto the
//! canonical quad `[-1, 1]^2`, so a pair of triangles over the four quad
//! corners covers the quad exactly.

use vstd::prelude::*;

use crate::font::{spec_find_glyph, Font, TextStyle};
use crate::frac::Frac;
use crate::frame::{Blend, Frame, GlyphTexture, TriangleCmd, Uv, Vertex};
use crate::raster::{
    is_raster_of, metrics, px_dim, rasterize, spec_bitmap_fits, spec_has_ink, spec_metrics,
    GlyphMetrics,
};
use crate::transform::{flip_y, fx_in_range, is_y_flip_of, Transform, FX_ONE};

verus! {

/// An opaque GPU texture handle together with its pixel dimensions. The
/// handle is minted by the backend; the pixel data lives wherever the
/// uploader keeps it.
#[derive(Clone, Copy)]
pub struct ImageResource {
    pub handle: u64,
    pub width: u32,
    pub height: u32,
}

/// The vertex a texture coordinate is pinned to: the UV square `[0, 1]^2`
/// mapped affinely onto the canonical quad `[-1, 1]^2`.
pub open spec fn spec_uv_vertex(uv: Uv) -> Vertex {
    Vertex {
        x: (2 * uv.u - FX_ONE) as i64,
        y: (2 * uv.v - FX_ONE) as i64,
        u: uv.u,
        v: uv.v,
    }
}

/// The triangle a single [`Backend::draw_triangle`] call appends for the
/// given texture, transform and texture coordinates.
pub open spec fn spec_triangle_cmd(texture: u64, t: Transform, uvs: [Uv; 3]) -> TriangleCmd {
    TriangleCmd {
        texture,
        transform: t,
        a: spec_uv_vertex(uvs[0]),
        b: spec_uv_vertex(uvs[1]),
        c: spec_uv_vertex(uvs[2]),
        blend: Blend::Alpha,
    }
}

/// What one glyph draw does to the backend `b0 -> b1` and the frame
/// `f0 -> f1`. Without visible ink, nothing. With ink: one fresh glyph
/// texture holding the rasterization of the glyph, and two alpha-blended
/// triangles over the full bitmap — the unit quad split along its
/// diagonal — under the transform with its vertical axis inverted.
/// Everything already in the frame stays, in order.
pub open spec fn spec_glyph_draw_effect(
    b0: Backend,
    b1: Backend,
    f0: Frame,
    f1: Frame,
    font: Font,
    size: u16,
    c: char,
    t: Transform,
) -> bool {
    if !spec_has_ink(font, c) {
        &&& b1.next_handle == b0.next_handle
        &&& f1.glyph_textures@ == f0.glyph_textures@
        &&& f1.triangles@ == f0.triangles@
    } else {
        let h = b0.next_handle;
        let n = f0.triangles@.len() as int;
        let t1 = f1.triangles@[n];
        let t2 = f1.triangles@[n + 1];
        &&& b1.next_handle == h + 1
        &&& f1.glyph_textures@.len() == f0.glyph_textures@.len() + 1
        &&& f1.glyph_textures@.subrange(0, f0.glyph_textures@.len() as int)
            == f0.glyph_textures@
        &&& f1.glyph_textures@.last().handle == h
        &&& (spec_find_glyph(font, c) matches Some(g) && is_raster_of(
            f1.glyph_textures@.last().bitmap,
            g,
            size,
            font.units_per_em,
        ))
        &&& f1.triangles@.len() == n + 2
        &&& f1.triangles@.subrange(0, n) == f0.triangles@
        &&& is_y_flip_of(t1.transform, t)
        &&& t2.transform == t1.transform
        &&& t1 == spec_triangle_cmd(
            h,
            t1.transform,
            [Uv { u: 0, v: 0 }, Uv { u: 0, v: FX_ONE }, Uv { u: FX_ONE, v: 0 }],
        )
        &&& t2 == spec_triangle_cmd(
            h,
            t2.transform,
            [Uv { u: 0, v: FX_ONE }, Uv { u: FX_ONE, v: 0 }, Uv { u: FX_ONE, v: FX_ONE }],
        )
    }
}

/// The rendering backend. Holds nothing but the texture handle allocator:
/// every draw operation is stateless given its inputs and the frame.
pub struct Backend {
    /// The next fresh texture handle.
    pub next_handle: u64,
}

impl Backend {
    pub fn new() -> (r: Backend)
        ensures
            r.next_handle == 0,
    {
        Backend { next_handle: 0 }
    }

    /// Mint an image resource for pixel data some collaborator uploaded:
    /// a fresh handle with the image's dimensions.
    pub fn register_image(&mut self, width: u32, height: u32) -> (r: ImageResource)
        requires
            old(self).next_handle < u64::MAX,
        ensures
            r.handle == old(self).next_handle,
            r.width == width,
            r.height == height,
            final(self).next_handle == old(self).next_handle + 1,
    {
        let handle = self.next_handle;
        self.next_handle = self.next_handle + 1;
        ImageResource { handle, width, height }
    }

    /// The image's aspect ratio, exactly: `width / height`.
    ///
    /// A zero image height is a fatal configuration error — layout cannot
    /// proceed without the ratio — so the caller must rule it out before
    /// asking.
    pub fn image_aspect_ratio(&self, image: &ImageResource) -> (r: Frac)
        requires
            image.height > 0,
        ensures
            r.num == image.width,
            r.den == image.height,
            r.valid(),
    {
        Frac::new(image.width as i64, image.height as u64)
    }

    /// Append one textured triangle to the frame.
    ///
    /// The triangle's vertices are the three texture coordinates mapped
    /// onto the canonical quad; it is composited source-over, so
    /// overlapping UI elements blend correctly. Nothing else in the frame
    /// or the backend changes.
    pub fn draw_triangle(
        &self,
        frame: &mut Frame,
        image: &ImageResource,
        t: &Transform,
        uvs: [Uv; 3],
    )
        requires
            t.wf(),
            fx_in_range(uvs[0].u) && fx_in_range(uvs[0].v),
            fx_in_range(uvs[1].u) && fx_in_range(uvs[1].v),
            fx_in_range(uvs[2].u) && fx_in_range(uvs[2].v),
        ensures
            final(frame).triangles@ == old(frame).triangles@.push(
                spec_triangle_cmd(image.handle, *t, uvs),
            ),
            final(frame).glyph_textures@ == old(frame).glyph_textures@,
    {
        let a = uv_vertex(uvs[0]);
        let b = uv_vertex(uvs[1]);
        let c = uv_vertex(uvs[2]);
        frame.triangles.push(
            TriangleCmd {
                texture: image.handle,
                transform: *t,
                a,
                b,
                c,
                blend: Blend::Alpha,
            },
        );
    }

    /// The line height for a style: the fixed multiplier 6/5 of the em
    /// size, in pixels. A documented simplification — the value is not
    /// derived from font metrics.
    pub fn line_height(&self, style: &TextStyle) -> (r: Frac)
        requires
            style.wf(),
        ensures
            r.num == 6 * style.size,
            r.den == 5,
            r.valid(),
    {
        Frac::new(6 * style.size as i64, 5)
    }

    /// Normalized glyph metrics for `c` in the style: delegates to the
    /// rasterizer's metrics, which are size-independent ratios already.
    pub fn glyph_metrics(&self, style: &TextStyle, c: char) -> (m: GlyphMetrics)
        requires
            style.wf(),
        ensures
            m == spec_metrics(*style.font, style.size, c),
            m.valid(),
    {
        metrics(style.font, style.size, c)
    }

    /// Kerning between `a` and `b` in the style, in size-scaled units.
    /// Delegates the always-zero policy of [`crate::raster::kerning`].
    pub fn kerning(&self, style: &TextStyle, a: char, b: char) -> (r: Frac)
        requires
            style.wf(),
        ensures
            r.num == 0,
            r.den == 1,
            r.valid(),
    {
        crate::raster::kerning(style.font, style.size, a, b)
    }

    /// Rasterize `c` in the style and draw it under `t`.
    ///
    /// Without visible ink this is a no-op: no texture is allocated and no
    /// command is appended. With ink, the glyph bitmap is uploaded under a
    /// fresh handle and the quad is drawn as two triangles over the full
    /// bitmap, with the transform's vertical axis inverted: the glyph
    /// rasterizer and the triangle rasterizer disagree on the direction of
    /// y, and this composition step is where the library reconciles them.
    pub fn draw_glyph(&mut self, frame: &mut Frame, style: &TextStyle, c: char, t: &Transform)
        requires
            style.wf(),
            t.wf(),
            spec_has_ink(*style.font, c) ==> old(self).next_handle < u64::MAX && spec_bitmap_fits(
                *style.font,
                style.size,
                c,
            ),
        ensures
            spec_glyph_draw_effect(
                *old(self),
                *final(self),
                *old(frame),
                *final(frame),
                *style.font,
                style.size,
                c,
                *t,
            ),
    {
        let bitmap = match rasterize(style.font, style.size, c) {
            Some(bm) => bm,
            None => {
                return ;
            },
        };
        let width = bitmap.width;
        let height = bitmap.height;
        let image = self.register_image(width, height);
        frame.glyph_textures.push(GlyphTexture { handle: image.handle, bitmap });
        let flipped = flip_y(t);
        self.draw_triangle(
            frame,
            &image,
            &flipped,
            [Uv { u: 0, v: 0 }, Uv { u: 0, v: FX_ONE }, Uv { u: FX_ONE, v: 0 }],
        );
        self.draw_triangle(
            frame,
            &image,
            &flipped,
            [Uv { u: 0, v: FX_ONE }, Uv { u: FX_ONE, v: 0 }, Uv { u: FX_ONE, v: FX_ONE }],
        );
        proof {
            assert(frame.glyph_textures@.subrange(
                0,
                old(frame).glyph_textures@.len() as int,
            ) =~= old(frame).glyph_textures@);
            assert(frame.triangles@.subrange(0, old(frame).triangles@.len() as int) =~= old(
                frame,
            ).triangles@);
        }
    }

    /// [`Self::draw_glyph`] behind its machine-limit guards: draw the
    /// glyph unless a texture handle cannot be minted or its bitmap would
    /// not fit in memory. Returns whether the draw took place (a draw of a
    /// glyph without ink is a successful no-op); on `false`, nothing
    /// changed.
    pub fn try_draw_glyph(
        &mut self,
        frame: &mut Frame,
        style: &TextStyle,
        c: char,
        t: &Transform,
    ) -> (r: bool)
        requires
            style.wf(),
            t.wf(),
        ensures
            r == (spec_has_ink(*style.font, c) ==> old(self).next_handle < u64::MAX
                && spec_bitmap_fits(*style.font, style.size, c)),
            r ==> spec_glyph_draw_effect(
                *old(self),
                *final(self),
                *old(frame),
                *final(frame),
                *style.font,
                style.size,
                c,
                *t,
            ),
            !r ==> {
                &&& final(self).next_handle == old(self).next_handle
                &&& final(frame).glyph_textures@ == old(frame).glyph_textures@
                &&& final(frame).triangles@ == old(frame).triangles@
            },
    {
        let g = match style.font.find_glyph(c) {
            Some(g) => g,
            None => {
                self.draw_glyph(frame, style, c, t);
                return true;
            },
        };
        if g.box_w == 0 || g.box_h == 0 {
            self.draw_glyph(frame, style, c, t);
            return true;
        }
        if self.next_handle == u64::MAX {
            return false;
        }
        let upem = style.font.units_per_em;
        proof {
            crate::raster::lemma_px_dim_bounds_u16(g.box_w, style.size, upem);
            crate::raster::lemma_px_dim_bounds_u16(g.box_h, style.size, upem);
        }
        let pw = px_dim(g.box_w, style.size, upem);
        let ph = px_dim(g.box_h, style.size, upem);
        proof {
            assert(4 * (pw as int) * (ph as int) <= 0x4_0000_0000_0000_0000) by (nonlinear_arith)
                requires
                    0 <= pw as int <= 0xFFFE_0001,
                    0 <= ph as int <= 0xFFFE_0001,
            ;
        }
        if 4u128 * pw as u128 * ph as u128 > usize::MAX as u128 {
            return false;
        }
        self.draw_glyph(frame, style, c, t);
        true
    }
}

/// Map one texture coordinate onto the canonical quad.
fn uv_vertex(uv: Uv) -> (r: Vertex)
    requires
        fx_in_range(uv.u),
        fx_in_range(uv.v),
    ensures
        r == spec_uv_vertex(uv),
{
    Vertex { x: 2 * uv.u - FX_ONE, y: 2 * uv.v - FX_ONE, u: uv.u, v: uv.v }
}

/// The signed area test for one directed edge `(a, b)` against point `p`,
/// doubled: positive when `p` lies left of the edge, negative when right.
pub open spec fn spec_edge(ax: int, ay: int, bx: int, by: int, px: int, py: int) -> int {
    (bx - ax) * (py - ay) - (by - ay) * (px - ax)
}

/// Whether the triangle `(a, b, c)` contains the point `p`, boundary
/// included: all three edge tests agree in sign, in either orientation.
pub open spec fn spec_tri_contains(a: Vertex, b: Vertex, c: Vertex, px: int, py: int) -> bool {
    let e0 = spec_edge(a.x as int, a.y as int, b.x as int, b.y as int, px, py);
    let e1 = spec_edge(b.x as int, b.y as int, c.x as int, c.y as int, px, py);
    let e2 = spec_edge(c.x as int, c.y as int, a.x as int, a.y as int, px, py);
    (e0 >= 0 && e1 >= 0 && e2 >= 0) || (e0 <= 0 && e1 <= 0 && e2 <= 0)
}

/// The two triangles drawn over the unit quad UV corners cover the
/// canonical quad `[-1, 1]^2` exactly: a point lies in the quad if and
/// only if one of the two triangles contains it. These are the very
/// triangles [`Backend::draw_glyph`] issues.
pub proof fn lemma_unit_quad_coverage(px: int, py: int)
    ensures
        (-FX_ONE <= px <= FX_ONE && -FX_ONE <= py <= FX_ONE) <==> {
            let v00 = spec_uv_vertex(Uv { u: 0, v: 0 });
            let v01 = spec_uv_vertex(Uv { u: 0, v: FX_ONE });
            let v10 = spec_uv_vertex(Uv { u: FX_ONE, v: 0 });
            let v11 = spec_uv_vertex(Uv { u: FX_ONE, v: FX_ONE });
            spec_tri_contains(v00, v01, v10, px, py) || spec_tri_contains(v01, v10, v11, px, py)
        },
{
    let v00 = spec_uv_vertex(Uv { u: 0, v: 0 });
    let v01 = spec_uv_vertex(Uv { u: 0, v: FX_ONE });
    let v10 = spec_uv_vertex(Uv { u: FX_ONE, v: 0 });
    let v11 = spec_uv_vertex(Uv { u: FX_ONE, v: FX_ONE });
    assert(v00.x == -65536 && v00.y == -65536);
    assert(v01.x == -65536 && v01.y == 65536);
    assert(v10.x == 65536 && v10.y == -65536);
    assert(v11.x == 65536 && v11.y == 65536);
    assert(spec_edge(-65536, -65536, -65536, 65536, px, py) == -131072 * (px + 65536));
    assert(spec_edge(-65536, 65536, 65536, -65536, px, py) == 131072 * (py - 65536) + 131072 * (px
        + 65536));
    assert(spec_edge(65536, -65536, -65536, -65536, px, py) == -131072 * (py + 65536));
    assert(spec_edge(65536, -65536, 65536, 65536, px, py) == -131072 * (px - 65536));
    assert(spec_edge(65536, 65536, -65536, 65536, px, py) == -131072 * (py - 65536));
    assert(spec_tri_contains(v00, v01, v10, px, py) <==> (px >= -65536 && py >= -65536 && px + py
        <= 0));
    assert(spec_tri_contains(v01, v10, v11, px, py) <==> (px <= 65536 && py <= 65536 && px + py
        >= 0));
}

/// The same coverage, stated over the two commands a glyph draw issues:
/// whatever the texture and transform, a point lies in the canonical quad
/// exactly when one of the glyph's two triangles contains it.
pub proof fn lemma_glyph_triangles_cover_quad(
    t1: TriangleCmd,
    t2: TriangleCmd,
    texture: u64,
    t: Transform,
    px: int,
    py: int,
)
    requires
        t1 == spec_triangle_cmd(
            texture,
            t,
            [Uv { u: 0, v: 0 }, Uv { u: 0, v: FX_ONE }, Uv { u: FX_ONE, v: 0 }],
        ),
        t2 == spec_triangle_cmd(
            texture,
            t,
            [Uv { u: 0, v: FX_ONE }, Uv { u: FX_ONE, v: 0 }, Uv { u: FX_ONE, v: FX_ONE }],
        ),
    ensures
        (-FX_ONE <= px <= FX_ONE && -FX_ONE <= py <= FX_ONE) <==> (spec_tri_contains(
            t1.a,
            t1.b,
            t1.c,
            px,
            py,
        ) || spec_tri_contains(t2.a, t2.b, t2.c, px, py)),
{
    lemma_unit_quad_coverage(px, py);
}

} // verus!
