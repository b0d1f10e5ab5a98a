//! The frame: one render target per display refresh.
//!
//! A [`Frame`] is the append-only log of GPU work for one refresh cycle:
//! the glyph textures uploaded during the frame and the textured triangles
//! drawn into it, in issue order. The shell that owns the real device
//! acquires a frame, lets the backend append to it, and presents it exactly
//! once by consuming it into a [`PresentedFrame`] — the move makes a second
//! present unrepresentable. A partially drawn frame is presented as-is;
//! there is no rollback of a frame's contents.

use vstd::prelude::*;

use crate::raster::GlyphBitmap;
use crate::transform::Transform;

verus! {

/// A texture coordinate pair, fixed-point: [`crate::transform::FX_ONE`]
/// stands for 1.0.
#[derive(Clone, Copy)]
pub struct Uv {
    pub u: i64,
    pub v: i64,
}

/// One triangle vertex: a clip-space position and a texture coordinate,
/// both fixed-point.
#[derive(Clone, Copy)]
pub struct Vertex {
    pub x: i64,
    pub y: i64,
    pub u: i64,
    pub v: i64,
}

/// How a draw call composites over what the frame already holds. UI
/// elements overlap, so the backend always draws with [`Blend::Alpha`]
/// (source-over); drawing opaque is represented but never issued.
#[derive(Clone, Copy)]
pub enum Blend {
    Opaque,
    Alpha,
}

/// One GPU draw command: a single textured triangle under a transform.
#[derive(Clone, Copy)]
pub struct TriangleCmd {
    /// Handle of the texture sampled by the triangle.
    pub texture: u64,
    pub transform: Transform,
    pub a: Vertex,
    pub b: Vertex,
    pub c: Vertex,
    pub blend: Blend,
}

/// A glyph bitmap uploaded during the frame, with the handle the draw
/// commands refer to it by. Glyph textures live for one frame only.
pub struct GlyphTexture {
    pub handle: u64,
    pub bitmap: GlyphBitmap,
}

/// The mutable render target of one refresh cycle.
pub struct Frame {
    /// Glyph textures uploaded this frame, in upload order.
    pub glyph_textures: Vec<GlyphTexture>,
    /// Triangles drawn this frame, in issue order.
    pub triangles: Vec<TriangleCmd>,
}

/// A finished frame: the complete, immutable command log handed to the
/// device. Produced by [`Frame::present`] and by nothing else.
pub struct PresentedFrame {
    pub glyph_textures: Vec<GlyphTexture>,
    pub triangles: Vec<TriangleCmd>,
}

impl Frame {
    /// Acquire the render target for a new refresh cycle: an empty log.
    pub fn begin() -> (r: Frame)
        ensures
            r.glyph_textures@ == Seq::<GlyphTexture>::empty(),
            r.triangles@ == Seq::<TriangleCmd>::empty(),
    {
        Frame { glyph_textures: Vec::new(), triangles: Vec::new() }
    }

    /// Present the frame: consume it, exactly once, whatever was or was
    /// not drawn into it. The commands come out unchanged and in order.
    pub fn present(self) -> (r: PresentedFrame)
        ensures
            r.glyph_textures@ == self.glyph_textures@,
            r.triangles@ == self.triangles@,
    {
        PresentedFrame { glyph_textures: self.glyph_textures, triangles: self.triangles }
    }
}

} // verus!
