//! 2D transforms in fixed-point form.
//!
//! A transform is the 4x4 matrix a draw call hands to the vertex stage; it
//! maps the canonical unit square `[-1, 1]^2` into clip space. Coordinates
//! are exact fixed-point values: [`FX_ONE`] stands for 1.0. Entries are kept
//! inside [`FX_LIMIT`] so that composing a flip or deriving a vertex never
//! overflows the machine integer.

use vstd::prelude::*;

verus! {

/// The fixed-point unit: this value stands for 1.0.
pub const FX_ONE: i64 = 65536;

/// Magnitude bound on every fixed-point coordinate and matrix entry the
/// library accepts; far beyond any UI geometry, and small enough that
/// negation and doubling stay inside `i64`.
pub const FX_LIMIT: i64 = 0x100_0000_0000;

/// A fixed-point value the library accepts as a coordinate or entry.
pub open spec fn fx_in_range(x: i64) -> bool {
    -FX_LIMIT <= x <= FX_LIMIT
}

/// A transform matrix, row-major, fixed-point entries.
#[derive(Clone, Copy)]
pub struct Transform {
    pub m: [[i64; 4]; 4],
}

impl Transform {
    /// All entries in range: what every draw call requires of a transform.
    pub open spec fn wf(self) -> bool {
        forall|i: int, j: int| 0 <= i < 4 && 0 <= j < 4 ==> fx_in_range(#[trigger] self.m[i][j])
    }

    /// The identity transform.
    pub fn identity() -> (r: Transform)
        ensures
            r.wf(),
            forall|i: int, j: int|
                0 <= i < 4 && 0 <= j < 4 ==> #[trigger] r.m[i][j] == if i == j {
                    FX_ONE as int
                } else {
                    0
                },
    {
        let m = [
            [FX_ONE, 0i64, 0i64, 0i64],
            [0i64, FX_ONE, 0i64, 0i64],
            [0i64, 0i64, FX_ONE, 0i64],
            [0i64, 0i64, 0i64, FX_ONE],
        ];
        Transform { m }
    }
}

/// `f` is `t` with its vertical axis inverted: the second row negated,
/// every other entry kept. Pre-multiplying by this flip reconciles the
/// glyph rasterizer's downward y axis with the triangle rasterizer's
/// upward one.
pub open spec fn is_y_flip_of(f: Transform, t: Transform) -> bool {
    forall|j: int|
        0 <= j < 4 ==> {
            &&& #[trigger] f.m[0][j] == t.m[0][j]
            &&& f.m[1][j] == -t.m[1][j]
            &&& f.m[2][j] == t.m[2][j]
            &&& f.m[3][j] == t.m[3][j]
        }
}

/// Invert the vertical axis of `t`: negate its second row.
pub fn flip_y(t: &Transform) -> (r: Transform)
    requires
        t.wf(),
    ensures
        r.wf(),
        is_y_flip_of(r, *t),
{
    let m = [
        t.m[0],
        [-t.m[1][0], -t.m[1][1], -t.m[1][2], -t.m[1][3]],
        t.m[2],
        t.m[3],
    ];
    Transform { m }
}

} // verus!
