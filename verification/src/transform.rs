//! World transforms for 2D entities.
//!
//! The host scene authors translation, rotation and non-uniform scale; by
//! the time a transform reaches the render core it has been flattened into a
//! 2x2 linear part plus a translation, all in fixed point. The `z` of the
//! translation orders entities for depth-sorted compositing.

use vstd::prelude::*;

use crate::fixed::COORD_BOUND;
use crate::fixed::fp_mul;
use crate::fixed::fp_mul_spec;

verus! {

/// A 2D point in fixed-point coordinates.
#[derive(Clone, Copy, Debug, PartialEq, Eq, Structural)]
pub struct Vec2Fp {
    pub x: i64,
    pub y: i64,
}

/// A world-space position with a depth coordinate.
#[derive(Clone, Copy, Debug, PartialEq, Eq, Structural)]
pub struct Vec3Fp {
    pub x: i64,
    pub y: i64,
    pub z: i64,
}

/// An affine 2D world transform with a depth coordinate.
///
/// The linear part is row-major: a local point `(x, y)` maps to
/// `(m00*x + m01*y + tx, m10*x + m11*y + ty)`.
#[derive(Clone, Copy, Debug, PartialEq, Eq, Structural)]
pub struct Transform2d {
    pub m00: i64,
    pub m01: i64,
    pub m10: i64,
    pub m11: i64,
    pub tx: i64,
    pub ty: i64,
    pub tz: i64,
}

impl Transform2d {
    /// Entries small enough that transforming a bounded point stays exact
    /// within `i64`.
    pub open spec fn bounded(self) -> bool {
        &&& -COORD_BOUND <= self.m00 <= COORD_BOUND
        &&& -COORD_BOUND <= self.m01 <= COORD_BOUND
        &&& -COORD_BOUND <= self.m10 <= COORD_BOUND
        &&& -COORD_BOUND <= self.m11 <= COORD_BOUND
        &&& -COORD_BOUND <= self.tx <= COORD_BOUND
        &&& -COORD_BOUND <= self.ty <= COORD_BOUND
        &&& -COORD_BOUND <= self.tz <= COORD_BOUND
    }

    /// The image of a local point under the transform, as stated above.
    pub open spec fn apply_spec(self, x: int, y: int) -> (int, int) {
        (
            fp_mul_spec(self.m00 as int, x) + fp_mul_spec(self.m01 as int, y) + self.tx,
            fp_mul_spec(self.m10 as int, x) + fp_mul_spec(self.m11 as int, y) + self.ty,
        )
    }

    /// Transforms a local point to world space, exactly as `apply_spec`
    /// states.
    pub fn apply(&self, x: i64, y: i64) -> (p: (i64, i64))
        requires
            self.bounded(),
            -COORD_BOUND <= x <= COORD_BOUND,
            -COORD_BOUND <= y <= COORD_BOUND,
        ensures
            (p.0 as int, p.1 as int) == self.apply_spec(x as int, y as int),
    {
        let px: i64 = fp_mul(self.m00, x) + fp_mul(self.m01, y) + self.tx;
        let py: i64 = fp_mul(self.m10, x) + fp_mul(self.m11, y) + self.ty;
        (px, py)
    }
}

} // verus!
