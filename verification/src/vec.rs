//! Immutable homogeneous four-component vectors.

use crate::fx::{Fx, FX_SCALE};
use vstd::prelude::*;

verus! {

/// A homogeneous vector (x, y, z, w).  Values are never mutated; every
/// operation returns a new vector.
#[derive(Clone, Copy, Debug, PartialEq, Eq, Structural)]
pub struct Vec4 {
    pub x: Fx,
    pub y: Fx,
    pub z: Fx,
    pub w: Fx,
}

/// Whether every component of `v` is at most `vb` in magnitude.
pub open spec fn vec_bounded(v: Vec4, vb: int) -> bool {
    &&& -vb <= v.x.bits <= vb
    &&& -vb <= v.y.bits <= vb
    &&& -vb <= v.z.bits <= vb
    &&& -vb <= v.w.bits <= vb
}

impl Vec4 {
    /// A vector from its four components.
    pub fn new(x: Fx, y: Fx, z: Fx, w: Fx) -> (r: Vec4)
        ensures
            r == (Vec4 { x, y, z, w }),
    {
        Vec4 { x, y, z, w }
    }

    /// The point (x, y, z) in homogeneous coordinates, with w = 1.
    pub fn from_point(x: i32, y: i32, z: i32) -> (r: Vec4)
        ensures
            r.x.bits == x * FX_SCALE,
            r.y.bits == y * FX_SCALE,
            r.z.bits == z * FX_SCALE,
            r.w.bits == FX_SCALE,
    {
        Vec4 {
            x: Fx::from_int(x),
            y: Fx::from_int(y),
            z: Fx::from_int(z),
            w: Fx::one(),
        }
    }
}

} // verus!
