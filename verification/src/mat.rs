//! 4x4 matrices with a matrix-vector product.

use crate::fx::{div_trunc, fx_mul_i, in_i64, lemma_fx_mul_bound, Fx, FX_SCALE};
use crate::vec::{vec_bounded, Vec4};
use vstd::prelude::*;

verus! {

/// One matrix row (c0, c1, c2, c3).
#[derive(Clone, Copy, Debug, PartialEq, Eq, Structural)]
pub struct Row4 {
    pub c0: Fx,
    pub c1: Fx,
    pub c2: Fx,
    pub c3: Fx,
}

/// A 4x4 matrix in row-major order: `matrix * vector` takes the dot
/// product of each row with the vector.
#[derive(Clone, Copy, Debug, PartialEq, Eq, Structural)]
pub struct Mat4 {
    pub r0: Row4,
    pub r1: Row4,
    pub r2: Row4,
    pub r3: Row4,
}

/// The fixed-point dot product of a row with a vector: the sum over j of
/// row[j] * v[j].
pub open spec fn dot4_i(row: Row4, v: Vec4) -> int {
    fx_mul_i(row.c0.bits as int, v.x.bits as int) + fx_mul_i(row.c1.bits as int, v.y.bits as int)
        + fx_mul_i(row.c2.bits as int, v.z.bits as int) + fx_mul_i(
        row.c3.bits as int,
        v.w.bits as int,
    )
}

/// Whether every product and every running sum of a row dot product
/// stays within `i64`.
pub open spec fn dot4_fits(row: Row4, v: Vec4) -> bool {
    let t0 = fx_mul_i(row.c0.bits as int, v.x.bits as int);
    let t1 = fx_mul_i(row.c1.bits as int, v.y.bits as int);
    let t2 = fx_mul_i(row.c2.bits as int, v.z.bits as int);
    let t3 = fx_mul_i(row.c3.bits as int, v.w.bits as int);
    in_i64(t0) && in_i64(t1) && in_i64(t2) && in_i64(t3) && in_i64(t0 + t1) && in_i64(
        t0 + t1 + t2,
    ) && in_i64(t0 + t1 + t2 + t3)
}

/// Whether the whole matrix-vector product stays within `i64`.
pub open spec fn mul_fits(m: Mat4, v: Vec4) -> bool {
    dot4_fits(m.r0, v) && dot4_fits(m.r1, v) && dot4_fits(m.r2, v) && dot4_fits(m.r3, v)
}

/// The matrix-vector product at the specification level.
pub open spec fn mat_vec(m: Mat4, v: Vec4) -> Vec4 {
    Vec4 {
        x: Fx { bits: dot4_i(m.r0, v) as i64 },
        y: Fx { bits: dot4_i(m.r1, v) as i64 },
        z: Fx { bits: dot4_i(m.r2, v) as i64 },
        w: Fx { bits: dot4_i(m.r3, v) as i64 },
    }
}

/// Whether every entry of `row` is at most `mb` in magnitude.
pub open spec fn row_bounded(row: Row4, mb: int) -> bool {
    &&& -mb <= row.c0.bits <= mb
    &&& -mb <= row.c1.bits <= mb
    &&& -mb <= row.c2.bits <= mb
    &&& -mb <= row.c3.bits <= mb
}

/// Whether every entry of `m` is at most `mb` in magnitude.
pub open spec fn mat_bounded(m: Mat4, mb: int) -> bool {
    row_bounded(m.r0, mb) && row_bounded(m.r1, mb) && row_bounded(m.r2, mb) && row_bounded(
        m.r3,
        mb,
    )
}

/// A row dot product of entries bounded by `mb` with a vector bounded by
/// `vb` fits in `i64` whenever four times the rescaled bound product
/// does, and the result is bounded accordingly.
pub proof fn lemma_dot4_fits(row: Row4, v: Vec4, mb: int, vb: int)
    requires
        0 <= mb,
        0 <= vb,
        row_bounded(row, mb),
        vec_bounded(v, vb),
        4 * div_trunc(mb * vb, FX_SCALE as int) <= i64::MAX,
    ensures
        dot4_fits(row, v),
        -4 * div_trunc(mb * vb, FX_SCALE as int) <= dot4_i(row, v) <= 4 * div_trunc(
            mb * vb,
            FX_SCALE as int,
        ),
{
    lemma_fx_mul_bound(row.c0.bits as int, v.x.bits as int, mb, vb);
    lemma_fx_mul_bound(row.c1.bits as int, v.y.bits as int, mb, vb);
    lemma_fx_mul_bound(row.c2.bits as int, v.z.bits as int, mb, vb);
    lemma_fx_mul_bound(row.c3.bits as int, v.w.bits as int, mb, vb);
}

/// The matrix-vector analogue of `lemma_dot4_fits`: the product is
/// defined and each component of the result is bounded.
pub proof fn lemma_mul_fits(m: Mat4, v: Vec4, mb: int, vb: int)
    requires
        0 <= mb,
        0 <= vb,
        mat_bounded(m, mb),
        vec_bounded(v, vb),
        4 * div_trunc(mb * vb, FX_SCALE as int) <= i64::MAX,
    ensures
        mul_fits(m, v),
        vec_bounded(mat_vec(m, v), 4 * div_trunc(mb * vb, FX_SCALE as int)),
{
    lemma_dot4_fits(m.r0, v, mb, vb);
    lemma_dot4_fits(m.r1, v, mb, vb);
    lemma_dot4_fits(m.r2, v, mb, vb);
    lemma_dot4_fits(m.r3, v, mb, vb);
}

/// The fixed-point dot product of one row with a vector.
fn dot4(row: &Row4, v: &Vec4) -> (r: Fx)
    requires
        dot4_fits(*row, *v),
    ensures
        r.bits == dot4_i(*row, *v),
{
    let t0 = row.c0.mul(v.x);
    let t1 = row.c1.mul(v.y);
    let t2 = row.c2.mul(v.z);
    let t3 = row.c3.mul(v.w);
    t0.add(t1).add(t2).add(t3)
}

impl Mat4 {
    /// The matrix-vector product: component i of the result is the sum
    /// over j of `self[i][j] * rhs[j]` in fixed-point arithmetic.
    pub fn mul(&self, rhs: &Vec4) -> (r: Vec4)
        requires
            mul_fits(*self, *rhs),
        ensures
            r == mat_vec(*self, *rhs),
    {
        Vec4::new(
            dot4(&self.r0, rhs),
            dot4(&self.r1, rhs),
            dot4(&self.r2, rhs),
            dot4(&self.r3, rhs),
        )
    }
}

} // verus!
