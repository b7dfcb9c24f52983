//! Pure factories for the matrices of the projection pipeline: axis
//! rotations, translation, and the perspective projection.
//!
//! Angles do not appear here: because the scalars are fixed-point, a
//! rotation factory takes the angle's cosine and sine, and the
//! perspective factory takes the precomputed focal term `1 / tan(fov/2)`.
//! The caller obtains those values from the host's floating-point
//! library and quantizes them.

use crate::fx::{
    fx_div_i, fx_mul_i, in_i64, lemma_fx_mul_error, lemma_fx_mul_one, lemma_fx_mul_zero, Fx,
    FX_SCALE,
};
use vstd::arithmetic::mul::{
    lemma_mul_cancels_negatives, lemma_mul_is_associative, lemma_mul_is_commutative,
    lemma_mul_is_distributive_add, lemma_mul_is_distributive_add_other_way,
    lemma_mul_is_distributive_sub, lemma_mul_is_distributive_sub_other_way,
    lemma_mul_unary_negation,
};
use crate::mat::{mat_bounded, mat_vec, Mat4, Row4};
use crate::vec::{vec_bounded, Vec4};
use vstd::prelude::*;

verus! {

/// The scalar zero, for matrix entries at the specification level.
pub open spec fn fx0() -> Fx {
    Fx { bits: 0 }
}

/// The scalar one, for matrix entries at the specification level.
pub open spec fn fx1() -> Fx {
    Fx { bits: FX_SCALE }
}

/// Negation at the specification level (safe for magnitude-bounded bits).
pub open spec fn fx_neg(a: Fx) -> Fx {
    Fx { bits: (-a.bits) as i64 }
}

/// The translation matrix: the identity with (x, y, z) as the fourth
/// column.
pub open spec fn translation_mat(x: Fx, y: Fx, z: Fx) -> Mat4 {
    Mat4 {
        r0: Row4 { c0: fx1(), c1: fx0(), c2: fx0(), c3: x },
        r1: Row4 { c0: fx0(), c1: fx1(), c2: fx0(), c3: y },
        r2: Row4 { c0: fx0(), c1: fx0(), c2: fx1(), c3: z },
        r3: Row4 { c0: fx0(), c1: fx0(), c2: fx0(), c3: fx1() },
    }
}

/// The first axis rotation matrix, from the cosine and sine of its angle.
pub open spec fn rotation_x_mat(c: Fx, s: Fx) -> Mat4 {
    Mat4 {
        r0: Row4 { c0: c, c1: fx0(), c2: s, c3: fx0() },
        r1: Row4 { c0: fx0(), c1: fx1(), c2: fx0(), c3: fx0() },
        r2: Row4 { c0: fx_neg(s), c1: fx0(), c2: c, c3: fx0() },
        r3: Row4 { c0: fx0(), c1: fx0(), c2: fx0(), c3: fx1() },
    }
}

/// The second axis rotation matrix, from the cosine and sine of its angle.
pub open spec fn rotation_y_mat(c: Fx, s: Fx) -> Mat4 {
    Mat4 {
        r0: Row4 { c0: fx1(), c1: fx0(), c2: fx0(), c3: fx0() },
        r1: Row4 { c0: fx0(), c1: c, c2: fx_neg(s), c3: fx0() },
        r2: Row4 { c0: fx0(), c1: s, c2: c, c3: fx0() },
        r3: Row4 { c0: fx0(), c1: fx0(), c2: fx0(), c3: fx1() },
    }
}

/// The third axis rotation matrix, from the cosine and sine of its angle.
pub open spec fn rotation_z_mat(c: Fx, s: Fx) -> Mat4 {
    Mat4 {
        r0: Row4 { c0: c, c1: fx_neg(s), c2: fx0(), c3: fx0() },
        r1: Row4 { c0: s, c1: c, c2: fx0(), c3: fx0() },
        r2: Row4 { c0: fx0(), c1: fx0(), c2: fx1(), c3: fx0() },
        r3: Row4 { c0: fx0(), c1: fx0(), c2: fx0(), c3: fx1() },
    }
}

/// The aspect entry of the perspective matrix: height / width.
pub open spec fn persp_aspect(w: int, h: int) -> int {
    fx_div_i(h, w)
}

/// The top-left perspective entry: aspect times the focal term.
pub open spec fn persp_af(w: int, h: int, f: int) -> int {
    fx_mul_i(persp_aspect(w, h), f)
}

/// The depth-remap entry q1 = zFar / (zFar - zNear).
pub open spec fn persp_q1(zn: int, zf: int) -> int {
    fx_div_i(zf, zf - zn)
}

/// The depth-remap entry q2 = (-zFar * zNear) / (zFar - zNear).
pub open spec fn persp_q2(zn: int, zf: int) -> int {
    fx_div_i(fx_mul_i(-zf, zn), zf - zn)
}

/// The perspective projection matrix.  Its fourth row is (0, 0, 1, 0),
/// so the transformed w component equals the incoming z, which enables
/// the later perspective division.
pub open spec fn perspective_mat(w: Fx, h: Fx, f: Fx, zn: Fx, zf: Fx) -> Mat4 {
    Mat4 {
        r0: Row4 {
            c0: Fx { bits: persp_af(w.bits as int, h.bits as int, f.bits as int) as i64 },
            c1: fx0(),
            c2: fx0(),
            c3: fx0(),
        },
        r1: Row4 { c0: fx0(), c1: f, c2: fx0(), c3: fx0() },
        r2: Row4 {
            c0: fx0(),
            c1: fx0(),
            c2: Fx { bits: persp_q1(zn.bits as int, zf.bits as int) as i64 },
            c3: Fx { bits: persp_q2(zn.bits as int, zf.bits as int) as i64 },
        },
        r3: Row4 { c0: fx0(), c1: fx0(), c2: fx1(), c3: fx0() },
    }
}

/// The identity with the translation column set.
pub fn new_translation(x: Fx, y: Fx, z: Fx) -> (r: Mat4)
    ensures
        r == translation_mat(x, y, z),
{
    Mat4 {
        r0: Row4 { c0: Fx::one(), c1: Fx::zero(), c2: Fx::zero(), c3: x },
        r1: Row4 { c0: Fx::zero(), c1: Fx::one(), c2: Fx::zero(), c3: y },
        r2: Row4 { c0: Fx::zero(), c1: Fx::zero(), c2: Fx::one(), c3: z },
        r3: Row4 { c0: Fx::zero(), c1: Fx::zero(), c2: Fx::zero(), c3: Fx::one() },
    }
}

/// Rotation about the first axis; `c` and `s` are the cosine and sine of
/// the angle, so they are at most one in magnitude.
pub fn new_rotation_x(c: Fx, s: Fx) -> (r: Mat4)
    requires
        -FX_SCALE <= c.bits <= FX_SCALE,
        -FX_SCALE <= s.bits <= FX_SCALE,
    ensures
        r == rotation_x_mat(c, s),
{
    Mat4 {
        r0: Row4 { c0: c, c1: Fx::zero(), c2: s, c3: Fx::zero() },
        r1: Row4 { c0: Fx::zero(), c1: Fx::one(), c2: Fx::zero(), c3: Fx::zero() },
        r2: Row4 { c0: s.neg(), c1: Fx::zero(), c2: c, c3: Fx::zero() },
        r3: Row4 { c0: Fx::zero(), c1: Fx::zero(), c2: Fx::zero(), c3: Fx::one() },
    }
}

/// Rotation about the second axis; `c` and `s` are the cosine and sine
/// of the angle.
pub fn new_rotation_y(c: Fx, s: Fx) -> (r: Mat4)
    requires
        -FX_SCALE <= c.bits <= FX_SCALE,
        -FX_SCALE <= s.bits <= FX_SCALE,
    ensures
        r == rotation_y_mat(c, s),
{
    Mat4 {
        r0: Row4 { c0: Fx::one(), c1: Fx::zero(), c2: Fx::zero(), c3: Fx::zero() },
        r1: Row4 { c0: Fx::zero(), c1: c, c2: s.neg(), c3: Fx::zero() },
        r2: Row4 { c0: Fx::zero(), c1: s, c2: c, c3: Fx::zero() },
        r3: Row4 { c0: Fx::zero(), c1: Fx::zero(), c2: Fx::zero(), c3: Fx::one() },
    }
}

/// Rotation about the third axis; `c` and `s` are the cosine and sine of
/// the angle.
pub fn new_rotation_z(c: Fx, s: Fx) -> (r: Mat4)
    requires
        -FX_SCALE <= c.bits <= FX_SCALE,
        -FX_SCALE <= s.bits <= FX_SCALE,
    ensures
        r == rotation_z_mat(c, s),
{
    Mat4 {
        r0: Row4 { c0: c, c1: s.neg(), c2: Fx::zero(), c3: Fx::zero() },
        r1: Row4 { c0: s, c1: c, c2: Fx::zero(), c3: Fx::zero() },
        r2: Row4 { c0: Fx::zero(), c1: Fx::zero(), c2: Fx::one(), c3: Fx::zero() },
        r3: Row4 { c0: Fx::zero(), c1: Fx::zero(), c2: Fx::zero(), c3: Fx::one() },
    }
}

/// The perspective projection matrix from viewport width and height, the
/// focal term `f = 1 / tan(fov/2)`, and the near and far depths.
///
/// The preconditions are exactly what the machine arithmetic forces: the
/// divisors are nonzero and each computed entry fits the scalar range.
/// Validating that `0 < zNear < zFar` and that the field of view is
/// reasonable remains the caller's responsibility, as a degenerate (but
/// representable) matrix is produced otherwise.
pub fn new_perspective(width: Fx, height: Fx, focal: Fx, z_near: Fx, z_far: Fx) -> (r: Mat4)
    requires
        width.bits != 0,
        z_far.bits != i64::MIN,
        in_i64(z_far.bits - z_near.bits),
        z_far.bits != z_near.bits,
        in_i64(persp_aspect(width.bits as int, height.bits as int)),
        in_i64(persp_af(width.bits as int, height.bits as int, focal.bits as int)),
        in_i64(fx_mul_i(-z_far.bits, z_near.bits as int)),
        in_i64(persp_q1(z_near.bits as int, z_far.bits as int)),
        in_i64(persp_q2(z_near.bits as int, z_far.bits as int)),
    ensures
        r == perspective_mat(width, height, focal, z_near, z_far),
{
    let a = height.div(width);
    let af = a.mul(focal);
    let d = z_far.sub(z_near);
    let q1 = z_far.div(d);
    let q2 = z_far.neg().mul(z_near).div(d);
    Mat4 {
        r0: Row4 { c0: af, c1: Fx::zero(), c2: Fx::zero(), c3: Fx::zero() },
        r1: Row4 { c0: Fx::zero(), c1: focal, c2: Fx::zero(), c3: Fx::zero() },
        r2: Row4 { c0: Fx::zero(), c1: Fx::zero(), c2: q1, c3: q2 },
        r3: Row4 { c0: Fx::zero(), c1: Fx::zero(), c2: Fx::one(), c3: Fx::zero() },
    }
}

/// Every entry of a rotation matrix built from a cosine and sine is at
/// most one in magnitude.
pub proof fn lemma_rotation_mats_bounded(c: Fx, s: Fx)
    requires
        -FX_SCALE <= c.bits <= FX_SCALE,
        -FX_SCALE <= s.bits <= FX_SCALE,
    ensures
        mat_bounded(rotation_x_mat(c, s), FX_SCALE as int),
        mat_bounded(rotation_y_mat(c, s), FX_SCALE as int),
        mat_bounded(rotation_z_mat(c, s), FX_SCALE as int),
{
}

/// The focal term stands verbatim in the perspective matrix, so two
/// configurations with different focal terms always produce different
/// matrices: the factory cannot hand out a stale projection.
pub proof fn lemma_perspective_tracks_focal(w: Fx, h: Fx, f1: Fx, f2: Fx, zn: Fx, zf: Fx)
    requires
        f1 != f2,
    ensures
        perspective_mat(w, h, f1, zn, zf) != perspective_mat(w, h, f2, zn, zf),
{
    assert(perspective_mat(w, h, f1, zn, zf).r1.c1 == f1);
}

/// Magnitude bound for a product of bounded factors.
proof fn lemma_mul_abs_bound(a: int, b: int, aa: int, bb: int)
    requires
        0 <= aa,
        0 <= bb,
        -aa <= a <= aa,
        -bb <= b <= bb,
    ensures
        -(aa * bb) <= a * b <= aa * bb,
{
    assert(-(aa * bb) <= a * b <= aa * bb) by (nonlinear_arith)
        requires
            0 <= aa,
            0 <= bb,
            -aa <= a <= aa,
            -bb <= b <= bb,
    ;
}

/// Lifting one rotation pass through the scale factor: from
/// `nn * u == c * x + s * z - r`, the product `nn * (a * u)` expands to
/// `(a * c) * x + (a * s) * z - a * r`.
proof fn lemma_lift_pass(nn: int, a: int, c: int, s: int, x: int, z: int, u: int, r: int)
    requires
        nn * u == c * x + s * z - r,
    ensures
        nn * (a * u) == (a * c) * x + (a * s) * z - a * r,
{
    lemma_mul_is_associative(nn, a, u);
    lemma_mul_is_commutative(nn, a);
    lemma_mul_is_associative(a, nn, u);
    assert(nn * (a * u) == a * (nn * u));
    lemma_mul_is_distributive_sub(a, c * x + s * z, r);
    lemma_mul_is_distributive_add(a, c * x, s * z);
    lemma_mul_is_associative(a, c, x);
    lemma_mul_is_associative(a, s, z);
}

/// The ring identity behind the rotation round trip: substituting the
/// forward pass into the backward pass leaves `(c^2 + s^2)` times the
/// original component plus the accumulated error terms.
proof fn lemma_round_trip_algebra(
    c: int,
    s: int,
    x: int,
    z: int,
    x1: int,
    z1: int,
    x2: int,
    z2: int,
    r1: int,
    r2: int,
    r3: int,
    r4: int,
)
    requires
        0x1_0000_0000 * x1 == c * x + s * z - r1,
        0x1_0000_0000 * z1 == (-s) * x + c * z - r2,
        0x1_0000_0000 * x2 == c * x1 + (-s) * z1 - r3,
        0x1_0000_0000 * z2 == s * x1 + c * z1 - r4,
    ensures
        0x1_0000_0000_0000_0000 * x2 - 0x1_0000_0000_0000_0000 * x == (c * c + s * s - 0x1_0000_0000_0000_0000) * x - c * r1 + s * r2 - 0x1_0000_0000
            * r3,
        0x1_0000_0000_0000_0000 * z2 - 0x1_0000_0000_0000_0000 * z == (c * c + s * s - 0x1_0000_0000_0000_0000) * z - s * r1 - c * r2 - 0x1_0000_0000
            * r4,
{
    let nn: int = 0x1_0000_0000;
    // The forward components, each lifted by one backward-pass entry.
    lemma_lift_pass(nn, c, c, s, x, z, x1, r1);
    lemma_lift_pass(nn, -s, -s, c, x, z, z1, r2);
    lemma_lift_pass(nn, s, c, s, x, z, x1, r1);
    lemma_lift_pass(nn, c, -s, c, x, z, z1, r2);
    // Normalize the sign-carrying products.
    lemma_mul_cancels_negatives(s, s);
    lemma_mul_unary_negation(s, c);
    lemma_mul_unary_negation(c, s);
    lemma_mul_is_commutative(s, c);
    lemma_mul_unary_negation(s, r2);
    lemma_mul_unary_negation(c * s, z);
    lemma_mul_unary_negation(c * s, x);
    assert(((-s) * (-s)) * x == (s * s) * x);
    assert(((-s) * c) * z == -((c * s) * z));
    assert((c * (-s)) * x == -((c * s) * x));
    assert((s * c) * x == (c * s) * x);
    // The backward pass, multiplied out by the scale factor.
    lemma_mul_is_distributive_sub(nn, c * x1 + (-s) * z1, r3);
    lemma_mul_is_distributive_add(nn, c * x1, (-s) * z1);
    lemma_mul_is_distributive_sub(nn, s * x1 + c * z1, r4);
    lemma_mul_is_distributive_add(nn, s * x1, c * z1);
    assert(nn * (nn * x2) == nn * (c * x1) + nn * ((-s) * z1) - nn * r3);
    assert(nn * (nn * z2) == nn * (s * x1) + nn * (c * z1) - nn * r4);
    // Collect the squared terms.
    lemma_mul_is_distributive_add_other_way(x, c * c, s * s);
    lemma_mul_is_distributive_sub_other_way(x, c * c + s * s, 0x1_0000_0000_0000_0000);
    lemma_mul_is_distributive_add_other_way(z, c * c, s * s);
    lemma_mul_is_distributive_sub_other_way(z, c * c + s * s, 0x1_0000_0000_0000_0000);
}

/// The magnitude bounds for the two error polynomials of the round
/// trip.
proof fn lemma_round_trip_bounds(c: int, s: int, v: int, r1: int, r2: int, r3: int)
    requires
        -0x1_0000_0000 <= c <= 0x1_0000_0000,
        -0x1_0000_0000 <= s <= 0x1_0000_0000,
        -0x10_0000_0000 <= v <= 0x10_0000_0000,
        -0x4_0000_0000 <= c * c + s * s - 0x1_0000_0000_0000_0000 <= 0x4_0000_0000,
        -0x2_0000_0000 <= r1 <= 0x2_0000_0000,
        -0x2_0000_0000 <= r2 <= 0x2_0000_0000,
        -0x2_0000_0000 <= r3 <= 0x2_0000_0000,
    ensures
        -1291272085159668613120 <= (c * c + s * s - 0x1_0000_0000_0000_0000) * v - c * r1 + s * r2 - 0x1_0000_0000 * r3 <= 1291272085159668613120,
        -1291272085159668613120 <= (c * c + s * s - 0x1_0000_0000_0000_0000) * v - s * r1 - c * r2 - 0x1_0000_0000 * r3 <= 1291272085159668613120,
{
    lemma_mul_abs_bound(c * c + s * s - 0x1_0000_0000_0000_0000, v, 0x4_0000_0000, 0x10_0000_0000);
    lemma_mul_abs_bound(c, r1, 0x1_0000_0000, 0x2_0000_0000);
    lemma_mul_abs_bound(s, r2, 0x1_0000_0000, 0x2_0000_0000);
    lemma_mul_abs_bound(s, r1, 0x1_0000_0000, 0x2_0000_0000);
    lemma_mul_abs_bound(c, r2, 0x1_0000_0000, 0x2_0000_0000);
}

/// The round trip through the shared two-by-two rotation block: the
/// pair (x, z) is taken forward by [c, s; -s, c] and back by
/// [c, -s; s, c], each step in fixed-point arithmetic, and returns to
/// within 128 units of `2^-32`.
proof fn lemma_block_round_trip(c: int, s: int, x: int, z: int, x1: int, z1: int, x2: int, z2: int)
    requires
        -0x1_0000_0000 <= c <= 0x1_0000_0000,
        -0x1_0000_0000 <= s <= 0x1_0000_0000,
        -0x4_0000_0000 <= c * c + s * s - 0x1_0000_0000_0000_0000 <= 0x4_0000_0000,
        -0x10_0000_0000 <= x <= 0x10_0000_0000,
        -0x10_0000_0000 <= z <= 0x10_0000_0000,
        x1 == fx_mul_i(c, x) + fx_mul_i(s, z),
        z1 == fx_mul_i(-s, x) + fx_mul_i(c, z),
        x2 == fx_mul_i(c, x1) + fx_mul_i(-s, z1),
        z2 == fx_mul_i(s, x1) + fx_mul_i(c, z1),
    ensures
        -128 <= x2 - x <= 128,
        -128 <= z2 - z <= 128,
{
    let n: int = 0x1_0000_0000;
    lemma_fx_mul_error(c, x);
    lemma_fx_mul_error(s, z);
    lemma_fx_mul_error(-s, x);
    lemma_fx_mul_error(c, z);
    lemma_fx_mul_error(c, x1);
    lemma_fx_mul_error(-s, z1);
    lemma_fx_mul_error(s, x1);
    lemma_fx_mul_error(c, z1);
    let r1 = (c * x - n * fx_mul_i(c, x)) + (s * z - n * fx_mul_i(s, z));
    let r2 = ((-s) * x - n * fx_mul_i(-s, x)) + (c * z - n * fx_mul_i(c, z));
    let r3 = (c * x1 - n * fx_mul_i(c, x1)) + ((-s) * z1 - n * fx_mul_i(-s, z1));
    let r4 = (s * x1 - n * fx_mul_i(s, x1)) + (c * z1 - n * fx_mul_i(c, z1));
    assert(0x1_0000_0000 * x1 == c * x + s * z - r1);
    assert(0x1_0000_0000 * z1 == (-s) * x + c * z - r2);
    assert(0x1_0000_0000 * x2 == c * x1 + (-s) * z1 - r3);
    assert(0x1_0000_0000 * z2 == s * x1 + c * z1 - r4);
    lemma_round_trip_algebra(c, s, x, z, x1, z1, x2, z2, r1, r2, r3, r4);
    lemma_round_trip_bounds(c, s, x, r1, r2, r3);
    lemma_round_trip_bounds(c, s, z, r1, r2, r4);
    assert(-1291272085159668613120 <= 0x1_0000_0000_0000_0000 * x2 - 0x1_0000_0000_0000_0000 * x <= 1291272085159668613120);
    assert(-1291272085159668613120 <= 0x1_0000_0000_0000_0000 * z2 - 0x1_0000_0000_0000_0000 * z <= 1291272085159668613120);
}

/// Law (rotation composability): rotating a bounded point by an angle
/// and then by its negation about the same axis returns the point: the
/// two components the axis leaves alone exactly, and the two it moves
/// to within 128 units of `2^-32` (about 3e-8 of a unit).  The premises
/// ask only that `(c, s)` is a quantized cosine/sine pair: each at most
/// one in magnitude, with `c^2 + s^2` within `2^-30` of one, which any
/// rounding of a real cosine/sine pair satisfies.
pub proof fn lemma_rotation_x_round_trip(c: Fx, s: Fx, v: Vec4)
    requires
        -FX_SCALE <= c.bits <= FX_SCALE,
        -FX_SCALE <= s.bits <= FX_SCALE,
        -0x4_0000_0000 <= c.bits * c.bits + s.bits * s.bits - 0x1_0000_0000_0000_0000 <= 0x4_0000_0000,
        vec_bounded(v, 16 * FX_SCALE),
    ensures
        ({
            let v1 = mat_vec(rotation_x_mat(c, s), v);
            let v2 = mat_vec(rotation_x_mat(c, fx_neg(s)), v1);
            &&& v2.y == v.y
            &&& v2.w == v.w
            &&& -128 <= v2.x.bits - v.x.bits <= 128
            &&& -128 <= v2.z.bits - v.z.bits <= 128
        }),
{
    let cb = c.bits as int;
    let sb = s.bits as int;
    let m1 = rotation_x_mat(c, s);
    let m2 = rotation_x_mat(c, fx_neg(s));
    lemma_rotation_mats_bounded(c, s);
    lemma_rotation_mats_bounded(c, fx_neg(s));
    crate::mat::lemma_mul_fits(m1, v, FX_SCALE as int, 16 * FX_SCALE);
    let v1 = mat_vec(m1, v);
    crate::mat::lemma_mul_fits(m2, v1, FX_SCALE as int, 64 * FX_SCALE);
    let v2 = mat_vec(m2, v1);
    lemma_unmoved_components(v.x.bits as int, v.y.bits as int, v.z.bits as int, v.w.bits as int);
    lemma_unmoved_components(
        v1.x.bits as int,
        v1.y.bits as int,
        v1.z.bits as int,
        v1.w.bits as int,
    );
    assert(v1.y == v.y);
    assert(v1.w == v.w);
    assert(v2.y == v.y);
    assert(v2.w == v.w);
    lemma_block_round_trip(
        cb,
        sb,
        v.x.bits as int,
        v.z.bits as int,
        v1.x.bits as int,
        v1.z.bits as int,
        v2.x.bits as int,
        v2.z.bits as int,
    );
}

/// Law (rotation composability) for the second axis, which moves the y
/// and z components through the same rotation block.
pub proof fn lemma_rotation_y_round_trip(c: Fx, s: Fx, v: Vec4)
    requires
        -FX_SCALE <= c.bits <= FX_SCALE,
        -FX_SCALE <= s.bits <= FX_SCALE,
        -0x4_0000_0000 <= c.bits * c.bits + s.bits * s.bits - 0x1_0000_0000_0000_0000 <= 0x4_0000_0000,
        vec_bounded(v, 16 * FX_SCALE),
    ensures
        ({
            let v1 = mat_vec(rotation_y_mat(c, s), v);
            let v2 = mat_vec(rotation_y_mat(c, fx_neg(s)), v1);
            &&& v2.x == v.x
            &&& v2.w == v.w
            &&& -128 <= v2.y.bits - v.y.bits <= 128
            &&& -128 <= v2.z.bits - v.z.bits <= 128
        }),
{
    let cb = c.bits as int;
    let ms = -(s.bits as int);
    let m1 = rotation_y_mat(c, s);
    let m2 = rotation_y_mat(c, fx_neg(s));
    lemma_rotation_mats_bounded(c, s);
    lemma_rotation_mats_bounded(c, fx_neg(s));
    crate::mat::lemma_mul_fits(m1, v, FX_SCALE as int, 16 * FX_SCALE);
    let v1 = mat_vec(m1, v);
    crate::mat::lemma_mul_fits(m2, v1, FX_SCALE as int, 64 * FX_SCALE);
    let v2 = mat_vec(m2, v1);
    lemma_unmoved_components(v.x.bits as int, v.y.bits as int, v.z.bits as int, v.w.bits as int);
    lemma_unmoved_components(
        v1.x.bits as int,
        v1.y.bits as int,
        v1.z.bits as int,
        v1.w.bits as int,
    );
    assert(v1.x == v.x);
    assert(v1.w == v.w);
    assert(v2.x == v.x);
    assert(v2.w == v.w);
    // This axis runs the shared block with the sine negated: its rows
    // are [c, -s] over (y, z) forward and [c, s] backward.
    lemma_mul_cancels_negatives(s.bits as int, s.bits as int);
    assert(v1.y.bits == fx_mul_i(cb, v.y.bits as int) + fx_mul_i(ms, v.z.bits as int));
    assert(v1.z.bits == fx_mul_i(-ms, v.y.bits as int) + fx_mul_i(cb, v.z.bits as int));
    assert(v2.y.bits == fx_mul_i(cb, v1.y.bits as int) + fx_mul_i(-ms, v1.z.bits as int));
    assert(v2.z.bits == fx_mul_i(ms, v1.y.bits as int) + fx_mul_i(cb, v1.z.bits as int));
    lemma_block_round_trip(
        cb,
        ms,
        v.y.bits as int,
        v.z.bits as int,
        v1.y.bits as int,
        v1.z.bits as int,
        v2.y.bits as int,
        v2.z.bits as int,
    );
}

/// Law (rotation composability) for the third axis, which moves the x
/// and y components through the same rotation block.
pub proof fn lemma_rotation_z_round_trip(c: Fx, s: Fx, v: Vec4)
    requires
        -FX_SCALE <= c.bits <= FX_SCALE,
        -FX_SCALE <= s.bits <= FX_SCALE,
        -0x4_0000_0000 <= c.bits * c.bits + s.bits * s.bits - 0x1_0000_0000_0000_0000 <= 0x4_0000_0000,
        vec_bounded(v, 16 * FX_SCALE),
    ensures
        ({
            let v1 = mat_vec(rotation_z_mat(c, s), v);
            let v2 = mat_vec(rotation_z_mat(c, fx_neg(s)), v1);
            &&& v2.z == v.z
            &&& v2.w == v.w
            &&& -128 <= v2.x.bits - v.x.bits <= 128
            &&& -128 <= v2.y.bits - v.y.bits <= 128
        }),
{
    let cb = c.bits as int;
    let ms = -(s.bits as int);
    let m1 = rotation_z_mat(c, s);
    let m2 = rotation_z_mat(c, fx_neg(s));
    lemma_rotation_mats_bounded(c, s);
    lemma_rotation_mats_bounded(c, fx_neg(s));
    crate::mat::lemma_mul_fits(m1, v, FX_SCALE as int, 16 * FX_SCALE);
    let v1 = mat_vec(m1, v);
    crate::mat::lemma_mul_fits(m2, v1, FX_SCALE as int, 64 * FX_SCALE);
    let v2 = mat_vec(m2, v1);
    lemma_unmoved_components(v.x.bits as int, v.y.bits as int, v.z.bits as int, v.w.bits as int);
    lemma_unmoved_components(
        v1.x.bits as int,
        v1.y.bits as int,
        v1.z.bits as int,
        v1.w.bits as int,
    );
    assert(v1.z == v.z);
    assert(v1.w == v.w);
    assert(v2.z == v.z);
    assert(v2.w == v.w);
    // This axis also runs the shared block with the sine negated: its
    // rows are [c, -s] over (x, y) forward and [c, s] backward.
    lemma_mul_cancels_negatives(s.bits as int, s.bits as int);
    assert(v1.x.bits == fx_mul_i(cb, v.x.bits as int) + fx_mul_i(ms, v.y.bits as int));
    assert(v1.y.bits == fx_mul_i(-ms, v.x.bits as int) + fx_mul_i(cb, v.y.bits as int));
    assert(v2.x.bits == fx_mul_i(cb, v1.x.bits as int) + fx_mul_i(-ms, v1.y.bits as int));
    assert(v2.y.bits == fx_mul_i(ms, v1.x.bits as int) + fx_mul_i(cb, v1.y.bits as int));
    lemma_block_round_trip(
        cb,
        ms,
        v.x.bits as int,
        v.y.bits as int,
        v1.x.bits as int,
        v1.y.bits as int,
        v2.x.bits as int,
        v2.y.bits as int,
    );
}

/// The component facts both round-trip directions need: multiplying a
/// component by the scalar one or zero is exact.
proof fn lemma_unmoved_components(x: int, y: int, z: int, w: int)
    ensures
        fx_mul_i(x, 0) == 0 && fx_mul_i(0, x) == 0 && fx_mul_i(x, FX_SCALE as int) == x
            && fx_mul_i(FX_SCALE as int, x) == x,
        fx_mul_i(y, 0) == 0 && fx_mul_i(0, y) == 0 && fx_mul_i(y, FX_SCALE as int) == y
            && fx_mul_i(FX_SCALE as int, y) == y,
        fx_mul_i(z, 0) == 0 && fx_mul_i(0, z) == 0 && fx_mul_i(z, FX_SCALE as int) == z
            && fx_mul_i(FX_SCALE as int, z) == z,
        fx_mul_i(w, 0) == 0 && fx_mul_i(0, w) == 0 && fx_mul_i(w, FX_SCALE as int) == w
            && fx_mul_i(FX_SCALE as int, w) == w,
{
    lemma_fx_mul_zero(x);
    lemma_fx_mul_zero(y);
    lemma_fx_mul_zero(z);
    lemma_fx_mul_zero(w);
    lemma_fx_mul_one(x);
    lemma_fx_mul_one(y);
    lemma_fx_mul_one(z);
    lemma_fx_mul_one(w);
}

/// Rotating by a zero angle (cosine one, sine zero) about any axis
/// returns every vector unchanged: the factories build the identity.
pub proof fn lemma_rotation_zero_identity(v: Vec4)
    ensures
        mat_vec(rotation_x_mat(fx1(), fx0()), v) == v,
        mat_vec(rotation_y_mat(fx1(), fx0()), v) == v,
        mat_vec(rotation_z_mat(fx1(), fx0()), v) == v,
{
    lemma_fx_mul_one(v.x.bits as int);
    lemma_fx_mul_one(v.y.bits as int);
    lemma_fx_mul_one(v.z.bits as int);
    lemma_fx_mul_one(v.w.bits as int);
    lemma_fx_mul_zero(v.x.bits as int);
    lemma_fx_mul_zero(v.y.bits as int);
    lemma_fx_mul_zero(v.z.bits as int);
    lemma_fx_mul_zero(v.w.bits as int);
}

} // verus!
