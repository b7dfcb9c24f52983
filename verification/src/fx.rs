//! Fixed-point scalars.
//!
//! A scalar is stored as a count of units of `2^-32` in an `i64`
//! (a Q31.32 representation).  All renderer arithmetic is exact integer
//! arithmetic on these bit counts, which lets every operation carry a
//! precise contract.

use vstd::arithmetic::div_mod::{
    lemma_div_is_ordered, lemma_div_is_ordered_by_denominator, lemma_div_multiples_vanish,
    lemma_div_of0, lemma_div_pos_is_pos, lemma_fundamental_div_mod,
    lemma_fundamental_div_mod_converse, lemma_mod_bound,
};
use vstd::prelude::*;

verus! {

/// Number of `2^-32` units in one whole unit.
pub const FX_SCALE: i64 = 0x1_0000_0000;

/// A fixed-point scalar; `bits` counts units of `2^-32`.
#[derive(Clone, Copy, Debug, PartialEq, Eq, Structural)]
pub struct Fx {
    pub bits: i64,
}

/// Whether a mathematical integer fits in an `i64`.
pub open spec fn in_i64(x: int) -> bool {
    i64::MIN <= x <= i64::MAX
}

/// The product of two `i64`-range integers fits comfortably in an `i128`.
proof fn lemma_i64_prod_fits_i128(a: int, b: int)
    by (nonlinear_arith)
    requires
        i64::MIN <= a <= i64::MAX,
        i64::MIN <= b <= i64::MAX,
    ensures
        i128::MIN < a * b < i128::MAX,
{
}

/// Division rounding toward zero, for a positive divisor.
pub open spec fn div_trunc(p: int, d: int) -> int {
    if p >= 0 {
        p / d
    } else {
        -((-p) / d)
    }
}

/// The bit count that multiplying two scalars yields: the product of the
/// bit counts, rescaled, rounded toward zero.
pub open spec fn fx_mul_i(a: int, b: int) -> int {
    div_trunc(a * b, FX_SCALE as int)
}

/// The bit count that dividing one scalar by another yields (`b != 0`):
/// the rescaled quotient, rounded toward zero.
pub open spec fn fx_div_i(a: int, b: int) -> int {
    if b >= 0 {
        div_trunc(a * FX_SCALE, b)
    } else {
        -div_trunc(a * FX_SCALE, -b)
    }
}

impl Fx {
    /// The scalar for zero.
    pub fn zero() -> (r: Fx)
        ensures
            r.bits == 0,
    {
        Fx { bits: 0 }
    }

    /// The scalar for one.
    pub fn one() -> (r: Fx)
        ensures
            r.bits == FX_SCALE,
    {
        Fx { bits: FX_SCALE }
    }

    /// The scalar for one half.
    pub fn half() -> (r: Fx)
        ensures
            r.bits == FX_SCALE / 2,
    {
        Fx { bits: FX_SCALE / 2 }
    }

    /// The scalar representing the integer `n`.
    pub fn from_int(n: i32) -> (r: Fx)
        ensures
            r.bits == n * FX_SCALE,
    {
        Fx { bits: (n as i64) * FX_SCALE }
    }

    /// Exact sum of two scalars.
    pub fn add(self, other: Fx) -> (r: Fx)
        requires
            in_i64(self.bits + other.bits),
        ensures
            r.bits == self.bits + other.bits,
    {
        Fx { bits: self.bits + other.bits }
    }

    /// Exact difference of two scalars.
    pub fn sub(self, other: Fx) -> (r: Fx)
        requires
            in_i64(self.bits - other.bits),
        ensures
            r.bits == self.bits - other.bits,
    {
        Fx { bits: self.bits - other.bits }
    }

    /// Exact negation.
    pub fn neg(self) -> (r: Fx)
        requires
            self.bits != i64::MIN,
        ensures
            r.bits == -self.bits,
    {
        Fx { bits: -self.bits }
    }

    /// Fixed-point product, rounded toward zero.
    pub fn mul(self, other: Fx) -> (r: Fx)
        requires
            in_i64(fx_mul_i(self.bits as int, other.bits as int)),
        ensures
            r.bits == fx_mul_i(self.bits as int, other.bits as int),
    {
        proof {
            lemma_i64_prod_fits_i128(self.bits as int, other.bits as int);
        }
        let p: i128 = (self.bits as i128) * (other.bits as i128);
        let q: i128 = p.checked_div(FX_SCALE as i128).unwrap();
        Fx { bits: q as i64 }
    }

    /// Fixed-point product that reports overflow instead of requiring its
    /// absence.
    pub fn checked_mul(self, other: Fx) -> (r: Option<Fx>)
        ensures
            in_i64(fx_mul_i(self.bits as int, other.bits as int)) ==> r == Some(
                Fx { bits: fx_mul_i(self.bits as int, other.bits as int) as i64 },
            ),
            !in_i64(fx_mul_i(self.bits as int, other.bits as int)) ==> r is None,
    {
        proof {
            lemma_i64_prod_fits_i128(self.bits as int, other.bits as int);
        }
        let p: i128 = (self.bits as i128) * (other.bits as i128);
        let q: i128 = p.checked_div(FX_SCALE as i128).unwrap();
        if i64::MIN as i128 <= q && q <= i64::MAX as i128 {
            Some(Fx { bits: q as i64 })
        } else {
            None
        }
    }

    /// Fixed-point quotient, rounded toward zero.
    pub fn div(self, other: Fx) -> (r: Fx)
        requires
            other.bits != 0,
            in_i64(fx_div_i(self.bits as int, other.bits as int)),
        ensures
            r.bits == fx_div_i(self.bits as int, other.bits as int),
    {
        proof {
            lemma_i64_prod_fits_i128(self.bits as int, FX_SCALE as int);
        }
        let n: i128 = (self.bits as i128) * (FX_SCALE as i128);
        let q: i128 = n.checked_div(other.bits as i128).unwrap();
        Fx { bits: q as i64 }
    }

    /// Fixed-point quotient that reports a zero divisor or overflow
    /// instead of requiring their absence.
    pub fn checked_div(self, other: Fx) -> (r: Option<Fx>)
        ensures
            other.bits != 0 && in_i64(fx_div_i(self.bits as int, other.bits as int)) ==> r
                == Some(Fx { bits: fx_div_i(self.bits as int, other.bits as int) as i64 }),
            other.bits == 0 || !in_i64(fx_div_i(self.bits as int, other.bits as int)) ==> r
                is None,
    {
        if other.bits == 0 {
            return None;
        }
        proof {
            lemma_i64_prod_fits_i128(self.bits as int, FX_SCALE as int);
        }
        let n: i128 = (self.bits as i128) * (FX_SCALE as i128);
        let q: i128 = n.checked_div(other.bits as i128).unwrap();
        if i64::MIN as i128 <= q && q <= i64::MAX as i128 {
            Some(Fx { bits: q as i64 })
        } else {
            None
        }
    }

    /// Exact sum that reports overflow instead of requiring its absence.
    pub fn checked_add(self, other: Fx) -> (r: Option<Fx>)
        ensures
            in_i64(self.bits + other.bits) ==> r == Some(
                Fx { bits: (self.bits + other.bits) as i64 },
            ),
            !in_i64(self.bits + other.bits) ==> r is None,
    {
        match self.bits.checked_add(other.bits) {
            Some(b) => Some(Fx { bits: b }),
            None => None,
        }
    }
}

/// With a positive divisor, a dividend bounded by `pp` in magnitude
/// yields a truncated quotient bounded by `div_trunc(pp, d)`.
pub proof fn lemma_div_trunc_bound(p: int, pp: int, d: int)
    requires
        1 <= d,
        0 <= pp,
        -pp <= p <= pp,
    ensures
        -div_trunc(pp, d) <= div_trunc(p, d) <= div_trunc(pp, d),
{
    lemma_div_pos_is_pos(pp, d);
    if p >= 0 {
        lemma_div_pos_is_pos(p, d);
        lemma_div_is_ordered(p, pp, d);
    } else {
        lemma_div_pos_is_pos(-p, d);
        lemma_div_is_ordered(-p, pp, d);
    }
}

/// Magnitude bound for a fixed-point product of bounded factors.
pub proof fn lemma_fx_mul_bound(a: int, b: int, aa: int, bb: int)
    requires
        0 <= aa,
        0 <= bb,
        -aa <= a <= aa,
        -bb <= b <= bb,
    ensures
        -div_trunc(aa * bb, FX_SCALE as int) <= fx_mul_i(a, b) <= div_trunc(
            aa * bb,
            FX_SCALE as int,
        ),
{
    assert(-(aa * bb) <= a * b <= aa * bb) by (nonlinear_arith)
        requires
            0 <= aa,
            0 <= bb,
            -aa <= a <= aa,
            -bb <= b <= bb,
    ;
    lemma_div_trunc_bound(a * b, aa * bb, FX_SCALE as int);
}

/// Magnitude bound for a fixed-point quotient whose dividend is at most
/// `aa` and whose divisor is at least `db` in magnitude.
pub proof fn lemma_fx_div_bound(a: int, b: int, aa: int, db: int)
    requires
        0 <= aa,
        1 <= db,
        -aa <= a <= aa,
        b >= db || b <= -db,
    ensures
        -div_trunc(aa * FX_SCALE, db) <= fx_div_i(a, b) <= div_trunc(aa * FX_SCALE, db),
{
    let s = FX_SCALE as int;
    let d = if b >= 0 {
        b
    } else {
        -b
    };
    lemma_div_trunc_bound(a * s, aa * s, d);
    lemma_div_trunc_bound(a * s, aa * s, db);
    lemma_div_pos_is_pos(aa * s, d);
    lemma_div_pos_is_pos(aa * s, db);
    if -(a * s) >= 0 {
        lemma_div_is_ordered_by_denominator(-(a * s), db, d);
    }
    if a * s >= 0 {
        lemma_div_is_ordered_by_denominator(a * s, db, d);
    }
}

/// A division certificate: exhibiting the quotient and remainder pins
/// down what a concrete Euclidean division yields.
pub proof fn lemma_div_exact(x: int, d: int, q: int, r: int)
    requires
        0 < d,
        0 <= r < d,
        x == q * d + r,
    ensures
        x / d == q,
{
    lemma_fundamental_div_mod_converse(x, d, q, r);
}

/// Multiplying by the scalar one is exact.
pub proof fn lemma_fx_mul_one(a: int)
    ensures
        fx_mul_i(a, FX_SCALE as int) == a,
        fx_mul_i(FX_SCALE as int, a) == a,
{
    let s = FX_SCALE as int;
    if a >= 0 {
        lemma_div_multiples_vanish(a, s);
    } else {
        lemma_div_multiples_vanish(-a, s);
    }
}

/// Multiplying by the scalar zero gives zero.
pub proof fn lemma_fx_mul_zero(a: int)
    ensures
        fx_mul_i(a, 0) == 0,
        fx_mul_i(0, a) == 0,
{
    lemma_div_of0(FX_SCALE as int);
}

/// A fixed-point product differs from the exact rescaled product by
/// strictly less than one unit: `FX_SCALE * fx_mul_i(a, b)` is within
/// `FX_SCALE` of `a * b`.
pub proof fn lemma_fx_mul_error(a: int, b: int)
    ensures
        -(FX_SCALE as int) < a * b - FX_SCALE * fx_mul_i(a, b) < FX_SCALE as int,
{
    let s = FX_SCALE as int;
    let p = a * b;
    if p >= 0 {
        lemma_fundamental_div_mod(p, s);
        lemma_mod_bound(p, s);
    } else {
        lemma_fundamental_div_mod(-p, s);
        lemma_mod_bound(-p, s);
    }
}

/// Dividing the scalar zero by anything nonzero gives zero.
pub proof fn lemma_fx_div_zero(b: int)
    requires
        b != 0,
    ensures
        fx_div_i(0, b) == 0,
{
    if b >= 0 {
        lemma_div_of0(b);
    } else {
        lemma_div_of0(-b);
    }
}

} // verus!
