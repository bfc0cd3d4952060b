//! Exact rational scalars for point coordinates.
//!
//! Chart points are projected between data space and surface space through
//! multiplication and division by per-axis scale factors. Carrying each
//! coordinate as an unreduced fraction keeps both directions exact, so a
//! projected point converts back to precisely the value it came from.

use vstd::prelude::*;

verus! {

/// An exact rational number `num / den`.
///
/// Invariant: `den > 0`. Fractions are not reduced; two values are equivalent
/// when they cross-multiply equally, which `eqv` decides exactly.
#[derive(Clone, Copy, Debug, PartialEq, Eq, Structural)]
pub struct Ratio {
    pub num: i64,
    pub den: i64,
}

/// Two fractions `an / ad` and `bn / bd` denote the same rational.
pub open spec fn rat_eq(an: int, ad: int, bn: int, bd: int) -> bool {
    an * bd == bn * ad
}

/// The mathematical integer `n` fits in a machine `i64`.
pub open spec fn fits_i64(n: int) -> bool {
    i64::MIN <= n <= i64::MAX
}

/// The product of two machine-word-sized integers fits comfortably in the
/// double-width integer used for exact cross-multiplication.
pub proof fn lemma_mul_i64_fits_i128(a: int, b: int)
    requires
        i64::MIN <= a <= i64::MAX,
        i64::MIN <= b <= i64::MAX,
    ensures
        i128::MIN <= a * b <= i128::MAX,
{
    assert(i128::MIN <= a * b <= i128::MAX) by (nonlinear_arith)
        requires
            i64::MIN <= a <= i64::MAX,
            i64::MIN <= b <= i64::MAX,
    {
    }
}

/// The product of two positive integers is positive.
pub proof fn lemma_mul_pos(a: int, b: int)
    requires
        a > 0,
        b > 0,
    ensures
        a * b > 0,
{
    assert(a * b > 0) by (nonlinear_arith)
        requires
            a > 0,
            b > 0,
    {
    }
}

/// A sum or difference of two products of machine-word-sized integers fits in
/// the double-width integer, provided each right-hand factor is non-negative.
pub proof fn lemma_prod_sum_fits_i128(a: int, b: int, c: int, d: int)
    requires
        i64::MIN <= a <= i64::MAX,
        0 <= b <= i64::MAX,
        i64::MIN <= c <= i64::MAX,
        0 <= d <= i64::MAX,
    ensures
        i128::MIN <= a * b + c * d <= i128::MAX,
        i128::MIN <= a * b - c * d <= i128::MAX,
{
    assert(i128::MIN <= a * b + c * d <= i128::MAX && i128::MIN <= a * b - c * d <= i128::MAX)
        by (nonlinear_arith)
        requires
            i64::MIN <= a <= i64::MAX,
            0 <= b <= i64::MAX,
            i64::MIN <= c <= i64::MAX,
            0 <= d <= i64::MAX,
    {
    }
}

impl Ratio {
    /// Well-formedness: the denominator is positive.
    pub open spec fn wf(self) -> bool {
        self.den > 0
    }

    /// The fraction denotes the integer `i`.
    pub open spec fn is_int(self, i: int) -> bool {
        rat_eq(self.num as int, self.den as int, i, 1)
    }

    pub fn new(num: i64, den: i64) -> (r: Ratio)
        requires
            den > 0,
        ensures
            r == (Ratio { num, den }),
            r.wf(),
    {
        Ratio { num, den }
    }

    /// The rational equal to a whole number.
    pub fn from_int(i: i64) -> (r: Ratio)
        ensures
            r == (Ratio { num: i, den: 1i64 }),
            r.wf(),
            r.is_int(i as int),
    {
        Ratio { num: i, den: 1 }
    }

    /// Exact equivalence test by cross-multiplication, free of overflow.
    pub fn eqv(&self, other: &Ratio) -> (r: bool)
        ensures
            r == rat_eq(self.num as int, self.den as int, other.num as int, other.den as int),
    {
        proof {
            lemma_mul_i64_fits_i128(self.num as int, other.den as int);
            lemma_mul_i64_fits_i128(other.num as int, self.den as int);
        }
        self.num as i128 * other.den as i128 == other.num as i128 * self.den as i128
    }

    /// The fraction equals the whole number `i`, decided exactly.
    pub fn eq_int(&self, i: i64) -> (r: bool)
        ensures
            r == self.is_int(i as int),
    {
        proof {
            lemma_mul_i64_fits_i128(i as int, self.den as int);
        }
        self.num as i128 == i as i128 * self.den as i128
    }
}

} // verus!
