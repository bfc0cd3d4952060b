//! Bidirectional conversion between data and surface (SVG) coordinates.
//!
//! Surface space has its origin in the top-left corner with the vertical axis
//! growing downward; data space has its origin in the bottom-left corner with
//! the vertical axis growing upward. A `Projection` is the affine mapping
//! between a data-space rectangle (the value range) and a surface-space
//! rectangle, exact in both directions because coordinates are carried as
//! unreduced rationals.

use vstd::prelude::*;

use crate::bounds::Bounds;
use crate::ratio::{fits_i64, lemma_mul_i64_fits_i128, lemma_mul_pos, lemma_prod_sum_fits_i128, rat_eq,
    Ratio};

verus! {

/// The affine mapping between a surface rectangle (`bounds`) and a data value
/// range (`range`).
///
/// The per-axis scale factors are the exact rationals
/// `surface extent / data extent`, with a data extent of zero replaced by one
/// so that a degenerate axis maps every data value to the surface origin of
/// that axis instead of dividing by zero. Equality is structural; two
/// projections built from equal `(bounds, range)` pairs are equal.
#[derive(Clone, Copy, Debug, PartialEq, Eq, Structural)]
pub struct Projection {
    pub bounds: Bounds,
    pub range: Bounds,
    pub x_mult: Ratio,
    pub y_mult: Ratio,
}

impl Projection {
    /// Well-formedness: both rectangles are valid and the scale factors are
    /// exactly those determined by the rectangle extents.
    pub open spec fn wf(self) -> bool {
        &&& self.bounds.wf()
        &&& self.range.wf()
        &&& self.x_mult.num == self.bounds.spec_width()
        &&& self.x_mult.den == (if self.range.spec_width() == 0 {
            1int
        } else {
            self.range.spec_width()
        })
        &&& self.y_mult.num == self.bounds.spec_height()
        &&& self.y_mult.den == (if self.range.spec_height() == 0 {
            1int
        } else {
            self.range.spec_height()
        })
    }

    /// Numerator of the surface x coordinate of the data point `xn / xd`.
    pub open spec fn to_svg_x_num(self, xn: int, xd: int) -> int {
        self.bounds.left * (xd * self.x_mult.den) + (xn - self.range.left * xd) * self.x_mult.num
    }

    /// Denominator of the surface x coordinate of a data point with
    /// denominator `xd`.
    pub open spec fn to_svg_x_den(self, xd: int) -> int {
        xd * self.x_mult.den
    }

    /// Numerator of the surface y coordinate of the data point `yn / yd`; the
    /// vertical axis is flipped between the two spaces.
    pub open spec fn to_svg_y_num(self, yn: int, yd: int) -> int {
        self.bounds.bottom * (yd * self.y_mult.den) - (yn - self.range.top * yd) * self.y_mult.num
    }

    /// Denominator of the surface y coordinate of a data point with
    /// denominator `yd`.
    pub open spec fn to_svg_y_den(self, yd: int) -> int {
        yd * self.y_mult.den
    }

    /// Numerator of the data x coordinate of the surface point `xn / xd`.
    pub open spec fn to_pos_x_num(self, xn: int, xd: int) -> int {
        self.range.left * (xd * self.x_mult.num) + (xn - self.bounds.left * xd) * self.x_mult.den
    }

    /// Denominator of the data x coordinate of a surface point with
    /// denominator `xd`.
    pub open spec fn to_pos_x_den(self, xd: int) -> int {
        xd * self.x_mult.num
    }

    /// Numerator of the data y coordinate of the surface point `yn / yd`.
    pub open spec fn to_pos_y_num(self, yn: int, yd: int) -> int {
        self.range.top * (yd * self.y_mult.num) - (yn - self.bounds.bottom * yd) * self.y_mult.den
    }

    /// Denominator of the data y coordinate of a surface point with
    /// denominator `yd`.
    pub open spec fn to_pos_y_den(self, yd: int) -> int {
        yd * self.y_mult.num
    }

    /// Builds the projection for a surface rectangle and a data value range.
    ///
    /// A value range of zero width or height is not an error: the scale
    /// factor for that axis is computed as `surface extent / 1` instead of
    /// dividing by zero.
    pub fn new(bounds: Bounds, range: Bounds) -> (r: Projection)
        requires
            bounds.wf(),
            range.wf(),
        ensures
            r.wf(),
            r.bounds == bounds,
            r.range == range,
    {
        let width = range.width();
        let x_mult = Ratio { num: bounds.width(), den: if width == 0 { 1 } else { width } };
        let height = range.height();
        let y_mult = Ratio { num: bounds.height(), den: if height == 0 { 1 } else { height } };
        Projection { bounds, range, x_mult, y_mult }
    }

    /// Converts a data point to surface coordinates.
    ///
    /// The preconditions beyond well-formedness only keep every intermediate
    /// numerator and denominator inside the machine integer range; they hold
    /// for all chart-sized quantities.
    pub fn position_to_svg(&self, x: &Ratio, y: &Ratio) -> (r: (Ratio, Ratio))
        requires
            self.wf(),
            x.wf(),
            y.wf(),
            self.to_svg_x_den(x.den as int) <= i64::MAX,
            self.to_svg_y_den(y.den as int) <= i64::MAX,
            fits_i64(x.num - self.range.left * x.den),
            fits_i64(y.num - self.range.top * y.den),
            fits_i64(self.to_svg_x_num(x.num as int, x.den as int)),
            fits_i64(self.to_svg_y_num(y.num as int, y.den as int)),
        ensures
            r.0.wf(),
            r.1.wf(),
            r.0.num == self.to_svg_x_num(x.num as int, x.den as int),
            r.0.den == self.to_svg_x_den(x.den as int),
            r.1.num == self.to_svg_y_num(y.num as int, y.den as int),
            r.1.den == self.to_svg_y_den(y.den as int),
    {
        proof {
            lemma_mul_i64_fits_i128(x.den as int, self.x_mult.den as int);
            lemma_mul_pos(x.den as int, self.x_mult.den as int);
            lemma_mul_i64_fits_i128(self.range.left as int, x.den as int);
            lemma_prod_sum_fits_i128(
                self.bounds.left as int,
                self.to_svg_x_den(x.den as int),
                x.num - self.range.left * x.den,
                self.x_mult.num as int,
            );
            lemma_mul_i64_fits_i128(y.den as int, self.y_mult.den as int);
            lemma_mul_pos(y.den as int, self.y_mult.den as int);
            lemma_mul_i64_fits_i128(self.range.top as int, y.den as int);
            lemma_prod_sum_fits_i128(
                self.bounds.bottom as int,
                self.to_svg_y_den(y.den as int),
                y.num - self.range.top * y.den,
                self.y_mult.num as int,
            );
        }
        let x_den: i128 = x.den as i128 * self.x_mult.den as i128;
        let x_a: i128 = x.num as i128 - self.range.left as i128 * x.den as i128;
        let x_num: i128 = self.bounds.left as i128 * x_den + x_a * self.x_mult.num as i128;
        let y_den: i128 = y.den as i128 * self.y_mult.den as i128;
        let y_a: i128 = y.num as i128 - self.range.top as i128 * y.den as i128;
        let y_num: i128 = self.bounds.bottom as i128 * y_den - y_a * self.y_mult.num as i128;
        (
            Ratio { num: x_num as i64, den: x_den as i64 },
            Ratio { num: y_num as i64, den: y_den as i64 },
        )
    }

    /// Converts a surface point back to data coordinates: the exact algebraic
    /// inverse of `position_to_svg`, dividing by the same scale factors.
    ///
    /// Requires a surface rectangle of positive extent on both axes, since a
    /// scale factor of zero has no inverse; the remaining preconditions only
    /// keep intermediates inside the machine integer range.
    pub fn svg_to_position(&self, x: &Ratio, y: &Ratio) -> (r: (Ratio, Ratio))
        requires
            self.wf(),
            x.wf(),
            y.wf(),
            self.bounds.spec_width() > 0,
            self.bounds.spec_height() > 0,
            self.to_pos_x_den(x.den as int) <= i64::MAX,
            self.to_pos_y_den(y.den as int) <= i64::MAX,
            fits_i64(x.num - self.bounds.left * x.den),
            fits_i64(y.num - self.bounds.bottom * y.den),
            fits_i64(self.to_pos_x_num(x.num as int, x.den as int)),
            fits_i64(self.to_pos_y_num(y.num as int, y.den as int)),
        ensures
            r.0.wf(),
            r.1.wf(),
            r.0.num == self.to_pos_x_num(x.num as int, x.den as int),
            r.0.den == self.to_pos_x_den(x.den as int),
            r.1.num == self.to_pos_y_num(y.num as int, y.den as int),
            r.1.den == self.to_pos_y_den(y.den as int),
    {
        proof {
            lemma_mul_i64_fits_i128(x.den as int, self.x_mult.num as int);
            lemma_mul_pos(x.den as int, self.x_mult.num as int);
            lemma_mul_i64_fits_i128(self.bounds.left as int, x.den as int);
            lemma_prod_sum_fits_i128(
                self.range.left as int,
                self.to_pos_x_den(x.den as int),
                x.num - self.bounds.left * x.den,
                self.x_mult.den as int,
            );
            lemma_mul_i64_fits_i128(y.den as int, self.y_mult.num as int);
            lemma_mul_pos(y.den as int, self.y_mult.num as int);
            lemma_mul_i64_fits_i128(self.bounds.bottom as int, y.den as int);
            lemma_prod_sum_fits_i128(
                self.range.top as int,
                self.to_pos_y_den(y.den as int),
                y.num - self.bounds.bottom * y.den,
                self.y_mult.den as int,
            );
        }
        let x_den: i128 = x.den as i128 * self.x_mult.num as i128;
        let x_a: i128 = x.num as i128 - self.bounds.left as i128 * x.den as i128;
        let x_num: i128 = self.range.left as i128 * x_den + x_a * self.x_mult.den as i128;
        let y_den: i128 = y.den as i128 * self.y_mult.num as i128;
        let y_a: i128 = y.num as i128 - self.bounds.bottom as i128 * y.den as i128;
        let y_num: i128 = self.range.top as i128 * y_den - y_a * self.y_mult.den as i128;
        (
            Ratio { num: x_num as i64, den: x_den as i64 },
            Ratio { num: y_num as i64, den: y_den as i64 },
        )
    }
}

/// One affine axis mapping composed with its inverse is the identity on
/// rationals: mapping `xn / xd` forward with offsets `os` (surface) and `od`
/// (data), scale `mn / md` and axis direction `e`, then backward, yields a
/// fraction equivalent to `xn / xd`.
proof fn lemma_affine_inverse(os: int, od: int, mn: int, md: int, e: int, xn: int, xd: int)
    requires
        e == 1 || e == -1,
    ensures
        (od * ((xd * md) * mn) + e * (((os * (xd * md) + e * ((xn - od * xd) * mn)) - os * (xd
            * md)) * md)) * xd == xn * ((xd * md) * mn),
{
    let sd = xd * md;
    let a = (xn - od * xd) * mn;
    let sn = os * sd + e * a;
    assert(sn - os * sd == e * a);
    assert(e * ((e * a) * md) == a * md) by (nonlinear_arith)
        requires
            e == 1 || e == -1,
    {
    }
    assert((od * (sd * mn) + a * md) * xd == xn * (sd * mn)) by (nonlinear_arith)
        requires
            sd == xd * md,
            a == (xn - od * xd) * mn,
    {
    }
}

/// Round-trip law: converting any data point to surface coordinates and back
/// yields the original point, exactly, as rationals.
///
/// Stated over the coordinate formulas that `position_to_svg` and
/// `svg_to_position` are proved to compute. The surface rectangle must have
/// positive extent on both axes, since a degenerate surface axis collapses
/// every data value to one coordinate and has no inverse.
pub proof fn lemma_round_trip(p: Projection, xn: int, xd: int, yn: int, yd: int)
    requires
        p.wf(),
        xd > 0,
        yd > 0,
        p.bounds.spec_width() > 0,
        p.bounds.spec_height() > 0,
    ensures
        rat_eq(
            p.to_pos_x_num(p.to_svg_x_num(xn, xd), p.to_svg_x_den(xd)),
            p.to_pos_x_den(p.to_svg_x_den(xd)),
            xn,
            xd,
        ),
        rat_eq(
            p.to_pos_y_num(p.to_svg_y_num(yn, yd), p.to_svg_y_den(yd)),
            p.to_pos_y_den(p.to_svg_y_den(yd)),
            yn,
            yd,
        ),
{
    lemma_affine_inverse(
        p.bounds.left as int,
        p.range.left as int,
        p.x_mult.num as int,
        p.x_mult.den as int,
        1,
        xn,
        xd,
    );
    lemma_affine_inverse(
        p.bounds.bottom as int,
        p.range.top as int,
        p.y_mult.num as int,
        p.y_mult.den as int,
        -1,
        yn,
        yd,
    );
}

/// Equality law: two projections built from equal `(bounds, range)` pairs are
/// equal, because every derived scale factor is a function of those inputs.
pub proof fn lemma_projection_equality(a: Projection, b: Projection)
    requires
        a.wf(),
        b.wf(),
        a.bounds == b.bounds,
        a.range == b.range,
    ensures
        a == b,
{
    assert(a.x_mult.num == b.x_mult.num);
    assert(a.x_mult.den == b.x_mult.den);
    assert(a.y_mult.num == b.y_mult.num);
    assert(a.y_mult.den == b.y_mult.den);
}

} // verus!
