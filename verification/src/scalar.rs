//! The coordinate scalar that every curve and rectangle is measured in.
//!
//! The geometry of this crate only ever adds, subtracts, multiplies and
//! halves coordinates, compares an exponent against one, and asks for the
//! pair of curve factors at a sampling angle.  Those operations are gathered
//! in the [`Scalar`] trait, together with a specification-level model of each
//! one, so that every contract in the crate can state exactly which scalar
//! values a result is built from.
//!
//! The curve factors at an angle of `d` degrees, for an exponent `e`, model
//! the two quantities of the superellipse parametric form:
//!
//! ```text
//! factor_x = sign(cos θ) * |cos θ|^(2/e)
//! factor_y = sign(sin θ) * |sin θ|^(2/e)        (θ = d degrees in radians)
//! ```
//!
//! and the curve point at that angle is `center + factor * radius`,
//! componentwise.  How precisely a scalar realises the two factors is the
//! scalar's own choice: the exact integer scalar below truncates them toward
//! zero, which is exact at the four cardinal angles, while a floating-point
//! scalar supplied by a host application can realise them in full.

use vstd::prelude::*;

verus! {

/// A coordinate scalar: the partial arithmetic the geometry needs, each
/// operation paired with its specification-level model and with the domain
/// on which the operation is defined.
pub trait Scalar: Sized + Copy {
    /// Whether `self + rhs` is within the scalar's domain.
    spec fn plus_req(self, rhs: Self) -> bool;

    /// The model of `self + rhs`.
    spec fn plus_spec(self, rhs: Self) -> Self;

    /// Whether `self - rhs` is within the scalar's domain.
    spec fn minus_req(self, rhs: Self) -> bool;

    /// The model of `self - rhs`.
    spec fn minus_spec(self, rhs: Self) -> Self;

    /// Whether `self * rhs` is within the scalar's domain.
    spec fn times_req(self, rhs: Self) -> bool;

    /// The model of `self * rhs`.
    spec fn times_spec(self, rhs: Self) -> Self;

    /// Whether `self / 2` is within the scalar's domain.
    spec fn half_req(self) -> bool;

    /// The model of `self / 2`.
    spec fn half_spec(self) -> Self;

    /// The model of `self > 1`, deciding the convex exponent family.
    spec fn gt_one_spec(self) -> bool;

    /// The model of the curve factor on the x axis at `degrees`, for the
    /// exponent `self`.
    spec fn factor_x_spec(self, degrees: u32) -> Self;

    /// The model of the curve factor on the y axis at `degrees`, for the
    /// exponent `self`.
    spec fn factor_y_spec(self, degrees: u32) -> Self;

    fn plus(self, rhs: Self) -> (r: Self)
        requires
            self.plus_req(rhs),
        ensures
            r == self.plus_spec(rhs),
    ;

    fn minus(self, rhs: Self) -> (r: Self)
        requires
            self.minus_req(rhs),
        ensures
            r == self.minus_spec(rhs),
    ;

    fn times(self, rhs: Self) -> (r: Self)
        requires
            self.times_req(rhs),
        ensures
            r == self.times_spec(rhs),
    ;

    fn half(self) -> (r: Self)
        requires
            self.half_req(),
        ensures
            r == self.half_spec(),
    ;

    fn gt_one(self) -> (r: bool)
        ensures
            r == self.gt_one_spec(),
    ;

    /// The pair of curve factors at `degrees`, for the exponent `self`.
    fn curve_factors(self, degrees: u32) -> (f: (Self, Self))
        ensures
            f.0 == self.factor_x_spec(degrees),
            f.1 == self.factor_y_spec(degrees),
    ;
}

/// The exact integer scalar.
///
/// Addition, subtraction and multiplication are the exact integer operations,
/// defined wherever the result fits in `i64`; halving is exact integer
/// division by two on nonnegative values.  The curve factors are the true
/// factors truncated toward zero: for a positive exponent the true factor has
/// magnitude one at the cardinal angles and magnitude below one elsewhere, so
/// the truncation is `1`, `-1` or `0` at the cardinal angles and `0` at every
/// other angle, independent of the exponent.
impl Scalar for i64 {
    open spec fn plus_req(self, rhs: i64) -> bool {
        i64::MIN <= self + rhs <= i64::MAX
    }

    open spec fn plus_spec(self, rhs: i64) -> i64 {
        (self + rhs) as i64
    }

    open spec fn minus_req(self, rhs: i64) -> bool {
        i64::MIN <= self - rhs <= i64::MAX
    }

    open spec fn minus_spec(self, rhs: i64) -> i64 {
        (self - rhs) as i64
    }

    open spec fn times_req(self, rhs: i64) -> bool {
        i64::MIN <= self * rhs <= i64::MAX
    }

    open spec fn times_spec(self, rhs: i64) -> i64 {
        (self * rhs) as i64
    }

    open spec fn half_req(self) -> bool {
        self >= 0
    }

    open spec fn half_spec(self) -> i64 {
        (self / 2) as i64
    }

    open spec fn gt_one_spec(self) -> bool {
        self > 1
    }

    open spec fn factor_x_spec(self, degrees: u32) -> i64 {
        if degrees % 360 == 0 {
            1
        } else if degrees % 360 == 180 {
            -1i64
        } else {
            0
        }
    }

    open spec fn factor_y_spec(self, degrees: u32) -> i64 {
        if degrees % 360 == 90 {
            1
        } else if degrees % 360 == 270 {
            -1i64
        } else {
            0
        }
    }

    fn plus(self, rhs: i64) -> i64 {
        self + rhs
    }

    fn minus(self, rhs: i64) -> i64 {
        self - rhs
    }

    fn times(self, rhs: i64) -> i64 {
        self * rhs
    }

    fn half(self) -> i64 {
        self / 2
    }

    fn gt_one(self) -> bool {
        self > 1
    }

    fn curve_factors(self, degrees: u32) -> (i64, i64) {
        let turn = degrees % 360;
        let fx: i64 = if turn == 0 {
            1
        } else if turn == 180 {
            -1
        } else {
            0
        };
        let fy: i64 = if turn == 90 {
            1
        } else if turn == 270 {
            -1
        } else {
            0
        };
        (fx, fy)
    }
}

} // verus!
