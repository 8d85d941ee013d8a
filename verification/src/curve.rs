//! One superellipse descriptor, its parametric engine and its sampler.

use vstd::prelude::*;

use crate::geometry::Point;
use crate::geometry::Rect;
use crate::scalar::Scalar;

verus! {

/// One curve of the superellipse (Lamé) family.
///
/// Depending on the exponent the curve renders as a rectangle (exponent
/// toward infinity), a flatter-sided superellipse (above two), an ellipse
/// (exactly two, a circle for equal radii), a convex curved rhombus (between
/// one and two), a rhombus (exactly one) or a concave curved rhombus (between
/// zero and one).  A pure value: derived, sampled and dropped, never mutated.
#[derive(Debug, Clone, Copy, PartialEq)]
pub struct Superellipse<T> {
    pub exponent: T,
    pub center: Point<T>,
    pub radius: Point<T>,
}

/// Whether the curve point at `degrees` is within the scalar's domain.
pub open spec fn curve_point_req<T: Scalar>(
    degrees: u32,
    center: Point<T>,
    radius: Point<T>,
    exponent: T,
) -> bool {
    &&& exponent.factor_x_spec(degrees).times_req(radius.x)
    &&& center.x.plus_req(exponent.factor_x_spec(degrees).times_spec(radius.x))
    &&& exponent.factor_y_spec(degrees).times_req(radius.y)
    &&& center.y.plus_req(exponent.factor_y_spec(degrees).times_spec(radius.y))
}

/// The model of the curve point at `degrees`: the center offset on each axis
/// by that axis's curve factor times that axis's radius.
pub open spec fn curve_point_spec<T: Scalar>(
    degrees: u32,
    center: Point<T>,
    radius: Point<T>,
    exponent: T,
) -> Point<T> {
    Point {
        x: center.x.plus_spec(exponent.factor_x_spec(degrees).times_spec(radius.x)),
        y: center.y.plus_spec(exponent.factor_y_spec(degrees).times_spec(radius.y)),
    }
}

/// The parametric engine: the point of the superellipse with the given
/// center, radius and exponent at the angle of `degrees`.
pub fn parametric_equation<T: Scalar>(
    degrees: u32,
    center: Point<T>,
    radius: Point<T>,
    exponent: T,
) -> (p: Point<T>)
    requires
        curve_point_req(degrees, center, radius, exponent),
    ensures
        p == curve_point_spec(degrees, center, radius, exponent),
{
    let (fx, fy) = exponent.curve_factors(degrees);
    Point { x: center.x.plus(fx.times(radius.x)), y: center.y.plus(fy.times(radius.y)) }
}

impl<T: Scalar> Superellipse<T> {
    /// Whether this curve's point at `degrees` is within the scalar's domain.
    pub open spec fn point_req(self, degrees: u32) -> bool {
        curve_point_req(degrees, self.center, self.radius, self.exponent)
    }

    /// The model of this curve's point at `degrees`.
    pub open spec fn point_spec(self, degrees: u32) -> Point<T> {
        curve_point_spec(degrees, self.center, self.radius, self.exponent)
    }

    /// Whether every sample over the closed range of angles
    /// `start ..= end` is within the scalar's domain.
    pub open spec fn range_req(self, start: u32, end: u32) -> bool {
        forall|d: u32| start <= d <= end ==> self.point_req(d)
    }

    /// The point on the curve at the angle of `degrees`.
    pub fn point(&self, degrees: u32) -> (p: Point<T>)
        requires
            self.point_req(degrees),
        ensures
            p == self.point_spec(degrees),
    {
        parametric_equation(degrees, self.center, self.radius, self.exponent)
    }

    /// One sample per listed angle, in the listed order.
    pub fn partial_points(&self, angles_in_degrees: &Vec<u32>) -> (ps: Vec<Point<T>>)
        requires
            forall|i: int|
                0 <= i < angles_in_degrees@.len() ==> self.point_req(angles_in_degrees@[i]),
        ensures
            ps@.len() == angles_in_degrees@.len(),
            forall|i: int|
                0 <= i < ps@.len() ==> ps@[i] == self.point_spec(angles_in_degrees@[i]),
    {
        let mut ps: Vec<Point<T>> = Vec::new();
        let mut k: usize = 0;
        while k < angles_in_degrees.len()
            invariant
                k <= angles_in_degrees@.len(),
                ps@.len() == k,
                forall|i: int|
                    0 <= i < angles_in_degrees@.len() ==> self.point_req(angles_in_degrees@[i]),
                forall|i: int| 0 <= i < k ==> ps@[i] == self.point_spec(angles_in_degrees@[i]),
            decreases angles_in_degrees@.len() - k,
        {
            ps.push(self.point(angles_in_degrees[k]));
            k = k + 1;
        }
        ps
    }

    /// One sample per integer degree over the closed range `start ..= end`,
    /// inclusive of both endpoints: exactly `end - start + 1` points, ordered
    /// by increasing angle.
    pub fn range_points(&self, start: u32, end: u32) -> (ps: Vec<Point<T>>)
        requires
            start <= end,
            end < u32::MAX,
            self.range_req(start, end),
        ensures
            ps@.len() == end - start + 1,
            forall|i: int| 0 <= i < ps@.len() ==> ps@[i] == self.point_spec((start + i) as u32),
    {
        let mut ps: Vec<Point<T>> = Vec::new();
        let mut d: u32 = start;
        while d <= end
            invariant
                start <= d <= end + 1,
                end < u32::MAX,
                ps@.len() == d - start,
                self.range_req(start, end),
                forall|i: int|
                    0 <= i < ps@.len() ==> ps@[i] == self.point_spec((start + i) as u32),
            decreases end + 1 - d,
        {
            ps.push(self.point(d));
            d = d + 1;
        }
        ps
    }

    /// One full sweep of the curve: one sample per integer degree from 0
    /// inclusive to 360 exclusive.  The sample at 360 degrees coincides with
    /// the one at 0 and is left to the consumer's closing of the path.
    pub fn points(&self) -> (ps: Vec<Point<T>>)
        requires
            self.range_req(0, 359),
        ensures
            ps@.len() == 360,
            forall|i: int| 0 <= i < 360 ==> ps@[i] == self.point_spec(i as u32),
    {
        self.range_points(0, 359)
    }
}

/// Half a turn onward, the angle falls on the opposite side of the circle:
/// the remainder of `d + 180` modulo 360 is the remainder of `d` shifted by
/// 180, wrapped back below 360.
proof fn lemma_half_turn_mod(d: u32)
    requires
        d + 180 <= u32::MAX,
    ensures
        d % 360 < 180 ==> ((d + 180) as u32) % 360 == d % 360 + 180,
        d % 360 >= 180 ==> ((d + 180) as u32) % 360 == d % 360 - 180,
{
    let r = (d as int) % 360;
    vstd::arithmetic::div_mod::lemma_mod_bound(d as int, 360);
    vstd::arithmetic::div_mod::lemma_add_mod_noop(d as int, 180, 360);
    vstd::arithmetic::div_mod::lemma_small_mod(180nat, 360nat);
    if r < 180 {
        vstd::arithmetic::div_mod::lemma_small_mod((r + 180) as nat, 360nat);
    } else {
        vstd::arithmetic::div_mod::lemma_mod_sub_multiples_vanish(r + 180, 360);
        vstd::arithmetic::div_mod::lemma_small_mod((r - 180) as nat, 360nat);
    }
}

/// Sampled half a turn apart, the exact integer scalar's curve points lie
/// symmetric about the center: the samples at `d` and at `d + 180` degrees
/// sum, componentwise, to twice the center.
pub proof fn lemma_point_symmetry(s: Superellipse<i64>, d: u32)
    requires
        d + 180 <= u32::MAX,
        s.point_req(d),
        s.point_req((d + 180) as u32),
    ensures
        s.point_spec((d + 180) as u32).x + s.point_spec(d).x == 2 * s.center.x,
        s.point_spec((d + 180) as u32).y + s.point_spec(d).y == 2 * s.center.y,
{
    let dd = (d + 180) as u32;
    lemma_half_turn_mod(d);
    let fx = s.exponent.factor_x_spec(d) as int;
    let fy = s.exponent.factor_y_spec(d) as int;
    let fx2 = s.exponent.factor_x_spec(dd) as int;
    let fy2 = s.exponent.factor_y_spec(dd) as int;
    let rx = s.radius.x as int;
    let ry = s.radius.y as int;
    assert(fx2 == -fx);
    assert(fy2 == -fy);
    assert(fx2 * rx == -(fx * rx)) by (nonlinear_arith)
        requires
            fx2 == -fx,
    ;
    assert(fy2 * ry == -(fy * ry)) by (nonlinear_arith)
        requires
            fy2 == -fy,
    ;
    assert(s.point_spec(d).x == s.center.x + fx * rx);
    assert(s.point_spec(dd).x == s.center.x + fx2 * rx);
    assert(s.point_spec(d).y == s.center.y + fy * ry);
    assert(s.point_spec(dd).y == s.center.y + fy2 * ry);
}

/// A corner of radius zero on both axes collapses: every sample of the exact
/// integer scalar's curve is the center itself, whatever the angle and the
/// exponent.
pub proof fn lemma_degenerate_radius(s: Superellipse<i64>, d: u32)
    requires
        s.radius == (Point::<i64> { x: 0, y: 0 }),
    ensures
        s.point_spec(d) == s.center,
{
}

impl<T: Scalar> Rect<T> {
    /// Whether deriving [`Rect::superellipse`] is within the scalar's domain.
    pub open spec fn superellipse_req(self) -> bool {
        &&& self.width_req()
        &&& self.height_req()
        &&& self.width_spec().half_req()
        &&& self.height_spec().half_req()
        &&& self.left.plus_req(self.width_spec().half_spec())
        &&& self.top.plus_req(self.height_spec().half_spec())
    }

    /// The model of [`Rect::superellipse`]: centered in the rectangle, with
    /// half the rectangle's extent as radius on each axis.
    pub open spec fn superellipse_spec(self, exponent: T) -> Superellipse<T> {
        Superellipse {
            exponent,
            center: Point {
                x: self.left.plus_spec(self.width_spec().half_spec()),
                y: self.top.plus_spec(self.height_spec().half_spec()),
            },
            radius: Point { x: self.width_spec().half_spec(), y: self.height_spec().half_spec() },
        }
    }

    /// The superellipse inscribed in the rectangle: centered in it, with half
    /// the width and half the height as radii.
    pub fn superellipse(&self, exponent: T) -> (s: Superellipse<T>)
        requires
            self.superellipse_req(),
        ensures
            s == self.superellipse_spec(exponent),
    {
        let width = self.width();
        let height = self.height();
        let half_width = width.half();
        let half_height = height.half();
        let center = Point { x: self.left.plus(half_width), y: self.top.plus(half_height) };
        let radius = Point { x: half_width, y: half_height };
        Superellipse { exponent, center, radius }
    }
}

} // verus!

