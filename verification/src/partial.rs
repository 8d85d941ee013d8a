//! Free-standing samplers: the curve sampled from bare parameters or from a
//! bounding rectangle, without building a descriptor first.

use vstd::prelude::*;

use crate::curve::curve_point_req;
use crate::curve::curve_point_spec;
use crate::curve::Superellipse;
use crate::geometry::Point;
use crate::geometry::Rect;
use crate::scalar::Scalar;

verus! {

/// One sample per listed angle of the superellipse with the given center,
/// radius and exponent `n`, in the listed order.
pub fn superellipse_points<T: Scalar>(
    angles_in_degrees: &Vec<u32>,
    n: T,
    center: Point<T>,
    radius: Point<T>,
) -> (ps: Vec<Point<T>>)
    requires
        forall|i: int|
            0 <= i < angles_in_degrees@.len() ==> curve_point_req(
                angles_in_degrees@[i],
                center,
                radius,
                n,
            ),
    ensures
        ps@.len() == angles_in_degrees@.len(),
        forall|i: int|
            0 <= i < ps@.len() ==> ps@[i] == curve_point_spec(
                angles_in_degrees@[i],
                center,
                radius,
                n,
            ),
{
    let superellipse = Superellipse { exponent: n, center, radius };
    superellipse.partial_points(angles_in_degrees)
}

/// One sample per listed angle of the superellipse inscribed in `rect` with
/// exponent `n`, in the listed order.
pub fn superellipse_points_rect<T: Scalar>(
    angles_in_degrees: &Vec<u32>,
    n: T,
    rect: Rect<T>,
) -> (ps: Vec<Point<T>>)
    requires
        rect.superellipse_req(),
        forall|i: int|
            0 <= i < angles_in_degrees@.len() ==> rect.superellipse_spec(n).point_req(
                angles_in_degrees@[i],
            ),
    ensures
        ps@.len() == angles_in_degrees@.len(),
        forall|i: int|
            0 <= i < ps@.len() ==> ps@[i] == rect.superellipse_spec(n).point_spec(
                angles_in_degrees@[i],
            ),
{
    let superellipse = rect.superellipse(n);
    superellipse.partial_points(angles_in_degrees)
}

} // verus!
