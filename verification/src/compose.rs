//! The squircle rounded rectangle: four independently exponented
//! superellipse corners composed into one closed boundary.

use vstd::prelude::*;

use crate::curve::Superellipse;
use crate::geometry::Corners;
use crate::geometry::Point;
use crate::geometry::Rect;
use crate::geometry::RoundedRect;
use crate::scalar::Scalar;

verus! {

/// A rounded rectangle whose every corner carries its own curve exponent:
/// the fully general squircle descriptor.
#[derive(Debug, Clone, Copy, PartialEq)]
pub struct SuperellipseRect<T> {
    pub rounded_rect: RoundedRect<T>,
    pub corner_exponents: Corners<T>,
}

/// The model of one corner radius after an inset: the radius shrinks with the
/// boundary for an exponent above one (the convex family) and grows for an
/// exponent at or below one (the rhombus and concave family), whose widest
/// extent sits at the corner rather than at the edge midpoints.
pub open spec fn inset_corner_spec<T: Scalar>(radius: Point<T>, exponent: T, inset: Point<T>) -> Point<T> {
    if exponent.gt_one_spec() {
        radius.sub_spec(inset)
    } else {
        radius.add_spec(inset)
    }
}

/// Whether the corner radius adjustment of [`inset_corner_spec`] is within
/// the scalar's domain.
pub open spec fn inset_corner_req<T: Scalar>(radius: Point<T>, exponent: T, inset: Point<T>) -> bool {
    if exponent.gt_one_spec() {
        radius.sub_req(inset)
    } else {
        radius.add_req(inset)
    }
}

impl<T: Scalar> SuperellipseRect<T> {
    /// Whether deriving the four corner descriptors is within the scalar's
    /// domain.
    pub open spec fn superellipse_corners_req(self) -> bool {
        let rect = self.rounded_rect.rect;
        let radii = self.rounded_rect.corner_radii;
        &&& rect.right.minus_req(radii.bottom_right.x)
        &&& rect.bottom.minus_req(radii.bottom_right.y)
        &&& rect.left.plus_req(radii.bottom_left.x)
        &&& rect.bottom.minus_req(radii.bottom_left.y)
        &&& rect.left.plus_req(radii.top_left.x)
        &&& rect.top.plus_req(radii.top_left.y)
        &&& rect.right.minus_req(radii.top_right.x)
        &&& rect.top.plus_req(radii.top_right.y)
    }

    /// The model of [`SuperellipseRect::superellipse_corners`]: each corner's
    /// superellipse keeps that corner's radius and exponent, and its center
    /// is the rectangle corner moved inward by the radius on both axes.
    pub open spec fn superellipse_corners_spec(self) -> Corners<Superellipse<T>> {
        let rect = self.rounded_rect.rect;
        let radii = self.rounded_rect.corner_radii;
        Corners {
            top_left: Superellipse {
                exponent: self.corner_exponents.top_left,
                center: Point {
                    x: rect.left.plus_spec(radii.top_left.x),
                    y: rect.top.plus_spec(radii.top_left.y),
                },
                radius: radii.top_left,
            },
            top_right: Superellipse {
                exponent: self.corner_exponents.top_right,
                center: Point {
                    x: rect.right.minus_spec(radii.top_right.x),
                    y: rect.top.plus_spec(radii.top_right.y),
                },
                radius: radii.top_right,
            },
            bottom_left: Superellipse {
                exponent: self.corner_exponents.bottom_left,
                center: Point {
                    x: rect.left.plus_spec(radii.bottom_left.x),
                    y: rect.bottom.minus_spec(radii.bottom_left.y),
                },
                radius: radii.bottom_left,
            },
            bottom_right: Superellipse {
                exponent: self.corner_exponents.bottom_right,
                center: Point {
                    x: rect.right.minus_spec(radii.bottom_right.x),
                    y: rect.bottom.minus_spec(radii.bottom_right.y),
                },
                radius: radii.bottom_right,
            },
        }
    }

    /// The four per-corner superellipse descriptors of this squircle.
    pub fn superellipse_corners(&self) -> (cs: Corners<Superellipse<T>>)
        requires
            self.superellipse_corners_req(),
        ensures
            cs == self.superellipse_corners_spec(),
    {
        let rect = self.rounded_rect.rect;
        let radii = self.rounded_rect.corner_radii;
        Corners {
            top_left: Superellipse {
                exponent: self.corner_exponents.top_left,
                center: Point {
                    x: rect.left.plus(radii.top_left.x),
                    y: rect.top.plus(radii.top_left.y),
                },
                radius: radii.top_left,
            },
            top_right: Superellipse {
                exponent: self.corner_exponents.top_right,
                center: Point {
                    x: rect.right.minus(radii.top_right.x),
                    y: rect.top.plus(radii.top_right.y),
                },
                radius: radii.top_right,
            },
            bottom_left: Superellipse {
                exponent: self.corner_exponents.bottom_left,
                center: Point {
                    x: rect.left.plus(radii.bottom_left.x),
                    y: rect.bottom.minus(radii.bottom_left.y),
                },
                radius: radii.bottom_left,
            },
            bottom_right: Superellipse {
                exponent: self.corner_exponents.bottom_right,
                center: Point {
                    x: rect.right.minus(radii.bottom_right.x),
                    y: rect.bottom.minus(radii.bottom_right.y),
                },
                radius: radii.bottom_right,
            },
        }
    }

    /// Whether composing the full boundary is within the scalar's domain.
    pub open spec fn points_req(self) -> bool {
        &&& self.superellipse_corners_req()
        &&& self.superellipse_corners_spec().bottom_right.range_req(0, 90)
        &&& self.superellipse_corners_spec().bottom_left.range_req(90, 180)
        &&& self.superellipse_corners_spec().top_left.range_req(180, 270)
        &&& self.superellipse_corners_spec().top_right.range_req(270, 360)
    }

    /// The closed boundary of the squircle: the four corner curves sampled
    /// over their fixed 90 degree sectors — bottom right over 0..=90, bottom
    /// left over 90..=180, top left over 180..=270, top right over 270..=360
    /// — and concatenated in that order.  91 samples per sector, both sector
    /// endpoints included, 364 points in all; no point is deduplicated at the
    /// seams, and closing the path back to the first point is the consumer's
    /// step.
    pub fn points(&self) -> (ps: Vec<Point<T>>)
        requires
            self.points_req(),
        ensures
            ps@.len() == 364,
            forall|i: int|
                0 <= i < 91 ==> ps@[i] == self.superellipse_corners_spec().bottom_right.point_spec(
                    i as u32,
                ),
            forall|i: int|
                91 <= i < 182 ==> ps@[i]
                    == self.superellipse_corners_spec().bottom_left.point_spec((i - 1) as u32),
            forall|i: int|
                182 <= i < 273 ==> ps@[i] == self.superellipse_corners_spec().top_left.point_spec(
                    (i - 2) as u32,
                ),
            forall|i: int|
                273 <= i < 364 ==> ps@[i] == self.superellipse_corners_spec().top_right.point_spec(
                    (i - 3) as u32,
                ),
    {
        let cs = self.superellipse_corners();
        let mut ps = cs.bottom_right.range_points(0, 90);
        let mut bottom_left_points = cs.bottom_left.range_points(90, 180);
        let mut top_left_points = cs.top_left.range_points(180, 270);
        let mut top_right_points = cs.top_right.range_points(270, 360);
        ps.append(&mut bottom_left_points);
        ps.append(&mut top_left_points);
        ps.append(&mut top_right_points);
        ps
    }

    /// Whether insetting this squircle by four edge offsets is within the
    /// scalar's domain.
    pub open spec fn inset_req(self, inset: Rect<T>) -> bool {
        let radii = self.rounded_rect.corner_radii;
        let exponents = self.corner_exponents;
        &&& self.rounded_rect.rect.inset_req(inset)
        &&& inset_corner_req(
            radii.top_left,
            exponents.top_left,
            Point { x: inset.left, y: inset.top },
        )
        &&& inset_corner_req(
            radii.top_right,
            exponents.top_right,
            Point { x: inset.right, y: inset.top },
        )
        &&& inset_corner_req(
            radii.bottom_left,
            exponents.bottom_left,
            Point { x: inset.left, y: inset.bottom },
        )
        &&& inset_corner_req(
            radii.bottom_right,
            exponents.bottom_right,
            Point { x: inset.right, y: inset.bottom },
        )
    }

    /// The model of [`SuperellipseRect::inset`]: the rectangle inset edge by
    /// edge, every corner radius adjusted under its own exponent's sign
    /// regime by the offsets of its two edges, and every exponent kept.
    pub open spec fn inset_spec(self, inset: Rect<T>) -> SuperellipseRect<T> {
        let radii = self.rounded_rect.corner_radii;
        let exponents = self.corner_exponents;
        SuperellipseRect {
            rounded_rect: RoundedRect {
                rect: self.rounded_rect.rect.inset_spec(inset),
                corner_radii: Corners {
                    top_left: inset_corner_spec(
                        radii.top_left,
                        exponents.top_left,
                        Point { x: inset.left, y: inset.top },
                    ),
                    top_right: inset_corner_spec(
                        radii.top_right,
                        exponents.top_right,
                        Point { x: inset.right, y: inset.top },
                    ),
                    bottom_left: inset_corner_spec(
                        radii.bottom_left,
                        exponents.bottom_left,
                        Point { x: inset.left, y: inset.bottom },
                    ),
                    bottom_right: inset_corner_spec(
                        radii.bottom_right,
                        exponents.bottom_right,
                        Point { x: inset.right, y: inset.bottom },
                    ),
                },
            },
            corner_exponents: exponents,
        }
    }

    /// Shrinks (or, for negative offsets, grows) the squircle by four
    /// independent edge offsets, keeping each corner within its curve family.
    pub fn inset(&self, inset: Rect<T>) -> (r: SuperellipseRect<T>)
        requires
            self.inset_req(inset),
        ensures
            r == self.inset_spec(inset),
    {
        let radii = self.rounded_rect.corner_radii;
        let rect = self.rounded_rect.rect.inset(inset);
        let corner_radii = Corners {
            top_left: Self::inset_corner(
                radii.top_left,
                self.corner_exponents.top_left,
                Point { x: inset.left, y: inset.top },
            ),
            top_right: Self::inset_corner(
                radii.top_right,
                self.corner_exponents.top_right,
                Point { x: inset.right, y: inset.top },
            ),
            bottom_left: Self::inset_corner(
                radii.bottom_left,
                self.corner_exponents.bottom_left,
                Point { x: inset.left, y: inset.bottom },
            ),
            bottom_right: Self::inset_corner(
                radii.bottom_right,
                self.corner_exponents.bottom_right,
                Point { x: inset.right, y: inset.bottom },
            ),
        };
        SuperellipseRect {
            rounded_rect: RoundedRect { rect, corner_radii },
            corner_exponents: self.corner_exponents,
        }
    }

    /// Whether insetting this squircle symmetrically is within the scalar's
    /// domain.
    pub open spec fn inset_symmetrical_req(self, inset: Point<T>) -> bool {
        let radii = self.rounded_rect.corner_radii;
        let exponents = self.corner_exponents;
        &&& self.rounded_rect.rect.inset_symmetrical_req(inset)
        &&& inset_corner_req(radii.top_left, exponents.top_left, inset)
        &&& inset_corner_req(radii.top_right, exponents.top_right, inset)
        &&& inset_corner_req(radii.bottom_left, exponents.bottom_left, inset)
        &&& inset_corner_req(radii.bottom_right, exponents.bottom_right, inset)
    }

    /// The model of [`SuperellipseRect::inset_symmetrical`]: the rectangle
    /// inset symmetrically and every corner radius adjusted by the same
    /// offset pair under its own exponent's sign regime.
    pub open spec fn inset_symmetrical_spec(self, inset: Point<T>) -> SuperellipseRect<T> {
        let radii = self.rounded_rect.corner_radii;
        let exponents = self.corner_exponents;
        SuperellipseRect {
            rounded_rect: RoundedRect {
                rect: self.rounded_rect.rect.inset_symmetrical_spec(inset),
                corner_radii: Corners {
                    top_left: inset_corner_spec(radii.top_left, exponents.top_left, inset),
                    top_right: inset_corner_spec(radii.top_right, exponents.top_right, inset),
                    bottom_left: inset_corner_spec(radii.bottom_left, exponents.bottom_left, inset),
                    bottom_right: inset_corner_spec(
                        radii.bottom_right,
                        exponents.bottom_right,
                        inset,
                    ),
                },
            },
            corner_exponents: exponents,
        }
    }

    /// Shrinks (or grows) the squircle by one symmetrical offset pair,
    /// keeping each corner within its curve family.
    pub fn inset_symmetrical(&self, inset: Point<T>) -> (r: SuperellipseRect<T>)
        requires
            self.inset_symmetrical_req(inset),
        ensures
            r == self.inset_symmetrical_spec(inset),
    {
        let radii = self.rounded_rect.corner_radii;
        let rect = self.rounded_rect.rect.inset_symmetrical(inset);
        let corner_radii = Corners {
            top_left: Self::inset_corner(radii.top_left, self.corner_exponents.top_left, inset),
            top_right: Self::inset_corner(radii.top_right, self.corner_exponents.top_right, inset),
            bottom_left: Self::inset_corner(
                radii.bottom_left,
                self.corner_exponents.bottom_left,
                inset,
            ),
            bottom_right: Self::inset_corner(
                radii.bottom_right,
                self.corner_exponents.bottom_right,
                inset,
            ),
        };
        SuperellipseRect {
            rounded_rect: RoundedRect { rect, corner_radii },
            corner_exponents: self.corner_exponents,
        }
    }

    /// One corner radius after an inset: shrunk for the convex exponent
    /// family, grown for the rhombus and concave family.
    fn inset_corner(radius: Point<T>, exponent: T, inset: Point<T>) -> (r: Point<T>)
        requires
            inset_corner_req(radius, exponent, inset),
        ensures
            r == inset_corner_spec(radius, exponent, inset),
    {
        if exponent.gt_one() {
            radius.sub(inset)
        } else {
            radius.add(inset)
        }
    }
}

/// Composed with the exact integer scalar, the boundary starts and ends on
/// the rectangle's right edge: the bottom-right corner curve's sample at 0
/// degrees opens the sequence there, and the top-right corner curve's sample
/// at 360 degrees closes it there, one corner-radius above the bottom and
/// below the top respectively.
pub proof fn lemma_winding_endpoints(sq: SuperellipseRect<i64>)
    requires
        sq.superellipse_corners_req(),
        sq.superellipse_corners_spec().bottom_right.point_req(0),
        sq.superellipse_corners_spec().top_right.point_req(360),
    ensures
        sq.superellipse_corners_spec().bottom_right.point_spec(0) == (Point {
            x: sq.rounded_rect.rect.right,
            y: sq.rounded_rect.rect.bottom.minus_spec(sq.rounded_rect.corner_radii.bottom_right.y),
        }),
        sq.superellipse_corners_spec().top_right.point_spec(360) == (Point {
            x: sq.rounded_rect.rect.right,
            y: sq.rounded_rect.rect.top.plus_spec(sq.rounded_rect.corner_radii.top_right.y),
        }),
{
    let br = sq.rounded_rect.corner_radii.bottom_right;
    let tr = sq.rounded_rect.corner_radii.top_right;
    assert(1 * (br.x as int) == br.x as int) by (nonlinear_arith);
    assert(0 * (br.y as int) == 0) by (nonlinear_arith);
    assert(1 * (tr.x as int) == tr.x as int) by (nonlinear_arith);
    assert(0 * (tr.y as int) == 0) by (nonlinear_arith);
}

impl<T: Scalar> RoundedRect<T> {
    /// This rounded rectangle with one curve exponent attached to each
    /// corner.
    pub fn with_superellipse_corners(self, corner_exponents: Corners<T>) -> (r: SuperellipseRect<
        T,
    >)
        ensures
            r.rounded_rect == self,
            r.corner_exponents == corner_exponents,
    {
        SuperellipseRect { rounded_rect: self, corner_exponents }
    }
}

} // verus!
