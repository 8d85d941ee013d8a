//! Points, rectangles and per-corner value sets.

use vstd::prelude::*;

use crate::scalar::Scalar;

verus! {

/// An ordered pair of coordinates.  A pure value: two points are the same
/// point exactly when both coordinates agree.
#[derive(Debug, Clone, Copy, PartialEq)]
pub struct Point<T> {
    pub x: T,
    pub y: T,
}

impl<T: Scalar> Point<T> {
    /// Whether the componentwise sum `self + rhs` is within the scalar's domain.
    pub open spec fn add_req(self, rhs: Point<T>) -> bool {
        self.x.plus_req(rhs.x) && self.y.plus_req(rhs.y)
    }

    /// The model of the componentwise sum.
    pub open spec fn add_spec(self, rhs: Point<T>) -> Point<T> {
        Point { x: self.x.plus_spec(rhs.x), y: self.y.plus_spec(rhs.y) }
    }

    /// Whether the componentwise difference `self - rhs` is within the
    /// scalar's domain.
    pub open spec fn sub_req(self, rhs: Point<T>) -> bool {
        self.x.minus_req(rhs.x) && self.y.minus_req(rhs.y)
    }

    /// The model of the componentwise difference.
    pub open spec fn sub_spec(self, rhs: Point<T>) -> Point<T> {
        Point { x: self.x.minus_spec(rhs.x), y: self.y.minus_spec(rhs.y) }
    }

    /// Componentwise addition.
    pub fn add(self, rhs: Point<T>) -> (r: Point<T>)
        requires
            self.add_req(rhs),
        ensures
            r == self.add_spec(rhs),
    {
        Point { x: self.x.plus(rhs.x), y: self.y.plus(rhs.y) }
    }

    /// Componentwise subtraction.
    pub fn sub(self, rhs: Point<T>) -> (r: Point<T>)
        requires
            self.sub_req(rhs),
        ensures
            r == self.sub_spec(rhs),
    {
        Point { x: self.x.minus(rhs.x), y: self.y.minus(rhs.y) }
    }
}

/// One value per rectangle corner, in four fixed named slots.
#[derive(Debug, Clone, Copy, PartialEq)]
pub struct Corners<T> {
    pub top_left: T,
    pub top_right: T,
    pub bottom_left: T,
    pub bottom_right: T,
}

impl<T: Copy> Corners<T> {
    /// The corner set whose four slots all hold `value`.
    pub fn all(value: T) -> (c: Corners<T>)
        ensures
            c.top_left == value,
            c.top_right == value,
            c.bottom_left == value,
            c.bottom_right == value,
    {
        Corners { top_left: value, top_right: value, bottom_left: value, bottom_right: value }
    }
}

/// An axis-aligned rectangle, held as its four edge coordinates.
///
/// Nothing here demands `left <= right` or `top <= bottom`: an inverted
/// rectangle flows through every operation and yields a geometrically
/// inverted, still well-defined, result.
#[derive(Debug, Clone, Copy, PartialEq)]
pub struct Rect<T> {
    pub left: T,
    pub right: T,
    pub top: T,
    pub bottom: T,
}

impl<T: Scalar> Rect<T> {
    /// Whether `right - left` is within the scalar's domain.
    pub open spec fn width_req(self) -> bool {
        self.right.minus_req(self.left)
    }

    /// The model of `right - left`.
    pub open spec fn width_spec(self) -> T {
        self.right.minus_spec(self.left)
    }

    /// Whether `bottom - top` is within the scalar's domain.
    pub open spec fn height_req(self) -> bool {
        self.bottom.minus_req(self.top)
    }

    /// The model of `bottom - top`.
    pub open spec fn height_spec(self) -> T {
        self.bottom.minus_spec(self.top)
    }

    /// The horizontal extent, `right - left`.
    pub fn width(&self) -> (w: T)
        requires
            self.width_req(),
        ensures
            w == self.width_spec(),
    {
        self.right.minus(self.left)
    }

    /// The vertical extent, `bottom - top`.
    pub fn height(&self) -> (h: T)
        requires
            self.height_req(),
        ensures
            h == self.height_spec(),
    {
        self.bottom.minus(self.top)
    }

    /// The corner where the left and top edges meet.
    pub fn top_left(&self) -> (p: Point<T>)
        ensures
            p == (Point { x: self.left, y: self.top }),
    {
        Point { x: self.left, y: self.top }
    }

    /// The corner where the right and top edges meet.
    pub fn top_right(&self) -> (p: Point<T>)
        ensures
            p == (Point { x: self.right, y: self.top }),
    {
        Point { x: self.right, y: self.top }
    }

    /// The corner where the left and bottom edges meet.
    pub fn bottom_left(&self) -> (p: Point<T>)
        ensures
            p == (Point { x: self.left, y: self.bottom }),
    {
        Point { x: self.left, y: self.bottom }
    }

    /// The corner where the right and bottom edges meet.
    pub fn bottom_right(&self) -> (p: Point<T>)
        ensures
            p == (Point { x: self.right, y: self.bottom }),
    {
        Point { x: self.right, y: self.bottom }
    }

    /// Whether every edge adjustment of [`Rect::inset`] is within the
    /// scalar's domain.
    pub open spec fn inset_req(self, inset: Rect<T>) -> bool {
        &&& self.left.plus_req(inset.left)
        &&& self.right.minus_req(inset.right)
        &&& self.top.plus_req(inset.top)
        &&& self.bottom.minus_req(inset.bottom)
    }

    /// The model of [`Rect::inset`]: each edge moved inward by its own
    /// offset.
    pub open spec fn inset_spec(self, inset: Rect<T>) -> Rect<T> {
        Rect {
            left: self.left.plus_spec(inset.left),
            right: self.right.minus_spec(inset.right),
            top: self.top.plus_spec(inset.top),
            bottom: self.bottom.minus_spec(inset.bottom),
        }
    }

    /// Shrinks the rectangle by four independent edge offsets; a negative
    /// offset grows that edge outward.
    pub fn inset(&self, inset: Rect<T>) -> (r: Rect<T>)
        requires
            self.inset_req(inset),
        ensures
            r == self.inset_spec(inset),
    {
        Rect {
            left: self.left.plus(inset.left),
            right: self.right.minus(inset.right),
            top: self.top.plus(inset.top),
            bottom: self.bottom.minus(inset.bottom),
        }
    }

    /// Whether every edge adjustment of [`Rect::inset_symmetrical`] is within
    /// the scalar's domain.
    pub open spec fn inset_symmetrical_req(self, inset: Point<T>) -> bool {
        &&& self.left.plus_req(inset.x)
        &&& self.right.minus_req(inset.x)
        &&& self.top.plus_req(inset.y)
        &&& self.bottom.minus_req(inset.y)
    }

    /// The model of [`Rect::inset_symmetrical`]: both horizontal edges moved
    /// by `inset.x`, both vertical edges by `inset.y`.
    pub open spec fn inset_symmetrical_spec(self, inset: Point<T>) -> Rect<T> {
        Rect {
            left: self.left.plus_spec(inset.x),
            right: self.right.minus_spec(inset.x),
            top: self.top.plus_spec(inset.y),
            bottom: self.bottom.minus_spec(inset.y),
        }
    }

    /// Shrinks the rectangle by one symmetrical offset pair; negative offsets
    /// grow it.
    pub fn inset_symmetrical(&self, inset: Point<T>) -> (r: Rect<T>)
        requires
            self.inset_symmetrical_req(inset),
        ensures
            r == self.inset_symmetrical_spec(inset),
    {
        Rect {
            left: self.left.plus(inset.x),
            right: self.right.minus(inset.x),
            top: self.top.plus(inset.y),
            bottom: self.bottom.minus(inset.y),
        }
    }
}

/// A rectangle with one elliptical radius per corner: the traditional
/// rounded rectangle, before any exponent is attached.
#[derive(Debug, Clone, Copy, PartialEq)]
pub struct RoundedRect<T> {
    pub rect: Rect<T>,
    pub corner_radii: Corners<Point<T>>,
}

impl<T: Scalar> RoundedRect<T> {
    /// Whether every adjustment of [`RoundedRect::inset`] is within the
    /// scalar's domain.
    pub open spec fn inset_req(self, inset: Rect<T>) -> bool {
        &&& self.rect.inset_req(inset)
        &&& self.corner_radii.top_left.sub_req(Point { x: inset.left, y: inset.top })
        &&& self.corner_radii.top_right.sub_req(Point { x: inset.right, y: inset.top })
        &&& self.corner_radii.bottom_left.sub_req(Point { x: inset.left, y: inset.bottom })
        &&& self.corner_radii.bottom_right.sub_req(Point { x: inset.right, y: inset.bottom })
    }

    /// The model of [`RoundedRect::inset`]: the rectangle inset edge by edge,
    /// and every corner radius shrunk by the offsets of the two edges that
    /// meet at that corner.
    pub open spec fn inset_spec(self, inset: Rect<T>) -> RoundedRect<T> {
        RoundedRect {
            rect: self.rect.inset_spec(inset),
            corner_radii: Corners {
                top_left: self.corner_radii.top_left.sub_spec(
                    Point { x: inset.left, y: inset.top },
                ),
                top_right: self.corner_radii.top_right.sub_spec(
                    Point { x: inset.right, y: inset.top },
                ),
                bottom_left: self.corner_radii.bottom_left.sub_spec(
                    Point { x: inset.left, y: inset.bottom },
                ),
                bottom_right: self.corner_radii.bottom_right.sub_spec(
                    Point { x: inset.right, y: inset.bottom },
                ),
            },
        }
    }

    /// Shrinks the rounded rectangle by four independent edge offsets,
    /// shrinking each corner radius along with its two edges.
    pub fn inset(&self, inset: Rect<T>) -> (r: RoundedRect<T>)
        requires
            self.inset_req(inset),
        ensures
            r == self.inset_spec(inset),
    {
        let rect = self.rect.inset(inset);
        let corner_radii = Corners {
            top_left: self.corner_radii.top_left.sub(Point { x: inset.left, y: inset.top }),
            top_right: self.corner_radii.top_right.sub(Point { x: inset.right, y: inset.top }),
            bottom_left: self.corner_radii.bottom_left.sub(
                Point { x: inset.left, y: inset.bottom },
            ),
            bottom_right: self.corner_radii.bottom_right.sub(
                Point { x: inset.right, y: inset.bottom },
            ),
        };
        RoundedRect { rect, corner_radii }
    }

    /// Whether every adjustment of [`RoundedRect::inset_symmetrical`] is
    /// within the scalar's domain.
    pub open spec fn inset_symmetrical_req(self, inset: Point<T>) -> bool {
        &&& self.rect.inset_symmetrical_req(inset)
        &&& self.corner_radii.top_left.sub_req(inset)
        &&& self.corner_radii.top_right.sub_req(inset)
        &&& self.corner_radii.bottom_left.sub_req(inset)
        &&& self.corner_radii.bottom_right.sub_req(inset)
    }

    /// The model of [`RoundedRect::inset_symmetrical`]: the rectangle inset
    /// symmetrically and every corner radius shrunk by the same offset pair.
    pub open spec fn inset_symmetrical_spec(self, inset: Point<T>) -> RoundedRect<T> {
        RoundedRect {
            rect: self.rect.inset_symmetrical_spec(inset),
            corner_radii: Corners {
                top_left: self.corner_radii.top_left.sub_spec(inset),
                top_right: self.corner_radii.top_right.sub_spec(inset),
                bottom_left: self.corner_radii.bottom_left.sub_spec(inset),
                bottom_right: self.corner_radii.bottom_right.sub_spec(inset),
            },
        }
    }

    /// Shrinks the rounded rectangle by one symmetrical offset pair,
    /// shrinking every corner radius by the same pair.
    pub fn inset_symmetrical(&self, inset: Point<T>) -> (r: RoundedRect<T>)
        requires
            self.inset_symmetrical_req(inset),
        ensures
            r == self.inset_symmetrical_spec(inset),
    {
        let rect = self.rect.inset_symmetrical(inset);
        let corner_radii = Corners {
            top_left: self.corner_radii.top_left.sub(inset),
            top_right: self.corner_radii.top_right.sub(inset),
            bottom_left: self.corner_radii.bottom_left.sub(inset),
            bottom_right: self.corner_radii.bottom_right.sub(inset),
        };
        RoundedRect { rect, corner_radii }
    }
}

} // verus!
