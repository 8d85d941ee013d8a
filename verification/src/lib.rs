//! Superellipse (Lamé curve) boundaries and squircle rounded rectangles.
//!
//! The curve family is evaluated over an abstract coordinate scalar, so the
//! placement, winding and inset logic is verified once for every scalar.
//! An exact integer scalar lives in this crate; richer numeric scalars can be
//! supplied by the host application.

pub mod compose;
pub mod curve;
pub mod geometry;
pub mod partial;
pub mod scalar;

pub use compose::SuperellipseRect;
pub use curve::parametric_equation;
pub use curve::Superellipse;
pub use geometry::Corners;
pub use geometry::Point;
pub use geometry::Rect;
pub use geometry::RoundedRect;
pub use scalar::Scalar;
