use superellipse::Corners;
use superellipse::Point;
use superellipse::Rect;
use superellipse::RoundedRect;
use superellipse::Scalar;
use superellipse::Superellipse;

/// A single-precision scalar, realising the curve factors with the real
/// trigonometric functions.
#[derive(Debug, Clone, Copy, PartialEq)]
struct Fs(f32);

impl Scalar for Fs {
    fn plus_req(self, _rhs: Self) -> bool {
        true
    }

    fn plus_spec(self, rhs: Self) -> Self {
        Fs(self.0 + rhs.0)
    }

    fn minus_req(self, _rhs: Self) -> bool {
        true
    }

    fn minus_spec(self, rhs: Self) -> Self {
        Fs(self.0 - rhs.0)
    }

    fn times_req(self, _rhs: Self) -> bool {
        true
    }

    fn times_spec(self, rhs: Self) -> Self {
        Fs(self.0 * rhs.0)
    }

    fn half_req(self) -> bool {
        true
    }

    fn half_spec(self) -> Self {
        Fs(self.0 / 2.0)
    }

    fn gt_one_spec(self) -> bool {
        self.0 > 1.0
    }

    fn factor_x_spec(self, degrees: u32) -> Self {
        self.curve_factors(degrees).0
    }

    fn factor_y_spec(self, degrees: u32) -> Self {
        self.curve_factors(degrees).1
    }

    fn plus(self, rhs: Self) -> Self {
        Fs(self.0 + rhs.0)
    }

    fn minus(self, rhs: Self) -> Self {
        Fs(self.0 - rhs.0)
    }

    fn times(self, rhs: Self) -> Self {
        Fs(self.0 * rhs.0)
    }

    fn half(self) -> Self {
        Fs(self.0 / 2.0)
    }

    fn gt_one(self) -> bool {
        self.0 > 1.0
    }

    fn curve_factors(self, degrees: u32) -> (Self, Self) {
        let radians = std::f32::consts::PI * degrees as f32 / 180.0;
        let fx = radians.cos().abs().powf(2.0 / self.0) * radians.cos().signum();
        let fy = radians.sin().abs().powf(2.0 / self.0) * radians.sin().signum();
        (Fs(fx), Fs(fy))
    }
}

fn fpoint(x: f32, y: f32) -> Point<Fs> {
    Point { x: Fs(x), y: Fs(y) }
}

fn close(a: f32, b: f32) -> bool {
    (a - b).abs() < 1e-3
}

#[test]
fn exponent_two_samples_an_ellipse() {
    let center = fpoint(3.0, -4.0);
    let radius = fpoint(10.0, 20.0);
    let s = Superellipse { exponent: Fs(2.0), center, radius };
    let mut d: u32 = 0;
    while d <= 360 {
        let radians = std::f32::consts::PI * d as f32 / 180.0;
        let p = s.point(d);
        assert!(close(p.x.0, center.x.0 + radius.x.0 * radians.cos()));
        assert!(close(p.y.0, center.y.0 + radius.y.0 * radians.sin()));
        d += 1;
    }
}

#[test]
fn opposite_float_samples_are_symmetric_about_the_center() {
    let center = fpoint(3.0, -4.0);
    let radius = fpoint(10.0, 20.0);
    let s = Superellipse { exponent: Fs(3.5), center, radius };
    // A fraction of a degree of rounding in the radian conversion is raised
    // to the power 2/exponent, so the symmetry holds to a looser tolerance
    // than the pointwise checks.
    let mut d: u32 = 0;
    while d < 360 {
        let p = s.point(d);
        let q = s.point(d + 180);
        assert!((q.x.0 - (2.0 * center.x.0 - p.x.0)).abs() < 1e-2);
        assert!((q.y.0 - (2.0 * center.y.0 - p.y.0)).abs() < 1e-2);
        d += 1;
    }
}

#[test]
fn float_sample_counts_are_inclusive() {
    let s = Superellipse { exponent: Fs(4.0), center: fpoint(0.0, 0.0), radius: fpoint(1.0, 1.0) };
    assert_eq!(s.range_points(0, 90).len(), 91);
    assert_eq!(s.points().len(), 360);
}

#[test]
fn float_degenerate_radius_repeats_the_center() {
    let s = Superellipse { exponent: Fs(4.0), center: fpoint(5.0, 6.0), radius: fpoint(0.0, 0.0) };
    for p in s.range_points(0, 90) {
        assert_eq!(p.x.0, 5.0);
        assert_eq!(p.y.0, 6.0);
    }
}

#[test]
fn zero_exponent_is_not_special_cased() {
    let s = Superellipse { exponent: Fs(0.0), center: fpoint(1.0, 2.0), radius: fpoint(10.0, 20.0) };
    // 2/0 is an infinite power: |cos|^inf is 1 on the axis and 0 between axes
    assert_eq!(s.point(0), fpoint(11.0, 2.0));
    assert_eq!(s.point(45), fpoint(1.0, 2.0));
}

fn float_square_squircle(exponent: f32) -> superellipse::SuperellipseRect<Fs> {
    let rect = Rect { left: Fs(0.0), right: Fs(100.0), top: Fs(0.0), bottom: Fs(100.0) };
    let corner_radii = Corners::all(fpoint(20.0, 20.0));
    RoundedRect { rect, corner_radii }.with_superellipse_corners(Corners::all(Fs(exponent)))
}

#[test]
fn float_composed_boundary_winds_from_bottom_right_to_top_right() {
    let ps = float_square_squircle(2.0).points();
    assert_eq!(ps.len(), 364);
    let first = ps[0];
    assert!(close(first.x.0, 100.0));
    assert!(close(first.y.0, 80.0));
    let last = ps[363];
    assert!(close(last.x.0, 100.0));
    assert!(close(last.y.0, 20.0));
}

#[test]
fn convex_float_inset_shrinks_radii() {
    let out = float_square_squircle(4.0).inset_symmetrical(fpoint(5.0, 5.0));
    assert_eq!(out.rounded_rect.corner_radii.top_left, fpoint(15.0, 15.0));
    assert_eq!(out.rounded_rect.corner_radii.bottom_right, fpoint(15.0, 15.0));
}

#[test]
fn concave_float_inset_grows_radii() {
    let out = float_square_squircle(0.5).inset_symmetrical(fpoint(5.0, 5.0));
    assert_eq!(out.rounded_rect.corner_radii.top_left, fpoint(25.0, 25.0));
    assert_eq!(out.rounded_rect.corner_radii.bottom_right, fpoint(25.0, 25.0));
}
