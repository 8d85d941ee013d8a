use superellipse::Corners;
use superellipse::Point;
use superellipse::Rect;
use superellipse::RoundedRect;
use superellipse::SuperellipseRect;

fn square_squircle(exponent: i64) -> SuperellipseRect<i64> {
    let rect = Rect { left: 0, right: 100, top: 0, bottom: 100 };
    let corner_radii = Corners::all(Point { x: 20, y: 20 });
    RoundedRect { rect, corner_radii }.with_superellipse_corners(Corners::all(exponent))
}

#[test]
fn rect_getters_follow_the_edges() {
    let rect = Rect { left: 1i64, right: 11i64, top: 2i64, bottom: 22i64 };
    assert_eq!(rect.width(), 10);
    assert_eq!(rect.height(), 20);
    assert_eq!(rect.top_left(), Point { x: 1, y: 2 });
    assert_eq!(rect.top_right(), Point { x: 11, y: 2 });
    assert_eq!(rect.bottom_left(), Point { x: 1, y: 22 });
    assert_eq!(rect.bottom_right(), Point { x: 11, y: 22 });
}

#[test]
fn inverted_rect_has_negative_extent() {
    let rect = Rect { left: 10i64, right: 0i64, top: 20i64, bottom: 0i64 };
    assert_eq!(rect.width(), -10);
    assert_eq!(rect.height(), -20);
}

#[test]
fn point_arithmetic_is_componentwise() {
    let a = Point { x: 1i64, y: 2i64 };
    let b = Point { x: 10i64, y: -20i64 };
    assert_eq!(a.add(b), Point { x: 11, y: -18 });
    assert_eq!(a.sub(b), Point { x: -9, y: 22 });
}

#[test]
fn rect_inset_moves_each_edge_inward() {
    let rect = Rect { left: 0i64, right: 100i64, top: 0i64, bottom: 50i64 };
    let inset = Rect { left: 1, right: 2, top: 3, bottom: 4 };
    assert_eq!(rect.inset(inset), Rect { left: 1, right: 98, top: 3, bottom: 46 });
    assert_eq!(
        rect.inset_symmetrical(Point { x: 5, y: 7 }),
        Rect { left: 5, right: 95, top: 7, bottom: 43 },
    );
}

#[test]
fn negative_inset_grows_the_rect() {
    let rect = Rect { left: 0i64, right: 100i64, top: 0i64, bottom: 50i64 };
    assert_eq!(
        rect.inset_symmetrical(Point { x: -5, y: -7 }),
        Rect { left: -5, right: 105, top: -7, bottom: 57 },
    );
}

#[test]
fn rounded_rect_inset_shrinks_every_radius() {
    let rect = Rect { left: 0i64, right: 100i64, top: 0i64, bottom: 100i64 };
    let rr = RoundedRect { rect, corner_radii: Corners::all(Point { x: 20, y: 20 }) };
    let out = rr.inset_symmetrical(Point { x: 5, y: 7 });
    assert_eq!(out.rect, Rect { left: 5, right: 95, top: 7, bottom: 93 });
    assert_eq!(out.corner_radii.top_left, Point { x: 15, y: 13 });
    assert_eq!(out.corner_radii.bottom_right, Point { x: 15, y: 13 });

    let edges = Rect { left: 1, right: 2, top: 3, bottom: 4 };
    let out = rr.inset(edges);
    assert_eq!(out.corner_radii.top_left, Point { x: 19, y: 17 });
    assert_eq!(out.corner_radii.top_right, Point { x: 18, y: 17 });
    assert_eq!(out.corner_radii.bottom_left, Point { x: 19, y: 16 });
    assert_eq!(out.corner_radii.bottom_right, Point { x: 18, y: 16 });
}

#[test]
fn corner_descriptors_sit_inward_of_their_corners() {
    let sq = square_squircle(2);
    let cs = sq.superellipse_corners();
    assert_eq!(cs.bottom_right.center, Point { x: 80, y: 80 });
    assert_eq!(cs.bottom_left.center, Point { x: 20, y: 80 });
    assert_eq!(cs.top_left.center, Point { x: 20, y: 20 });
    assert_eq!(cs.top_right.center, Point { x: 80, y: 20 });
    assert_eq!(cs.top_right.radius, Point { x: 20, y: 20 });
    assert_eq!(cs.top_right.exponent, 2);
}

#[test]
fn composed_boundary_has_four_full_sectors() {
    let ps = square_squircle(2).points();
    assert_eq!(ps.len(), 364);
}

#[test]
fn composed_boundary_winds_clockwise_from_the_bottom_right_sector() {
    let ps = square_squircle(2).points();
    // bottom-right sector, 0 degrees
    assert_eq!(ps[0], Point { x: 100, y: 80 });
    // bottom-right sector, 90 degrees
    assert_eq!(ps[90], Point { x: 80, y: 100 });
    // bottom-left sector starts at its own 90 degree sample: no deduplication
    assert_eq!(ps[91], Point { x: 20, y: 100 });
    // top-left sector, 180 degrees
    assert_eq!(ps[182], Point { x: 0, y: 20 });
    // top-right sector, 270 degrees
    assert_eq!(ps[273], Point { x: 80, y: 0 });
    // top-right sector, 360 degrees: the final point
    assert_eq!(ps[363], Point { x: 100, y: 20 });
}

#[test]
fn convex_exponent_shrinks_radii_on_inset() {
    let sq = square_squircle(4);
    let out = sq.inset_symmetrical(Point { x: 5, y: 5 });
    assert_eq!(out.rounded_rect.rect, Rect { left: 5, right: 95, top: 5, bottom: 95 });
    assert_eq!(out.rounded_rect.corner_radii.top_left, Point { x: 15, y: 15 });
    assert_eq!(out.rounded_rect.corner_radii.bottom_right, Point { x: 15, y: 15 });
    assert_eq!(out.corner_exponents, Corners::all(4));
}

#[test]
fn concave_exponent_grows_radii_on_inset() {
    let sq = square_squircle(0);
    let out = sq.inset_symmetrical(Point { x: 5, y: 5 });
    assert_eq!(out.rounded_rect.corner_radii.top_left, Point { x: 25, y: 25 });
    assert_eq!(out.rounded_rect.corner_radii.bottom_left, Point { x: 25, y: 25 });
}

#[test]
fn rhombus_exponent_belongs_to_the_growing_regime() {
    let sq = square_squircle(1);
    let out = sq.inset_symmetrical(Point { x: 5, y: 5 });
    assert_eq!(out.rounded_rect.corner_radii.top_right, Point { x: 25, y: 25 });
}

#[test]
fn edgewise_squircle_inset_uses_each_corner_edges() {
    let sq = square_squircle(4);
    let edges = Rect { left: 1, right: 2, top: 3, bottom: 4 };
    let out = sq.inset(edges);
    assert_eq!(out.rounded_rect.rect, Rect { left: 1, right: 98, top: 3, bottom: 96 });
    assert_eq!(out.rounded_rect.corner_radii.top_left, Point { x: 19, y: 17 });
    assert_eq!(out.rounded_rect.corner_radii.top_right, Point { x: 18, y: 17 });
    assert_eq!(out.rounded_rect.corner_radii.bottom_left, Point { x: 19, y: 16 });
    assert_eq!(out.rounded_rect.corner_radii.bottom_right, Point { x: 18, y: 16 });
}

#[test]
fn degenerate_corner_radius_repeats_the_rect_corner() {
    let rect = Rect { left: 0i64, right: 100i64, top: 0i64, bottom: 100i64 };
    let corner_radii = Corners {
        top_left: Point { x: 20, y: 20 },
        top_right: Point { x: 20, y: 20 },
        bottom_left: Point { x: 20, y: 20 },
        bottom_right: Point { x: 0, y: 0 },
    };
    let sq = RoundedRect { rect, corner_radii }.with_superellipse_corners(Corners::all(2));
    let ps = sq.points();
    // the whole bottom-right sector collapses to the rectangle corner
    for i in 0..91 {
        assert_eq!(ps[i], Point { x: 100, y: 100 });
    }
}
