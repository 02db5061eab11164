use ezgui::geometry::{Circle, Distance, Line, Polygon, Pt2D, TRIANGLES_PER_CIRCLE, div_trunc, isqrt};

#[test]
fn isqrt_exact_squares() {
    assert_eq!(isqrt(0), 0);
    assert_eq!(isqrt(1), 1);
    assert_eq!(isqrt(144), 12);
    assert_eq!(isqrt(143), 11);
    assert_eq!(isqrt(145), 12);
    assert_eq!(isqrt(u64::MAX), 0xFFFF_FFFF);
}

#[test]
fn div_trunc_rounds_toward_zero() {
    assert_eq!(div_trunc(7, 2), 3);
    assert_eq!(div_trunc(-7, 2), -3);
    assert_eq!(div_trunc(6, 3), 2);
    assert_eq!(div_trunc(-6, 3), -2);
    assert_eq!(div_trunc(0, 5), 0);
}

#[test]
fn line_length_three_four_five() {
    let l = Line::new(Pt2D::new(0, 0), Pt2D::new(300, 400));
    assert_eq!(l.length().units, 500);
}

#[test]
fn line_length_rounds_down() {
    let l = Line::new(Pt2D::new(0, 0), Pt2D::new(1, 1));
    assert_eq!(l.length().units, 1);
}

#[test]
fn horizontal_line_quad() {
    let l = Line::new(Pt2D::new(0, 0), Pt2D::new(1000, 0));
    let p = l.make_polygons(Distance::units(10));
    assert_eq!(p.triangles.len(), 2);
    // Perpendicular offset is (0, 5): the quad runs from y = 5 to y = -5.
    let t0 = p.triangles[0];
    let t1 = p.triangles[1];
    assert_eq!(t0.pt1, Pt2D::new(0, 5));
    assert_eq!(t0.pt2, Pt2D::new(1000, 5));
    assert_eq!(t0.pt3, Pt2D::new(1000, -5));
    assert_eq!(t1.pt1, Pt2D::new(0, 5));
    assert_eq!(t1.pt2, Pt2D::new(1000, -5));
    assert_eq!(t1.pt3, Pt2D::new(0, -5));
}

#[test]
fn circle_tessellation_has_sixty_triangles() {
    let c = Circle::new(Pt2D::new(100, 200), Distance::units(50));
    let p = c.to_polygon(TRIANGLES_PER_CIRCLE);
    assert_eq!(p.num_triangles(), 60);
    // Every triangle is fanned from the center.
    for t in &p.triangles {
        assert_eq!(t.pt1, Pt2D::new(100, 200));
    }
    // The rim starts at the rightmost point and wraps around to it.
    assert_eq!(p.triangles[0].pt2, Pt2D::new(150, 200));
    assert_eq!(p.triangles[59].pt3, Pt2D::new(150, 200));
    // A quarter of the way around, the rim is at the bottom of the circle.
    assert_eq!(c.point_at(15), Pt2D::new(100, 250));
}

#[test]
fn arrow_has_body_and_head() {
    let l = Line::new(Pt2D::new(0, 0), Pt2D::new(1000, 0));
    let polys = l.make_arrow(Distance::units(10));
    assert_eq!(polys.len(), 2);
    assert_eq!(polys[0].triangles.len(), 2);
    assert_eq!(polys[1].triangles.len(), 1);
    let head = polys[1].triangles[0];
    assert_eq!(head.pt1, Pt2D::new(1000, 0));
    assert_eq!(head.pt2, Pt2D::new(980, 10));
    assert_eq!(head.pt3, Pt2D::new(980, -10));
}

#[test]
fn rectangle_corners() {
    let p = Polygon::rectangle(10, 20, 30, 40);
    assert_eq!(p.triangles.len(), 2);
    assert_eq!(p.triangles[0].pt1, Pt2D::new(10, 20));
    assert_eq!(p.triangles[0].pt2, Pt2D::new(40, 20));
    assert_eq!(p.triangles[0].pt3, Pt2D::new(40, 60));
    assert_eq!(p.triangles[1].pt3, Pt2D::new(10, 60));
}

#[test]
fn distance_half_rounds_down() {
    assert_eq!(Distance::units(10).half().units, 5);
    assert_eq!(Distance::units(9).half().units, 4);
}
