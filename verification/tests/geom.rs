//! Tests for the validated 2D geometry utilities.

use squiggly_shapes::geom::{Ellipse, Geom, Triangle, AABB, P2D};

#[test]
fn p2d_new_sets_coordinates() {
    let p = P2D::new(3, -7);
    assert_eq!(p.x, 3);
    assert_eq!(p.y, -7);
}

#[test]
fn distance_between_squared_example() {
    let p1 = P2D::new(1, 4);
    let p2 = P2D::new(5, 7);
    let d = P2D::distance_between_squared(&p1, &p2);
    assert_eq!(d, 25);
    // The true distance between the floating-point equivalents.
    assert_eq!((d as f32).sqrt(), 5.0);
}

#[test]
fn distance_between_exact_on_perfect_squares() {
    let p1 = P2D::new(1, 4);
    let p2 = P2D::new(5, 7);
    assert_eq!(P2D::distance_between(&p1, &p2), 5);
    let o = P2D::new(0, 0);
    assert_eq!(P2D::distance_between(&o, &P2D::new(300, 400)), 500);
}

#[test]
fn distance_between_rounds_down() {
    let o = P2D::new(0, 0);
    // sqrt(2) = 1.41..., floor 1.
    assert_eq!(P2D::distance_between(&o, &P2D::new(1, 1)), 1);
    // sqrt(8) = 2.82..., floor 2.
    assert_eq!(P2D::distance_between(&o, &P2D::new(2, 2)), 2);
    assert_eq!(P2D::distance_between(&o, &o), 0);
}

#[test]
fn aabb_rejects_zero_width() {
    assert!(AABB::new(P2D::new(0, 0), 0, 5).is_none());
}

#[test]
fn aabb_rejects_negative_height() {
    assert!(AABB::new(P2D::new(2, 3), 4, -1).is_none());
}

#[test]
fn aabb_accepts_positive_extents() {
    assert!(AABB::new(P2D::new(-10, 20), 30, 40).is_some());
}

#[test]
fn ellipse_rejects_negative_radius() {
    assert!(Ellipse::new(P2D::new(0, 0), -1, 5, 0).is_none());
}

#[test]
fn ellipse_rejects_zero_radius() {
    assert!(Ellipse::new(P2D::new(0, 0), 3, 0, 45).is_none());
}

#[test]
fn ellipse_accepts_positive_radii() {
    assert!(Ellipse::new(P2D::new(7, -8), 3, 5, 90).is_some());
}

#[test]
fn triangle_accepts_example() {
    let o = P2D::new(0, 0);
    let x = P2D::new(3, 0);
    let y = P2D::new(0, 4);
    let tri = Triangle::new(o, x, y, 1).unwrap();
    let area16 = tri.area();
    // The area measure is sixteen times the squared area: 16 * 6 * 6.
    assert_eq!(area16, 576);
    assert_eq!((area16 as f32 / 16.0).sqrt(), 6.0);
}

#[test]
fn triangle_rejects_below_minimum_area() {
    let o = P2D::new(0, 0);
    let x = P2D::new(3, 0);
    let y = P2D::new(0, 4);
    assert!(Triangle::new(o, x, y, 577).is_none());
}

#[test]
fn triangle_rejects_degenerate_points() {
    // Collinear points span no area.
    let a = P2D::new(0, 0);
    let b = P2D::new(5, 5);
    let c = P2D::new(10, 10);
    assert!(Triangle::new(a, b, c, 1).is_none());
}

#[test]
fn geom_holds_either_shape() {
    let e = Ellipse::new(P2D::new(0, 0), 1, 1, 0).unwrap();
    let g = Geom::Ellipse(e);
    assert!(matches!(g, Geom::Ellipse(_)));
    let t = Triangle::new(P2D::new(0, 0), P2D::new(3, 0), P2D::new(0, 4), 1).unwrap();
    let g = Geom::Triangle(t);
    assert!(matches!(g, Geom::Triangle(_)));
}
