//! Validated 2D geometric primitives over integer coordinates.
//!
//! A point carries plain integer coordinates; squared distances, and hence
//! the triangle-area measure, are then exact.  The one operation the integer
//! model cannot give exactly, the Euclidean distance itself, is returned as
//! the floor of the true distance, pinned by its square.  Shape constructors
//! validate their input and yield no value when validation fails: a box or
//! an ellipse needs strictly positive extents, a triangle an area measure at
//! least the caller's minimum.

use vstd::prelude::*;

verus! {

/// Magnitude bound on point coordinates for the distance operations, so
/// that a squared distance fits a 64-bit signed integer.
pub const COORD_LIMIT: i64 = 1_000_000_000;

/// Magnitude bound on point coordinates for the triangle-area operations,
/// so that the products of squared side lengths fit a 64-bit signed
/// integer.
pub const TRI_COORD_LIMIT: i64 = 10_000;

/// A validated 2D shape.
pub enum Geom {
    /// An ellipse.
    Ellipse(Ellipse),
    /// A triangle.
    Triangle(Triangle),
}

/// 2D point.
#[derive(Clone, Copy, Debug, PartialEq, Eq, Structural)]
pub struct P2D {
    /// x-coordinate of the point.
    pub x: i64,
    /// y-coordinate of the point.
    pub y: i64,
}

/// Whether both coordinates of `p` lie within `limit` in magnitude.
pub open spec fn coords_within(p: P2D, limit: int) -> bool {
    &&& -limit <= p.x <= limit
    &&& -limit <= p.y <= limit
}

/// The square of the Euclidean distance between `p` and `q`.
pub open spec fn sq_dist(p: P2D, q: P2D) -> int {
    (p.x - q.x) * (p.x - q.x) + (p.y - q.y) * (p.y - q.y)
}

/// A squared distance is non-negative and, under a coordinate bound, at
/// most eight times the square of that bound.
proof fn lemma_sq_dist_bound(p: P2D, q: P2D, limit: int)
    by (nonlinear_arith)
    requires
        0 <= limit,
        coords_within(p, limit),
        coords_within(q, limit),
    ensures
        0 <= sq_dist(p, q) <= 8 * limit * limit,
        0 <= (p.x - q.x) * (p.x - q.x) <= 4 * limit * limit,
        0 <= (p.y - q.y) * (p.y - q.y) <= 4 * limit * limit,
{
}

impl P2D {
    /// Create a new 2D point (`P2D`).
    pub fn new(x: i64, y: i64) -> (r: P2D)
        ensures
            r.x == x,
            r.y == y,
    {
        P2D { x, y }
    }

    /// Return the square of the distance between a pair of points.  This
    /// does not require the square root operation and is exact.
    pub fn distance_between_squared(p1: &P2D, p2: &P2D) -> (r: i64)
        requires
            coords_within(*p1, COORD_LIMIT as int),
            coords_within(*p2, COORD_LIMIT as int),
        ensures
            r == sq_dist(*p1, *p2),
            0 <= r <= 8_000_000_000_000_000_000,
    {
        proof {
            lemma_sq_dist_bound(*p1, *p2, COORD_LIMIT as int);
        }
        let dx = p1.x - p2.x;
        let dy = p1.y - p2.y;
        dx * dx + dy * dy
    }

    /// Return the distance between a pair of points, rounded down to an
    /// integer: the result is the floor of the true Euclidean distance,
    /// pinned by its square.  When the squared distance is a perfect
    /// square the result is exact.
    pub fn distance_between(p1: &P2D, p2: &P2D) -> (r: i64)
        requires
            coords_within(*p1, COORD_LIMIT as int),
            coords_within(*p2, COORD_LIMIT as int),
        ensures
            0 <= r,
            r * r <= sq_dist(*p1, *p2) < (r + 1) * (r + 1),
    {
        let d = Self::distance_between_squared(p1, p2);
        isqrt(d as u64) as i64
    }
}

/// The integer square root: the floor of the square root of `n`.
fn isqrt(n: u64) -> (r: u64)
    requires
        n < 0x8000_0000_0000_0000,
    ensures
        r * r <= n < (r + 1) * (r + 1),
        r < 3_037_000_500,
{
    let mut lo: u64 = 0;
    let mut hi: u64 = 3_037_000_500;
    assert(3_037_000_500u64 * 3_037_000_500u64 == 9_223_372_037_000_250_000) by (nonlinear_arith);
    while lo + 1 < hi
        invariant
            lo < hi <= 3_037_000_500,
            lo * lo <= n,
            n < hi * hi,
        decreases hi - lo,
    {
        let mid = lo + (hi - lo) / 2;
        assert(mid * mid <= 9_223_372_037_000_250_000) by (nonlinear_arith)
            requires
                0 <= mid <= 3_037_000_500,
        ;
        if mid * mid <= n {
            lo = mid;
        } else {
            hi = mid;
        }
    }
    lo
}

/// Axis-aligned bounding box.
pub struct AABB {
    /// Origin of the bounding box.
    origin: P2D,
    /// Width of the bounding box. This is always greater than zero.
    width: i64,
    /// Height of the bounding box. This is always greater than zero.
    height: i64,
}

impl AABB {
    /// Origin of the bounding box.
    pub closed spec fn spec_origin(self) -> P2D {
        self.origin
    }

    /// Width of the bounding box.
    pub closed spec fn spec_width(self) -> int {
        self.width as int
    }

    /// Height of the bounding box.
    pub closed spec fn spec_height(self) -> int {
        self.height as int
    }

    /// A box is well-formed when both extents are strictly positive.
    pub open spec fn wf(self) -> bool {
        self.spec_width() > 0 && self.spec_height() > 0
    }

    /// Create a new axis-aligned bounding box (`AABB`).  Yields a box
    /// exactly when both `width` and `height` are strictly positive, and
    /// no value otherwise.
    pub fn new(origin: P2D, width: i64, height: i64) -> (r: Option<AABB>)
        ensures
            r is Some <==> width > 0 && height > 0,
            r matches Some(b) ==> b.wf() && b.spec_origin() == origin && b.spec_width() == width
                && b.spec_height() == height,
    {
        if width > 0 && height > 0 {
            Some(AABB { origin, width, height })
        } else {
            None
        }
    }
}

/// Ellipse.
pub struct Ellipse {
    /// Center of the ellipse.
    center: P2D,
    /// x-radius of the ellipse. This is always greater than zero.
    x_radius: i64,
    /// y-radius of the ellipse. This is always greater than zero.
    y_radius: i64,
    /// Angle between the local x-axis of the ellipse and the global x-axis,
    /// in whatever angular unit the caller uses; it is carried, not
    /// interpreted.
    angle: i64,
}

impl Ellipse {
    /// Center of the ellipse.
    pub closed spec fn spec_center(self) -> P2D {
        self.center
    }

    /// x-radius of the ellipse.
    pub closed spec fn spec_x_radius(self) -> int {
        self.x_radius as int
    }

    /// y-radius of the ellipse.
    pub closed spec fn spec_y_radius(self) -> int {
        self.y_radius as int
    }

    /// Angle between the local x-axis of the ellipse and the global x-axis.
    pub closed spec fn spec_angle(self) -> int {
        self.angle as int
    }

    /// An ellipse is well-formed when both radii are strictly positive.
    pub open spec fn wf(self) -> bool {
        self.spec_x_radius() > 0 && self.spec_y_radius() > 0
    }

    /// Create a new `Ellipse`.  Yields an ellipse exactly when both radii
    /// are strictly positive, and no value otherwise.
    pub fn new(center: P2D, x_radius: i64, y_radius: i64, angle: i64) -> (r: Option<Ellipse>)
        ensures
            r is Some <==> x_radius > 0 && y_radius > 0,
            r matches Some(e) ==> e.wf() && e.spec_center() == center && e.spec_x_radius()
                == x_radius && e.spec_y_radius() == y_radius && e.spec_angle() == angle,
    {
        if x_radius > 0 && y_radius > 0 {
            Some(Ellipse { center, x_radius, y_radius, angle })
        } else {
            None
        }
    }
}

/// Sixteen times the squared area of a triangle, from the squares of its
/// three side lengths: Heron's formula `area = sqrt(s(s-a)(s-b)(s-c))`
/// with semiperimeter `s`, rearranged so that only the squared side
/// lengths appear and the value is exact in integers.
pub open spec fn heron16(a2: int, b2: int, c2: int) -> int {
    2 * (a2 * b2 + b2 * c2 + c2 * a2) - (a2 * a2 + b2 * b2 + c2 * c2)
}

/// Sixteen times the squared area of the triangle with the given corners.
pub open spec fn triangle_area16(p0: P2D, p1: P2D, p2: P2D) -> int {
    heron16(sq_dist(p0, p1), sq_dist(p1, p2), sq_dist(p2, p0))
}

/// Twice the signed area of the triangle with the given corners (the cross
/// product of two edge vectors).
pub open spec fn triangle_cross(p0: P2D, p1: P2D, p2: P2D) -> int {
    (p1.x - p0.x) * (p2.y - p0.y) - (p2.x - p0.x) * (p1.y - p0.y)
}

/// Negating a value does not change its square.
proof fn lemma_neg_square(a: int)
    by (nonlinear_arith)
    ensures
        (-a) * (-a) == a * a,
{
}

/// The product of two sums of squares is itself a sum of two squares
/// (Lagrange's identity in two dimensions).
proof fn lemma_lagrange(u1: int, v1: int, u2: int, v2: int)
    ensures
        (u1 * u1 + v1 * v1) * (u2 * u2 + v2 * v2) == (u1 * u2 + v1 * v2) * (u1 * u2 + v1 * v2) + (
        u1 * v2 - u2 * v1) * (u1 * v2 - u2 * v1),
{
    let s = u1 * u2;
    let t = v1 * v2;
    let w = u1 * v2;
    let z = u2 * v1;
    assert((s + t) * (s + t) == s * s + 2 * (s * t) + t * t) by (nonlinear_arith);
    assert((w - z) * (w - z) == w * w - 2 * (w * z) + z * z) by (nonlinear_arith);
    assert((u1 * u1 + v1 * v1) * (u2 * u2 + v2 * v2) == (u1 * u1) * (u2 * u2) + (u1 * u1) * (v2
        * v2) + (v1 * v1) * (u2 * u2) + (v1 * v1) * (v2 * v2)) by (nonlinear_arith);
    assert(s * s == (u1 * u1) * (u2 * u2) && t * t == (v1 * v1) * (v2 * v2) && w * w == (u1 * u1)
        * (v2 * v2) && z * z == (v1 * v1) * (u2 * u2) && s * t == w * z) by (nonlinear_arith)
        requires
            s == u1 * u2,
            t == v1 * v2,
            w == u1 * v2,
            z == u2 * v1,
    ;
}

/// Heron's squared-side form rewritten with the middle side eliminated.
proof fn lemma_heron16_quadratic(a2: int, b2: int, c2: int)
    by (nonlinear_arith)
    ensures
        heron16(a2, b2, c2) == 4 * a2 * c2 - (a2 + c2 - b2) * (a2 + c2 - b2),
{
}

/// The Heron form of the area measure agrees with the cross-product form:
/// sixteen times the squared area is four times the square of twice the
/// signed area.  In particular the area measure is never negative.
pub proof fn lemma_area16_is_cross_squared(p0: P2D, p1: P2D, p2: P2D)
    ensures
        triangle_area16(p0, p1, p2) == 4 * triangle_cross(p0, p1, p2) * triangle_cross(p0, p1, p2),
        triangle_area16(p0, p1, p2) >= 0,
{
    let u1 = p1.x - p0.x;
    let v1 = p1.y - p0.y;
    let u2 = p2.x - p0.x;
    let v2 = p2.y - p0.y;
    let a2 = sq_dist(p0, p1);
    let b2 = sq_dist(p1, p2);
    let c2 = sq_dist(p2, p0);
    let dot = u1 * u2 + v1 * v2;
    let cr = triangle_cross(p0, p1, p2);
    lemma_neg_square(u1);
    lemma_neg_square(v1);
    lemma_neg_square(u2 - u1);
    lemma_neg_square(v2 - v1);
    assert(a2 == u1 * u1 + v1 * v1);
    assert(b2 == (u2 - u1) * (u2 - u1) + (v2 - v1) * (v2 - v1));
    assert(c2 == u2 * u2 + v2 * v2);
    assert((u2 - u1) * (u2 - u1) == u2 * u2 - 2 * (u1 * u2) + u1 * u1) by (nonlinear_arith);
    assert((v2 - v1) * (v2 - v1) == v2 * v2 - 2 * (v1 * v2) + v1 * v1) by (nonlinear_arith);
    assert(a2 + c2 - b2 == 2 * dot);
    lemma_heron16_quadratic(a2, b2, c2);
    lemma_lagrange(u1, v1, u2, v2);
    assert(4 * a2 * c2 == 4 * (dot * dot + cr * cr) && (2 * dot) * (2 * dot) == 4 * (dot * dot)
        && 4 * (cr * cr) == 4 * cr * cr)
        by (nonlinear_arith)
        requires
            a2 == u1 * u1 + v1 * v1,
            c2 == u2 * u2 + v2 * v2,
            a2 * c2 == dot * dot + cr * cr,
            dot == u1 * u2 + v1 * v2,
            cr == u1 * v2 - u2 * v1,
    ;
    assert(cr * cr >= 0) by (nonlinear_arith);
}

/// Triangle.
pub struct Triangle {
    /// Points in the triangle.
    points: [P2D; 3],
}

impl Triangle {
    /// The three corner points of the triangle.
    pub closed spec fn spec_points(self) -> Seq<P2D> {
        self.points@
    }

    /// A triangle is well-formed when it has three corners whose
    /// coordinates are within the triangle coordinate bound.
    pub open spec fn wf(self) -> bool {
        &&& self.spec_points().len() == 3
        &&& coords_within(self.spec_points()[0], TRI_COORD_LIMIT as int)
        &&& coords_within(self.spec_points()[1], TRI_COORD_LIMIT as int)
        &&& coords_within(self.spec_points()[2], TRI_COORD_LIMIT as int)
    }

    /// Create a new `Triangle` from three points.  Yields a triangle
    /// exactly when its area measure — sixteen times the squared area, as
    /// returned by `area` — is at least `min_area`, and no value
    /// otherwise.
    pub fn new(p1: P2D, p2: P2D, p3: P2D, min_area: i64) -> (r: Option<Triangle>)
        requires
            coords_within(p1, TRI_COORD_LIMIT as int),
            coords_within(p2, TRI_COORD_LIMIT as int),
            coords_within(p3, TRI_COORD_LIMIT as int),
        ensures
            r is Some <==> triangle_area16(p1, p2, p3) >= min_area,
            r matches Some(t) ==> t.wf() && t.spec_points() == seq![p1, p2, p3],
    {
        let candidate = Triangle { points: [p1, p2, p3] };
        assert(candidate.spec_points() =~= seq![p1, p2, p3]);
        if candidate.area() >= min_area {
            Some(candidate)
        } else {
            None
        }
    }

    /// Find the area measure of a triangle: sixteen times its squared
    /// area, which is exact for integer coordinates.  This uses Heron's
    /// formula, rearranged over the squared side lengths.
    pub fn area(&self) -> (r: i64)
        requires
            self.wf(),
        ensures
            r == triangle_area16(self.spec_points()[0], self.spec_points()[1], self.spec_points()[2]),
            r >= 0,
    {
        // Find the squares of the three edge lengths of the triangle.
        let a2 = P2D::distance_between_squared(&self.points[0], &self.points[1]);
        let b2 = P2D::distance_between_squared(&self.points[1], &self.points[2]);
        let c2 = P2D::distance_between_squared(&self.points[2], &self.points[0]);
        proof {
            lemma_sq_dist_bound(self.points@[0], self.points@[1], TRI_COORD_LIMIT as int);
            lemma_sq_dist_bound(self.points@[1], self.points@[2], TRI_COORD_LIMIT as int);
            lemma_sq_dist_bound(self.points@[2], self.points@[0], TRI_COORD_LIMIT as int);
            lemma_products_bounded(a2 as int, b2 as int, c2 as int, 800_000_000);
            lemma_area16_is_cross_squared(self.points@[0], self.points@[1], self.points@[2]);
        }
        // Heron's formula over squared side lengths.
        2 * (a2 * b2 + b2 * c2 + c2 * a2) - (a2 * a2 + b2 * b2 + c2 * c2)
    }
}

/// Pairwise products of three values bounded by `b` are bounded by `b * b`.
proof fn lemma_products_bounded(x: int, y: int, z: int, b: int)
    by (nonlinear_arith)
    requires
        0 <= x <= b,
        0 <= y <= b,
        0 <= z <= b,
    ensures
        0 <= x * y <= b * b,
        0 <= y * z <= b * b,
        0 <= z * x <= b * b,
        0 <= x * x <= b * b,
        0 <= y * y <= b * b,
        0 <= z * z <= b * b,
{
}

} // verus!
