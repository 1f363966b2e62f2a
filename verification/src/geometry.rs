//! Points, sizes and rectangles on a grid of thousandths of a world unit.

use vstd::prelude::*;

verus! {

/// How many grid steps make one world unit.
pub const UNIT: i32 = 1000;

/// A point of the plane, or the difference of two.
#[derive(Clone, Copy, Debug, PartialEq, Eq)]
pub struct Vector2 {
    pub x: i32,
    pub y: i32,
}

/// Width and height of a rectangle.
#[derive(Clone, Copy, Debug, PartialEq, Eq)]
pub struct Size2 {
    pub width: i32,
    pub height: i32,
}

/// An axis-aligned rectangle, given by its corner of least coordinates and its
/// size.
#[derive(Clone, Copy, Debug, PartialEq, Eq)]
pub struct Rect2 {
    pub origin: Vector2,
    pub size: Size2,
}

/// `v` brought into the range of `i32`.
pub open spec fn clamped(v: int) -> int {
    if v < i32::MIN {
        i32::MIN as int
    } else if v > i32::MAX {
        i32::MAX as int
    } else {
        v
    }
}

/// Half of `v`, rounded towards zero.
pub open spec fn half(v: int) -> int {
    if v >= 0 {
        v / 2
    } else {
        -((-v) / 2)
    }
}

/// The square of the distance between `a` and `b`.
pub open spec fn distance_squared(a: Vector2, b: Vector2) -> int {
    (a.x - b.x) * (a.x - b.x) + (a.y - b.y) * (a.y - b.y)
}

/// Whether `a` lies less than `radius` away from `b`.
pub open spec fn near(a: Vector2, b: Vector2, radius: i32) -> bool {
    radius > 0 && distance_squared(a, b) < radius * radius
}

impl Vector2 {
    pub fn new(x: i32, y: i32) -> (v: Vector2)
        ensures
            v.x == x,
            v.y == y,
    {
        Vector2 { x, y }
    }

    pub fn zero() -> (v: Vector2)
        ensures
            v.x == 0,
            v.y == 0,
    {
        Vector2 { x: 0, y: 0 }
    }
}

impl Size2 {
    pub fn new(width: i32, height: i32) -> (s: Size2)
        ensures
            s.width == width,
            s.height == height,
    {
        Size2 { width, height }
    }
}

impl Rect2 {
    pub fn new(origin: Vector2, size: Size2) -> (r: Rect2)
        ensures
            r.origin == origin,
            r.size == size,
    {
        Rect2 { origin, size }
    }

    /// Whether `p` lies in the rectangle. The left and top edges belong to it,
    /// the right and bottom edges do not.
    pub open spec fn holds(self, p: Vector2) -> bool {
        &&& self.origin.x <= p.x < self.origin.x + self.size.width
        &&& self.origin.y <= p.y < self.origin.y + self.size.height
    }

    /// The origin of a rectangle of this size whose centre is `center`.
    pub open spec fn origin_around(size: Size2, center: Vector2) -> Vector2 {
        Vector2 {
            x: clamped(center.x - half(size.width as int)) as i32,
            y: clamped(center.y - half(size.height as int)) as i32,
        }
    }

    pub fn contains(&self, p: Vector2) -> (hit: bool)
        ensures
            hit == self.holds(p),
    {
        rect_contains(
            self.origin.x as i64,
            self.origin.y as i64,
            self.size.width as i64,
            self.size.height as i64,
            p.x as i64,
            p.y as i64,
        )
    }

    /// The rectangle of the given size centred on `center`. An origin that
    /// would leave the grid stops at its edge.
    pub fn centered(center: Vector2, size: Size2) -> (r: Rect2)
        ensures
            r.size == size,
            r.origin == Self::origin_around(size, center),
    {
        Rect2 { origin: origin_for(center, size), size }
    }
}

fn clamp(v: i64) -> (c: i32)
    ensures
        c == clamped(v as int),
{
    if v < i32::MIN as i64 {
        i32::MIN
    } else if v > i32::MAX as i64 {
        i32::MAX
    } else {
        v as i32
    }
}

fn origin_for(center: Vector2, size: Size2) -> (o: Vector2)
    ensures
        o == Rect2::origin_around(size, center),
{
    let x: i32 = clamp(center.x as i64 - (size.width / 2) as i64);
    let y: i32 = clamp(center.y as i64 - (size.height / 2) as i64);
    Vector2 { x, y }
}

/// Whether `a` lies less than `radius` away from `b`.
pub fn within(a: Vector2, b: Vector2, radius: i32) -> (close: bool)
    ensures
        close == near(a, b, radius),
{
    let dx: i64 = a.x as i64 - b.x as i64;
    let dy: i64 = a.y as i64 - b.y as i64;
    let r: i64 = radius as i64;
    if radius <= 0 {
        return false;
    }
    if dx >= r || dx <= -r || dy >= r || dy <= -r {
        proof {
            lemma_square_bound(dx as int, r as int);
            lemma_square_bound(dy as int, r as int);
        }
        return false;
    }
    proof {
        lemma_square_below(dx as int, r as int);
        lemma_square_below(dy as int, r as int);
        assert(r * r < 0x4000_0000_0000_0000) by (nonlinear_arith)
            requires
                0 < r <= 0x7fff_ffff,
        ;
    }
    let d: i64 = square_length(dx, dy);
    d < r * r
}

/// A number at least `r` away from zero has a square of at least `r * r`, and
/// every square is at least zero.
proof fn lemma_square_bound(d: int, r: int)
    requires
        r > 0,
    ensures
        d * d >= 0,
        (d >= r || d <= -r) ==> d * d >= r * r,
{
    assert(d * d >= 0) by (nonlinear_arith);
    assert((d >= r || d <= -r) ==> d * d >= r * r) by (nonlinear_arith)
        requires
            r > 0,
    ;
}

/// A number less than `r` away from zero has a square below `r * r`.
proof fn lemma_square_below(d: int, r: int)
    requires
        -r < d < r,
    ensures
        0 <= d * d < r * r,
{
    assert(0 <= d * d < r * r) by (nonlinear_arith)
        requires
            -r < d < r,
    ;
}

/// `euclid::Rect::contains`, on `i64` coordinates: the point lies in the
/// rectangle when each coordinate is at least the origin's and below the
/// origin's plus the extent. The sums must not overflow.
#[verifier::external_body]
fn rect_contains(x: i64, y: i64, width: i64, height: i64, px: i64, py: i64) -> (hit: bool)
    requires
        i64::MIN <= x + width <= i64::MAX,
        i64::MIN <= y + height <= i64::MAX,
    ensures
        hit == (x <= px < x + width && y <= py < y + height),
{
    let rect: euclid::default::Rect<i64> = euclid::Rect::new(
        euclid::Point2D::new(x, y),
        euclid::Size2D::new(width, height),
    );
    rect.contains(euclid::Point2D::new(px, py))
}

/// `euclid::Vector2D::square_length`, on `i64` coordinates: the sum of the
/// squares of the two coordinates, which must not overflow.
#[verifier::external_body]
fn square_length(x: i64, y: i64) -> (d: i64)
    requires
        x * x + y * y <= i64::MAX,
    ensures
        d == x * x + y * y,
{
    let v: euclid::default::Vector2D<i64> = euclid::Vector2D::new(x, y);
    v.square_length()
}

} // verus!
