//! Integer points, sizes and rectangles in pixel coordinates.
//!
//! All arithmetic is checked: an operation whose exact result does not fit in
//! an `i32` returns `None` instead of wrapping.

use vstd::prelude::*;

verus! {

/// Whether the integer `v` can be held in an `i32`.
pub open spec fn in_i32(v: int) -> bool {
    i32::MIN <= v <= i32::MAX
}

/// The quotient of `a` by `b`, rounded towards zero.
pub open spec fn trunc_div(a: int, b: int) -> int
    recommends
        b != 0,
{
    if a >= 0 && b > 0 {
        a / b
    } else if a >= 0 {
        -(a / (-b))
    } else if b > 0 {
        -((-a) / b)
    } else {
        (-a) / (-b)
    }
}

/// The quotient of `a` by `b`, rounded towards zero.
pub fn div_towards_zero(a: i64, b: i64) -> (q: i64)
    requires
        b != 0,
        a > i64::MIN,
        b > i64::MIN,
    ensures
        q == trunc_div(a as int, b as int),
{
    if a >= 0 && b > 0 {
        a / b
    } else if a >= 0 {
        let d: i64 = -b;
        let q: i64 = a / d;
        assert(0 <= q <= a) by (nonlinear_arith)
            requires
                0 <= a,
                0 < d,
                q == a / d,
        ;
        -q
    } else if b > 0 {
        let n: i64 = -a;
        let q: i64 = n / b;
        assert(0 <= q <= n) by (nonlinear_arith)
            requires
                0 <= n,
                0 < b,
                q == n / b,
        ;
        -q
    } else {
        let n: i64 = -a;
        let d: i64 = -b;
        n / d
    }
}

/// A pair of pixel coordinates, used both for positions and for sizes.
#[derive(Clone, Copy, Debug, PartialEq, Eq, Structural)]
pub struct Vec2 {
    pub x: i32,
    pub y: i32,
}

impl Vec2 {
    /// The pair `(x, y)`.
    pub fn new(x: i32, y: i32) -> (v: Vec2)
        ensures
            v.x == x,
            v.y == y,
    {
        Vec2 { x, y }
    }

    /// The pair `(0, 0)`.
    pub fn zero() -> (v: Vec2)
        ensures
            v.x == 0,
            v.y == 0,
    {
        Vec2 { x: 0, y: 0 }
    }

    /// Component-wise sum, or `None` when a component leaves the `i32` range.
    pub fn checked_add(self, other: Vec2) -> (r: Option<Vec2>)
        ensures
            r.is_some() <==> in_i32(self.x + other.x) && in_i32(self.y + other.y),
            r matches Some(v) ==> v.x == self.x + other.x && v.y == self.y + other.y,
    {
        match (self.x.checked_add(other.x), self.y.checked_add(other.y)) {
            (Some(x), Some(y)) => Some(Vec2 { x, y }),
            _ => None,
        }
    }

    /// Component-wise difference, or `None` when a component leaves the `i32`
    /// range.
    pub fn checked_sub(self, other: Vec2) -> (r: Option<Vec2>)
        ensures
            r.is_some() <==> in_i32(self.x - other.x) && in_i32(self.y - other.y),
            r matches Some(v) ==> v.x == self.x - other.x && v.y == self.y - other.y,
    {
        match (self.x.checked_sub(other.x), self.y.checked_sub(other.y)) {
            (Some(x), Some(y)) => Some(Vec2 { x, y }),
            _ => None,
        }
    }
}

/// An axis-aligned rectangle from `start` (inclusive) to `end` (exclusive).
#[derive(Clone, Copy, Debug, PartialEq, Eq, Structural)]
pub struct Rect {
    pub start: Vec2,
    pub end: Vec2,
}

impl Rect {
    /// The rectangle between the two corners.
    pub fn new(start: Vec2, end: Vec2) -> (r: Rect)
        ensures
            r.start == start,
            r.end == end,
    {
        Rect { start, end }
    }

    /// Exact width, which may exceed the `i32` range.
    pub open spec fn spec_width(self) -> int {
        self.end.x - self.start.x
    }

    /// Exact height, which may exceed the `i32` range.
    pub open spec fn spec_height(self) -> int {
        self.end.y - self.start.y
    }

    /// Whether `p` lies inside: on or after `start` and strictly before `end`
    /// on both axes.
    pub open spec fn spec_contains_point(self, p: Vec2) -> bool {
        self.start.x <= p.x < self.end.x && self.start.y <= p.y < self.end.y
    }

    /// The extent `end - start`, or `None` when it leaves the `i32` range.
    pub fn size(&self) -> (r: Option<Vec2>)
        ensures
            r.is_some() <==> in_i32(self.spec_width()) && in_i32(self.spec_height()),
            r matches Some(v) ==> v.x == self.spec_width() && v.y == self.spec_height(),
    {
        self.end.checked_sub(self.start)
    }

    /// Whether the point lies inside the rectangle.
    pub fn contains_point(&self, p: Vec2) -> (r: bool)
        ensures
            r == self.spec_contains_point(p),
    {
        self.start.x <= p.x && p.x < self.end.x && self.start.y <= p.y && p.y < self.end.y
    }
}

/// A point inside a rectangle is inside every rectangle that encloses it.
pub proof fn lemma_contains_point_monotone(inner: Rect, outer: Rect, p: Vec2)
    requires
        outer.start.x <= inner.start.x,
        outer.start.y <= inner.start.y,
        inner.end.x <= outer.end.x,
        inner.end.y <= outer.end.y,
        inner.spec_contains_point(p),
    ensures
        outer.spec_contains_point(p),
{
}

} // verus!
