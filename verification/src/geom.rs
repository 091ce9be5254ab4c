//! Integer plane geometry: 2D vectors and axis-aligned rectangles.
//!
//! All coordinates are integer world units.  A rectangle is stored as its
//! top-left corner plus a width and a height; the y axis grows downward,
//! so `y` is the top edge and `y + h` the bottom edge.

use vstd::prelude::*;

verus! {

/// A 2D integer vector: a position, a size or a velocity.
#[derive(Clone, Copy, PartialEq, Eq, Structural, Debug)]
pub struct Vec2 {
    pub x: i32,
    pub y: i32,
}

/// An axis-aligned rectangle given by its top-left corner and extent.
#[derive(Clone, Copy, PartialEq, Eq, Structural, Debug)]
pub struct Rect {
    pub x: i32,
    pub y: i32,
    pub w: i32,
    pub h: i32,
}

impl Vec2 {
    pub fn new(x: i32, y: i32) -> (v: Vec2)
        ensures
            v.x == x && v.y == y,
    {
        Vec2 { x, y }
    }
}

/// The left edge of `r`.
pub open spec fn left(r: Rect) -> int {
    r.x as int
}

/// The right edge of `r`.
pub open spec fn right(r: Rect) -> int {
    r.x + r.w
}

/// The top edge of `r`.
pub open spec fn top(r: Rect) -> int {
    r.y as int
}

/// The bottom edge of `r`.
pub open spec fn bottom(r: Rect) -> int {
    r.y + r.h
}

/// Two rectangles overlap when they intersect in both axes; touching
/// edges count as an overlap.
pub open spec fn overlap(a: Rect, b: Rect) -> bool {
    left(a) <= right(b) && right(a) >= left(b) && top(a) <= bottom(b) && bottom(a) >= top(b)
}

/// Both components of `v` lie in `[-lim, lim]`.
pub open spec fn vec_within(v: Vec2, lim: int) -> bool {
    -lim <= v.x <= lim && -lim <= v.y <= lim
}

/// `s` is a valid extent: positive and at most `lim` in each axis.
pub open spec fn size_ok(s: Vec2, lim: int) -> bool {
    0 < s.x <= lim && 0 < s.y <= lim
}

/// `r` is a valid piece of level geometry: corner and extent within `lim`.
pub open spec fn rect_within(r: Rect, lim: int) -> bool {
    -lim <= r.x <= lim && -lim <= r.y <= lim && 0 < r.w <= lim && 0 < r.h <= lim
}

/// A point lies in a rectangle when it is between the edges in both axes,
/// edges included.
pub open spec fn rect_contains(r: Rect, p: Vec2) -> bool {
    left(r) <= p.x <= right(r) && top(r) <= p.y <= bottom(r)
}

impl Rect {
    pub fn new(x: i32, y: i32, w: i32, h: i32) -> (r: Rect)
        ensures
            r == (Rect { x, y, w, h }),
    {
        Rect { x, y, w, h }
    }

    /// Decides `overlap(self, other)` without overflowing.
    pub fn overlaps(&self, other: &Rect) -> (b: bool)
        ensures
            b == overlap(*self, *other),
    {
        let ax = self.x as i64;
        let ay = self.y as i64;
        let bx = other.x as i64;
        let by = other.y as i64;
        ax <= bx + other.w as i64 && ax + self.w as i64 >= bx && ay <= by + other.h as i64
            && ay + self.h as i64 >= by
    }

    /// Decides `rect_contains(self, p)` without overflowing.
    pub fn contains(&self, p: Vec2) -> (b: bool)
        ensures
            b == rect_contains(*self, p),
    {
        let x = self.x as i64;
        let y = self.y as i64;
        x <= p.x as i64 && p.x as i64 <= x + self.w as i64 && y <= p.y as i64 && p.y as i64 <= y
            + self.h as i64
    }
}

} // verus!
