use vstd::prelude::*;

verus! {

/// A point in surface-local coordinates.
#[derive(Clone, Copy, Debug, PartialEq, Eq, Structural)]
pub struct Point {
    pub x: i32,
    pub y: i32,
}

/// A rectangle given by its top-left corner and its size.
#[derive(Clone, Copy, Debug, PartialEq, Eq, Structural)]
pub struct Rect {
    pub x: i32,
    pub y: i32,
    pub width: i32,
    pub height: i32,
}

/// `a + b` clamped to the range of `i32`, as saturating addition computes it.
pub open spec fn saturating_sum(a: i32, b: i32) -> int {
    let s = a as int + b as int;
    if s > i32::MAX as int {
        i32::MAX as int
    } else if s < i32::MIN as int {
        i32::MIN as int
    } else {
        s
    }
}

impl Point {
    pub fn new(x: i32, y: i32) -> (r: Point)
        ensures
            r == (Point { x, y }),
    {
        Point { x, y }
    }
}

impl Rect {
    /// A rectangle at `(x, y)` of the given size.
    pub fn new(x: i32, y: i32, width: i32, height: i32) -> (r: Rect)
        ensures
            r == (Rect { x, y, width, height }),
    {
        Rect { x, y, width, height }
    }

    /// The corner is inside; the far edges, at the corner plus the size
    /// (saturating), are not.
    pub open spec fn spec_contains(self, p: Point) -> bool {
        &&& p.x >= self.x
        &&& p.x < saturating_sum(self.x, self.width)
        &&& p.y >= self.y
        &&& p.y < saturating_sum(self.y, self.height)
    }

    /// Whether `p` lies inside this rectangle.
    pub fn contains(&self, p: Point) -> (r: bool)
        ensures
            r == self.spec_contains(p),
    {
        p.x >= self.x && (p.x as i64) < clamped_sum(self.x, self.width) && p.y >= self.y
            && (p.y as i64) < clamped_sum(self.y, self.height)
    }
}

fn clamped_sum(a: i32, b: i32) -> (r: i64)
    ensures
        r == saturating_sum(a, b),
{
    let s: i64 = a as i64 + b as i64;
    if s > i32::MAX as i64 {
        i32::MAX as i64
    } else if s < i32::MIN as i64 {
        i32::MIN as i64
    } else {
        s
    }
}

} // verus!
