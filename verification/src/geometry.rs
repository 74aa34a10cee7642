//! Integer pixel geometry: points, sizes and half-open rectangles.

use vstd::prelude::*;

verus! {

/// A pixel coordinate. `x` grows to the right, `y` grows downwards.
#[derive(Clone, Copy, Debug, PartialEq, Eq, Structural)]
pub struct Point {
    pub x: i32,
    pub y: i32,
}

/// The extent of a rectangle in pixels.
#[derive(Clone, Copy, Debug, PartialEq, Eq, Structural)]
pub struct Size {
    pub width: u32,
    pub height: u32,
}

impl Point {
    /// The point `(x, y)`.
    pub fn new(x: i32, y: i32) -> (p: Point)
        ensures
            p.x == x,
            p.y == y,
    {
        Point { x, y }
    }

    /// The origin `(0, 0)`.
    pub fn zero() -> (p: Point)
        ensures
            p.x == 0,
            p.y == 0,
    {
        Point { x: 0, y: 0 }
    }
}

impl Size {
    /// The size `width` by `height`.
    pub fn new(width: u32, height: u32) -> (s: Size)
        ensures
            s.width == width,
            s.height == height,
    {
        Size { width, height }
    }
}

/// An axis-aligned rectangle: its top-left corner and its extent.
///
/// The rectangle covers the columns `left() <= x < right()` and the rows
/// `top() <= y < bottom()`; a rectangle of zero width or height covers
/// nothing.
#[derive(Clone, Copy, Debug, PartialEq, Eq, Structural)]
pub struct Rectangle {
    pub top_left: Point,
    pub size: Size,
}

impl Rectangle {
    /// First column covered.
    pub open spec fn left(self) -> int {
        self.top_left.x as int
    }

    /// First column to the right of the rectangle.
    pub open spec fn right(self) -> int {
        self.top_left.x + self.size.width
    }

    /// First row covered.
    pub open spec fn top(self) -> int {
        self.top_left.y as int
    }

    /// First row below the rectangle.
    pub open spec fn bottom(self) -> int {
        self.top_left.y + self.size.height
    }

    /// Whether the pixel at `(x, y)` belongs to the rectangle.
    pub open spec fn covers(self, x: int, y: int) -> bool {
        self.left() <= x < self.right() && self.top() <= y < self.bottom()
    }

    /// The rectangle with the given corner and extent.
    pub fn new(top_left: Point, size: Size) -> (r: Rectangle)
        ensures
            r.top_left == top_left,
            r.size == size,
    {
        Rectangle { top_left, size }
    }

    /// Whether `point` lies inside the rectangle.
    pub fn contains(&self, point: Point) -> (inside: bool)
        ensures
            inside == self.covers(point.x as int, point.y as int),
    {
        let x: i64 = point.x as i64;
        let y: i64 = point.y as i64;
        let left: i64 = self.top_left.x as i64;
        let top: i64 = self.top_left.y as i64;
        let right: i64 = left + self.size.width as i64;
        let bottom: i64 = top + self.size.height as i64;
        left <= x && x < right && top <= y && y < bottom
    }
}

} // verus!
