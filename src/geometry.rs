//! Sizes and points, in whole logical pixels.
use vstd::prelude::*;

verus! {

/// The extent that stands for "no limit" in a bound.
pub const UNBOUNDED: u32 = 4294967295;

/// A width and a height.
#[derive(Debug, Clone, Copy, PartialEq, Eq, Structural, Hash)]
pub struct Size {
    pub width: u32,
    pub height: u32,
}

impl Size {
    /// A size of the given width and height.
    pub fn new(width: u32, height: u32) -> (r: Size)
        ensures
            r.width == width,
            r.height == height,
    {
        Size { width, height }
    }

    /// Whether a box of this size fits inside one of size `outer`.
    pub open spec fn fits(self, outer: Size) -> bool {
        self.width <= outer.width && self.height <= outer.height
    }
}

/// A point, relative to the top-left corner of a paragraph.
#[derive(Debug, Clone, Copy, PartialEq, Eq, Structural, Hash)]
pub struct Point {
    pub x: u32,
    pub y: u32,
}

impl Point {
    /// The point at `(x, y)`.
    pub fn new(x: u32, y: u32) -> (r: Point)
        ensures
            r.x == x,
            r.y == y,
    {
        Point { x, y }
    }
}

} // verus!
