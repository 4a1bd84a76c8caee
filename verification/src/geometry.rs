//! Integer pixel geometry: the points and rectangles that anchor an overlay
//! over its underlay.

use vstd::prelude::*;

verus! {

/// A point on the screen, in whole pixels.
#[derive(Clone, Copy, Debug, PartialEq, Eq, Structural)]
pub struct Point {
    /// Horizontal coordinate.
    pub x: i64,
    /// Vertical coordinate.
    pub y: i64,
}

/// An axis-aligned region of the screen, in whole pixels.
#[derive(Clone, Copy, Debug, PartialEq, Eq, Structural)]
pub struct Rectangle {
    /// Horizontal coordinate of the top-left corner.
    pub x: i64,
    /// Vertical coordinate of the top-left corner.
    pub y: i64,
    /// Width of the region.
    pub width: i64,
    /// Height of the region.
    pub height: i64,
}

impl Rectangle {
    /// A rectangle is well formed when its extent is non-negative and its
    /// far corner still fits the coordinate range.
    pub open spec fn wf(self) -> bool {
        &&& 0 <= self.width
        &&& 0 <= self.height
        &&& self.x + self.width <= i64::MAX
        &&& self.y + self.height <= i64::MAX
    }

    /// The center of the rectangle, the anchor point of a picker overlay.
    pub open spec fn spec_center(self) -> Point {
        Point { x: (self.x + self.width / 2) as i64, y: (self.y + self.height / 2) as i64 }
    }

    /// Returns whether the rectangle is well formed.
    pub fn is_wf(&self) -> (b: bool)
        ensures
            b == self.wf(),
    {
        0 <= self.width && 0 <= self.height && self.x <= i64::MAX - self.width
            && self.y <= i64::MAX - self.height
    }

    /// Returns the point halfway along both sides of the rectangle.
    pub fn center(&self) -> (p: Point)
        requires
            self.wf(),
        ensures
            p == self.spec_center(),
    {
        Point { x: self.x + self.width / 2, y: self.y + self.height / 2 }
    }

    /// Returns the rectangle of zero extent at the origin.
    pub fn zero() -> (r: Rectangle)
        ensures
            r == (Rectangle { x: 0, y: 0, width: 0, height: 0 }),
    {
        Rectangle { x: 0, y: 0, width: 0, height: 0 }
    }
}

} // verus!
