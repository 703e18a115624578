//! Points and axis-aligned rectangles in whole units.
//!
//! The window-chrome layout is expressed over these types: the y axis
//! grows downwards, as it does on a screen, so a rectangle's `min`
//! corner is its top-left and its `max` corner its bottom-right.

use vstd::prelude::*;

verus! {

/// A position in whole units; `x` grows to the right, `y` downwards.
#[derive(Clone, Copy, Debug, PartialEq, Eq, Structural)]
pub struct Point {
    pub x: i32,
    pub y: i32,
}

/// An axis-aligned rectangle given by its top-left (`min`) and
/// bottom-right (`max`) corners.
#[derive(Clone, Copy, Debug, PartialEq, Eq, Structural)]
pub struct Rect {
    pub min: Point,
    pub max: Point,
}

impl Rect {
    /// A rectangle is well formed when its corners are ordered and its
    /// sides are representable: the top-left corner lies at or above
    /// and at or left of the bottom-right corner, and neither side is
    /// longer than `i32::MAX` units.
    pub open spec fn wf(self) -> bool {
        &&& self.min.x <= self.max.x
        &&& self.min.y <= self.max.y
        &&& self.width() <= i32::MAX
        &&& self.height() <= i32::MAX
    }

    pub open spec fn width(self) -> int {
        self.max.x - self.min.x
    }

    pub open spec fn height(self) -> int {
        self.max.y - self.min.y
    }

    /// The centre of the rectangle, rounded towards the top-left
    /// corner when a side has odd length.
    pub open spec fn spec_center(self) -> Point {
        Point {
            x: (self.min.x + self.width() / 2) as i32,
            y: (self.min.y + self.height() / 2) as i32,
        }
    }

    /// The centre of the rectangle.
    pub fn center(&self) -> (c: Point)
        requires
            self.wf(),
        ensures
            c == self.spec_center(),
    {
        let half_w: i32 = (((self.max.x - self.min.x) as u32) / 2) as i32;
        let half_h: i32 = (((self.max.y - self.min.y) as u32) / 2) as i32;
        Point { x: self.min.x + half_w, y: self.min.y + half_h }
    }
}

} // verus!
