//! Axis-aligned rectangles and their overlap test.

use vstd::prelude::*;
use crate::constants::COORD_LIMIT;

verus! {

/// Axis-aligned rectangle in milli-pixels: position of the top-left corner
/// and extent.
#[derive(Clone, Copy, PartialEq, Eq, Structural, Debug)]
pub struct Rect {
    pub x: i64,
    pub y: i64,
    pub w: i64,
    pub h: i64,
}

impl Rect {
    /// Corners near the simulation's coordinate range (with slack for
    /// derived boxes such as an offset hurt-box), extent nonnegative.
    pub open spec fn wf(self) -> bool {
        &&& -2 * COORD_LIMIT <= self.x <= 2 * COORD_LIMIT
        &&& -2 * COORD_LIMIT <= self.y <= 2 * COORD_LIMIT
        &&& 0 <= self.w <= COORD_LIMIT
        &&& 0 <= self.h <= COORD_LIMIT
    }

    /// Strict open-interval overlap on both axes.
    pub open spec fn spec_overlaps(self, other: Rect) -> bool {
        &&& self.x < other.x + other.w
        &&& self.x + self.w > other.x
        &&& self.y < other.y + other.h
        &&& self.y + self.h > other.y
    }

    pub fn new(x: i64, y: i64, w: i64, h: i64) -> (r: Rect)
        ensures
            r == (Rect { x, y, w, h }),
    {
        Rect { x, y, w, h }
    }

    /// Whether two rectangles share interior area.
    pub fn overlaps(&self, other: &Rect) -> (r: bool)
        requires
            self.wf(),
            other.wf(),
        ensures
            r == self.spec_overlaps(*other),
    {
        self.x < other.x + other.w && self.x + self.w > other.x && self.y < other.y + other.h
            && self.y + self.h > other.y
    }

    /// Grow the rectangle by `amount_x`/`amount_y` on each side (negative
    /// amounts shrink it toward its center).
    pub open spec fn spec_inflate(self, amount_x: int, amount_y: int) -> Rect {
        Rect {
            x: (self.x - amount_x) as i64,
            y: (self.y - amount_y) as i64,
            w: (self.w + 2 * amount_x) as i64,
            h: (self.h + 2 * amount_y) as i64,
        }
    }

    pub fn inflate(&self, amount_x: i64, amount_y: i64) -> (r: Rect)
        requires
            self.wf(),
            -1_000_000 <= amount_x <= 1_000_000,
            -1_000_000 <= amount_y <= 1_000_000,
        ensures
            r == self.spec_inflate(amount_x as int, amount_y as int),
    {
        Rect {
            x: self.x - amount_x,
            y: self.y - amount_y,
            w: self.w + 2 * amount_x,
            h: self.h + 2 * amount_y,
        }
    }
}

} // verus!
