//! Axis-aligned rectangles in stage coordinates, used for hitboxes and
//! hurtboxes.

use vstd::prelude::*;

verus! {

/// Coordinates are kept well inside `i32` so that translating a local-space
/// rectangle by a stage position can never overflow.
pub const COORD_LIMIT: i32 = 0x1000_0000;

/// An axis-aligned rectangle, given by its lower-left and upper-right corners.
#[derive(Clone, Copy, Debug, PartialEq, Eq, Structural)]
pub struct Rect {
    pub min_x: i32,
    pub min_y: i32,
    pub max_x: i32,
    pub max_y: i32,
}

impl Rect {
    /// All corner coordinates are small enough that translation by another
    /// in-range offset stays within `i32`.
    pub open spec fn in_bounds(self) -> bool {
        -COORD_LIMIT <= self.min_x <= COORD_LIMIT
            && -COORD_LIMIT <= self.min_y <= COORD_LIMIT
            && -COORD_LIMIT <= self.max_x <= COORD_LIMIT
            && -COORD_LIMIT <= self.max_y <= COORD_LIMIT
    }

    /// Two rectangles overlap with positive area in both axes.
    pub open spec fn overlaps(self, other: Rect) -> bool {
        self.min_x < other.max_x && self.max_x > other.min_x
            && self.min_y < other.max_y && self.max_y > other.min_y
    }

    /// Build a rectangle from its center point and its full width and height.
    pub fn from_center_size(cx: i32, cy: i32, w: i32, h: i32) -> (r: Rect)
        requires
            -COORD_LIMIT / 2 <= cx <= COORD_LIMIT / 2,
            -COORD_LIMIT / 2 <= cy <= COORD_LIMIT / 2,
            0 <= w <= COORD_LIMIT / 2,
            0 <= h <= COORD_LIMIT / 2,
        ensures
            r.min_x == cx - w / 2,
            r.min_y == cy - h / 2,
            r.max_x == cx + w / 2,
            r.max_y == cy + h / 2,
            r.in_bounds(),
    {
        Rect { min_x: cx - w / 2, min_y: cy - h / 2, max_x: cx + w / 2, max_y: cy + h / 2 }
    }

    /// Translate this local-space rectangle by a world position.
    pub fn translated(&self, dx: i32, dy: i32) -> (r: Rect)
        requires
            self.in_bounds(),
            -COORD_LIMIT <= dx <= COORD_LIMIT,
            -COORD_LIMIT <= dy <= COORD_LIMIT,
        ensures
            r.min_x == self.min_x + dx,
            r.min_y == self.min_y + dy,
            r.max_x == self.max_x + dx,
            r.max_y == self.max_y + dy,
    {
        Rect {
            min_x: self.min_x + dx,
            min_y: self.min_y + dy,
            max_x: self.max_x + dx,
            max_y: self.max_y + dy,
        }
    }
}

/// Axis-aligned overlap test between two rectangles.
pub fn rects_intersect(a: &Rect, b: &Rect) -> (r: bool)
    ensures
        r == a.overlaps(*b),
{
    a.min_x < b.max_x && a.max_x > b.min_x && a.min_y < b.max_y && a.max_y > b.min_y
}

/// Overlap is symmetric: `a` overlaps `b` exactly when `b` overlaps `a`.
pub proof fn lemma_overlap_symmetric(a: Rect, b: Rect)
    ensures
        a.overlaps(b) == b.overlaps(a),
{
}

} // verus!
