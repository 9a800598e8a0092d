//! Axis-aligned bounding boxes and the overlap test used for collision
//! detection. The test is exclusive: two rectangles that share only an edge
//! do not overlap.

use crate::num::in_range;
use vstd::prelude::*;

verus! {

/// A point or vector in the integer screen plane. The vertical axis grows
/// downward, as screen coordinates do.
#[derive(Debug, Clone, Copy, PartialEq, Eq, Structural)]
pub struct Point2 {
    pub x: i64,
    pub y: i64,
}

impl Point2 {
    /// Both components are usable coordinates.
    pub open spec fn wf(self) -> bool {
        in_range(self.x as int) && in_range(self.y as int)
    }
}

/// An axis-aligned rectangle: top-left corner plus width and height.
#[derive(Debug, Clone, Copy, PartialEq, Eq, Structural)]
pub struct Rect {
    pub x: i64,
    pub y: i64,
    pub w: i64,
    pub h: i64,
}

/// Exclusive axis-aligned overlap: the projections on both axes must
/// properly intersect.
pub open spec fn rects_overlap(a: Rect, b: Rect) -> bool {
    &&& a.x < b.x + b.w
    &&& b.x < a.x + a.w
    &&& a.y < b.y + b.h
    &&& b.y < a.y + a.h
}

impl Rect {
    /// Exclusive overlap test between two rectangles.
    pub fn overlaps(&self, other: &Rect) -> (r: bool)
        ensures
            r == rects_overlap(*self, *other),
    {
        let sx = self.x as i128;
        let sy = self.y as i128;
        let ox = other.x as i128;
        let oy = other.y as i128;
        sx < ox + other.w as i128 && ox < sx + self.w as i128 && sy < oy + other.h as i128
            && oy < sy + self.h as i128
    }
}

/// The overlap test does not depend on the order of its arguments.
pub proof fn lemma_overlaps_symmetric(a: Rect, b: Rect)
    ensures
        rects_overlap(a, b) == rects_overlap(b, a),
{
}

} // verus!
