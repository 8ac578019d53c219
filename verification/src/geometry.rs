//! Axis-aligned rectangles and the open-interval overlap test.

use vstd::prelude::*;

verus! {

/// An axis-aligned box. Coordinates and extents are in micro-pixels
/// (1_000_000 per logical pixel); a well-formed box has `w > 0` and `h > 0`.
#[derive(Clone, Copy, PartialEq, Eq, Structural, Debug)]
pub struct Rect {
    pub x: i64,
    pub y: i64,
    pub w: i64,
    pub h: i64,
}

/// Open-interval overlap on both axes: boxes that merely touch on an edge
/// (equality of an edge coordinate) do not intersect.
pub open spec fn rect_intersects(a: Rect, b: Rect) -> bool {
    &&& a.x < b.x + b.w
    &&& a.x + a.w > b.x
    &&& a.y < b.y + b.h
    &&& a.y + a.h > b.y
}

impl Rect {
    /// True iff `self` and `o` overlap on both axes; touching edges do not count.
    pub fn intersects(&self, o: &Rect) -> (r: bool)
        requires
            0 < self.w,
            0 < self.h,
            0 < o.w,
            0 < o.h,
            self.x + self.w <= i64::MAX,
            self.y + self.h <= i64::MAX,
            o.x + o.w <= i64::MAX,
            o.y + o.h <= i64::MAX,
        ensures
            r == rect_intersects(*self, *o),
    {
        self.x < o.x + o.w && self.x + self.w > o.x && self.y < o.y + o.h && self.y + self.h > o.y
    }
}

/// Overlap is symmetric: for all boxes `a`, `b`, the two tests agree.
pub proof fn lemma_intersects_symmetric(a: Rect, b: Rect)
    ensures
        rect_intersects(a, b) == rect_intersects(b, a),
{
}

/// Overlap is reflexive for any box of positive area.
pub proof fn lemma_intersects_reflexive(a: Rect)
    requires
        0 < a.w,
        0 < a.h,
    ensures
        rect_intersects(a, a),
{
}

} // verus!
