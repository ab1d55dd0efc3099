//! Axis-aligned rectangles and the overlap test used for collisions.
//! Touching edges — zero overlap area — do not count as overlapping.
use vstd::prelude::*;

use crate::COORD_LIMIT;

verus! {

/// Mathematical rectangle: upper-left corner, width and height.
pub ghost struct RectV {
    pub x: int,
    pub y: int,
    pub w: int,
    pub h: int,
}

/// An axis-aligned rectangle in coordinate steps, upper-left corner at
/// `(x, y)`, extending `w` steps right and `h` steps down.
#[derive(Clone, Copy, Debug, PartialEq, Eq, Structural)]
pub struct Rect {
    pub x: i64,
    pub y: i64,
    pub w: i64,
    pub h: i64,
}

impl View for Rect {
    type V = RectV;

    open spec fn view(&self) -> RectV {
        RectV { x: self.x as int, y: self.y as int, w: self.w as int, h: self.h as int }
    }
}

/// Both axis intervals intersect with positive length; shared edges do not
/// count.
pub open spec fn rects_overlap(a: RectV, b: RectV) -> bool {
    &&& a.x < b.x + b.w
    &&& b.x < a.x + a.w
    &&& a.y < b.y + b.h
    &&& b.y < a.y + a.h
}

/// The rectangle's corner coordinates and extents are small enough that the
/// sums of the overlap test cannot overflow.
pub open spec fn rect_in_range(r: RectV) -> bool {
    &&& -COORD_LIMIT <= r.x <= COORD_LIMIT
    &&& -COORD_LIMIT <= r.y <= COORD_LIMIT
    &&& 0 <= r.w <= COORD_LIMIT
    &&& 0 <= r.h <= COORD_LIMIT
}

impl Rect {
    pub fn new(x: i64, y: i64, w: i64, h: i64) -> (r: Rect)
        ensures
            r@ == (RectV { x: x as int, y: y as int, w: w as int, h: h as int }),
    {
        Rect { x, y, w, h }
    }

    /// Whether `self` and `other` overlap with positive area.
    pub fn overlaps(&self, other: &Rect) -> (r: bool)
        requires
            rect_in_range(self@),
            rect_in_range(other@),
        ensures
            r == rects_overlap(self@, other@),
    {
        self.x < other.x + other.w && other.x < self.x + self.w && self.y < other.y + other.h
            && other.y < self.y + self.h
    }
}

/// Two rectangles that merely touch — they share an edge, enclosing zero
/// area — do not overlap.
pub proof fn lemma_touching_does_not_overlap(a: RectV, b: RectV)
    requires
        a.x + a.w == b.x || b.x + b.w == a.x || a.y + a.h == b.y || b.y + b.h == a.y,
    ensures
        !rects_overlap(a, b),
{
}

/// Two rectangles that overhang each other by a positive margin on both
/// axes overlap.
pub proof fn lemma_positive_margin_overlaps(a: RectV, b: RectV, ex: int, ey: int)
    requires
        ex > 0,
        ey > 0,
        a.x + ex <= b.x + b.w,
        b.x + ex <= a.x + a.w,
        a.y + ey <= b.y + b.h,
        b.y + ey <= a.y + a.h,
    ensures
        rects_overlap(a, b),
{
}

} // verus!
