use vstd::prelude::*;

use crate::config::COORD_SPAN;

verus! {

/// An axis-aligned rectangle with its top-left corner at `(x, y)`, in
/// micro-pixels. Width and height are intended to be non-negative.
#[derive(Clone, Copy, Debug, PartialEq, Eq, Structural)]
pub struct Rect {
    pub x: i64,
    pub y: i64,
    pub w: i64,
    pub h: i64,
}

/// Ghost mirror of `Rect` over unbounded integers.
#[verifier::ext_equal]
pub struct RectV {
    pub x: int,
    pub y: int,
    pub w: int,
    pub h: int,
}

impl View for Rect {
    type V = RectV;

    open spec fn view(&self) -> RectV {
        RectV { x: self.x as int, y: self.y as int, w: self.w as int, h: self.h as int }
    }
}

/// The two rectangles overlap: their intervals intersect strictly on both
/// axes. Touching edges do not count as overlap, so a zero-width or
/// zero-height rectangle can only be overlapped by one that straddles it.
pub open spec fn rects_overlap(a: RectV, b: RectV) -> bool {
    &&& a.x < b.x + b.w
    &&& b.x < a.x + a.w
    &&& a.y < b.y + b.h
    &&& b.y < a.y + a.h
}

/// Every field is small enough that sums of two fields fit in an `i64`.
pub open spec fn rect_bounded(r: RectV) -> bool {
    &&& -COORD_SPAN <= r.x <= COORD_SPAN
    &&& -COORD_SPAN <= r.y <= COORD_SPAN
    &&& 0 <= r.w <= COORD_SPAN
    &&& 0 <= r.h <= COORD_SPAN
}

impl Rect {
    pub fn new(x: i64, y: i64, w: i64, h: i64) -> (r: Rect)
        ensures
            r@ == (RectV { x: x as int, y: y as int, w: w as int, h: h as int }),
    {
        Rect { x, y, w, h }
    }

    /// Strict axis-aligned overlap test.
    pub fn overlaps(&self, other: &Rect) -> (r: bool)
        requires
            rect_bounded(self@),
            rect_bounded(other@),
        ensures
            r == rects_overlap(self@, other@),
    {
        self.x < other.x + other.w && other.x < self.x + self.w && self.y < other.y + other.h
            && other.y < self.y + self.h
    }
}

} // verus!
