//! Axis-aligned rectangles in a top-left coordinate system (y grows downward).
use vstd::prelude::*;

verus! {

/// An axis-aligned rectangle: top-left corner `(x, y)` and its extent.
#[derive(Clone, Copy, Debug, PartialEq, Eq, Structural)]
pub struct Rect {
    pub x: i32,
    pub y: i32,
    pub width: u32,
    pub height: u32,
}

/// The rectangle of extent `size` whose top-left corner is `pos`.
pub open spec fn rect_at(size: (u32, u32), pos: (i32, i32)) -> Rect {
    Rect { x: pos.0, y: pos.1, width: size.0, height: size.1 }
}

/// Edge-inclusive overlap: rectangles that merely touch count as overlapping.
pub open spec fn overlaps_spec(a: Rect, b: Rect) -> bool {
    &&& a.x <= b.x + b.width
    &&& a.x + a.width >= b.x
    &&& a.y <= b.y + b.height
    &&& a.y + a.height >= b.y
}

/// The center point of a rectangle, halves of odd extents rounded down.
pub open spec fn center_spec(r: Rect) -> (int, int) {
    (r.x + r.width / 2, r.y + r.height / 2)
}

impl Rect {
    pub fn new(x: i32, y: i32, width: u32, height: u32) -> (r: Rect)
        ensures
            r == (Rect { x, y, width, height }),
    {
        Rect { x, y, width, height }
    }

    /// The center of the rectangle; computed in 64 bits, so it never overflows.
    pub fn center(&self) -> (r: (i64, i64))
        ensures
            r.0 == center_spec(*self).0,
            r.1 == center_spec(*self).1,
    {
        (self.x as i64 + (self.width / 2) as i64, self.y as i64 + (self.height / 2) as i64)
    }

    /// Whether the two rectangles intersect, edges included.
    pub fn overlaps(&self, other: &Rect) -> (r: bool)
        ensures
            r == overlaps_spec(*self, *other),
    {
        let ax = self.x as i64;
        let ay = self.y as i64;
        let bx = other.x as i64;
        let by = other.y as i64;
        ax <= bx + other.width as i64 && ax + self.width as i64 >= bx && ay <= by
            + other.height as i64 && ay + self.height as i64 >= by
    }
}

} // verus!
