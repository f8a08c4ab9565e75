//! Axis-aligned rectangles in client coordinates.
use vstd::prelude::*;
use crate::types::RECT;

verus! {

/// A rectangle given by its top-left corner and its size.
#[derive(Debug, Clone, Copy, PartialEq, Eq, Structural)]
pub struct Rect {
    pub x: usize,
    pub y: usize,
    pub width: usize,
    pub height: usize,
}

/// Two half-open intervals `[a, a + len_a)` and `[b, b + len_b)` overlap.
pub open spec fn spans_overlap(a: int, len_a: int, b: int, len_b: int) -> bool {
    a < b + len_b && b < a + len_a
}

impl Rect {
    /// Whether `self` and `other` share at least one point, each rectangle
    /// covering `[x, x + width) × [y, y + height)`.
    pub open spec fn overlaps(self, other: Rect) -> bool {
        &&& spans_overlap(self.x as int, self.width as int, other.x as int, other.width as int)
        &&& spans_overlap(self.y as int, self.height as int, other.y as int, other.height as int)
    }

    pub fn new(x: usize, y: usize, width: usize, height: usize) -> (r: Self)
        ensures
            r == (Rect { x, y, width, height }),
    {
        Rect { x, y, width, height }
    }

    /// The rectangle covered by a Win32 `RECT` with non-negative edges.
    pub fn from_windows(rect: RECT) -> (r: Self)
        requires
            0 <= rect.left <= rect.right,
            0 <= rect.top <= rect.bottom,
        ensures
            r.x == rect.left,
            r.y == rect.top,
            r.width == rect.right - rect.left,
            r.height == rect.bottom - rect.top,
    {
        Rect {
            x: rect.left as usize,
            y: rect.top as usize,
            width: (rect.right - rect.left) as usize,
            height: (rect.bottom - rect.top) as usize,
        }
    }

    /// Whether the two rectangles overlap.
    pub fn intersects(&self, other: Rect) -> (r: bool)
        ensures
            r == self.overlaps(other),
    {
        span_overlaps(self.x, self.width, other.x, other.width) && span_overlaps(
            self.y,
            self.height,
            other.y,
            other.height,
        )
    }
}

/// Overlap does not depend on the order of the two rectangles.
pub proof fn lemma_overlap_symmetric(a: Rect, b: Rect)
    ensures
        a.overlaps(b) == b.overlaps(a),
{
}

fn span_overlaps(a: usize, len_a: usize, b: usize, len_b: usize) -> (r: bool)
    ensures
        r == spans_overlap(a as int, len_a as int, b as int, len_b as int),
{
    // a < b + len_b and b < a + len_a, written without overflowing additions
    let first = a < b || a - b < len_b;
    let second = b < a || b - a < len_a;
    first && second
}

} // verus!
