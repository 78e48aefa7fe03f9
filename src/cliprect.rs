//! Clip rectangles.
use vstd::prelude::*;
use crate::framebuffer::{LINES, WIDTH};
use crate::pt::Pt;

verus! {

/// A region of pixels, inclusive of `min` and exclusive of `max` on both axes.
#[derive(Copy, Clone, Debug, PartialEq, Eq, Structural)]
pub struct ClipRect {
    pub min: Pt,
    pub max: Pt,
}

/// Padding of `ClipRect::padded_screen` on every side.
pub const SCREEN_PAD: i32 = 6;

impl ClipRect {
    /// Whether the corners are ordered: `min` is above and left of `max`.
    pub open spec fn is_ordered(self) -> bool {
        self.min.x <= self.max.x && self.min.y <= self.max.y
    }

    /// Whether pixel (`x`, `y`) lies inside the rectangle.
    pub open spec fn contains(self, x: int, y: int) -> bool {
        self.min.x <= x < self.max.x && self.min.y <= y < self.max.y
    }

    /// Whether the rectangle is non-empty and lies inside the visible screen.
    pub open spec fn fits_screen(self) -> bool {
        0 <= self.min.x < self.max.x <= WIDTH && 0 <= self.min.y < self.max.y <= LINES
    }

    /// The rectangle spanned by the corners (`x0`, `y0`) and (`x1`, `y1`).
    pub open spec fn spanned(x0: i32, y0: i32, x1: i32, y1: i32) -> ClipRect {
        ClipRect {
            min: Pt { x: if x0 <= x1 { x0 } else { x1 }, y: if y0 <= y1 { y0 } else { y1 } },
            max: Pt { x: if x0 <= x1 { x1 } else { x0 }, y: if y0 <= y1 { y1 } else { y0 } },
        }
    }

    /// Make a rectangle from two corners, swapping coordinates so that
    /// `min <= max` on both axes.
    pub fn new(min_x: i32, min_y: i32, max_x: i32, max_y: i32) -> (r: ClipRect)
        ensures
            r == ClipRect::spanned(min_x, min_y, max_x, max_y),
    {
        let mut min = Pt { x: min_x, y: min_y };
        let mut max = Pt { x: max_x, y: max_y };
        if min_x > max_x {
            min.x = max_x;
            max.x = min_x;
        }
        if min_y > max_y {
            min.y = max_y;
            max.y = min_y;
        }
        ClipRect { min, max }
    }

    /// The full screen, (0, 0)..(WIDTH, LINES).
    pub fn full_screen() -> (r: ClipRect)
        ensures
            r.min.x == 0 && r.min.y == 0,
            r.max.x == WIDTH && r.max.y == LINES,
    {
        ClipRect::new(0, 0, WIDTH as i32, LINES as i32)
    }

    /// The screen less a margin of `SCREEN_PAD` on every side.
    pub fn padded_screen() -> (r: ClipRect)
        ensures
            r.min.x == SCREEN_PAD && r.min.y == SCREEN_PAD,
            r.max.x == WIDTH - SCREEN_PAD && r.max.y == LINES - SCREEN_PAD,
    {
        let pad = SCREEN_PAD;
        ClipRect::new(pad, pad, WIDTH as i32 - pad, LINES as i32 - pad)
    }
}

/// Corner normalisation: whatever order the coordinates come in, the
/// rectangle is ordered, and swapping the two x values or the two y values
/// gives the same rectangle.
pub proof fn lemma_new_normalises(a: i32, b: i32, c: i32, d: i32)
    ensures
        ({
            let r = ClipRect::spanned(a, b, c, d);
            &&& r.is_ordered()
            &&& r == ClipRect::spanned(c, b, a, d)
            &&& r == ClipRect::spanned(a, d, c, b)
            &&& r == ClipRect::spanned(c, d, a, b)
        }),
{
}

} // verus!
