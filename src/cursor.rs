//! Text cursor.
use vstd::prelude::*;
use crate::cliprect::ClipRect;
use crate::pt::Pt;

verus! {

/// Where the next glyph goes, and the height of the tallest glyph placed on
/// the current line so far.
#[derive(Copy, Clone, Debug, PartialEq, Eq, Structural)]
pub struct Cursor {
    pub pt: Pt,
    pub line_height: i32,
}

impl Cursor {
    /// Make a cursor at (`x`, `y`) with the given line height.
    pub fn new(x: i32, y: i32, line_height: i32) -> (r: Cursor)
        ensures
            r == (Cursor { pt: Pt { x, y }, line_height }),
    {
        Cursor { pt: Pt { x, y }, line_height }
    }

    /// Make a cursor at the top left corner of `r`, with no line height yet.
    pub fn from_top_left_of(r: ClipRect) -> (c: Cursor)
        ensures
            c == (Cursor { pt: r.min, line_height: 0 }),
    {
        Cursor { pt: r.min, line_height: 0 }
    }
}

} // verus!
