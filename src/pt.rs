//! Pixel coordinates.
use vstd::prelude::*;

verus! {

/// A pixel coordinate: (0, 0) is the top left, y grows downward.
#[derive(Copy, Clone, Debug, PartialEq, Eq, PartialOrd, Structural)]
pub struct Pt {
    pub x: i32,
    pub y: i32,
}

impl Pt {
    /// Make a new point.
    pub fn new(x: i32, y: i32) -> (r: Pt)
        ensures
            r.x == x,
            r.y == y,
    {
        Pt { x, y }
    }
}

} // verus!
