//! A frame buffer owned as a value.
use vstd::prelude::*;
use crate::framebuffer::{FrBuf, FRAME_BUF_SIZE};

verus! {

/// LCD frame buffer.
pub struct FrameBuf {
    pub buf: FrBuf,
}

impl FrameBuf {
    /// A frame buffer with every pixel word zero.
    pub fn new() -> (r: FrameBuf)
        ensures
            forall|i: int| 0 <= i < FRAME_BUF_SIZE ==> r.buf[i] == 0,
    {
        FrameBuf { buf: [0u32; FRAME_BUF_SIZE] }
    }
}

} // verus!
