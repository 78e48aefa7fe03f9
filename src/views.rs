//! The home screen view.
use vstd::prelude::*;
use crate::blit::{clear_region, paint_str, CharPainter};
use crate::cliprect::ClipRect;
use crate::cursor::Cursor;
use crate::glyphstyle::GlyphStyle;
use crate::state::FrameBuf;

verus! {

/// Screen width in pixels.
pub const SCREEN_W: i32 = 336;

/// Screen height in pixels.
pub const SCREEN_H: i32 = 536;

/// Left margin of the home screen's text.
pub const MARGIN_X: i32 = 8;

/// Paint `s` in style `st` from the top left of the region whose top edge
/// is `top` and left edge is the margin.
fn string_left(fb: &mut FrameBuf, st: GlyphStyle, top: i32, s: &str) {
    let clip = ClipRect::new(MARGIN_X, top, SCREEN_W, SCREEN_H);
    let c = &mut Cursor::from_top_left_of(clip);
    paint_str(&mut fb.buf, clip, c, st, s, true, None, false, CharPainter::XorChar);
}

/// Home screen: a greeting in the three Latin styles, then pictures with
/// their names.
pub fn home_screen(fb: &mut FrameBuf) {
    // This has Unicode NFC and NFD
    let note = "Hello, world! \u{E4}a\u{308} \u{1F004}\u{1F0CF}\u{1F170}\u{1F170}\u{FE0F}";
    let sas1 = "   \u{1F34E}       \u{1F3B8}       \u{1F576}        \u{1F34E}";
    let sas2 = " apple  guitar  glasses  apple";
    let sas3 = "           \u{1F638}     \u{1F3A9}    \u{1F511}";
    let sas4 = "           cat    hat    key";
    clear_region(&mut fb.buf, ClipRect::new(0, 0, SCREEN_W, SCREEN_H));
    let mut top: i32 = 5;
    string_left(fb, GlyphStyle::Bold, top, note);
    top += 33;
    string_left(fb, GlyphStyle::Regular, top, note);
    top += 33;
    string_left(fb, GlyphStyle::Small, top, note);
    top += 66;
    string_left(fb, GlyphStyle::Regular, top, sas1);
    top += 33;
    string_left(fb, GlyphStyle::Regular, top, sas2);
    top += 66;
    string_left(fb, GlyphStyle::Regular, top, sas3);
    top += 33;
    string_left(fb, GlyphStyle::Regular, top, sas4);
}

} // verus!
