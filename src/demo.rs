//! Demonstration screens.
use vstd::prelude::*;
use crate::blit::{clear_region, paint_str, CharPainter};
use crate::cliprect::ClipRect;
use crate::cursor::Cursor;
use crate::framebuffer::FrBuf;
use crate::glyphstyle::GlyphStyle;

verus! {

/// Paint `s` with the XOR painter, no caret and no ellipsis.
fn paint_plain(fb: &mut FrBuf, clip: ClipRect, c: &mut Cursor, st: GlyphStyle, s: &str) {
    paint_str(fb, clip, c, st, s, true, None, false, CharPainter::XorChar);
}

/// Demonstrate the available fonts: Latin styles, combining marks, emoji,
/// word wrap, and painting into a narrowed clip rectangle.
pub fn sample_text(fb: &mut FrBuf) {
    // This has Unicode NFC and NFD
    let note = "Hello, world! \u{E4}a\u{308} \u{1F004}\u{1F0CF}\u{1F170}\u{1F170}\u{FE0F}\n";
    let sas1 = "\n   \u{1F34E}       \u{1F3B8}       \u{1F576}        \u{1F34E}\n";
    let sas2 = " apple  guitar  glasses  apple\n\n";
    let sas3 = "           \u{1F638}     \u{1F3A9}    \u{1F511}\n";
    let sas4 = "           cat    hat    key\n\n";
    let wrap = "The quick brown fox jumps over the lazy dog. Zw\u{F6}lf Boxk\u{E4}mpfer jagen Viktor quer \u{FC}ber den gro\u{DF}en Sylter Deich.\n";

    clear_region(fb, ClipRect::full_screen());
    let clip = ClipRect::padded_screen();
    let c = &mut Cursor::from_top_left_of(clip);
    paint_plain(fb, clip, c, GlyphStyle::Bold, note);
    paint_plain(fb, clip, c, GlyphStyle::Regular, note);
    paint_plain(fb, clip, c, GlyphStyle::Small, note);
    paint_plain(fb, clip, c, GlyphStyle::Regular, sas1);
    paint_plain(fb, clip, c, GlyphStyle::Regular, sas2);
    paint_plain(fb, clip, c, GlyphStyle::Regular, sas3);
    paint_plain(fb, clip, c, GlyphStyle::Regular, sas4);
    paint_plain(fb, clip, c, GlyphStyle::Regular, wrap);
    // A fresh cursor where the last one stopped
    let c = &mut Cursor::new(c.pt.x, c.pt.y, c.line_height);
    // Shrink the clip rectangle to a box at the bottom of the screen with
    // big margins left and right
    let min_y = if c.pt.y > i32::MAX - 12 {
        i32::MAX
    } else {
        c.pt.y + 12
    };
    let max_y = clip.max.y - 8;
    let min_x = clip.min.x + 30;
    let max_x = clip.max.x - 40;
    // Corners given in the wrong order get sorted out
    let clip = ClipRect::new(max_x, min_y, min_x, max_y);
    paint_plain(fb, clip, c, GlyphStyle::Small, wrap);
}

/// Short example to greet the world and a cat.
pub fn short_greeting(fb: &mut FrBuf) {
    // Clear entire screen
    let clip = ClipRect::full_screen();
    clear_region(fb, clip);
    // Paint with a small margin of background around the edges of the screen
    let clip = ClipRect::padded_screen();
    // A cursor at the clip rectangle's top left corner
    let cursor = &mut Cursor::from_top_left_of(clip);
    // Two lines of text, reusing the same cursor
    paint_plain(fb, clip, cursor, GlyphStyle::Regular, "Hello, world!\n");
    paint_plain(fb, clip, cursor, GlyphStyle::Regular, "Hello, \u{1F638}!\n");
}

/// A four line poem in hanzi.
pub fn goose_poem(fb: &mut FrBuf) {
    let clip = ClipRect::full_screen();
    clear_region(fb, clip);
    let clip = ClipRect::padded_screen();
    let c = &mut Cursor::from_top_left_of(clip);
    let poem = "\u{9E45}\u{3001}\u{9E45}\u{3001}\u{9E45}\u{FF0C}\n\u{66F2}\u{9879}\u{5411}\u{5929}\u{6B4C}\u{3002}\n\u{767D}\u{6BDB}\u{6D6E}\u{7EFF}\u{6C34}\u{FF0C}\n\u{7EA2}\u{638C}\u{62E8}\u{6E05}\u{6CE2}\n";
    paint_plain(fb, clip, c, GlyphStyle::Regular, poem);
}

} // verus!
