use blitstr::m3hash;
use blitstr::{clear_region, new_fr_buf, paint_str, CharPainter, ClipRect, Cursor, GlyphStyle};

#[test]
fn test_clear_region() {
    let fb = &mut new_fr_buf();
    clear_region(fb, ClipRect::full_screen());
    let seed = 0;
    assert_eq!(m3hash::frame_buffer(fb, seed), 0x3A25F08C);
}

#[test]
/// paint_str() with GlyphStyle::Small and a short ascii string
fn test_paint_str_glyphstyle_small_abc() {
    let fb = &mut new_fr_buf();
    let clip = ClipRect::full_screen();
    clear_region(fb, clip);
    let cursor = &mut Cursor::from_top_left_of(clip);
    paint_str(fb, clip, cursor, GlyphStyle::Small, "abc", true, None, false, CharPainter::XorChar);
    assert_eq!(m3hash::frame_buffer(fb, 0), 0x5DE65BFC);
}
