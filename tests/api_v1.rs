use blitstr::{
    glyph_to_height_hint, new_fr_buf, ClipRect, Cursor, FrBuf, GlyphStyle, Pt, FRAME_BUF_SIZE,
    LINES, WIDTH, WORDS_PER_LINE,
};

#[test]
fn test_api_v1_cliprect() {
    let cr1 = ClipRect {
        min: Pt { x: 1, y: 2 },
        max: Pt { x: 3, y: 4 },
    };
    assert_eq!(cr1, ClipRect::new(1, 2, 3, 4));
    assert_ne!(ClipRect::full_screen(), ClipRect::padded_screen());
}

#[test]
fn test_api_v1_cursor() {
    let c1 = Cursor {
        pt: Pt { x: 1, y: 2 },
        line_height: 0,
    };
    assert_eq!(c1, Cursor::new(1, 2, 0));
    let clip = ClipRect::new(1, 2, 3, 4);
    let c2 = Cursor::from_top_left_of(clip);
    assert_eq!(c1.line_height, c2.line_height);
}

#[test]
fn test_api_v1_framebuffer() {
    assert_eq!(LINES * WORDS_PER_LINE, FRAME_BUF_SIZE);
    assert!(LINES > 0);
    assert!(WIDTH > 0);
    let fb: FrBuf = new_fr_buf();
    assert!(fb.len() > 0);
}

#[test]
fn test_api_v1_glyphstyle() {
    let s: usize = GlyphStyle::Small.into();
    let r: usize = GlyphStyle::Regular.into();
    let b: usize = GlyphStyle::Bold.into();
    assert_eq!(GlyphStyle::Small, GlyphStyle::from(s));
    assert_eq!(GlyphStyle::Regular, GlyphStyle::from(r));
    assert_eq!(GlyphStyle::Bold, GlyphStyle::from(b));
    assert_eq!(24, glyph_to_height_hint(GlyphStyle::Small));
    assert_eq!(30, glyph_to_height_hint(GlyphStyle::Regular));
    assert_eq!(30, glyph_to_height_hint(GlyphStyle::Bold));
}

#[test]
fn test_api_v1_pt() {
    let p1 = Pt { x: 1, y: 2 };
    let p2 = Pt::new(1, 2);
    assert_eq!(p1, p2);
}
