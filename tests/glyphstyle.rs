use blitstr::{glyph_to_height_hint, GlyphStyle};

#[test]
fn test_glyphstyle_arg_conversions() {
    let s: usize = GlyphStyle::Small.into();
    let r: usize = GlyphStyle::Regular.into();
    let b: usize = GlyphStyle::Bold.into();
    assert_eq!(GlyphStyle::Small, GlyphStyle::from(s));
    assert_eq!(GlyphStyle::Regular, GlyphStyle::from(r));
    assert_eq!(GlyphStyle::Bold, GlyphStyle::from(b));
    let bad_arg = 255;
    assert_eq!(GlyphStyle::Regular, GlyphStyle::from(bad_arg));
}

#[test]
fn test_glyphstyle_glyph_to_height_hint() {
    let h1 = glyph_to_height_hint(GlyphStyle::Small);
    let h2 = glyph_to_height_hint(GlyphStyle::Regular);
    let h3 = glyph_to_height_hint(GlyphStyle::Bold);
    assert_eq!(h1, 24);
    assert_eq!(h2, 30);
    assert_eq!(h3, 30);
}
