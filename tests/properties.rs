use blitstr::blit::{newline, paint_step};
use blitstr::fonts::{murmur3, small};
use blitstr::m3hash::frame_buffer;
use blitstr::{
    clear_region, draw_ellipsis, new_fr_buf, paint_str, simulate_char, xor_char, CharPainter,
    ClipRect, Cursor, FrBuf, GlyphData, GlyphHeader, GlyphSet, GlyphStyle, NoGlyphErr, Pt,
    FRAME_BUF_SIZE, WORDS_PER_LINE,
};

fn px(fb: &FrBuf, x: usize, y: usize) -> bool {
    (fb[y * WORDS_PER_LINE + x / 32] >> (x % 32)) & 1 == 1
}

fn cleared_screen() -> FrBuf {
    let mut fb = new_fr_buf();
    clear_region(&mut fb, ClipRect::full_screen());
    fb
}

#[test]
fn cliprect_sorts_any_corner_order() {
    let want = ClipRect { min: Pt { x: -9, y: 3 }, max: Pt { x: -5, y: 7 } };
    assert_eq!(ClipRect::new(-5, 7, -9, 3), want);
    assert_eq!(ClipRect::new(-9, 7, -5, 3), want);
    assert_eq!(ClipRect::new(-5, 3, -9, 7), want);
    assert_eq!(ClipRect::new(-9, 3, -5, 7), want);
    assert_eq!(ClipRect::padded_screen(), ClipRect::new(6, 6, 330, 530));
}

#[test]
fn style_codes_round_trip() {
    for st in [GlyphStyle::Small, GlyphStyle::Regular, GlyphStyle::Bold] {
        let n: usize = st.into();
        assert_eq!(GlyphStyle::from(n), st);
    }
    assert_eq!(GlyphStyle::from(3usize), GlyphStyle::Regular);
    assert_eq!(GlyphStyle::from(usize::MAX), GlyphStyle::Regular);
}

#[test]
fn clear_region_sets_only_the_rectangle() {
    let mut fb = [0u32; FRAME_BUF_SIZE];
    clear_region(&mut fb, ClipRect::new(2, 0, 5, 1));
    assert_eq!(fb[0], 0x1c);
    assert!(fb[1..].iter().all(|w| *w == 0));
    let mut fb = [0u32; FRAME_BUF_SIZE];
    clear_region(&mut fb, ClipRect::new(30, 1, 70, 2));
    assert_eq!(fb[WORDS_PER_LINE], 0xc000_0000);
    assert_eq!(fb[WORDS_PER_LINE + 1], 0xffff_ffff);
    assert_eq!(fb[WORDS_PER_LINE + 2], 0x0000_003f);
    assert_eq!(fb.iter().filter(|w| **w != 0).count(), 3);
}

#[test]
fn clear_region_ignores_degenerate_or_offscreen_rects() {
    let before = new_fr_buf();
    for clip in [
        ClipRect::new(5, 5, 5, 9),
        ClipRect::new(5, 5, 9, 5),
        ClipRect::new(0, 0, 337, 10),
        ClipRect::new(0, 0, 10, 537),
        ClipRect::new(-1, 0, 10, 10),
    ] {
        let mut fb = new_fr_buf();
        clear_region(&mut fb, clip);
        assert_eq!(fb, before);
    }
}

#[test]
fn paint_same_string_twice_gives_same_pixels() {
    let mut hashes = Vec::new();
    for _ in 0..2 {
        let mut fb = cleared_screen();
        let clip = ClipRect::full_screen();
        let c = &mut Cursor::from_top_left_of(clip);
        paint_str(&mut fb, clip, c, GlyphStyle::Small, "abc", true, None, false, CharPainter::XorChar);
        hashes.push(frame_buffer(&fb, 0));
        assert_eq!(*c, Cursor::new(33, 0, 24));
    }
    assert_eq!(hashes, vec![0x5DE65BFC, 0x5DE65BFC]);
}

#[test]
fn paint_whole_string_equals_char_by_char_small() {
    let clip = ClipRect::full_screen();
    let s = "The quick brown fox jumps over the lazy dog.";
    let mut fb = cleared_screen();
    let c1 = &mut Cursor::from_top_left_of(clip);
    paint_str(&mut fb, clip, c1, GlyphStyle::Small, s, true, None, false, CharPainter::XorChar);
    assert_eq!(frame_buffer(&fb, 0), 0x83FBA3AB);
    let mut fb2 = cleared_screen();
    let c2 = &mut Cursor::from_top_left_of(clip);
    for (j, ch) in s.char_indices() {
        let k = j + ch.len_utf8();
        paint_str(&mut fb2, clip, c2, GlyphStyle::Small, &s[j..k], true, None, false, CharPainter::XorChar);
    }
    assert_eq!(frame_buffer(&fb2, 0), 0x83FBA3AB);
    assert_eq!(*c1, *c2);
    assert_eq!(*c1, Cursor::new(123, 25, 24));
}

#[test]
fn unsupported_characters_still_advance() {
    let clip = ClipRect::full_screen();
    let mut fb = cleared_screen();
    let c = &mut Cursor::from_top_left_of(clip);
    paint_str(&mut fb, clip, c, GlyphStyle::Small, "\u{1F600}\u{1F601}", true, None, false, CharPainter::XorChar);
    // Two replacement characters, each 18 pixels wide plus 3 of padding
    assert_eq!(*c, Cursor::new(42, 0, 24));
    assert_ne!(fb, cleared_screen());
    let mut fb2 = cleared_screen();
    let c2 = &mut Cursor::from_top_left_of(clip);
    paint_str(&mut fb2, clip, c2, GlyphStyle::Small, "\u{1F600}\u{1F601}", true, None, false, CharPainter::SimulateChar);
    assert_eq!(*c2, *c);
    assert_eq!(fb2, cleared_screen());
    let mut c3 = Cursor::from_top_left_of(clip);
    let used = paint_step(&mut fb2, clip, &mut c3, GlyphSet::Small, "\u{1F600}x", true, false, CharPainter::XorChar);
    assert_eq!(used, Some(4));
}

#[test]
fn glyph_below_the_clip_is_not_drawn() {
    let clip = ClipRect::new(0, 0, 336, 10);
    let mut fb = cleared_screen();
    let c = &mut Cursor::new(0, 600, 0);
    let r = xor_char(&mut fb, clip, c, "a", GlyphSet::Small, true, false);
    assert_eq!(r, Ok(None));
    assert_eq!(fb, cleared_screen());
}

#[test]
fn glyph_straddling_the_clip_is_cut() {
    let clip = ClipRect::new(0, 0, 336, 10);
    let mut fb = cleared_screen();
    let c = &mut Cursor::from_top_left_of(clip);
    paint_str(&mut fb, clip, c, GlyphStyle::Small, "abc", true, None, false, CharPainter::XorChar);
    assert_eq!(frame_buffer(&fb, 0), 0x5D0478AC);
    let clean = cleared_screen();
    assert_eq!(fb[10 * WORDS_PER_LINE..], clean[10 * WORDS_PER_LINE..]);
    assert_ne!(fb[..10 * WORDS_PER_LINE], clean[..10 * WORDS_PER_LINE]);
}

#[test]
fn xor_char_results() {
    let clip = ClipRect::full_screen();
    let mut fb = cleared_screen();
    let mut c = Cursor::from_top_left_of(clip);
    assert_eq!(xor_char(&mut fb, clip, &mut c, "abc", GlyphSet::Small, true, false), Ok(Some(1)));
    assert_eq!(c, Cursor::new(11, 0, 24));
    assert_eq!(xor_char(&mut fb, clip, &mut c, "a\u{308}", GlyphSet::Small, true, false), Ok(Some(3)));
    assert_eq!(xor_char(&mut fb, clip, &mut c, "a", GlyphSet::Regular, true, false), Err(NoGlyphErr));
    assert_eq!(xor_char(&mut fb, clip, &mut c, "\u{4E00}", GlyphSet::Small, true, false), Err(NoGlyphErr));
    let bad = ClipRect::new(0, 0, 400, 10);
    let before = c;
    assert_eq!(xor_char(&mut fb, bad, &mut c, "a", GlyphSet::Small, true, false), Ok(None));
    assert_eq!(c, before);
    // Toggling the same glyph twice at the same place restores the pixels
    let mut fb = cleared_screen();
    let mut c = Cursor::from_top_left_of(clip);
    xor_char(&mut fb, clip, &mut c, "a", GlyphSet::Small, true, false).unwrap();
    let mut c = Cursor::from_top_left_of(clip);
    xor_char(&mut fb, clip, &mut c, "a", GlyphSet::Small, true, false).unwrap();
    assert_eq!(fb, cleared_screen());
}

#[test]
fn erase_mode_clears_glyph_pixels() {
    let clip = ClipRect::full_screen();
    let mut fb_x = cleared_screen();
    let mut c = Cursor::from_top_left_of(clip);
    xor_char(&mut fb_x, clip, &mut c, "a", GlyphSet::Small, true, false).unwrap();
    let mut fb_e = cleared_screen();
    let mut c = Cursor::from_top_left_of(clip);
    xor_char(&mut fb_e, clip, &mut c, "a", GlyphSet::Small, false, false).unwrap();
    // On a fully set background both modes give the same pixels
    assert_eq!(fb_x, fb_e);
}

#[test]
fn simulate_char_moves_cursor_only() {
    let clip = ClipRect::full_screen();
    let mut fb = cleared_screen();
    let mut c = Cursor::from_top_left_of(clip);
    assert_eq!(simulate_char(&mut fb, clip, &mut c, "abc", GlyphSet::Small, true, false), Ok(Some(1)));
    assert_eq!(c, Cursor::new(11, 0, 24));
    assert_eq!(fb, cleared_screen());
}

#[test]
fn newline_moves_down_by_line_height() {
    let clip = ClipRect::new(4, 0, 100, 100);
    let mut c = Cursor::new(50, 10, 0);
    newline(clip, &mut c);
    assert_eq!(c, Cursor::new(4, 35, 0));
    let mut c = Cursor::new(50, 10, 30);
    newline(clip, &mut c);
    assert_eq!(c, Cursor::new(4, 41, 0));
    let mut c = Cursor::new(50, i32::MAX - 5, 30);
    newline(clip, &mut c);
    assert_eq!(c, Cursor::new(4, i32::MAX, 0));
}

#[test]
fn wraps_when_the_glyph_does_not_fit() {
    let clip = ClipRect::new(0, 0, 20, 200);
    let mut fb = cleared_screen();
    let mut c = Cursor::new(10, 0, 0);
    // 'a' is 8 wide: 10 + 1 + 8 + 2 >= 20, so it goes to the next line
    assert_eq!(xor_char(&mut fb, clip, &mut c, "a", GlyphSet::Small, true, false), Ok(Some(1)));
    assert_eq!(c, Cursor::new(11, 25, 24));
}

#[test]
fn caret_at_start_and_end() {
    let clip = ClipRect::full_screen();
    let mut fb = cleared_screen();
    let c = &mut Cursor::from_top_left_of(clip);
    paint_str(&mut fb, clip, c, GlyphStyle::Small, "ab", true, Some(0), false, CharPainter::SimulateChar);
    // The caret toggles column 0 on lines 2..22
    assert!(!px(&fb, 0, 2));
    assert!(!px(&fb, 0, 21));
    assert!(px(&fb, 0, 22));
    assert!(px(&fb, 0, 1));
    let mut fb = cleared_screen();
    let c = &mut Cursor::from_top_left_of(clip);
    paint_str(&mut fb, clip, c, GlyphStyle::Small, "ab", true, Some(1), false, CharPainter::SimulateChar);
    // After one character the cursor is at x = 11
    assert!(!px(&fb, 11, 2));
    assert!(px(&fb, 0, 2));
}

#[test]
fn ellipsis_mark_pixels() {
    let mut fb = [0u32; FRAME_BUF_SIZE];
    draw_ellipsis(&mut fb, Cursor::new(100, 50, 0), 20, 24, ClipRect::full_screen());
    assert!(px(&fb, 100, 60));
    assert!(px(&fb, 109, 73));
    assert!(!px(&fb, 110, 60));
    assert!(!px(&fb, 100, 74));
    assert!(!px(&fb, 101, 70));
    assert!(!px(&fb, 102, 71));
    assert!(px(&fb, 103, 70));
    assert!(!px(&fb, 108, 71));
    assert!(px(&fb, 109, 71));
}

#[test]
fn glyph_data_access() {
    assert_eq!(GlyphData::Small(322).header(), Ok(GlyphHeader { w: 8, h: 10, y_offset: 10 }));
    assert_eq!(GlyphData::Small(1058).header(), Ok(GlyphHeader { w: 18, h: 20, y_offset: 2 }));
    assert_eq!(GlyphData::Small(1071).header(), Err(NoGlyphErr));
    assert_eq!(GlyphData::Regular(0).header(), Err(NoGlyphErr));
    assert_eq!(GlyphData::Small(1058).nth_word(0), Ok(0x00121402));
    assert_eq!(GlyphData::Small(1058).nth_word(12), Ok(0));
    assert_eq!(GlyphData::Small(1058).nth_word(13), Err(NoGlyphErr));
    assert_eq!(GlyphData::Emoji(0).nth_word(0), Err(NoGlyphErr));
    assert_eq!(GlyphSet::Small.max_height(), 24);
}

#[test]
fn small_font_lookup() {
    assert_eq!(small::get_blit_pattern_offset("a"), Ok((GlyphData::Small(322), 1)));
    assert_eq!(small::get_blit_pattern_offset("\u{E4}"), Ok((GlyphData::Small(861), 2)));
    assert_eq!(small::get_blit_pattern_offset("a\u{308}x"), Ok((GlyphData::Small(861), 3)));
    assert_eq!(small::get_blit_pattern_offset("\u{20AC}"), Ok((GlyphData::Small(1051), 3)));
    assert_eq!(small::get_blit_pattern_offset("\u{152}"), Ok((GlyphData::Small(1004), 2)));
    assert_eq!(small::get_blit_pattern_offset("\u{FFFD}"), Ok((GlyphData::Small(1058), 3)));
    assert_eq!(small::get_blit_pattern_offset(""), Err(NoGlyphErr));
    assert_eq!(small::get_blit_pattern_offset("\u{4E00}"), Err(NoGlyphErr));
    assert_eq!(murmur3("test", 0, 1), (0x31099644, 1));
    assert_eq!(NoGlyphErr.message(), "Font has no glyph for requested grapheme cluster");
}

#[test]
fn ellipsis_replaces_text_that_would_leave_the_clip() {
    let clip = ClipRect::new(0, 0, 30, 30);
    let mut fb = cleared_screen();
    let c = &mut Cursor::from_top_left_of(clip);
    paint_str(&mut fb, clip, c, GlyphStyle::Small, "abcdef", true, None, true, CharPainter::XorChar);
    // "c" would wrap onto a line below the clip: the ellipsis ends the text
    assert_eq!(*c, Cursor::new(0, 25, 0));
    // The mark is moved left to end at the clip's right edge: x0 = 20
    assert!(!px(&fb, 21, 20));
    assert!(!px(&fb, 22, 21));
    assert!(px(&fb, 23, 20));
    assert!(!px(&fb, 28, 21));
    assert!(px(&fb, 29, 21));
    let clean = cleared_screen();
    assert_eq!(fb[25 * WORDS_PER_LINE..], clean[25 * WORDS_PER_LINE..]);
}
