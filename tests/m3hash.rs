use blitstr::m3hash::{frame_buffer, grapheme_cluster};

#[test]
fn test_grapheme_cluster_ascii_seed0_limit1() {
    let gc = &"test";
    let seed = 0;
    let limit = 1;
    // This is hashing just the 't' from "test"
    assert_eq!(grapheme_cluster(gc, seed, limit), (0x31099644, 1));
}

#[test]
fn test_grapheme_cluster_ascii_seed1_limit1() {
    let gc = &"test";
    let seed = 1;
    let limit = 1;
    assert_eq!(grapheme_cluster(gc, seed, limit), (0xD667FA27, 1));
}

#[test]
fn test_grapheme_cluster_simple_emoji_limit1() {
    let gc = &"\u{1F638}test";
    let seed = 0;
    let limit = 1;
    // 4 bytes were used for a limit of 1 codepoint
    assert_eq!(grapheme_cluster(gc, seed, limit), (0x86E5DD9A, 4));
}

#[test]
fn test_grapheme_cluster_combo_emoji_limit2() {
    let gc = &"\u{1F4FA}\u{FE0F}";
    let seed = 0;
    let limit = 2;
    // 7 bytes were used for a limit of 2 codepoints
    assert_eq!(grapheme_cluster(gc, seed, limit), (0x7C5E300, 7));
}

#[test]
fn test_frame_buffer_seed0_0x00000000_len1() {
    let fb: &[u32] = &[0x0];
    let seed = 0;
    assert_eq!(frame_buffer(fb, seed), 0x9B9CB39A);
}

#[test]
fn test_frame_buffer_seed1_0x00000000_len1() {
    let fb: &[u32] = &[0x0];
    let seed = 1;
    assert_eq!(frame_buffer(fb, seed), 0xC8C1D2C1);
}

#[test]
fn test_frame_buffer_seed0_0x00000100_len1() {
    let fb: &[u32] = &[0x00000500];
    let seed = 0;
    assert_eq!(frame_buffer(fb, seed), 0x7DEFDA4F);
}

#[test]
fn test_frame_buffer_seed0_0x00000100_len2000() {
    let fb: &[u32] = &[0x00000500; 2000];
    let seed = 0;
    assert_eq!(frame_buffer(fb, seed), 0x4E61577A);
}

#[test]
fn test_frame_buffer_seed0_0xffffffff_len2000() {
    let fb: &[u32] = &[0xFFFFFFFF; 2000];
    let seed = 0;
    assert_eq!(frame_buffer(fb, seed), 0x59F987C6);
}
