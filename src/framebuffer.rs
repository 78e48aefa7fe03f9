//! Geometry and storage of the 1-bit frame buffer.
use vstd::prelude::*;

verus! {

/// Words of pixel data per scanline (one more than `WIDTH` needs; its spare
/// bits hold the per-line dirty flag).
pub const WORDS_PER_LINE: usize = 11;

/// Visible pixels per scanline.
pub const WIDTH: usize = 336;

/// Scanlines in the frame buffer.
pub const LINES: usize = 536;

/// Words in the whole frame buffer.
pub const FRAME_BUF_SIZE: usize = 5896;

/// Frame buffer of 1-bit pixels: pixel `x` of line `y` is bit `x % 32` of
/// word `y * WORDS_PER_LINE + x / 32`.
pub type FrBuf = [u32; FRAME_BUF_SIZE];

/// Value of every word of a freshly made frame buffer (a striped pattern).
pub const STRIPES: u32 = 0xffff0000;

/// Bit `b` (0 = least significant) of the word `w`.
pub open spec fn bit(w: u32, b: int) -> bool {
    (w >> (b as u32)) & 1u32 == 1u32
}

/// Index of the word that holds pixel `x` of line `y`.
pub open spec fn word_index(x: int, y: int) -> int {
    y * WORDS_PER_LINE + x / 32
}

/// Whether (`x`, `y`) names a stored pixel (visible or not).
pub open spec fn in_buffer(x: int, y: int) -> bool {
    0 <= x < 32 * WORDS_PER_LINE && 0 <= y < LINES
}

/// Pixel `x` of line `y` in the words `fb`.
pub open spec fn pixel(fb: Seq<u32>, x: int, y: int) -> bool {
    bit(fb[word_index(x, y)], x % 32)
}

/// Mask of the bit, in the last word of a line, that flags the line as changed.
pub const DIRTY_BIT: u32 = 0x1_0000;

/// Horizontal position of the dirty flag when read as a pixel.
pub open spec fn dirty_x() -> int {
    32 * (WORDS_PER_LINE - 1) + 16
}

/// Words that agree on every bit are equal.
pub proof fn lemma_word_from_bits(u: u32, v: u32)
    requires
        forall|b: int| 0 <= b < 32 ==> #[trigger] bit(u, b) == bit(v, b),
    ensures
        u == v,
{
    assert(bit(u, 0) == bit(v, 0));
    assert(bit(u, 1) == bit(v, 1));
    assert(bit(u, 2) == bit(v, 2));
    assert(bit(u, 3) == bit(v, 3));
    assert(bit(u, 4) == bit(v, 4));
    assert(bit(u, 5) == bit(v, 5));
    assert(bit(u, 6) == bit(v, 6));
    assert(bit(u, 7) == bit(v, 7));
    assert(bit(u, 8) == bit(v, 8));
    assert(bit(u, 9) == bit(v, 9));
    assert(bit(u, 10) == bit(v, 10));
    assert(bit(u, 11) == bit(v, 11));
    assert(bit(u, 12) == bit(v, 12));
    assert(bit(u, 13) == bit(v, 13));
    assert(bit(u, 14) == bit(v, 14));
    assert(bit(u, 15) == bit(v, 15));
    assert(bit(u, 16) == bit(v, 16));
    assert(bit(u, 17) == bit(v, 17));
    assert(bit(u, 18) == bit(v, 18));
    assert(bit(u, 19) == bit(v, 19));
    assert(bit(u, 20) == bit(v, 20));
    assert(bit(u, 21) == bit(v, 21));
    assert(bit(u, 22) == bit(v, 22));
    assert(bit(u, 23) == bit(v, 23));
    assert(bit(u, 24) == bit(v, 24));
    assert(bit(u, 25) == bit(v, 25));
    assert(bit(u, 26) == bit(v, 26));
    assert(bit(u, 27) == bit(v, 27));
    assert(bit(u, 28) == bit(v, 28));
    assert(bit(u, 29) == bit(v, 29));
    assert(bit(u, 30) == bit(v, 30));
    assert(bit(u, 31) == bit(v, 31));
    assert(u == v) by (bit_vector)
        requires
            ((u >> 0u32) & 1u32 == 1u32) == ((v >> 0u32) & 1u32 == 1u32),
            ((u >> 1u32) & 1u32 == 1u32) == ((v >> 1u32) & 1u32 == 1u32),
            ((u >> 2u32) & 1u32 == 1u32) == ((v >> 2u32) & 1u32 == 1u32),
            ((u >> 3u32) & 1u32 == 1u32) == ((v >> 3u32) & 1u32 == 1u32),
            ((u >> 4u32) & 1u32 == 1u32) == ((v >> 4u32) & 1u32 == 1u32),
            ((u >> 5u32) & 1u32 == 1u32) == ((v >> 5u32) & 1u32 == 1u32),
            ((u >> 6u32) & 1u32 == 1u32) == ((v >> 6u32) & 1u32 == 1u32),
            ((u >> 7u32) & 1u32 == 1u32) == ((v >> 7u32) & 1u32 == 1u32),
            ((u >> 8u32) & 1u32 == 1u32) == ((v >> 8u32) & 1u32 == 1u32),
            ((u >> 9u32) & 1u32 == 1u32) == ((v >> 9u32) & 1u32 == 1u32),
            ((u >> 10u32) & 1u32 == 1u32) == ((v >> 10u32) & 1u32 == 1u32),
            ((u >> 11u32) & 1u32 == 1u32) == ((v >> 11u32) & 1u32 == 1u32),
            ((u >> 12u32) & 1u32 == 1u32) == ((v >> 12u32) & 1u32 == 1u32),
            ((u >> 13u32) & 1u32 == 1u32) == ((v >> 13u32) & 1u32 == 1u32),
            ((u >> 14u32) & 1u32 == 1u32) == ((v >> 14u32) & 1u32 == 1u32),
            ((u >> 15u32) & 1u32 == 1u32) == ((v >> 15u32) & 1u32 == 1u32),
            ((u >> 16u32) & 1u32 == 1u32) == ((v >> 16u32) & 1u32 == 1u32),
            ((u >> 17u32) & 1u32 == 1u32) == ((v >> 17u32) & 1u32 == 1u32),
            ((u >> 18u32) & 1u32 == 1u32) == ((v >> 18u32) & 1u32 == 1u32),
            ((u >> 19u32) & 1u32 == 1u32) == ((v >> 19u32) & 1u32 == 1u32),
            ((u >> 20u32) & 1u32 == 1u32) == ((v >> 20u32) & 1u32 == 1u32),
            ((u >> 21u32) & 1u32 == 1u32) == ((v >> 21u32) & 1u32 == 1u32),
            ((u >> 22u32) & 1u32 == 1u32) == ((v >> 22u32) & 1u32 == 1u32),
            ((u >> 23u32) & 1u32 == 1u32) == ((v >> 23u32) & 1u32 == 1u32),
            ((u >> 24u32) & 1u32 == 1u32) == ((v >> 24u32) & 1u32 == 1u32),
            ((u >> 25u32) & 1u32 == 1u32) == ((v >> 25u32) & 1u32 == 1u32),
            ((u >> 26u32) & 1u32 == 1u32) == ((v >> 26u32) & 1u32 == 1u32),
            ((u >> 27u32) & 1u32 == 1u32) == ((v >> 27u32) & 1u32 == 1u32),
            ((u >> 28u32) & 1u32 == 1u32) == ((v >> 28u32) & 1u32 == 1u32),
            ((u >> 29u32) & 1u32 == 1u32) == ((v >> 29u32) & 1u32 == 1u32),
            ((u >> 30u32) & 1u32 == 1u32) == ((v >> 30u32) & 1u32 == 1u32),
            ((u >> 31u32) & 1u32 == 1u32) == ((v >> 31u32) & 1u32 == 1u32),
    ;
}

/// Two frame buffers with the same pixels are equal.
pub proof fn lemma_buffer_from_pixels(a: Seq<u32>, b: Seq<u32>)
    requires
        a.len() == FRAME_BUF_SIZE,
        b.len() == FRAME_BUF_SIZE,
        forall|x: int, y: int| in_buffer(x, y) ==> #[trigger] pixel(a, x, y) == pixel(b, x, y),
    ensures
        a == b,
{
    assert forall|i: int| 0 <= i < FRAME_BUF_SIZE implies a[i] == b[i] by {
        let y = i / (WORDS_PER_LINE as int);
        let w = i % (WORDS_PER_LINE as int);
        assert(i == y * WORDS_PER_LINE + w);
        assert forall|k: int| 0 <= k < 32 implies #[trigger] bit(a[i], k) == bit(b[i], k) by {
            let x = 32 * w + k;
            assert(x / 32 == w && x % 32 == k);
            assert(in_buffer(x, y));
            assert(word_index(x, y) == i);
            assert(pixel(a, x, y) == pixel(b, x, y));
        }
        lemma_word_from_bits(a[i], b[i]);
    }
    assert(a =~= b);
}

/// Make a frame buffer holding the striped start pattern.
pub fn new_fr_buf() -> (r: FrBuf)
    ensures
        forall|i: int| 0 <= i < FRAME_BUF_SIZE ==> r[i] == STRIPES,
{
    [STRIPES; FRAME_BUF_SIZE]
}

} // verus!
