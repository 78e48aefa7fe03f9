//! Pixel operations on the frame buffer: region fill, glyph blits, caret and
//! ellipsis marks, and the string layout loop.
use vstd::prelude::*;
use crate::cliprect::ClipRect;
use crate::cursor::Cursor;
use crate::glyphstyle::GlyphStyle;
use crate::m3hash::cluster_hash;
use crate::text::{first_char_len, first_scalar, skip_chars};
use vstd::utf8::encode_utf8;
use crate::fonts::{
    find_in, lemma_header_fields, lemma_resolve_covers, lookup, max_height_of, resolve, set_data, small, unpack_header, GlyphData, GlyphHeader, GlyphSet,
    NoGlyphErr,
};
use crate::pt::Pt;
use crate::framebuffer::{
    lemma_buffer_from_pixels, FRAME_BUF_SIZE, bit, dirty_x, in_buffer, pixel, word_index, FrBuf, DIRTY_BIT, LINES, WIDTH, WORDS_PER_LINE,
};

verus! {

/// Bits `a..b` of a word set, the others clear.
pub open spec fn span_mask(a: u32, b: u32) -> u32 {
    (0xffffffffu32 << a) & (0xffffffffu32 >> ((32 - b) as u32))
}

proof fn lemma_or_span(v: u32, a: u32, b: u32, i: u32)
    requires
        a < b <= 32,
        i < 32,
    ensures
        bit(v | span_mask(a, b), i as int) == (bit(v, i as int) || (a <= i && i < b)),
{
    assert((((v | ((0xffffffffu32 << a) & (0xffffffffu32 >> ((32 - b) as u32)))) >> i) & 1u32
        == 1u32) == (((v >> i) & 1u32 == 1u32) || (a <= i && i < b))) by (bit_vector)
        requires
            a < b <= 32,
            i < 32,
    ;
}

/// A stored pixel's word belongs to exactly one line and one word column.
proof fn lemma_word_of_pixel(x: int, y: int, row: int, w: int)
    requires
        in_buffer(x, y),
        0 <= row < LINES,
        0 <= w < WORDS_PER_LINE,
    ensures
        (word_index(x, y) == row * WORDS_PER_LINE + w) == (y == row && x / 32 == w),
        0 <= word_index(x, y) < LINES * WORDS_PER_LINE,
{
    assert(0 <= x / 32 < WORDS_PER_LINE);
    if word_index(x, y) == row * WORDS_PER_LINE + w {
        assert(y * 11 + x / 32 == row * 11 + w);
        if y < row {
            assert(y * 11 + 11 <= row * 11);
        } else if y > row {
            assert(row * 11 + 11 <= y * 11);
        }
    }
}

/// Set pixels `x0..x1` of line `y`.
fn fill_span(fb: &mut FrBuf, y: usize, x0: usize, x1: usize)
    requires
        y < LINES,
        x0 < x1 <= 32 * WORDS_PER_LINE,
    ensures
        forall|x: int, yy: int|
            #![trigger pixel(final(fb)@, x, yy)]
            in_buffer(x, yy) ==> pixel(final(fb)@, x, yy) == (pixel(old(fb)@, x, yy) || (yy == y
                && x0 <= x < x1)),
{
    let lo = x0 / 32;
    let hi = (x1 - 1) / 32;
    let base = y * WORDS_PER_LINE;
    let mut w = lo;
    while w <= hi
        invariant
            y < LINES,
            x0 < x1 <= 32 * WORDS_PER_LINE,
            lo == x0 / 32,
            hi == (x1 - 1) / 32,
            base == y * WORDS_PER_LINE,
            lo <= w <= hi + 1,
            forall|x: int, yy: int|
                #![trigger pixel(fb@, x, yy)]
                in_buffer(x, yy) ==> pixel(fb@, x, yy) == (pixel(old(fb)@, x, yy) || (yy == y
                    && x0 <= x < x1 && x < 32 * w)),
        decreases hi + 1 - w,
    {
        let a: u32 = if w == lo {
            (x0 % 32) as u32
        } else {
            0
        };
        let b: u32 = if w == hi {
            ((x1 - 1) % 32 + 1) as u32
        } else {
            32
        };
        let ghost before = fb@;
        let idx = base + w;
        fb[idx] = fb[idx] | ((0xffffffffu32 << a) & (0xffffffffu32 >> (32 - b)));
        assert forall|x: int, yy: int| #![trigger pixel(fb@, x, yy)] in_buffer(x, yy) implies pixel(
            fb@,
            x,
            yy,
        ) == (pixel(old(fb)@, x, yy) || (yy == y && x0 <= x < x1 && x < 32 * (w + 1))) by {
            lemma_word_of_pixel(x, yy, y as int, w as int);
            assert(x == 32 * (x / 32) + x % 32);
            assert(x0 == 32 * lo + x0 % 32);
            assert(x1 - 1 == 32 * hi + (x1 - 1) % 32);
            if yy == y && x / 32 == w {
                assert(word_index(x, yy) == idx);
                lemma_or_span(before[idx as int], a, b, (x % 32) as u32);
                assert(fb@[idx as int] == before[idx as int] | span_mask(a, b));
                assert(pixel(before, x, yy) == pixel(old(fb)@, x, yy));
                assert((a <= x % 32 && x % 32 < b) == (x0 <= x < x1));
            } else {
                assert(word_index(x, yy) != idx);
                assert(pixel(fb@, x, yy) == pixel(before, x, yy));
                if yy == y {
                    assert(x < 32 * w || x >= 32 * (w + 1));
                }
            }
        }
        w = w + 1;
    }
}

/// Set every pixel inside `clip`. A rectangle that is empty or reaches
/// outside the visible screen is ignored.
pub fn clear_region(fb: &mut FrBuf, clip: ClipRect)
    ensures
        clip.fits_screen() ==> forall|x: int, y: int|
            #![trigger pixel(final(fb)@, x, y)]
            in_buffer(x, y) ==> pixel(final(fb)@, x, y) == (pixel(old(fb)@, x, y)
                || clip.contains(x, y)),
        !clip.fits_screen() ==> final(fb)@ == old(fb)@,
{
    if clip.max.y > LINES as i32 || clip.min.y >= clip.max.y || clip.max.x > WIDTH as i32
        || clip.min.x >= clip.max.x || clip.min.x < 0 || clip.min.y < 0 {
        return;
    }
    let x0 = clip.min.x as usize;
    let x1 = clip.max.x as usize;
    let mut y = clip.min.y as usize;
    while y < clip.max.y as usize
        invariant
            clip.fits_screen(),
            x0 == clip.min.x,
            x1 == clip.max.x,
            clip.min.y <= y <= clip.max.y,
            forall|x: int, yy: int|
                #![trigger pixel(fb@, x, yy)]
                in_buffer(x, yy) ==> pixel(fb@, x, yy) == (pixel(old(fb)@, x, yy) || (
                clip.contains(x, yy) && yy < y)),
        decreases clip.max.y - y,
    {
        fill_span(fb, y, x0, x1);
        y = y + 1;
    }
}

/// Bit `p` of a glyph's pixel stream: the words after its header, read most
/// significant bit first.
pub open spec fn stream_bit(g: GlyphData, p: int) -> bool {
    match g.word(1 + p / 32) {
        Some(word) => bit(word, 31 - p % 32),
        None => false,
    }
}

/// Pixel in column `j` of row `r` of a glyph `w` pixels wide: each row is `w`
/// consecutive stream bits, the first of them the most significant.
pub open spec fn glyph_pixel(g: GlyphData, w: int, r: int, j: int) -> bool {
    stream_bit(g, r * w + (w - 1 - j))
}

/// Words a glyph occupies after its header.
pub open spec fn glyph_words(gh: GlyphHeader) -> int {
    (gh.w * gh.h + 31) / 32
}

/// Whether the set's data holds every word of the glyph.
pub open spec fn glyph_in_data(g: GlyphData, gh: GlyphHeader) -> bool {
    g.offset() + 1 + glyph_words(gh) <= set_data(g.set()).len()
}

/// A pixel written with `ink` onto `old`: toggled (XOR) or erased.
pub open spec fn compose(old: bool, ink: bool, xor: bool) -> bool {
    if xor {
        old != ink
    } else {
        old && !ink
    }
}

proof fn lemma_row_bits(a: u32, b: u32, s: u32, w: u32, j: u32)
    requires
        s < 32,
        1 <= w <= 32,
        j < 32,
    ensures
        ({
            let lo = (a << s) >> ((32 - w) as u32);
            let p = if w > 32 - s {
                lo | (b >> ((64 - w - s) as u32))
            } else {
                lo
            };
            &&& j < w && s + (w - 1 - j) < 32 ==> bit(p, j as int) == bit(
                a,
                31 - (s + (w - 1 - j)),
            )
            &&& j < w && s + (w - 1 - j) >= 32 ==> bit(p, j as int) == bit(
                b,
                63 - (s + (w - 1 - j)),
            )
            &&& j >= w ==> !bit(p, j as int)
        }),
{
    let lo = (a << s) >> ((32 - w) as u32);
    assert(j < w && s + (w - 1 - j) < 32 ==> ((lo >> j) & 1u32 == 1u32) == ((a >> ((31 - (s + (w
        - 1 - j))) as u32)) & 1u32 == 1u32)) by (bit_vector)
        requires
            lo == (a << s) >> ((32 - w) as u32),
            s < 32,
            1 <= w <= 32,
            j < 32,
    ;
    assert(j < w && s + (w - 1 - j) >= 32 ==> (lo >> j) & 1u32 == 0u32) by (bit_vector)
        requires
            lo == (a << s) >> ((32 - w) as u32),
            s < 32,
            1 <= w <= 32,
            j < 32,
    ;
    assert(j >= w ==> (lo >> j) & 1u32 == 0u32) by (bit_vector)
        requires
            lo == (a << s) >> ((32 - w) as u32),
            s < 32,
            1 <= w <= 32,
            j < 32,
    ;
    if w > 32 - s {
        let hi = b >> ((64 - w - s) as u32);
        assert(j < w && s + (w - 1 - j) >= 32 ==> ((hi >> j) & 1u32 == 1u32) == ((b >> ((63 - (s
            + (w - 1 - j))) as u32)) & 1u32 == 1u32)) by (bit_vector)
            requires
                hi == b >> ((64 - w - s) as u32),
                s < 32,
                w > 32 - s,
                w <= 32,
                j < 32,
        ;
        assert(j < w && s + (w - 1 - j) < 32 ==> (hi >> j) & 1u32 == 0u32) by (bit_vector)
            requires
                hi == b >> ((64 - w - s) as u32),
                s < 32,
                w > 32 - s,
                w <= 32,
                j < 32,
        ;
        assert(j >= w ==> (hi >> j) & 1u32 == 0u32) by (bit_vector)
            requires
                hi == b >> ((64 - w - s) as u32),
                s < 32,
                w > 32 - s,
                w <= 32,
                j < 32,
        ;
        assert(((lo | hi) >> j) & 1u32 == ((lo >> j) & 1u32) | ((hi >> j) & 1u32)) by (bit_vector);
        assert(((lo >> j) & 1u32) | 0u32 == (lo >> j) & 1u32) by (bit_vector);
        assert(0u32 | ((hi >> j) & 1u32) == (hi >> j) & 1u32) by (bit_vector);
        assert((lo >> j) & 1u32 == 0u32 || (lo >> j) & 1u32 == 1u32) by (bit_vector);
        assert((hi >> j) & 1u32 == 0u32 || (hi >> j) & 1u32 == 1u32) by (bit_vector);
    }
}

/// The pixels of row `r` of a glyph `w` pixels wide: bit `j` is column `j`;
/// bits from `w` up are clear.
fn row_pattern(g: GlyphData, w: u32, r: u32) -> (p: u32)
    requires
        1 <= w <= 32,
        r < 256,
        g.offset() + 1 + (r * w + w + 31) / 32 <= set_data(g.set()).len(),
    ensures
        forall|j: int| 0 <= j < w ==> bit(p, j) == #[trigger] glyph_pixel(g, w as int, r as int, j),
        forall|j: int| w <= j < 32 ==> !#[trigger] bit(p, j),
{
    assert(r * w <= 255 * 32) by (nonlinear_arith)
        requires
            r < 256,
            w <= 32,
    ;
    let px_offset = r * w;
    let low_word = 1 + (px_offset / 32) as usize;
    let s = px_offset % 32;
    let a = match g.nth_word(low_word) {
        Ok(v) => v,
        Err(_) => 0,
    };
    let mut pattern = (a << s) >> (32 - w);
    let ghost mut b: u32 = 0;
    if w > 32 - s {
        let hw = match g.nth_word(low_word + 1) {
            Ok(v) => v,
            Err(_) => 0,
        };
        proof {
            b = hw;
        }
        pattern = pattern | (hw >> (64 - w - s));
    }
    assert forall|j: int| 0 <= j < 32 implies (j < w ==> bit(pattern, j) == #[trigger] glyph_pixel(
        g,
        w as int,
        r as int,
        j,
    )) && (j >= w ==> !bit(pattern, j)) by {
        lemma_row_bits(a, b, s, w, j as u32);
        if j < w {
            let q = r * w + (w - 1 - j);
            assert(q == px_offset + (w - 1 - j));
            assert(px_offset == 32 * (px_offset / 32) + s);
            if s + (w - 1 - j) < 32 {
                assert(q / 32 == px_offset / 32 && q % 32 == s + (w - 1 - j));
            } else {
                assert(q / 32 == px_offset / 32 + 1 && q % 32 == s + (w - 1 - j) - 32);
            }
        }
    }
    assert forall|j: int| w <= j < 32 implies !#[trigger] bit(pattern, j) by {
        lemma_row_bits(a, b, s, w, j as u32);
    }
    pattern
}

/// A word written with the ink bits `m`: toggled (XOR) or erased.
pub open spec fn compose_word(v: u32, m: u32, xor: bool) -> u32 {
    if xor {
        v ^ m
    } else {
        v & (0xffffffffu32 ^ m)
    }
}

proof fn lemma_compose_bit(v: u32, m: u32, i: u32, xor: bool)
    requires
        i < 32,
    ensures
        bit(compose_word(v, m, xor), i as int) == compose(bit(v, i as int), bit(m, i as int), xor),
{
    assert((((v ^ m) >> i) & 1u32 == 1u32) == (((v >> i) & 1u32 == 1u32) != ((m >> i) & 1u32
        == 1u32))) by (bit_vector)
        requires
            i < 32,
    ;
    assert((((v & (0xffffffffu32 ^ m)) >> i) & 1u32 == 1u32) == (((v >> i) & 1u32 == 1u32) && !((
    m >> i) & 1u32 == 1u32))) by (bit_vector)
        requires
            i < 32,
    ;
}

proof fn lemma_shl_bit(p: u32, s: u32, i: u32)
    requires
        s < 32,
        i < 32,
    ensures
        bit(p << s, i as int) == (i >= s && bit(p, i - s)),
{
    assert((((p << s) >> i) & 1u32 == 1u32) == (i >= s && ((p >> ((i - s) as u32)) & 1u32
        == 1u32))) by (bit_vector)
        requires
            s < 32,
            i < 32,
    ;
}

proof fn lemma_shr_bit(p: u32, t: u32, i: u32)
    requires
        t < 32,
        i < 32,
    ensures
        bit(p >> t, i as int) == (i + t < 32 && bit(p, i + t)),
{
    assert((((p >> t) >> i) & 1u32 == 1u32) == (i + t < 32 && ((p >> ((i + t) as u32)) & 1u32
        == 1u32))) by (bit_vector)
        requires
            t < 32,
            i < 32,
    ;
}

proof fn lemma_or_dirty(v: u32, i: u32)
    requires
        i < 32,
    ensures
        bit(v | DIRTY_BIT, i as int) == (bit(v, i as int) || i == 16),
{
    assert((((v | 0x1_0000u32) >> i) & 1u32 == 1u32) == (((v >> i) & 1u32 == 1u32) || i == 16))
        by (bit_vector)
        requires
            i < 32,
    ;
}

/// Compose the word at `idx` with the ink bits `m`.
fn compose_at(fb: &mut FrBuf, idx: usize, m: u32, xor: bool)
    requires
        idx < LINES * WORDS_PER_LINE,
    ensures
        final(fb)@ == old(fb)@.update(idx as int, compose_word(old(fb)@[idx as int], m, xor)),
{
    if xor {
        fb[idx] = fb[idx] ^ m;
    } else {
        fb[idx] = fb[idx] & (0xffffffffu32 ^ m);
    }
}

/// Set the dirty flag of line `row`.
fn mark_dirty(fb: &mut FrBuf, row: usize)
    requires
        row < LINES,
    ensures
        forall|x: int, y: int|
            #![trigger pixel(final(fb)@, x, y)]
            in_buffer(x, y) ==> pixel(final(fb)@, x, y) == (pixel(old(fb)@, x, y) || (y == row
                && x == dirty_x())),
{
    let idx = row * WORDS_PER_LINE + WORDS_PER_LINE - 1;
    let ghost before = fb@;
    fb[idx] = fb[idx] | DIRTY_BIT;
    assert forall|x: int, y: int| #![trigger pixel(fb@, x, y)] in_buffer(x, y) implies pixel(
        fb@,
        x,
        y,
    ) == (pixel(before, x, y) || (y == row && x == dirty_x())) by {
        lemma_word_of_pixel(x, y, row as int, WORDS_PER_LINE - 1);
        assert(x == 32 * (x / 32) + x % 32);
        if y == row && x / 32 == WORDS_PER_LINE - 1 {
            lemma_or_dirty(before[idx as int], (x % 32) as u32);
        }
    }
}

/// Compose `pattern` onto line `row` so that bit `j` lands on pixel `x0 + j`,
/// for the `n` columns from `x0`.
fn blit_row(fb: &mut FrBuf, row: usize, x0: usize, pattern: u32, n: usize, xor: bool)
    requires
        row < LINES,
        n <= 32,
        x0 + n <= WIDTH,
        forall|j: int| n <= j < 32 ==> !#[trigger] bit(pattern, j),
    ensures
        forall|x: int, y: int|
            #![trigger pixel(final(fb)@, x, y)]
            in_buffer(x, y) ==> pixel(final(fb)@, x, y) == if y == row && x0 <= x < x0 + n {
                compose(pixel(old(fb)@, x, y), bit(pattern, x - x0), xor)
            } else {
                pixel(old(fb)@, x, y)
            },
{
    let lo = x0 / 32;
    let s = (x0 % 32) as u32;
    let base = row * WORDS_PER_LINE;
    let ghost f0 = fb@;
    compose_at(fb, base + lo, pattern << s, xor);
    let ghost f1 = fb@;
    let spill = n as u32 > 32 - s;
    if spill {
        compose_at(fb, base + lo + 1, pattern >> (32 - s), xor);
    }
    assert forall|x: int, y: int| #![trigger pixel(fb@, x, y)] in_buffer(x, y) implies pixel(
        fb@,
        x,
        y,
    ) == if y == row && x0 <= x < x0 + n {
        compose(pixel(f0, x, y), bit(pattern, x - x0), xor)
    } else {
        pixel(f0, x, y)
    } by {
        lemma_word_of_pixel(x, y, row as int, lo as int);
        assert(x == 32 * (x / 32) + x % 32);
        assert(x0 == 32 * lo + s);
        let i = (x % 32) as u32;
        if y == row && x / 32 == lo {
            lemma_compose_bit(f0[(base + lo) as int], pattern << s, i, xor);
            lemma_shl_bit(pattern, s, i);
            if spill {
                lemma_word_of_pixel(x, y, row as int, lo + 1);
            }
        } else if y == row && x / 32 == lo + 1 && spill {
            lemma_word_of_pixel(x, y, row as int, lo + 1);
            lemma_compose_bit(f1[(base + lo + 1) as int], pattern >> (32 - s), i, xor);
            lemma_shr_bit(pattern, (32 - s) as u32, i);
        } else if spill {
            lemma_word_of_pixel(x, y, row as int, lo + 1);
            if y == row {
                assert(x < x0 || x >= x0 + n);
            }
        } else {
            if y == row {
                assert(x < x0 || x >= x0 + n || (x / 32 == lo + 1 && !spill));
            }
        }
    }
}

/// Whether the rectangle can bound glyph drawing: its columns lie on the
/// visible screen, non-empty, and its lines within the buffer.
pub open spec fn clip_usable(clip: ClipRect) -> bool {
    0 <= clip.min.x < clip.max.x <= WIDTH && 0 <= clip.min.y && clip.max.y <= LINES
}

/// Whether line `y` receives a row of a glyph `h` rows tall whose top row is
/// on line `y0`: rows above or below the clip rectangle are left out.
pub open spec fn row_drawn(clip: ClipRect, y0: int, h: int, y: int) -> bool {
    clip.min.y <= y < clip.max.y && y0 <= y < y0 + h
}

/// `new` is `old` with glyph `g` composed at (`x0`, `y0`): pixels of rows
/// inside the clip, in columns left of `clip.max.x`, take the glyph's ink;
/// each line that got a row is flagged dirty; nothing else changes.
pub open spec fn glyph_blitted(
    old: Seq<u32>,
    new: Seq<u32>,
    clip: ClipRect,
    g: GlyphData,
    gh: GlyphHeader,
    x0: int,
    y0: int,
    xor: bool,
) -> bool {
    forall|x: int, y: int|
        #![trigger pixel(new, x, y)]
        in_buffer(x, y) ==> pixel(new, x, y) == if row_drawn(clip, y0, gh.h as int, y) && x0 <= x
            < x0 + gh.w && x < clip.max.x {
            compose(pixel(old, x, y), glyph_pixel(g, gh.w as int, y - y0, x - x0), xor)
        } else if row_drawn(clip, y0, gh.h as int, y) && x == dirty_x() {
            true
        } else {
            pixel(old, x, y)
        }
}

proof fn lemma_low_mask_bit(p: u32, n: u32, j: u32)
    requires
        1 <= n < 32,
        j < 32,
    ensures
        bit(p & (0xffffffffu32 >> ((32 - n) as u32)), j as int) == (j < n && bit(p, j as int)),
{
    assert((((p & (0xffffffffu32 >> ((32 - n) as u32))) >> j) & 1u32 == 1u32) == (j < n && ((p
        >> j) & 1u32 == 1u32))) by (bit_vector)
        requires
            1 <= n < 32,
            j < 32,
    ;
}

proof fn lemma_rows_in_data(r: int, w: int, h: int)
    requires
        0 <= r < h,
        0 <= w,
    ensures
        r * w + w <= w * h,
{
    assert(r * w + w <= w * h) by (nonlinear_arith)
        requires
            0 <= r < h,
            0 <= w,
    ;
}

/// The first `n` columns of row `r` of glyph `g`; bits from `n` up are clear.
fn glyph_row_pattern(g: GlyphData, gh: GlyphHeader, r: u32, n: usize) -> (p: u32)
    requires
        gh.w <= 32,
        gh.h <= 255,
        n <= gh.w,
        r < gh.h,
        glyph_in_data(g, gh),
    ensures
        forall|j: int| 0 <= j < n ==> #[trigger] bit(p, j) == glyph_pixel(g, gh.w as int, r as int, j),
        forall|j: int| n <= j < 32 ==> !#[trigger] bit(p, j),
{
    let w = gh.w;
    if w == 0 || n == 0 {
        assert forall|j: int| n <= j < 32 implies !#[trigger] bit(0u32, j) by {
            let jj = j as u32;
            assert((0u32 >> jj) & 1u32 == 0u32) by (bit_vector);
        }
        return 0;
    }
    proof {
        lemma_rows_in_data(r as int, w as int, gh.h as int);
    }
    let full = row_pattern(g, w, r);
    if n < 32 {
        let masked = full & (0xffffffffu32 >> (32 - n as u32));
        assert forall|j: int| 0 <= j < 32 implies #[trigger] bit(masked, j) == (j < n && bit(full, j))
            by {
            lemma_low_mask_bit(full, n as u32, j as u32);
        }
        masked
    } else {
        full
    }
}

/// Compose the first `n` columns of row `r` of glyph `g` onto line `row` from
/// pixel `x0`, and flag the line dirty.
fn draw_glyph_row(
    fb: &mut FrBuf,
    g: GlyphData,
    gh: GlyphHeader,
    r: u32,
    row: usize,
    x0: usize,
    n: usize,
    xor: bool,
)
    requires
        gh.w <= 32,
        gh.h <= 255,
        n <= gh.w,
        r < gh.h,
        glyph_in_data(g, gh),
        row < LINES,
        x0 + n <= WIDTH,
    ensures
        forall|x: int, y: int|
            #![trigger pixel(final(fb)@, x, y)]
            in_buffer(x, y) ==> pixel(final(fb)@, x, y) == if y == row && x0 <= x < x0 + n {
                compose(pixel(old(fb)@, x, y), glyph_pixel(g, gh.w as int, r as int, x - x0), xor)
            } else if y == row && x == dirty_x() {
                true
            } else {
                pixel(old(fb)@, x, y)
            },
{
    let pattern = glyph_row_pattern(g, gh, r, n);
    let ghost f0 = fb@;
    blit_row(fb, row, x0, pattern, n, xor);
    mark_dirty(fb, row);
    assert forall|x: int, y: int| #![trigger pixel(fb@, x, y)] in_buffer(x, y) implies pixel(fb@, x, y)
        == if y == row && x0 <= x < x0 + n {
        compose(pixel(f0, x, y), glyph_pixel(g, gh.w as int, r as int, x - x0), xor)
    } else if y == row && x == dirty_x() {
        true
    } else {
        pixel(f0, x, y)
    } by {
        if y == row && x0 <= x < x0 + n {
            assert(bit(pattern, x - x0) == glyph_pixel(g, gh.w as int, r as int, x - x0));
        }
    }
}

/// Compose glyph `g` (header `gh`) with its top left pixel at (`x0`, `y0`),
/// clipped to `clip`, and flag each line it touches dirty.
fn blit_glyph(
    fb: &mut FrBuf,
    clip: ClipRect,
    g: GlyphData,
    gh: GlyphHeader,
    x0: i32,
    y0: i64,
    xor: bool,
)
    requires
        clip_usable(clip),
        0 <= x0 <= clip.max.x,
        gh.w <= 32,
        gh.h <= 255,
        glyph_in_data(g, gh),
        i32::MIN <= y0 <= i32::MAX + 255,
    ensures
        glyph_blitted(old(fb)@, final(fb)@, clip, g, gh, x0 as int, y0 as int, xor),
{
    let w = gh.w;
    let n: usize = if (x0 as i64) + (w as i64) <= clip.max.x as i64 {
        w as usize
    } else {
        (clip.max.x - x0) as usize
    };
    let top: i64 = if (clip.min.y as i64) > y0 {
        clip.min.y as i64
    } else {
        y0
    };
    let bottom: i64 = if (clip.max.y as i64) < y0 + (gh.h as i64) {
        clip.max.y as i64
    } else {
        y0 + (gh.h as i64)
    };
    let mut y: i64 = top;
    while y < bottom
        invariant
            clip_usable(clip),
            0 <= x0 <= clip.max.x,
            w == gh.w,
            w <= 32,
            gh.h <= 255,
            glyph_in_data(g, gh),
            i32::MIN <= y0 <= i32::MAX + 255,
            n == if x0 + w <= clip.max.x {
                w as int
            } else {
                clip.max.x - x0
            },
            top == if clip.min.y > y0 {
                clip.min.y as int
            } else {
                y0 as int
            },
            bottom == if clip.max.y < y0 + gh.h {
                clip.max.y as int
            } else {
                y0 + gh.h
            },
            top <= y,
            y <= bottom || bottom <= top,
            forall|x: int, yy: int|
                #![trigger pixel(fb@, x, yy)]
                in_buffer(x, yy) ==> pixel(fb@, x, yy) == if row_drawn(clip, y0 as int, gh.h as int, yy)
                    && yy < y && x0 <= x < x0 + gh.w && x < clip.max.x {
                    compose(pixel(old(fb)@, x, yy), glyph_pixel(g, gh.w as int, yy - y0, x - x0), xor)
                } else if row_drawn(clip, y0 as int, gh.h as int, yy) && yy < y && x == dirty_x() {
                    true
                } else {
                    pixel(old(fb)@, x, yy)
                },
        decreases bottom - y,
    {
        draw_glyph_row(fb, g, gh, (y - y0) as u32, y as usize, x0 as usize, n, xor);
        assert forall|x: int, yy: int| #![trigger pixel(fb@, x, yy)] in_buffer(x, yy) implies pixel(
            fb@,
            x,
            yy,
        ) == if row_drawn(clip, y0 as int, gh.h as int, yy) && yy < y + 1 && x0 <= x < x0 + gh.w
            && x < clip.max.x {
            compose(pixel(old(fb)@, x, yy), glyph_pixel(g, gh.w as int, yy - y0, x - x0), xor)
        } else if row_drawn(clip, y0 as int, gh.h as int, yy) && yy < y + 1 && x == dirty_x() {
            true
        } else {
            pixel(old(fb)@, x, yy)
        } by {
        }
        y = y + 1;
    }
}

/// Cursor at the start of the next line: back to the clip's left edge, down
/// by the line height (at least the Small typeface's) plus one pixel. The
/// line position saturates at `i32::MAX`.
pub open spec fn newline_of(clip: ClipRect, c: Cursor) -> Cursor {
    let lh: int = if c.line_height < small::MAX_HEIGHT {
        small::MAX_HEIGHT as int
    } else {
        c.line_height as int
    };
    let y: int = c.pt.y + lh + 1;
    Cursor {
        pt: Pt { x: clip.min.x, y: if y > i32::MAX { i32::MAX } else { y as i32 } },
        line_height: 0,
    }
}

/// Advance the cursor to the start of a new line within the clip rect.
pub fn newline(clip: ClipRect, c: &mut Cursor)
    ensures
        *final(c) == newline_of(clip, *old(c)),
{
    c.pt.x = clip.min.x;
    if c.line_height < small::MAX_HEIGHT as i32 {
        c.line_height = small::MAX_HEIGHT as i32;
    }
    let y = c.pt.y as i64 + c.line_height as i64 + 1;
    c.pt.y = if y > i32::MAX as i64 {
        i32::MAX
    } else {
        y as i32
    };
    c.line_height = 0;
}

/// The cursor moved right to the clip's left edge if it was left of it.
pub open spec fn snapped(clip: ClipRect, c: Cursor) -> Cursor {
    if c.pt.x < clip.min.x {
        Cursor { pt: Pt { x: clip.min.x, y: c.pt.y }, line_height: c.line_height }
    } else {
        c
    }
}

/// Whether a glyph `w` pixels wide, with 1 pixel of padding left and 2 right,
/// fits on the line before the clip's right edge.
pub open spec fn fits(clip: ClipRect, c: Cursor, w: int) -> bool {
    c.pt.x + 1 + w + 2 < clip.max.x
}

/// Where a glyph `w` pixels wide goes: on this line if it fits, else at the
/// start of the next one.
pub open spec fn placed(clip: ClipRect, c: Cursor, w: int) -> Cursor {
    let c1 = snapped(clip, c);
    if fits(clip, c1, w) {
        c1
    } else {
        newline_of(clip, c1)
    }
}

/// The cursor after a glyph `w` pixels wide of set `gs` went at `c`.
pub open spec fn advanced(c: Cursor, w: int, gs: GlyphSet) -> Cursor {
    Cursor {
        pt: Pt { x: (c.pt.x + w + 3) as i32, y: c.pt.y },
        line_height: if max_height_of(gs) > c.line_height {
            max_height_of(gs) as i32
        } else {
            c.line_height
        },
    }
}

/// The glyph of set `gs` for the cluster at the start of `s`: handle, header
/// and bytes of `s` it covers.
pub open spec fn glyph_found(gs: GlyphSet, s: Seq<char>) -> Option<(GlyphData, GlyphHeader, nat)> {
    match resolve(gs, s) {
        Some((g, n)) => match g.word(0) {
            Some(hw) => Some((g, unpack_header(hw), n)),
            None => None,
        },
        None => None,
    }
}

/// Whether the ellipsis needs to replace a glyph `w` pixels wide at `c`: the
/// glyph must wrap, and the new line would not fit above the clip's bottom.
pub open spec fn ellipsis_due(clip: ClipRect, c: Cursor, gh: GlyphHeader) -> bool {
    let c1 = snapped(clip, c);
    !fits(clip, c1, gh.w as int) && newline_of(clip, c1).pt.y + gh.y_offset + small::MAX_HEIGHT
        > clip.max.y
}

/// Whether pixel (`x`, `y`) is one of the six dots of an ellipsis drawn from
/// `x0` on lines `h` and `h + 1`.
pub open spec fn ellipsis_dot(x0: int, h: int, x: int, y: int) -> bool {
    let i = x - x0;
    (y == h || y == h + 1) && (i == 1 || i == 2 || i == 4 || i == 5 || i == 7 || i == 8)
}

/// Width of the ellipsis mark.
pub const ELLIPSIS_WIDTH: i32 = 10;

/// Left edge of the ellipsis: at the cursor, or moved left to fit the clip.
pub open spec fn ellipsis_x0(c: Cursor, clip: ClipRect) -> int {
    if c.pt.x + ELLIPSIS_WIDTH <= clip.max.x {
        c.pt.x as int
    } else {
        clip.max.x - ELLIPSIS_WIDTH
    }
}

/// Bottom of the area the ellipsis clears.
pub open spec fn ellipsis_y1(c: Cursor, max_y: i32, clip: ClipRect) -> int {
    if c.pt.y + max_y <= clip.max.y {
        c.pt.y + max_y
    } else {
        clip.max.y as int
    }
}

/// Line of the upper row of dots.
pub open spec fn ellipsis_h(c: Cursor, baseline: i32, max_y: i32, clip: ClipRect) -> int {
    if baseline <= max_y {
        c.pt.y + baseline
    } else {
        clip.max.y - 4
    }
}

/// `new` is `old` with an ellipsis drawn at `c`: the area of the mark is set
/// (cleared to background) when it lies on screen, then six dots of ink are
/// drawn in two rows.
pub open spec fn ellipsis_drawn(
    old: Seq<u32>,
    new: Seq<u32>,
    c: Cursor,
    baseline: i32,
    max_y: i32,
    clip: ClipRect,
) -> bool {
    let x0 = ellipsis_x0(c, clip);
    let rect = ClipRect::spanned(
        x0 as i32,
        c.pt.y,
        (x0 + ELLIPSIS_WIDTH) as i32,
        ellipsis_y1(c, max_y, clip) as i32,
    );
    let h = ellipsis_h(c, baseline, max_y, clip);
    forall|x: int, y: int|
        #![trigger pixel(new, x, y)]
        in_buffer(x, y) ==> pixel(new, x, y) == if ellipsis_dot(x0, h, x, y) {
            false
        } else {
            pixel(old, x, y) || (rect.fits_screen() && rect.contains(x, y))
        }
}

proof fn lemma_clear_bit(v: u32, b: u32, i: u32)
    requires
        b < 32,
        i < 32,
    ensures
        bit(v & !(1u32 << b), i as int) == (bit(v, i as int) && i != b),
{
    assert((((v & !(1u32 << b)) >> i) & 1u32 == 1u32) == (((v >> i) & 1u32 == 1u32) && i != b))
        by (bit_vector)
        requires
            b < 32,
            i < 32,
    ;
}

proof fn lemma_toggle_bit(v: u32, b: u32, i: u32)
    requires
        b < 32,
        i < 32,
    ensures
        bit(v ^ (1u32 << b), i as int) == (bit(v, i as int) != (i == b)),
{
    assert((((v ^ (1u32 << b)) >> i) & 1u32 == 1u32) == (((v >> i) & 1u32 == 1u32) != (i == b)))
        by (bit_vector)
        requires
            b < 32,
            i < 32,
    ;
}

/// Erase pixel (`x`, `y`) to ink.
fn ink_pixel(fb: &mut FrBuf, x: usize, y: usize)
    requires
        in_buffer(x as int, y as int),
    ensures
        forall|xx: int, yy: int|
            #![trigger pixel(final(fb)@, xx, yy)]
            in_buffer(xx, yy) ==> pixel(final(fb)@, xx, yy) == (pixel(old(fb)@, xx, yy) && !(xx
                == x && yy == y)),
{
    let idx = y * WORDS_PER_LINE + x / 32;
    let b = (x % 32) as u32;
    let ghost before = fb@;
    fb[idx] = fb[idx] & !(1u32 << b);
    assert forall|xx: int, yy: int| #![trigger pixel(fb@, xx, yy)] in_buffer(xx, yy) implies pixel(
        fb@,
        xx,
        yy,
    ) == (pixel(before, xx, yy) && !(xx == x && yy == y)) by {
        lemma_word_of_pixel(xx, yy, y as int, (x / 32) as int);
        assert(xx == 32 * (xx / 32) + xx % 32);
        assert(x == 32 * (x / 32) + x % 32);
        if yy == y && xx / 32 == x / 32 {
            lemma_clear_bit(before[idx as int], b, (xx % 32) as u32);
        }
    }
}

/// Toggle pixel (`x`, `y`).
fn toggle_pixel(fb: &mut FrBuf, x: usize, y: usize)
    requires
        in_buffer(x as int, y as int),
    ensures
        forall|xx: int, yy: int|
            #![trigger pixel(final(fb)@, xx, yy)]
            in_buffer(xx, yy) ==> pixel(final(fb)@, xx, yy) == (pixel(old(fb)@, xx, yy) != (xx == x
                && yy == y)),
{
    let idx = y * WORDS_PER_LINE + x / 32;
    let b = (x % 32) as u32;
    let ghost before = fb@;
    fb[idx] = fb[idx] ^ (1u32 << b);
    assert forall|xx: int, yy: int| #![trigger pixel(fb@, xx, yy)] in_buffer(xx, yy) implies pixel(
        fb@,
        xx,
        yy,
    ) == (pixel(before, xx, yy) != (xx == x && yy == y)) by {
        lemma_word_of_pixel(xx, yy, y as int, (x / 32) as int);
        assert(xx == 32 * (xx / 32) + xx % 32);
        assert(x == 32 * (x / 32) + x % 32);
        if yy == y && xx / 32 == x / 32 {
            lemma_toggle_bit(before[idx as int], b, (xx % 32) as u32);
        }
    }
}

/// Rub out the end of a line and draw an ellipsis there, to show that the
/// text goes on beyond the clip rectangle. `baseline` is the dots' offset
/// below the cursor and `max_y` the height of the cleared area.
pub fn draw_ellipsis(fb: &mut FrBuf, c: Cursor, baseline: i32, max_y: i32, clip: ClipRect)
    requires
        i32::MIN <= c.pt.y + max_y,
        clip.max.x >= i32::MIN + ELLIPSIS_WIDTH,
    ensures
        ellipsis_drawn(old(fb)@, final(fb)@, c, baseline, max_y, clip),
{
    let ellipsis_width = ELLIPSIS_WIDTH;
    let x0: i64 = if c.pt.x as i64 + ellipsis_width as i64 <= clip.max.x as i64 {
        c.pt.x as i64
    } else {
        clip.max.x as i64 - ellipsis_width as i64
    };
    let y1: i64 = if c.pt.y as i64 + max_y as i64 <= clip.max.y as i64 {
        c.pt.y as i64 + max_y as i64
    } else {
        clip.max.y as i64
    };
    let clear_rect = ClipRect::new(x0 as i32, c.pt.y, (x0 + ellipsis_width as i64) as i32, y1 as i32);
    clear_region(fb, clear_rect);
    let h: i64 = if baseline <= max_y {
        c.pt.y as i64 + baseline as i64
    } else {
        clip.max.y as i64 - 4
    };
    let ghost cleared = fb@;
    let mut i: i64 = 0;
    while i < ellipsis_width as i64
        invariant
            0 <= i <= ELLIPSIS_WIDTH,
            ellipsis_width == ELLIPSIS_WIDTH,
            x0 == ellipsis_x0(c, clip),
            h == ellipsis_h(c, baseline, max_y, clip),
            i32::MIN - 10 <= x0 <= i32::MAX,
            i32::MIN * 2 <= h <= i32::MAX * 2,
            forall|x: int, y: int|
                #![trigger pixel(fb@, x, y)]
                in_buffer(x, y) ==> pixel(fb@, x, y) == (pixel(cleared, x, y) && !(
                ellipsis_dot(x0 as int, h as int, x, y) && x < x0 + i)),
        decreases ELLIPSIS_WIDTH - i,
    {
        if i == 1 || i == 2 || i == 4 || i == 5 || i == 7 || i == 8 {
            let x = x0 + i;
            if 0 <= x && x < 32 * WORDS_PER_LINE as i64 && 0 <= h && h < LINES as i64 {
                ink_pixel(fb, x as usize, h as usize);
            }
            if 0 <= x && x < 32 * WORDS_PER_LINE as i64 && 0 <= h + 1 && h + 1 < LINES as i64 {
                ink_pixel(fb, x as usize, (h + 1) as usize);
            }
        }
        i = i + 1;
    }
}

/// Whether line `y` holds part of the insertion caret for a cursor at `c`.
pub open spec fn caret_row(c: Cursor, y: int) -> bool {
    c.pt.y + 2 <= y < c.pt.y + c.line_height - 2 && 0 <= y < LINES - 1
}

/// `new` is `old` with the insertion caret toggled in the cursor's column
/// over most of its line height, and those lines flagged dirty.
pub open spec fn caret_drawn(old: Seq<u32>, new: Seq<u32>, c: Cursor) -> bool {
    forall|x: int, y: int|
        #![trigger pixel(new, x, y)]
        in_buffer(x, y) ==> pixel(new, x, y) == if caret_row(c, y) && 0 <= c.pt.x < WIDTH && x
            == c.pt.x {
            !pixel(old, x, y)
        } else if caret_row(c, y) && 0 <= c.pt.x < WIDTH && x == dirty_x() {
            true
        } else {
            pixel(old, x, y)
        }
}

/// Draw an insertion caret, a couple of pixels short of the line height at
/// either end, at the cursor.
fn draw_ins(fb: &mut FrBuf, c: &Cursor)
    ensures
        caret_drawn(old(fb)@, final(fb)@, *c),
{
    if c.pt.x < 0 || c.pt.x >= WIDTH as i32 {
        return;
    }
    let x = c.pt.x as usize;
    let first: i64 = if c.pt.y as i64 + 2 < 0 {
        0
    } else {
        c.pt.y as i64 + 2
    };
    let end: i64 = if c.pt.y as i64 + c.line_height as i64 - 2 > LINES as i64 - 1 {
        LINES as i64 - 1
    } else {
        c.pt.y as i64 + c.line_height as i64 - 2
    };
    let mut row = first;
    while row < end
        invariant
            x == c.pt.x,
            0 <= c.pt.x < WIDTH,
            first == if c.pt.y + 2 < 0 {
                0
            } else {
                c.pt.y + 2
            },
            end == if c.pt.y + c.line_height - 2 > LINES - 1 {
                LINES - 1
            } else {
                c.pt.y + c.line_height - 2
            },
            first <= row,
            row <= end || end <= first,
            forall|xx: int, y: int|
                #![trigger pixel(fb@, xx, y)]
                in_buffer(xx, y) ==> pixel(fb@, xx, y) == if caret_row(*c, y) && y < row && xx == x {
                    !pixel(old(fb)@, xx, y)
                } else if caret_row(*c, y) && y < row && xx == dirty_x() {
                    true
                } else {
                    pixel(old(fb)@, xx, y)
                },
        decreases end - row,
    {
        toggle_pixel(fb, x, row as usize);
        mark_dirty(fb, row as usize);
        row = row + 1;
    }
}

/// Result and cursor of placing the cluster at the start of `s` from glyph
/// set `gs` at cursor `c` (the clip rectangle being usable).
pub open spec fn char_step(
    clip: ClipRect,
    c: Cursor,
    s: Seq<char>,
    gs: GlyphSet,
    ellipsis: bool,
) -> (Result<Option<i32>, NoGlyphErr>, Cursor) {
    match glyph_found(gs, s) {
        None => (Err(NoGlyphErr), c),
        Some((g, gh, n)) => if gh.w > 32 || !glyph_in_data(g, gh) {
            // Too wide for one word per row, or incomplete: no usable glyph
            (Err(NoGlyphErr), c)
        } else if ellipsis && ellipsis_due(clip, c, gh) {
            (Ok(None), placed(clip, c, gh.w as int))
        } else if placed(clip, c, gh.w as int).pt.y + gh.y_offset > clip.max.y {
            (Ok(None), placed(clip, c, gh.w as int))
        } else {
            (Ok(Some(n as i32)), advanced(placed(clip, c, gh.w as int), gh.w as int, gs))
        },
    }
}

/// The frame buffer effect of `xor_char` for a usable clip rectangle: the
/// glyph blitted where `char_step` placed it, an ellipsis, or nothing.
pub open spec fn char_pixels(
    old: Seq<u32>,
    new: Seq<u32>,
    clip: ClipRect,
    c: Cursor,
    s: Seq<char>,
    gs: GlyphSet,
    xor: bool,
    ellipsis: bool,
) -> bool {
    match glyph_found(gs, s) {
        Some((g, gh, n)) => if gh.w > 32 || !glyph_in_data(g, gh) {
            new == old
        } else if ellipsis && ellipsis_due(clip, c, gh) {
            ellipsis_drawn(old, new, snapped(clip, c), ELLIPSIS_BASELINE, small::MAX_HEIGHT as i32, clip)
        } else if placed(clip, c, gh.w as int).pt.y + gh.y_offset > clip.max.y {
            new == old
        } else {
            let p = placed(clip, c, gh.w as int);
            glyph_blitted(old, new, clip, g, gh, p.pt.x + 1, p.pt.y + gh.y_offset, xor)
        },
        None => new == old,
    }
}

/// Offset below the cursor of the ellipsis dots drawn at the end of a line.
pub const ELLIPSIS_BASELINE: i32 = 20;

/// Blit the glyph for the cluster at the start of `cluster` from glyph set
/// `gs` at the cursor, with 1 pixel of padding on the left and 2 on the right,
/// wrapping to a new line first if it would not fit. The glyph is toggled
/// (`xor`) or erased onto the buffer. With `ellipsis`, a glyph that would wrap
/// onto a line below the clip is replaced by an ellipsis mark.
///
/// Returns the bytes of `cluster` used, `Ok(None)` when nothing could be
/// placed, or `NoGlyphErr` when the set has no usable glyph for the cluster
/// (none at all, or one wider than 32 pixels).
pub fn xor_char(
    fb: &mut FrBuf,
    clip: ClipRect,
    c: &mut Cursor,
    cluster: &str,
    gs: GlyphSet,
    xor: bool,
    ellipsis: bool,
) -> (r: Result<Option<i32>, NoGlyphErr>)
    ensures
        !clip_usable(clip) ==> r == Ok::<Option<i32>, NoGlyphErr>(None) && final(fb)@ == old(fb)@ && *final(c) == *old(
            c,
        ),
        clip_usable(clip) ==> (r, *final(c)) == char_step(clip, *old(c), cluster@, gs, ellipsis),
        clip_usable(clip) ==> char_pixels(
            old(fb)@,
            final(fb)@,
            clip,
            *old(c),
            cluster@,
            gs,
            xor,
            ellipsis,
        ),
{
    if clip.max.y > LINES as i32 || clip.max.x > WIDTH as i32 || clip.min.x >= clip.max.x
        || clip.min.x < 0 || clip.min.y < 0 {
        return Ok(None);
    }
    // Look up glyph for grapheme cluster and unpack its header
    let (glyph_data, bytes_used) = match lookup(gs, cluster) {
        Ok(found) => found,
        Err(e) => {
            return Err(e);
        },
    };
    let gh = match glyph_data.header() {
        Ok(h) => h,
        Err(e) => {
            return Err(e);
        },
    };
    proof {
        lemma_header_fields(glyph_data.word(0)->0);
        lemma_resolve_covers(gs, cluster@);
    }
    // A glyph too wide for one word per row counts as no glyph
    if gh.w > 32 {
        return Err(NoGlyphErr);
    }
    assert(gh.w * gh.h <= 32 * 255) by (nonlinear_arith)
        requires
            gh.w <= 32,
            gh.h <= 255,
    ;
    let words = ((gh.w * gh.h + 31) / 32) as usize;
    if glyph_data.nth_word(words).is_err() {
        return Err(NoGlyphErr);
    }
    // Don't clip if cursor is left of clip rect; instead, advance the cursor
    if c.pt.x < clip.min.x {
        c.pt.x = clip.min.x;
    }
    let c_bak = *c;
    // Add 1px pad to left, and wrap if the glyph and its right pad won't fit
    let mut x0: i64 = c.pt.x as i64 + 1;
    if x0 + gh.w as i64 + 2 >= clip.max.x as i64 {
        newline(clip, c);
        x0 = c.pt.x as i64 + 1;
        if ellipsis && c.pt.y as i64 + gh.y_offset as i64 + small::MAX_HEIGHT as i64
            > clip.max.y as i64 {
            draw_ellipsis(fb, c_bak, ELLIPSIS_BASELINE, small::MAX_HEIGHT as i32, clip);
            return Ok(None);
        }
    }
    let y0 = c.pt.y as i64 + gh.y_offset as i64;
    if y0 > clip.max.y as i64 {
        return Ok(None);  // Entire glyph is below the clip rect
    }
    blit_glyph(fb, clip, glyph_data, gh, x0 as i32, y0, xor);
    c.pt.x = c.pt.x + gh.w as i32 + 3;
    let font_line_height = gs.max_height() as i32;
    if font_line_height > c.line_height {
        c.line_height = font_line_height;
    }
    Ok(Some(bytes_used as i32))
}

/// Lay out the glyph for the cluster at the start of `cluster` as `xor_char`
/// does without ellipsis, moving the cursor but drawing nothing.
pub fn simulate_char(
    fb: &mut FrBuf,
    clip: ClipRect,
    c: &mut Cursor,
    cluster: &str,
    gs: GlyphSet,
    xor: bool,
    ellipsis: bool,
) -> (r: Result<Option<i32>, NoGlyphErr>)
    ensures
        final(fb)@ == old(fb)@,
        !clip_usable(clip) ==> r == Ok::<Option<i32>, NoGlyphErr>(None) && *final(c) == *old(c),
        clip_usable(clip) ==> (r, *final(c)) == char_step(clip, *old(c), cluster@, gs, false),
{
    if clip.max.y > LINES as i32 || clip.max.x > WIDTH as i32 || clip.min.x >= clip.max.x
        || clip.min.x < 0 || clip.min.y < 0 {
        return Ok(None);
    }
    let (glyph_data, bytes_used) = match lookup(gs, cluster) {
        Ok(found) => found,
        Err(e) => {
            return Err(e);
        },
    };
    let gh = match glyph_data.header() {
        Ok(h) => h,
        Err(e) => {
            return Err(e);
        },
    };
    proof {
        lemma_header_fields(glyph_data.word(0)->0);
        lemma_resolve_covers(gs, cluster@);
    }
    // A glyph too wide for one word per row counts as no glyph
    if gh.w > 32 {
        return Err(NoGlyphErr);
    }
    assert(gh.w * gh.h <= 32 * 255) by (nonlinear_arith)
        requires
            gh.w <= 32,
            gh.h <= 255,
    ;
    let words = ((gh.w * gh.h + 31) / 32) as usize;
    if glyph_data.nth_word(words).is_err() {
        return Err(NoGlyphErr);
    }
    if c.pt.x < clip.min.x {
        c.pt.x = clip.min.x;
    }
    if c.pt.x as i64 + 1 + gh.w as i64 + 2 >= clip.max.x as i64 {
        newline(clip, c);
    }
    let y0 = c.pt.y as i64 + gh.y_offset as i64;
    if y0 > clip.max.y as i64 {
        return Ok(None);
    }
    c.pt.x = c.pt.x + gh.w as i32 + 3;
    let font_line_height = gs.max_height() as i32;
    if font_line_height > c.line_height {
        c.line_height = font_line_height;
    }
    Ok(Some(bytes_used as i32))
}

/// How `paint_str` treats each glyph: blit it (`xor_char`), or only lay it
/// out (`simulate_char`).
#[derive(Copy, Clone, Debug, PartialEq, Eq, Structural)]
pub enum CharPainter {
    XorChar,
    SimulateChar,
}

/// The Latin glyph set of a style.
pub open spec fn latin_set(st: GlyphStyle) -> GlyphSet {
    match st {
        GlyphStyle::Bold => GlyphSet::Bold,
        GlyphStyle::Regular => GlyphSet::Regular,
        GlyphStyle::Small => GlyphSet::Small,
    }
}

/// Result and cursor of one glyph attempt by the painter.
#[verifier::opaque]
pub open spec fn attempt(
    clip: ClipRect,
    c: Cursor,
    s: Seq<char>,
    gs: GlyphSet,
    ellipsis: bool,
    p: CharPainter,
) -> (Result<Option<i32>, NoGlyphErr>, Cursor) {
    if !clip_usable(clip) {
        (Ok(None), c)
    } else {
        match p {
            CharPainter::XorChar => char_step(clip, c, s, gs, ellipsis),
            CharPainter::SimulateChar => char_step(clip, c, s, gs, false),
        }
    }
}

/// Frame buffer effect of one glyph attempt by the painter.
#[verifier::opaque]
pub open spec fn attempt_pixels(
    old: Seq<u32>,
    new: Seq<u32>,
    clip: ClipRect,
    c: Cursor,
    s: Seq<char>,
    gs: GlyphSet,
    xor: bool,
    ellipsis: bool,
    p: CharPainter,
) -> bool {
    match p {
        CharPainter::XorChar => if clip_usable(clip) {
            char_pixels(old, new, clip, c, s, gs, xor, ellipsis)
        } else {
            new == old
        },
        CharPainter::SimulateChar => new == old,
    }
}

/// The replacement character, drawn for clusters no glyph set has.
pub open spec fn replacement() -> Seq<char> {
    seq!['\u{FFFD}']
}

/// The glyph set that serves the cluster at the start of `s`, trying Emoji,
/// then the Latin set of the style, then Hanzi; `true` when none has it and
/// the replacement character stands in.
pub open spec fn chosen_set(
    clip: ClipRect,
    c: Cursor,
    latin: GlyphSet,
    s: Seq<char>,
    ellipsis: bool,
    p: CharPainter,
) -> (GlyphSet, bool) {
    if attempt(clip, c, s, GlyphSet::Emoji, ellipsis, p).0 is Ok {
        (GlyphSet::Emoji, false)
    } else if attempt(clip, c, s, latin, ellipsis, p).0 is Ok {
        (latin, false)
    } else if attempt(clip, c, s, GlyphSet::Hanzi, ellipsis, p).0 is Ok {
        (GlyphSet::Hanzi, false)
    } else {
        (latin, true)
    }
}

/// Whether `s` starts with a line feed.
pub open spec fn starts_line_feed(s: Seq<char>) -> bool {
    s.len() > 0 && s[0] as u32 == 0x0a
}

/// Bytes of `s` that one layout step consumes, or `None` when painting stops
/// (nothing more fits in the clip). A line feed takes its byte; an
/// unsupported character takes its own bytes after the replacement
/// character is drawn for it.
#[verifier::opaque]
pub open spec fn step_used(
    clip: ClipRect,
    c: Cursor,
    latin: GlyphSet,
    s: Seq<char>,
    ellipsis: bool,
    p: CharPainter,
) -> Option<nat> {
    if starts_line_feed(s) {
        Some(encode_utf8(s.take(1)).len())
    } else {
        let (gs, repl) = chosen_set(clip, c, latin, s, ellipsis, p);
        if repl {
            Some(encode_utf8(s.take(1)).len())
        } else {
            match attempt(clip, c, s, gs, ellipsis, p).0 {
                Ok(Some(n)) => Some(n as nat),
                _ => None,
            }
        }
    }
}

/// Cursor after one layout step.
#[verifier::opaque]
pub open spec fn step_cursor(
    clip: ClipRect,
    c: Cursor,
    latin: GlyphSet,
    s: Seq<char>,
    ellipsis: bool,
    p: CharPainter,
) -> Cursor {
    if starts_line_feed(s) {
        newline_of(clip, c)
    } else {
        let (gs, repl) = chosen_set(clip, c, latin, s, ellipsis, p);
        if repl {
            attempt(clip, c, replacement(), latin, ellipsis, p).1
        } else {
            attempt(clip, c, s, gs, ellipsis, p).1
        }
    }
}

/// Frame buffer effect of one layout step.
#[verifier::opaque]
pub open spec fn step_pixels(
    old: Seq<u32>,
    new: Seq<u32>,
    clip: ClipRect,
    c: Cursor,
    latin: GlyphSet,
    s: Seq<char>,
    xor: bool,
    ellipsis: bool,
    p: CharPainter,
) -> bool {
    if starts_line_feed(s) {
        new == old
    } else {
        let (gs, repl) = chosen_set(clip, c, latin, s, ellipsis, p);
        if repl {
            attempt_pixels(old, new, clip, c, replacement(), latin, xor, ellipsis, p)
        } else {
            attempt_pixels(old, new, clip, c, s, gs, xor, ellipsis, p)
        }
    }
}

/// Characters of `s` whose encoding is `n` bytes long.
pub open spec fn chars_in(s: Seq<char>, n: nat) -> int {
    if exists|k: int| 1 <= k <= s.len() && #[trigger] encode_utf8(s.take(k)).len() == n {
        choose|k: int| 1 <= k <= s.len() && #[trigger] encode_utf8(s.take(k)).len() == n
    } else {
        1
    }
}

/// Characters that one layout step consumes.
pub open spec fn step_chars(
    clip: ClipRect,
    c: Cursor,
    latin: GlyphSet,
    s: Seq<char>,
    ellipsis: bool,
    p: CharPainter,
) -> int {
    match step_used(clip, c, latin, s, ellipsis, p) {
        Some(n) => chars_in(s, n),
        None => 0,
    }
}

/// Cursor after laying out all of `s` (or up to where painting stops).
pub open spec fn layout_cursor(
    clip: ClipRect,
    c: Cursor,
    latin: GlyphSet,
    s: Seq<char>,
    ellipsis: bool,
    p: CharPainter,
) -> Cursor
    decreases s.len(),
{
    if s.len() == 0 {
        c
    } else {
        let c1 = step_cursor(clip, c, latin, s, ellipsis, p);
        match step_used(clip, c, latin, s, ellipsis, p) {
            None => c1,
            Some(n) => if 1 <= chars_in(s, n) <= s.len() {
                layout_cursor(clip, c1, latin, s.skip(chars_in(s, n)), ellipsis, p)
            } else {
                c1
            },
        }
    }
}

/// Layout steps that complete (consume characters) while laying out `s`.
pub open spec fn layout_steps(
    clip: ClipRect,
    c: Cursor,
    latin: GlyphSet,
    s: Seq<char>,
    ellipsis: bool,
    p: CharPainter,
) -> nat
    decreases s.len(),
{
    if s.len() == 0 {
        0
    } else {
        let c1 = step_cursor(clip, c, latin, s, ellipsis, p);
        match step_used(clip, c, latin, s, ellipsis, p) {
            None => 0,
            Some(n) => if 1 <= chars_in(s, n) <= s.len() {
                1 + layout_steps(clip, c1, latin, s.skip(chars_in(s, n)), ellipsis, p)
            } else {
                1
            },
        }
    }
}

/// The caret drawn after completed step number `i + 1`, when that is the
/// requested insertion point.
pub open spec fn caret_after(old: Seq<u32>, new: Seq<u32>, c: Cursor, i: int, ins: Option<i32>) -> bool {
    if ins == Some((i + 1) as i32) && i + 1 <= i32::MAX {
        caret_drawn(old, new, c)
    } else {
        new == old
    }
}

/// `new` is `old` after laying out and painting `s` from cursor `c`, `i`
/// steps having been taken before, with the caret drawn after the step
/// that `ins` names.
pub open spec fn painted(
    old: Seq<u32>,
    new: Seq<u32>,
    clip: ClipRect,
    c: Cursor,
    latin: GlyphSet,
    s: Seq<char>,
    xor: bool,
    ellipsis: bool,
    p: CharPainter,
    i: int,
    ins: Option<i32>,
) -> bool
    decreases s.len(),
{
    if s.len() == 0 {
        new == old
    } else {
        let c1 = step_cursor(clip, c, latin, s, ellipsis, p);
        exists|mid: Seq<u32>|
            #[trigger] step_pixels(old, mid, clip, c, latin, s, xor, ellipsis, p) && mid.len() == old.len() && match step_used(
                clip,
                c,
                latin,
                s,
                ellipsis,
                p,
            ) {
                None => new == mid,
                Some(n) => exists|mid2: Seq<u32>|
                    #[trigger] caret_after(mid, mid2, c1, i, ins) && mid2.len() == mid.len() && if 1 <= chars_in(s, n)
                        <= s.len() {
                        painted(
                            mid2,
                            new,
                            clip,
                            c1,
                            latin,
                            s.skip(chars_in(s, n)),
                            xor,
                            ellipsis,
                            p,
                            i + 1,
                            ins,
                        )
                    } else {
                        new == mid2
                    },
            }
    }
}

/// The caret at the end of painting, for an insertion point that no
/// completed step reached: at the final cursor, or at the starting cursor
/// (with the final line height) for insertion point 0.
pub open spec fn end_caret(
    old: Seq<u32>,
    new: Seq<u32>,
    start: Cursor,
    end: Cursor,
    steps: nat,
    ins: Option<i32>,
) -> bool {
    match ins {
        Some(k) => if 1 <= k <= steps {
            new == old
        } else if k != 0 {
            caret_drawn(old, new, end)
        } else {
            caret_drawn(old, new, Cursor { pt: start.pt, line_height: end.line_height })
        },
        None => new == old,
    }
}

/// A glyph attempt that succeeds uses the encoding of one or two whole
/// characters.
pub proof fn lemma_attempt_used(
    clip: ClipRect,
    c: Cursor,
    s: Seq<char>,
    gs: GlyphSet,
    ellipsis: bool,
    p: CharPainter,
)
    ensures
        match attempt(clip, c, s, gs, ellipsis, p).0 {
            Ok(Some(n)) => 1 <= n <= 8 && exists|k: int|
                1 <= k <= s.len() && n == encode_utf8(#[trigger] s.take(k)).len(),
            _ => true,
        },
        attempt(clip, c, s, gs, ellipsis, p).0 is Err ==> attempt(clip, c, s, gs, ellipsis, p).1 == c,
{
    reveal(attempt);
    lemma_resolve_covers(gs, s);
}

/// A glyph attempt that finds no glyph leaves the frame buffer as it was.
pub proof fn lemma_attempt_missed(
    old: Seq<u32>,
    new: Seq<u32>,
    clip: ClipRect,
    c: Cursor,
    s: Seq<char>,
    gs: GlyphSet,
    xor: bool,
    ellipsis: bool,
    p: CharPainter,
)
    requires
        attempt(clip, c, s, gs, ellipsis, p).0 is Err,
        attempt_pixels(old, new, clip, c, s, gs, xor, ellipsis, p),
    ensures
        new == old,
{
    reveal(attempt);
    reveal(attempt_pixels);
}

/// One glyph attempt with the chosen painter.
fn paint_char(
    fb: &mut FrBuf,
    clip: ClipRect,
    c: &mut Cursor,
    cluster: &str,
    gs: GlyphSet,
    xor: bool,
    ellipsis: bool,
    p: CharPainter,
) -> (r: Result<Option<i32>, NoGlyphErr>)
    ensures
        (r, *final(c)) == attempt(clip, *old(c), cluster@, gs, ellipsis, p),
        attempt_pixels(old(fb)@, final(fb)@, clip, *old(c), cluster@, gs, xor, ellipsis, p),
{
    proof {
        reveal(attempt);
        reveal(attempt_pixels);
    }
    match p {
        CharPainter::XorChar => xor_char(fb, clip, c, cluster, gs, xor, ellipsis),
        CharPainter::SimulateChar => simulate_char(fb, clip, c, cluster, gs, xor, ellipsis),
    }
}

/// One layout step on the non-empty `rest`: a line feed, or the next cluster
/// through the glyph set fallback chain. Returns the bytes of `rest` used,
/// or `None` when painting should stop.
pub fn paint_step(
    fb: &mut FrBuf,
    clip: ClipRect,
    c: &mut Cursor,
    latin: GlyphSet,
    rest: &str,
    xor: bool,
    ellipsis: bool,
    p: CharPainter,
) -> (r: Option<usize>)
    requires
        rest@.len() > 0,
    ensures
        r == (match step_used(clip, *old(c), latin, rest@, ellipsis, p) {
            Some(n) => Some(n as usize),
            None => None,
        }),
        *final(c) == step_cursor(clip, *old(c), latin, rest@, ellipsis, p),
        step_pixels(old(fb)@, final(fb)@, clip, *old(c), latin, rest@, xor, ellipsis, p),
{
    proof {
        reveal(step_used);
        reveal(step_cursor);
        reveal(step_pixels);
    }
    if first_scalar(rest) == Some(0x0au32) {
        newline(clip, c);
        return Some(first_char_len(rest));
    }
    let ghost c0 = *c;
    let ghost f0 = fb@;
    proof {
        lemma_attempt_used(clip, *c, rest@, GlyphSet::Emoji, ellipsis, p);
        lemma_attempt_used(clip, *c, rest@, latin, ellipsis, p);
        lemma_attempt_used(clip, *c, rest@, GlyphSet::Hanzi, ellipsis, p);
    }
    if let Ok(used) = paint_char(fb, clip, c, rest, GlyphSet::Emoji, xor, ellipsis, p) {
        return match used {
            Some(n) => Some(n as usize),
            None => None,
        };
    }
    proof {
        lemma_attempt_missed(f0, fb@, clip, c0, rest@, GlyphSet::Emoji, xor, ellipsis, p);
    }
    if let Ok(used) = paint_char(fb, clip, c, rest, latin, xor, ellipsis, p) {
        return match used {
            Some(n) => Some(n as usize),
            None => None,
        };
    }
    proof {
        lemma_attempt_missed(f0, fb@, clip, c0, rest@, latin, xor, ellipsis, p);
    }
    if let Ok(used) = paint_char(fb, clip, c, rest, GlyphSet::Hanzi, xor, ellipsis, p) {
        return match used {
            Some(n) => Some(n as usize),
            None => None,
        };
    }
    // No glyph set has the cluster: draw the replacement character and move
    // past one character of the input
    proof {
        lemma_attempt_missed(f0, fb@, clip, c0, rest@, GlyphSet::Hanzi, xor, ellipsis, p);
        reveal_strlit("\u{FFFD}");
        assert("\u{FFFD}"@ =~= replacement());
    }
    let _ = paint_char(fb, clip, c, "\u{FFFD}", latin, xor, ellipsis, p);
    Some(first_char_len(rest))
}

/// Paint `s` in style `st` within `clip`, starting at the cursor, one
/// grapheme cluster per step: line feeds start a new line, each cluster is
/// drawn from the first glyph set of Emoji, the style's Latin set and Hanzi
/// that has it (else the replacement character stands in), and glyphs that
/// do not fit wrap to the next line. Painting stops early once a glyph
/// cannot be placed in the clip. With `ins`, an insertion caret is drawn
/// after that many characters (at the start for 0, at the end past the
/// string).
pub fn paint_str(
    fb: &mut FrBuf,
    clip: ClipRect,
    c: &mut Cursor,
    st: GlyphStyle,
    s: &str,
    xor: bool,
    ins: Option<i32>,
    ellipsis: bool,
    paintchar: CharPainter,
)
    ensures
        *final(c) == layout_cursor(clip, *old(c), latin_set(st), s@, ellipsis, paintchar),
        exists|mid: Seq<u32>|
            #[trigger] painted(
                old(fb)@,
                mid,
                clip,
                *old(c),
                latin_set(st),
                s@,
                xor,
                ellipsis,
                paintchar,
                0,
                ins,
            ) && end_caret(
                mid,
                final(fb)@,
                *old(c),
                *final(c),
                layout_steps(clip, *old(c), latin_set(st), s@, ellipsis, paintchar),
                ins,
            ),
{
    // The Latin glyph set of the style (emoji and hanzi are always included)
    let gs_latin = match st {
        GlyphStyle::Bold => GlyphSet::Bold,
        GlyphStyle::Regular => GlyphSet::Regular,
        GlyphStyle::Small => GlyphSet::Small,
    };
    let ghost latin = latin_set(st);
    let ghost fb0 = fb@;
    let mut start_c: Cursor = *c;
    let mut cluster = s;
    let mut ins_drawn = false;
    let mut i: usize = 0;
    let ghost mut done: int = 0;
    let n_bytes = s.as_bytes().len();
    proof {
        assert(s@.skip(0) =~= s@);
        crate::m3hash::lemma_encode_utf8_len_lower(s@);
    }
    while !cluster.is_empty()
        invariant
            s@.len() <= n_bytes,
            gs_latin == latin,
            latin == latin_set(st),
            start_c == *old(c),
            fb0 == old(fb)@,
            0 <= done <= s@.len(),
            cluster@ == s@.skip(done),
            i <= done,
            layout_cursor(clip, *c, latin, cluster@, ellipsis, paintchar) == layout_cursor(
                clip,
                start_c,
                latin,
                s@,
                ellipsis,
                paintchar,
            ),
            i + layout_steps(clip, *c, latin, cluster@, ellipsis, paintchar) == layout_steps(
                clip,
                start_c,
                latin,
                s@,
                ellipsis,
                paintchar,
            ),
            forall|new: Seq<u32>|
                #[trigger] painted(fb@, new, clip, *c, latin, cluster@, xor, ellipsis, paintchar, i as int, ins)
                    ==> painted(fb0, new, clip, start_c, latin, s@, xor, ellipsis, paintchar, 0, ins),
            ins_drawn == (ins is Some && 1 <= ins->0 <= i),
        decreases cluster@.len(),
    {
        let ghost fb_before = fb@;
        let ghost c_before = *c;
        let ghost rest = cluster@;
        proof {
            crate::m3hash::lemma_encode_utf8_empty(rest);
        }
        let step = paint_step(fb, clip, c, gs_latin, cluster, xor, ellipsis, paintchar);
        let ghost fb_step = fb@;
        match step {
            None => {
                // Nothing more fits: stop painting
                proof {
                    reveal_strlit("");
                    assert(painted(fb_before, fb_step, clip, c_before, latin, rest, xor, ellipsis, paintchar, i as int, ins));
                    assert(s@.skip(s@.len() as int) =~= Seq::<char>::empty());
                    done = s@.len() as int;
                }
                cluster = "";
                assert forall|new: Seq<u32>|
                    #[trigger] painted(fb@, new, clip, *c, latin, cluster@, xor, ellipsis, paintchar, i as int, ins)
                        implies painted(fb0, new, clip, start_c, latin, s@, xor, ellipsis, paintchar, 0, ins) by {
                    assert(new == fb_step);
                    assert(painted(fb_before, new, clip, c_before, latin, rest, xor, ellipsis, paintchar, i as int, ins));
                }
            },
            Some(used) => {
                proof {
                    lemma_step_chars(clip, c_before, latin, rest, ellipsis, paintchar);
                }
                let ghost k = chars_in(rest, used as nat);
                cluster = skip_chars(cluster, Ghost(k), used);
                if !ins_drawn {
                    if let Some(ins_pt) = ins {
                        if ins_pt > 0 && ins_pt as usize == i + 1 {
                            draw_ins(fb, c);
                            ins_drawn = true;
                        }
                    }
                }
                let ghost fb_caret = fb@;
                assert(caret_after(fb_step, fb_caret, *c, i as int, ins));
                assert forall|new: Seq<u32>|
                    #[trigger] painted(fb@, new, clip, *c, latin, cluster@, xor, ellipsis, paintchar, i + 1, ins)
                        implies painted(fb_before, new, clip, c_before, latin, rest, xor, ellipsis, paintchar, i as int, ins) by {
                    assert(step_pixels(fb_before, fb_step, clip, c_before, latin, rest, xor, ellipsis, paintchar));
                    assert(caret_after(fb_step, fb_caret, *c, i as int, ins));
                    assert(rest.skip(k) == cluster@);
                    assert(painted(fb_caret, new, clip, *c, latin, rest.skip(k), xor, ellipsis, paintchar, i + 1, ins));
                }
                proof {
                    assert(rest.skip(k) =~= s@.skip(done + k));
                    done = done + k;
                }
                i = i + 1;
            },
        }
    }
    proof {
        let mid = fb@;
        crate::m3hash::lemma_encode_utf8_empty(cluster@);
        assert(painted(mid, mid, clip, *c, latin, cluster@, xor, ellipsis, paintchar, i as int, ins));
        assert(painted(fb0, mid, clip, start_c, latin, s@, xor, ellipsis, paintchar, 0, ins));
    }
    // The insertion point was not reached by any step: put it at the end,
    // or at the start for 0
    if ins.is_some() && !ins_drawn {
        if ins.unwrap() != 0 {
            draw_ins(fb, c);
        } else {
            start_c.line_height = c.line_height;
            draw_ins(fb, &start_c);
        }
    }
}

/// A layout step that goes on consumes the encoding of at least one whole
/// character.
pub proof fn lemma_step_chars(
    clip: ClipRect,
    c: Cursor,
    latin: GlyphSet,
    s: Seq<char>,
    ellipsis: bool,
    p: CharPainter,
)
    requires
        s.len() > 0,
    ensures
        match step_used(clip, c, latin, s, ellipsis, p) {
            Some(n) => 1 <= chars_in(s, n) <= s.len() && n == encode_utf8(s.take(chars_in(s, n))).len()
                && n <= 8,
            None => true,
        },
{
    reveal(step_used);
    lemma_attempt_used(clip, c, s, GlyphSet::Emoji, ellipsis, p);
    lemma_attempt_used(clip, c, s, latin, ellipsis, p);
    lemma_attempt_used(clip, c, s, GlyphSet::Hanzi, ellipsis, p);
    if let Some(n) = step_used(clip, c, latin, s, ellipsis, p) {
        crate::m3hash::lemma_encode_utf8_len(s.take(1));
        if starts_line_feed(s) || chosen_set(clip, c, latin, s, ellipsis, p).1 {
            assert(encode_utf8(s.take(1)).len() == n);
            assert(1 <= chars_in(s, n) <= s.len());
        } else {
            let gs = chosen_set(clip, c, latin, s, ellipsis, p).0;
            assert(attempt(clip, c, s, gs, ellipsis, p).0 is Ok);
            assert(1 <= n <= 8);
            assert(1 <= chars_in(s, n) <= s.len());
        }
    }
}

/// Clipping: a glyph whose rows all lie above the clip's top edge, or all
/// at or below its bottom edge, changes no pixel; any other glyph changes
/// pixels only on lines inside the clip, left of its right edge (from the
/// glyph's left edge on), besides the dirty flags of those lines.
pub proof fn lemma_blit_stays_in_clip(
    old: Seq<u32>,
    new: Seq<u32>,
    clip: ClipRect,
    g: GlyphData,
    gh: GlyphHeader,
    x0: int,
    y0: int,
    xor: bool,
)
    requires
        glyph_blitted(old, new, clip, g, gh, x0, y0, xor),
    ensures
        y0 + gh.h <= clip.min.y || y0 >= clip.max.y ==> forall|x: int, y: int|
            in_buffer(x, y) ==> #[trigger] pixel(new, x, y) == pixel(old, x, y),
        forall|x: int, y: int|
            in_buffer(x, y) && #[trigger] pixel(new, x, y) != pixel(old, x, y) ==> clip.min.y <= y
                < clip.max.y && (x0 <= x < clip.max.x || x == dirty_x()),
{
}

/// Emoji do not depend on the style: when the Emoji set places the cluster
/// at the start of `s`, a layout step consumes, moves the cursor and paints
/// the same whatever Latin set the style asks for.
pub proof fn lemma_emoji_ignores_style(
    old: Seq<u32>,
    new: Seq<u32>,
    clip: ClipRect,
    c: Cursor,
    latin_a: GlyphSet,
    latin_b: GlyphSet,
    s: Seq<char>,
    xor: bool,
    ellipsis: bool,
    p: CharPainter,
)
    requires
        attempt(clip, c, s, GlyphSet::Emoji, ellipsis, p).0 is Ok,
    ensures
        step_used(clip, c, latin_a, s, ellipsis, p) == step_used(clip, c, latin_b, s, ellipsis, p),
        step_cursor(clip, c, latin_a, s, ellipsis, p) == step_cursor(clip, c, latin_b, s, ellipsis, p),
        step_pixels(old, new, clip, c, latin_a, s, xor, ellipsis, p) == step_pixels(
            old,
            new,
            clip,
            c,
            latin_b,
            s,
            xor,
            ellipsis,
            p,
        ),
{
    reveal(step_used);
    reveal(step_cursor);
    reveal(step_pixels);
}

/// Longer prefixes have longer encodings.
proof fn lemma_prefix_encodings_grow(s: Seq<char>, k1: int, k2: int)
    requires
        0 <= k1 < k2 <= s.len(),
    ensures
        encode_utf8(s.take(k1)).len() < encode_utf8(s.take(k2)).len(),
{
    let a = s.take(k1);
    let b = s.take(k2).skip(k1);
    assert(s.take(k2) =~= a + b);
    crate::m3hash::lemma_encode_utf8_append(a, b);
    crate::m3hash::lemma_encode_utf8_empty(b);
}

/// A prefix of `s` is recognised by its encoded length.
proof fn lemma_chars_in_prefix(s: Seq<char>, k: int)
    requires
        1 <= k <= s.len(),
    ensures
        chars_in(s, encode_utf8(s.take(k)).len()) == k,
{
    let n = encode_utf8(s.take(k)).len();
    assert(encode_utf8(s.take(k)).len() == n);
    let j = chars_in(s, n);
    if j != k {
        if j < k {
            lemma_prefix_encodings_grow(s, j, k);
        } else {
            lemma_prefix_encodings_grow(s, k, j);
        }
    }
}

/// Without a caret, painting does not depend on how many steps came before.
proof fn lemma_painted_any_index(
    old: Seq<u32>,
    new: Seq<u32>,
    clip: ClipRect,
    c: Cursor,
    latin: GlyphSet,
    s: Seq<char>,
    xor: bool,
    ellipsis: bool,
    p: CharPainter,
    i: int,
    j: int,
)
    ensures
        painted(old, new, clip, c, latin, s, xor, ellipsis, p, i, None) == painted(
            old,
            new,
            clip,
            c,
            latin,
            s,
            xor,
            ellipsis,
            p,
            j,
            None,
        ),
    decreases s.len(),
{
    if s.len() > 0 {
        let c1 = step_cursor(clip, c, latin, s, ellipsis, p);
        if let Some(n) = step_used(clip, c, latin, s, ellipsis, p) {
            let k = chars_in(s, n);
            let rest = s.skip(k);
            let in_range = 1 <= k <= s.len();
            if painted(old, new, clip, c, latin, s, xor, ellipsis, p, i, None) {
                let mid = choose|mid: Seq<u32>|
                    #[trigger] step_pixels(old, mid, clip, c, latin, s, xor, ellipsis, p) && mid.len() == old.len() && exists|mid2: Seq<u32>|
                        #[trigger] caret_after(mid, mid2, c1, i, None) && mid2.len() == mid.len() && if in_range {
                            painted(mid2, new, clip, c1, latin, rest, xor, ellipsis, p, i + 1, None)
                        } else {
                            new == mid2
                        };
                let mid2 = choose|mid2: Seq<u32>|
                    #[trigger] caret_after(mid, mid2, c1, i, None) && mid2.len() == mid.len() && if in_range {
                        painted(mid2, new, clip, c1, latin, rest, xor, ellipsis, p, i + 1, None)
                    } else {
                        new == mid2
                    };
                if in_range {
                    lemma_painted_any_index(mid2, new, clip, c1, latin, rest, xor, ellipsis, p, i + 1, j + 1);
                }
                assert(caret_after(mid, mid2, c1, j, None));
            }
            if painted(old, new, clip, c, latin, s, xor, ellipsis, p, j, None) {
                let mid = choose|mid: Seq<u32>|
                    #[trigger] step_pixels(old, mid, clip, c, latin, s, xor, ellipsis, p) && mid.len() == old.len() && exists|mid2: Seq<u32>|
                        #[trigger] caret_after(mid, mid2, c1, j, None) && mid2.len() == mid.len() && if in_range {
                            painted(mid2, new, clip, c1, latin, rest, xor, ellipsis, p, j + 1, None)
                        } else {
                            new == mid2
                        };
                let mid2 = choose|mid2: Seq<u32>|
                    #[trigger] caret_after(mid, mid2, c1, j, None) && mid2.len() == mid.len() && if in_range {
                        painted(mid2, new, clip, c1, latin, rest, xor, ellipsis, p, j + 1, None)
                    } else {
                        new == mid2
                    };
                if in_range {
                    lemma_painted_any_index(mid2, new, clip, c1, latin, rest, xor, ellipsis, p, j + 1, i + 1);
                }
                assert(caret_after(mid, mid2, c1, i, None));
            }
        }
    }
}

/// Painting a string in one call equals painting its first cluster alone and
/// then the rest with the same cursor, when the first cluster is laid out
/// alike on its own. Applied cluster after cluster, painting a string at once
/// and one cluster per call give the same pixels and cursor.
pub proof fn lemma_paint_first_cluster_then_rest(
    old: Seq<u32>,
    new: Seq<u32>,
    clip: ClipRect,
    c: Cursor,
    latin: GlyphSet,
    s: Seq<char>,
    xor: bool,
    ellipsis: bool,
    p: CharPainter,
)
    requires
        s.len() > 0,
        step_used(clip, c, latin, s, ellipsis, p) is Some,
        ({
            let k = step_chars(clip, c, latin, s, ellipsis, p);
            &&& step_used(clip, c, latin, s.take(k), ellipsis, p) == step_used(clip, c, latin, s, ellipsis, p)
            &&& step_cursor(clip, c, latin, s.take(k), ellipsis, p) == step_cursor(clip, c, latin, s, ellipsis, p)
            &&& forall|a: Seq<u32>, b: Seq<u32>|
                step_pixels(a, b, clip, c, latin, s.take(k), xor, ellipsis, p) == step_pixels(
                    a,
                    b,
                    clip,
                    c,
                    latin,
                    s,
                    xor,
                    ellipsis,
                    p,
                )
        }),
    ensures
        ({
            let k = step_chars(clip, c, latin, s, ellipsis, p);
            let c1 = layout_cursor(clip, c, latin, s.take(k), ellipsis, p);
            &&& layout_cursor(clip, c, latin, s, ellipsis, p) == layout_cursor(clip, c1, latin, s.skip(k), ellipsis, p)
            &&& painted(old, new, clip, c, latin, s, xor, ellipsis, p, 0, None) <==> exists|mid: Seq<u32>|
                painted(old, mid, clip, c, latin, s.take(k), xor, ellipsis, p, 0, None) && #[trigger] painted(
                    mid,
                    new,
                    clip,
                    c1,
                    latin,
                    s.skip(k),
                    xor,
                    ellipsis,
                    p,
                    0,
                    None,
                )
        }),
{
    let n = step_used(clip, c, latin, s, ellipsis, p)->0;
    lemma_step_chars(clip, c, latin, s, ellipsis, p);
    let k = chars_in(s, n);
    let t = s.take(k);
    assert(t.take(k) =~= s.take(k));
    lemma_chars_in_prefix(t, k);
    assert(chars_in(t, n) == k);
    assert(t.skip(k) =~= Seq::<char>::empty());
    let c1 = step_cursor(clip, c, latin, s, ellipsis, p);
    assert(layout_cursor(clip, c1, latin, t.skip(k), ellipsis, p) == c1);
    assert(layout_cursor(clip, c, latin, t, ellipsis, p) == c1);
    lemma_painted_any_index(old, new, clip, c, latin, s, xor, ellipsis, p, 0, 0);
    assert forall|mid: Seq<u32>|
        #[trigger] painted(mid, new, clip, c1, latin, s.skip(k), xor, ellipsis, p, 1, None) == painted(
            mid,
            new,
            clip,
            c1,
            latin,
            s.skip(k),
            xor,
            ellipsis,
            p,
            0,
            None,
        ) by {
        lemma_painted_any_index(mid, new, clip, c1, latin, s.skip(k), xor, ellipsis, p, 1, 0);
    }
    assert forall|mid: Seq<u32>|
        #[trigger] painted(old, mid, clip, c, latin, t, xor, ellipsis, p, 0, None) == (step_pixels(
            old,
            mid,
            clip,
            c,
            latin,
            s,
            xor,
            ellipsis,
            p,
        ) && mid.len() == old.len()) by {
        assert(step_used(clip, c, latin, t, ellipsis, p) == Some(n));
        assert(step_cursor(clip, c, latin, t, ellipsis, p) == c1);
        if step_pixels(old, mid, clip, c, latin, s, xor, ellipsis, p) && mid.len() == old.len() {
            assert(step_pixels(old, mid, clip, c, latin, t, xor, ellipsis, p));
            assert(caret_after(mid, mid, c1, 0, None));
            assert(painted(mid, mid, clip, c1, latin, t.skip(k), xor, ellipsis, p, 1, None));
        }
        if painted(old, mid, clip, c, latin, t, xor, ellipsis, p, 0, None) {
            let m = choose|m: Seq<u32>|
                #[trigger] step_pixels(old, m, clip, c, latin, t, xor, ellipsis, p) && m.len() == old.len() && exists|m2: Seq<u32>|
                    #[trigger] caret_after(m, m2, c1, 0, None) && m2.len() == m.len() && painted(m2, mid, clip, c1, latin, t.skip(k), xor, ellipsis, p, 1, None);
            let m2 = choose|m2: Seq<u32>|
                #[trigger] caret_after(m, m2, c1, 0, None) && m2.len() == m.len() && painted(m2, mid, clip, c1, latin, t.skip(k), xor, ellipsis, p, 1, None);
            assert(m2 == m);
            assert(mid == m2);
            assert(step_pixels(old, m, clip, c, latin, s, xor, ellipsis, p));
        }
    }
    if painted(old, new, clip, c, latin, s, xor, ellipsis, p, 0, None) {
        let mid = choose|mid: Seq<u32>| #[trigger] step_pixels(old, mid, clip, c, latin, s, xor, ellipsis, p) && mid.len() == old.len() && exists|mid2: Seq<u32>|
            #[trigger] caret_after(mid, mid2, c1, 0, None) && mid2.len() == mid.len() && painted(mid2, new, clip, c1, latin, s.skip(k), xor, ellipsis, p, 1, None);
        let mid2 = choose|mid2: Seq<u32>| #[trigger] caret_after(mid, mid2, c1, 0, None) && mid2.len() == mid.len() && painted(mid2, new, clip, c1, latin, s.skip(k), xor, ellipsis, p, 1, None);
        assert(mid2 == mid);
        assert(painted(old, mid, clip, c, latin, t, xor, ellipsis, p, 0, None));
        assert(painted(mid, new, clip, c1, latin, s.skip(k), xor, ellipsis, p, 0, None));
    }
    if exists|mid: Seq<u32>|
        painted(old, mid, clip, c, latin, t, xor, ellipsis, p, 0, None) && #[trigger] painted(
            mid,
            new,
            clip,
            c1,
            latin,
            s.skip(k),
            xor,
            ellipsis,
            p,
            0,
            None,
        ) {
        let mid = choose|mid: Seq<u32>|
            painted(old, mid, clip, c, latin, t, xor, ellipsis, p, 0, None) && #[trigger] painted(
                mid,
                new,
                clip,
                c1,
                latin,
                s.skip(k),
                xor,
                ellipsis,
                p,
                0,
                None,
            );
        assert(step_pixels(old, mid, clip, c, latin, s, xor, ellipsis, p));
        assert(caret_after(mid, mid, c1, 0, None));
        assert(painted(mid, new, clip, c1, latin, s.skip(k), xor, ellipsis, p, 1, None));
    }
}

proof fn lemma_glyph_blitted_unique(
    old: Seq<u32>,
    a: Seq<u32>,
    b: Seq<u32>,
    clip: ClipRect,
    g: GlyphData,
    gh: GlyphHeader,
    x0: int,
    y0: int,
    xor: bool,
)
    requires
        glyph_blitted(old, a, clip, g, gh, x0, y0, xor),
        glyph_blitted(old, b, clip, g, gh, x0, y0, xor),
        a.len() == FRAME_BUF_SIZE,
        b.len() == FRAME_BUF_SIZE,
    ensures
        a == b,
{
    assert forall|x: int, y: int| in_buffer(x, y) implies #[trigger] pixel(a, x, y) == pixel(b, x, y) by {}
    lemma_buffer_from_pixels(a, b);
}

proof fn lemma_ellipsis_drawn_unique(
    old: Seq<u32>,
    a: Seq<u32>,
    b: Seq<u32>,
    c: Cursor,
    baseline: i32,
    max_y: i32,
    clip: ClipRect,
)
    requires
        ellipsis_drawn(old, a, c, baseline, max_y, clip),
        ellipsis_drawn(old, b, c, baseline, max_y, clip),
        a.len() == FRAME_BUF_SIZE,
        b.len() == FRAME_BUF_SIZE,
    ensures
        a == b,
{
    assert forall|x: int, y: int| in_buffer(x, y) implies #[trigger] pixel(a, x, y) == pixel(b, x, y) by {}
    lemma_buffer_from_pixels(a, b);
}

proof fn lemma_caret_drawn_unique(old: Seq<u32>, a: Seq<u32>, b: Seq<u32>, c: Cursor)
    requires
        caret_drawn(old, a, c),
        caret_drawn(old, b, c),
        a.len() == FRAME_BUF_SIZE,
        b.len() == FRAME_BUF_SIZE,
    ensures
        a == b,
{
    assert forall|x: int, y: int| in_buffer(x, y) implies #[trigger] pixel(a, x, y) == pixel(b, x, y) by {}
    lemma_buffer_from_pixels(a, b);
}

proof fn lemma_step_pixels_unique(
    old: Seq<u32>,
    a: Seq<u32>,
    b: Seq<u32>,
    clip: ClipRect,
    c: Cursor,
    latin: GlyphSet,
    s: Seq<char>,
    xor: bool,
    ellipsis: bool,
    p: CharPainter,
)
    requires
        step_pixels(old, a, clip, c, latin, s, xor, ellipsis, p),
        step_pixels(old, b, clip, c, latin, s, xor, ellipsis, p),
        a.len() == FRAME_BUF_SIZE,
        b.len() == FRAME_BUF_SIZE,
    ensures
        a == b,
{
    reveal(step_pixels);
    reveal(attempt_pixels);
    if !starts_line_feed(s) {
        let (gs, repl) = chosen_set(clip, c, latin, s, ellipsis, p);
        let t = if repl {
            replacement()
        } else {
            s
        };
        let gs2 = if repl {
            latin
        } else {
            gs
        };
        if p == CharPainter::XorChar && clip_usable(clip) {
            if let Some((g, gh, n)) = glyph_found(gs2, t) {
                if !(gh.w > 32 || !glyph_in_data(g, gh)) {
                    if ellipsis && ellipsis_due(clip, c, gh) {
                        lemma_ellipsis_drawn_unique(
                            old,
                            a,
                            b,
                            snapped(clip, c),
                            ELLIPSIS_BASELINE,
                            small::MAX_HEIGHT as i32,
                            clip,
                        );
                    } else if !(placed(clip, c, gh.w as int).pt.y + gh.y_offset > clip.max.y) {
                        let q = placed(clip, c, gh.w as int);
                        lemma_glyph_blitted_unique(old, a, b, clip, g, gh, q.pt.x + 1, q.pt.y + gh.y_offset, xor);
                    }
                }
            }
        }
    }
}

proof fn lemma_painted_unique(
    old: Seq<u32>,
    a: Seq<u32>,
    b: Seq<u32>,
    clip: ClipRect,
    c: Cursor,
    latin: GlyphSet,
    s: Seq<char>,
    xor: bool,
    ellipsis: bool,
    p: CharPainter,
    i: int,
    ins: Option<i32>,
)
    requires
        painted(old, a, clip, c, latin, s, xor, ellipsis, p, i, ins),
        painted(old, b, clip, c, latin, s, xor, ellipsis, p, i, ins),
        old.len() == FRAME_BUF_SIZE,
    ensures
        a == b,
    decreases s.len(),
{
    if s.len() > 0 {
        let c1 = step_cursor(clip, c, latin, s, ellipsis, p);
        let used = step_used(clip, c, latin, s, ellipsis, p);
        let ma = choose|mid: Seq<u32>|
            #[trigger] step_pixels(old, mid, clip, c, latin, s, xor, ellipsis, p) && mid.len() == old.len()
                && match used {
                None => a == mid,
                Some(n) => exists|mid2: Seq<u32>|
                    #[trigger] caret_after(mid, mid2, c1, i, ins) && mid2.len() == mid.len() && if 1
                        <= chars_in(s, n) <= s.len() {
                        painted(mid2, a, clip, c1, latin, s.skip(chars_in(s, n)), xor, ellipsis, p, i + 1, ins)
                    } else {
                        a == mid2
                    },
            };
        let mb = choose|mid: Seq<u32>|
            #[trigger] step_pixels(old, mid, clip, c, latin, s, xor, ellipsis, p) && mid.len() == old.len()
                && match used {
                None => b == mid,
                Some(n) => exists|mid2: Seq<u32>|
                    #[trigger] caret_after(mid, mid2, c1, i, ins) && mid2.len() == mid.len() && if 1
                        <= chars_in(s, n) <= s.len() {
                        painted(mid2, b, clip, c1, latin, s.skip(chars_in(s, n)), xor, ellipsis, p, i + 1, ins)
                    } else {
                        b == mid2
                    },
            };
        lemma_step_pixels_unique(old, ma, mb, clip, c, latin, s, xor, ellipsis, p);
        if let Some(n) = used {
            let k = chars_in(s, n);
            let ra = choose|mid2: Seq<u32>|
                #[trigger] caret_after(ma, mid2, c1, i, ins) && mid2.len() == ma.len() && if 1 <= k <= s.len() {
                    painted(mid2, a, clip, c1, latin, s.skip(k), xor, ellipsis, p, i + 1, ins)
                } else {
                    a == mid2
                };
            let rb = choose|mid2: Seq<u32>|
                #[trigger] caret_after(ma, mid2, c1, i, ins) && mid2.len() == ma.len() && if 1 <= k <= s.len() {
                    painted(mid2, b, clip, c1, latin, s.skip(k), xor, ellipsis, p, i + 1, ins)
                } else {
                    b == mid2
                };
            if ins == Some((i + 1) as i32) && i + 1 <= i32::MAX {
                lemma_caret_drawn_unique(ma, ra, rb, c1);
            }
            assert(ra == rb);
            if 1 <= k <= s.len() {
                lemma_painted_unique(ra, a, b, clip, c1, latin, s.skip(k), xor, ellipsis, p, i + 1, ins);
            }
        }
    }
}

/// Painting is deterministic: from the same frame buffer, cursor and
/// arguments, `paint_str` can leave only one frame buffer.
pub proof fn lemma_paint_deterministic(
    old: Seq<u32>,
    a: Seq<u32>,
    b: Seq<u32>,
    clip: ClipRect,
    c: Cursor,
    st: GlyphStyle,
    s: Seq<char>,
    xor: bool,
    ins: Option<i32>,
    ellipsis: bool,
    p: CharPainter,
)
    requires
        old.len() == FRAME_BUF_SIZE,
        a.len() == FRAME_BUF_SIZE,
        b.len() == FRAME_BUF_SIZE,
        exists|mid: Seq<u32>|
            #[trigger] painted(old, mid, clip, c, latin_set(st), s, xor, ellipsis, p, 0, ins) && end_caret(
                mid,
                a,
                c,
                layout_cursor(clip, c, latin_set(st), s, ellipsis, p),
                layout_steps(clip, c, latin_set(st), s, ellipsis, p),
                ins,
            ),
        exists|mid: Seq<u32>|
            #[trigger] painted(old, mid, clip, c, latin_set(st), s, xor, ellipsis, p, 0, ins) && end_caret(
                mid,
                b,
                c,
                layout_cursor(clip, c, latin_set(st), s, ellipsis, p),
                layout_steps(clip, c, latin_set(st), s, ellipsis, p),
                ins,
            ),
    ensures
        a == b,
{
    let latin = latin_set(st);
    let end = layout_cursor(clip, c, latin, s, ellipsis, p);
    let steps = layout_steps(clip, c, latin, s, ellipsis, p);
    let ma = choose|mid: Seq<u32>|
        #[trigger] painted(old, mid, clip, c, latin, s, xor, ellipsis, p, 0, ins) && end_caret(mid, a, c, end, steps, ins);
    let mb = choose|mid: Seq<u32>|
        #[trigger] painted(old, mid, clip, c, latin, s, xor, ellipsis, p, 0, ins) && end_caret(mid, b, c, end, steps, ins);
    lemma_painted_unique(old, ma, mb, clip, c, latin, s, xor, ellipsis, p, 0, ins);
    lemma_painted_length(old, ma, clip, c, latin, s, xor, ellipsis, p, 0, ins);
    if let Some(k) = ins {
        if !(1 <= k <= steps) {
            if k != 0 {
                lemma_caret_drawn_unique(ma, a, b, end);
            } else {
                lemma_caret_drawn_unique(ma, a, b, Cursor { pt: c.pt, line_height: end.line_height });
            }
        }
    }
}

/// Painting keeps the length of the buffer.
proof fn lemma_painted_length(
    old: Seq<u32>,
    new: Seq<u32>,
    clip: ClipRect,
    c: Cursor,
    latin: GlyphSet,
    s: Seq<char>,
    xor: bool,
    ellipsis: bool,
    p: CharPainter,
    i: int,
    ins: Option<i32>,
)
    requires
        painted(old, new, clip, c, latin, s, xor, ellipsis, p, i, ins),
    ensures
        new.len() == old.len(),
    decreases s.len(),
{
    if s.len() > 0 {
        let c1 = step_cursor(clip, c, latin, s, ellipsis, p);
        let used = step_used(clip, c, latin, s, ellipsis, p);
        let m = choose|mid: Seq<u32>|
            #[trigger] step_pixels(old, mid, clip, c, latin, s, xor, ellipsis, p) && mid.len() == old.len()
                && match used {
                None => new == mid,
                Some(n) => exists|mid2: Seq<u32>|
                    #[trigger] caret_after(mid, mid2, c1, i, ins) && mid2.len() == mid.len() && if 1
                        <= chars_in(s, n) <= s.len() {
                        painted(mid2, new, clip, c1, latin, s.skip(chars_in(s, n)), xor, ellipsis, p, i + 1, ins)
                    } else {
                        new == mid2
                    },
            };
        if let Some(n) = used {
            let k = chars_in(s, n);
            let m2 = choose|mid2: Seq<u32>|
                #[trigger] caret_after(m, mid2, c1, i, ins) && mid2.len() == m.len() && if 1 <= k <= s.len() {
                    painted(mid2, new, clip, c1, latin, s.skip(k), xor, ellipsis, p, i + 1, ins)
                } else {
                    new == mid2
                };
            if 1 <= k <= s.len() {
                lemma_painted_length(m2, new, clip, c1, latin, s.skip(k), xor, ellipsis, p, i + 1, ins);
            }
        }
    }
}

/// An emoji cluster paints alike in every style: when the Emoji set places
/// the whole of `s` in one step, painting `s` gives the same cursor, the
/// same number of steps and the same pixels for the two styles.
pub proof fn lemma_emoji_string_ignores_style(
    old: Seq<u32>,
    new: Seq<u32>,
    clip: ClipRect,
    c: Cursor,
    st_a: GlyphStyle,
    st_b: GlyphStyle,
    s: Seq<char>,
    xor: bool,
    ellipsis: bool,
    p: CharPainter,
    ins: Option<i32>,
)
    requires
        s.len() > 0,
        attempt(clip, c, s, GlyphSet::Emoji, ellipsis, p).0 is Ok,
        step_chars(clip, c, latin_set(st_a), s, ellipsis, p) == s.len(),
    ensures
        layout_cursor(clip, c, latin_set(st_a), s, ellipsis, p) == layout_cursor(
            clip,
            c,
            latin_set(st_b),
            s,
            ellipsis,
            p,
        ),
        layout_steps(clip, c, latin_set(st_a), s, ellipsis, p) == layout_steps(
            clip,
            c,
            latin_set(st_b),
            s,
            ellipsis,
            p,
        ),
        painted(old, new, clip, c, latin_set(st_a), s, xor, ellipsis, p, 0, ins) == painted(
            old,
            new,
            clip,
            c,
            latin_set(st_b),
            s,
            xor,
            ellipsis,
            p,
            0,
            ins,
        ),
{
    let la = latin_set(st_a);
    let lb = latin_set(st_b);
    assert forall|a: Seq<u32>, b: Seq<u32>|
        #[trigger] step_pixels(a, b, clip, c, la, s, xor, ellipsis, p) == step_pixels(
            a,
            b,
            clip,
            c,
            lb,
            s,
            xor,
            ellipsis,
            p,
        ) by {
        lemma_emoji_ignores_style(a, b, clip, c, la, lb, s, xor, ellipsis, p);
    }
    lemma_emoji_ignores_style(old, new, clip, c, la, lb, s, xor, ellipsis, p);
    let c1 = step_cursor(clip, c, la, s, ellipsis, p);
    if let Some(n) = step_used(clip, c, la, s, ellipsis, p) {
        let rest = s.skip(chars_in(s, n));
        assert(rest =~= Seq::<char>::empty());
        assert(layout_cursor(clip, c1, la, rest, ellipsis, p) == c1);
        assert(layout_cursor(clip, c1, lb, rest, ellipsis, p) == c1);
        assert(layout_steps(clip, c1, la, rest, ellipsis, p) == 0);
        assert(layout_steps(clip, c1, lb, rest, ellipsis, p) == 0);
        assert forall|m2: Seq<u32>|
            #[trigger] painted(m2, new, clip, c1, la, rest, xor, ellipsis, p, 1, ins) == (new == m2)
                && painted(m2, new, clip, c1, lb, rest, xor, ellipsis, p, 1, ins) == (new == m2) by {}
        let k = chars_in(s, n);
        if painted(old, new, clip, c, la, s, xor, ellipsis, p, 0, ins) {
            let m = choose|mid: Seq<u32>|
                #[trigger] step_pixels(old, mid, clip, c, la, s, xor, ellipsis, p) && mid.len() == old.len()
                    && exists|mid2: Seq<u32>|
                    #[trigger] caret_after(mid, mid2, c1, 0, ins) && mid2.len() == mid.len() && painted(
                        mid2, new, clip, c1, la, s.skip(k), xor, ellipsis, p, 1, ins);
            let m2 = choose|mid2: Seq<u32>|
                #[trigger] caret_after(m, mid2, c1, 0, ins) && mid2.len() == m.len() && painted(
                    mid2, new, clip, c1, la, s.skip(k), xor, ellipsis, p, 1, ins);
            assert(step_pixels(old, m, clip, c, lb, s, xor, ellipsis, p));
            assert(painted(m2, new, clip, c1, lb, s.skip(k), xor, ellipsis, p, 1, ins));
        }
        if painted(old, new, clip, c, lb, s, xor, ellipsis, p, 0, ins) {
            let m = choose|mid: Seq<u32>|
                #[trigger] step_pixels(old, mid, clip, c, lb, s, xor, ellipsis, p) && mid.len() == old.len()
                    && exists|mid2: Seq<u32>|
                    #[trigger] caret_after(mid, mid2, c1, 0, ins) && mid2.len() == mid.len() && painted(
                        mid2, new, clip, c1, lb, s.skip(k), xor, ellipsis, p, 1, ins);
            let m2 = choose|mid2: Seq<u32>|
                #[trigger] caret_after(m, mid2, c1, 0, ins) && mid2.len() == m.len() && painted(
                    mid2, new, clip, c1, lb, s.skip(k), xor, ellipsis, p, 1, ins);
            assert(step_pixels(old, m, clip, c, la, s, xor, ellipsis, p));
            assert(painted(m2, new, clip, c1, la, s.skip(k), xor, ellipsis, p, 1, ins));
        }
    }
}

/// An index hit points at one of the index's offsets.
proof fn lemma_find_in_offset(keys: Seq<u32>, offsets: Seq<usize>, s: Seq<char>, seed: u32, limit: u32)
    requires
        offsets.len() == keys.len(),
    ensures
        match find_in(keys, offsets, s, seed, limit) {
            Some((o, n)) => exists|i: int| 0 <= i < offsets.len() && #[trigger] offsets[i] == o,
            None => true,
        },
{
    if let Some((o, n)) = find_in(keys, offsets, s, seed, limit) {
        let i = keys.index_of(cluster_hash(s, seed, limit));
        assert(offsets[i] == o);
    }
}

proof fn lemma_header_digits(word: u32, w: u32, h: u32, y_offset: u32)
    requires
        w < 0x100 && h < 0x100 && y_offset < 0x100,
        word == w * 0x10000 + h * 0x100 + y_offset,
    ensures
        unpack_header(word) == (GlyphHeader { w, h, y_offset }),
{
    assert((word >> 16) & 0xff == w && (word >> 8) & 0xff == h && word & 0xff == y_offset)
        by (bit_vector)
        requires
            w < 0x100 && h < 0x100 && y_offset < 0x100,
            word == w * 0x10000 + h * 0x100 + y_offset,
    ;
}

/// Every glyph that the Small set resolves is usable: it has a header, is at
/// most 32 pixels wide, fits within the typeface's height with its offset,
/// and lies whole inside the data. So for Small, `xor_char` never reports a
/// found glyph as missing or too wide.
pub proof fn lemma_small_glyphs_usable(s: Seq<char>)
    ensures
        resolve(GlyphSet::Small, s) is Some ==> glyph_found(GlyphSet::Small, s) is Some,
        match glyph_found(GlyphSet::Small, s) {
            Some((g, gh, n)) => gh.w <= 32 && gh.h + gh.y_offset <= small::MAX_HEIGHT
                && glyph_in_data(g, gh),
            None => true,
        },
{
    reveal(resolve);
    reveal(small::resolve);
    reveal(set_data);
    small::lemma_indexed_glyphs_fit();
    lemma_find_in_offset(small::HASH_BASIC_LATIN@, small::OFFSET_BASIC_LATIN@, s, small::M3_SEED, 2);
    lemma_find_in_offset(small::HASH_BASIC_LATIN@, small::OFFSET_BASIC_LATIN@, s, small::M3_SEED, 1);
    lemma_find_in_offset(small::HASH_LATIN_1_SUPPLEMENT@, small::OFFSET_LATIN_1_SUPPLEMENT@, s, small::M3_SEED, 1);
    lemma_find_in_offset(small::HASH_LATIN_EXTENDED_A@, small::OFFSET_LATIN_EXTENDED_A@, s, small::M3_SEED, 1);
    lemma_find_in_offset(small::HASH_GENERAL_PUNCTUATION@, small::OFFSET_GENERAL_PUNCTUATION@, s, small::M3_SEED, 1);
    lemma_find_in_offset(small::HASH_CURRENCY_SYMBOLS@, small::OFFSET_CURRENCY_SYMBOLS@, s, small::M3_SEED, 1);
    lemma_find_in_offset(small::HASH_SPECIALS@, small::OFFSET_SPECIALS@, s, small::M3_SEED, 1);
    if let Some((g, n)) = resolve(GlyphSet::Small, s) {
        let o = g.offset() as int;
        assert(small::glyph_fits(o));
        let (w, h, y_offset) = choose|w: int, h: int, y_offset: int|
            #[trigger] small::glyph_fits_as(o, w, h, y_offset);
        let word = small::DATA@[o];
        lemma_header_digits(word, w as u32, h as u32, y_offset as u32);
        assert(g.word(0) == Some(word));
        let len = small::DATA@.len() as int;
        assert((w * h + 31) / 32 <= len - o - 1) by (nonlinear_arith)
            requires
                0 <= w * h <= 32 * (len - o - 1),
        ;
    }
}

/// Progress: laying out `s` takes at most one step per character, since
/// every step that goes on consumes at least one whole character.
pub proof fn lemma_layout_steps_bounded(
    clip: ClipRect,
    c: Cursor,
    latin: GlyphSet,
    s: Seq<char>,
    ellipsis: bool,
    p: CharPainter,
)
    ensures
        layout_steps(clip, c, latin, s, ellipsis, p) <= s.len(),
    decreases s.len(),
{
    if s.len() > 0 {
        lemma_step_chars(clip, c, latin, s, ellipsis, p);
        if let Some(n) = step_used(clip, c, latin, s, ellipsis, p) {
            let k = chars_in(s, n);
            let c1 = step_cursor(clip, c, latin, s, ellipsis, p);
            lemma_layout_steps_bounded(clip, c1, latin, s.skip(k), ellipsis, p);
        }
    }
}

} // verus!
