//! Glyph sets, glyph handles and the hashed lookup of grapheme clusters.
//!
//! This crate embeds the Small typeface (see `small`). The other glyph sets
//! carry no glyph data here: every lookup in them reports `NoGlyphErr`, as an
//! unmapped font does, and rendering falls through to the next set.
use vstd::prelude::*;
use crate::m3hash::{
    cluster_hash, grapheme_cluster, hashed_len, leading_chars, lemma_encode_utf8_empty,
    lemma_encode_utf8_len,
};
use vstd::utf8::encode_utf8;

pub mod small;

verus! {

/// Tallest glyph (height plus vertical offset) of the Regular typeface.
pub const REGULAR_MAX_HEIGHT: u8 = 30;

/// Tallest glyph of the Bold typeface.
pub const BOLD_MAX_HEIGHT: u8 = 30;

/// Tallest glyph of the Emoji typeface.
pub const EMOJI_MAX_HEIGHT: u8 = 32;

/// Tallest glyph of the Hanzi typeface.
pub const HANZI_MAX_HEIGHT: u8 = 32;

/// Available typeface glyph sets.
#[derive(Copy, Clone, Debug, PartialEq, Eq, Structural)]
pub enum GlyphSet {
    Emoji,
    Bold,
    Regular,
    Small,
    Hanzi,
}

/// Error for when a glyph set has no glyph for a grapheme cluster.
#[derive(Copy, Clone, Debug, PartialEq, Eq, Structural)]
pub struct NoGlyphErr;

impl NoGlyphErr {
    /// What the error means, in words.
    pub fn message(&self) -> (r: &'static str)
        ensures
            r@ == "Font has no glyph for requested grapheme cluster"@,
    {
        "Font has no glyph for requested grapheme cluster"
    }
}

/// Width, height and vertical offset of a glyph, as packed in its header word.
#[derive(Copy, Clone, Debug, PartialEq, Eq, Structural)]
pub struct GlyphHeader {
    pub w: u32,
    pub h: u32,
    pub y_offset: u32,
}

/// A glyph handle: an offset into the glyph data of one glyph set.
#[derive(Copy, Clone, Debug, PartialEq, Eq, Structural)]
pub enum GlyphData {
    Emoji(usize),
    Bold(usize),
    Regular(usize),
    Small(usize),
    Hanzi(usize),
}

/// Glyph data words of a glyph set, as embedded in this crate.
#[verifier::opaque]
pub open spec fn set_data(gs: GlyphSet) -> Seq<u32> {
    match gs {
        GlyphSet::Small => small::DATA@,
        _ => Seq::empty(),
    }
}

/// Tallest glyph of a glyph set.
pub open spec fn max_height_of(gs: GlyphSet) -> u8 {
    match gs {
        GlyphSet::Emoji => EMOJI_MAX_HEIGHT,
        GlyphSet::Bold => BOLD_MAX_HEIGHT,
        GlyphSet::Regular => REGULAR_MAX_HEIGHT,
        GlyphSet::Small => small::MAX_HEIGHT,
        GlyphSet::Hanzi => HANZI_MAX_HEIGHT,
    }
}

/// Header fields packed as `(w:8) << 16 | (h:8) << 8 | y_offset:8`.
pub open spec fn unpack_header(word: u32) -> GlyphHeader {
    GlyphHeader { w: (word >> 16) & 0xff, h: (word >> 8) & 0xff, y_offset: word & 0xff }
}

impl GlyphSet {
    /// Tallest glyph of this set; the line height it asks for.
    pub fn max_height(self) -> (r: u8)
        ensures
            r == max_height_of(self),
    {
        match self {
            GlyphSet::Emoji => EMOJI_MAX_HEIGHT,
            GlyphSet::Bold => BOLD_MAX_HEIGHT,
            GlyphSet::Regular => REGULAR_MAX_HEIGHT,
            GlyphSet::Small => small::MAX_HEIGHT,
            GlyphSet::Hanzi => HANZI_MAX_HEIGHT,
        }
    }
}

impl GlyphData {
    /// The glyph set the handle points into.
    pub open spec fn set(self) -> GlyphSet {
        match self {
            GlyphData::Emoji(_) => GlyphSet::Emoji,
            GlyphData::Bold(_) => GlyphSet::Bold,
            GlyphData::Regular(_) => GlyphSet::Regular,
            GlyphData::Small(_) => GlyphSet::Small,
            GlyphData::Hanzi(_) => GlyphSet::Hanzi,
        }
    }

    /// Offset of the glyph's header word in its set's data.
    pub open spec fn offset(self) -> usize {
        match self {
            GlyphData::Emoji(o) => o,
            GlyphData::Bold(o) => o,
            GlyphData::Regular(o) => o,
            GlyphData::Small(o) => o,
            GlyphData::Hanzi(o) => o,
        }
    }

    /// Word `n` of the glyph (0 is the header), if the set's data holds it.
    pub open spec fn word(self, n: int) -> Option<u32> {
        let data = set_data(self.set());
        if 0 <= self.offset() + n < data.len() {
            Some(data[self.offset() + n])
        } else {
            None
        }
    }

    /// Unpack the glyph's header word.
    pub fn header(self) -> (r: Result<GlyphHeader, NoGlyphErr>)
        ensures
            r == (match self.word(0) {
                Some(word) => Ok(unpack_header(word)),
                None => Err(NoGlyphErr),
            }),
    {
        proof {
            reveal(set_data);
        }
        let word = match self {
            GlyphData::Small(offset) => {
                if offset < small::DATA.len() {
                    small::DATA[offset]
                } else {
                    return Err(NoGlyphErr);
                }
            },
            _ => {
                return Err(NoGlyphErr);
            },
        };
        let w = (word << 8u32) >> 24u32;
        let h = (word << 16u32) >> 24u32;
        let y_offset = word & 0x000000ff;
        assert(w == (word >> 16) & 0xff && h == (word >> 8) & 0xff) by (bit_vector)
            requires
                w == (word << 8u32) >> 24u32,
                h == (word << 16u32) >> 24u32,
        ;
        Ok(GlyphHeader { w, h, y_offset })
    }

    /// Word `n` after the glyph's header (`n = 0` is the header itself).
    pub fn nth_word(self, n: usize) -> (r: Result<u32, NoGlyphErr>)
        ensures
            r == (match self.word(n as int) {
                Some(word) => Ok(word),
                None => Err(NoGlyphErr),
            }),
    {
        proof {
            reveal(set_data);
        }
        match self {
            GlyphData::Small(offset) => {
                if offset < small::DATA.len() && n < small::DATA.len() - offset {
                    Ok(small::DATA[offset + n])
                } else {
                    Err(NoGlyphErr)
                }
            },
            _ => Err(NoGlyphErr),
        }
    }
}

/// Murmur3 hash of the first `limit` scalar values of `key`, with the number
/// of bytes of `key` it covered; the hash the index tables are keyed by.
pub fn murmur3(key: &str, seed: u32, limit: u32) -> (r: (u32, usize))
    ensures
        r == (cluster_hash(key@, seed, limit), hashed_len(key@, limit) as usize),
{
    grapheme_cluster(key, seed, limit)
}

/// Whether the keys are sorted with no repeats.
pub open spec fn strictly_increasing(s: Seq<u32>) -> bool {
    forall|i: int, j: int| 0 <= i < j < s.len() ==> s[i] < s[j]
}

/// Lookup of `s`'s first `limit` scalar values in one index: the glyph offset
/// paired with the hash key, and the bytes the hash covered.
pub open spec fn find_in(
    keys: Seq<u32>,
    offsets: Seq<usize>,
    s: Seq<char>,
    seed: u32,
    limit: u32,
) -> Option<(usize, nat)> {
    let k = cluster_hash(s, seed, limit);
    if keys.contains(k) {
        Some((offsets[keys.index_of(k)], hashed_len(s, limit)))
    } else {
        None
    }
}

/// Binary search for `key` in strictly increasing `keys`.
pub fn search_keys(keys: &[u32], key: u32) -> (r: Option<usize>)
    requires
        strictly_increasing(keys@),
    ensures
        match r {
            Some(i) => i < keys@.len() && keys@[i as int] == key,
            None => !keys@.contains(key),
        },
{
    let mut lo: usize = 0;
    let mut hi: usize = keys.len();
    while lo < hi
        invariant
            lo <= hi <= keys@.len(),
            strictly_increasing(keys@),
            forall|i: int| 0 <= i < lo ==> keys@[i] < key,
            forall|i: int| hi <= i < keys@.len() ==> keys@[i] > key,
        decreases hi - lo,
    {
        let mid = lo + (hi - lo) / 2;
        let k = keys[mid];
        if k == key {
            return Some(mid);
        } else if k < key {
            lo = mid + 1;
        } else {
            hi = mid;
        }
    }
    None
}

/// Look `cluster` up in one index (parallel `keys` and `offsets`), hashing
/// its first `limit` scalar values with `seed`.
pub fn find_in_index(keys: &[u32], offsets: &[usize], cluster: &str, seed: u32, limit: u32) -> (r:
    Option<(usize, usize)>)
    requires
        strictly_increasing(keys@),
        offsets@.len() == keys@.len(),
    ensures
        r == (match find_in(keys@, offsets@, cluster@, seed, limit) {
            Some((o, n)) => Some((o, n as usize)),
            None => None,
        }),
{
    let (key, bytes_hashed) = murmur3(cluster, seed, limit);
    match search_keys(keys, key) {
        Some(i) => {
            proof {
                assert(keys@.contains(key));
                let j = keys@.index_of(key);
                assert(keys@[j] == key);
                assert(j == i as int);
            }
            Some((offsets[i], bytes_hashed))
        },
        None => None,
    }
}

/// Glyph handle and bytes consumed for `s` in glyph set `gs`, if it has one.
#[verifier::opaque]
pub open spec fn resolve(gs: GlyphSet, s: Seq<char>) -> Option<(GlyphData, nat)> {
    match gs {
        GlyphSet::Small => match small::resolve(s) {
            Some((o, n)) => Some((GlyphData::Small(o), n)),
            None => None,
        },
        _ => None,
    }
}

/// A match covers the first one or two characters of `s`.
pub proof fn lemma_resolve_covers(gs: GlyphSet, s: Seq<char>)
    ensures
        match resolve(gs, s) {
            Some((g, n)) => exists|k: int|
                1 <= k <= 2 && k <= s.len() && n == encode_utf8(#[trigger] s.take(k)).len(),
            None => true,
        },
        match resolve(gs, s) {
            Some((g, n)) => 1 <= n <= 8,
            None => true,
        },
{
    reveal(resolve);
    reveal(small::resolve);
    if let Some((g, n)) = resolve(gs, s) {
        let limit: u32 = if s.len() > 0 && s[0] as u32 <= 0x7f && find_in(
            small::HASH_BASIC_LATIN@,
            small::OFFSET_BASIC_LATIN@,
            s,
            small::M3_SEED,
            2,
        ) is Some {
            2
        } else {
            1
        };
        assert(n == hashed_len(s, limit));
        let k: int = if limit < s.len() {
            limit as int
        } else {
            s.len() as int
        };
        assert(leading_chars(s, limit) =~= s.take(k));
        lemma_encode_utf8_len(s.take(k));
        lemma_encode_utf8_empty(s.take(k));
        assert(n == encode_utf8(s.take(k)).len());
    }
}

/// Header fields are single bytes.
pub proof fn lemma_header_fields(word: u32)
    ensures
        unpack_header(word).w <= 255,
        unpack_header(word).h <= 255,
        unpack_header(word).y_offset <= 255,
{
    assert((word >> 16) & 0xff <= 255 && (word >> 8) & 0xff <= 255 && word & 0xff <= 255)
        by (bit_vector);
}

/// Find the glyph for the grapheme cluster at the start of `cluster` in the
/// glyph set `gs`; returns its handle and the bytes of `cluster` it covers.
pub fn lookup(gs: GlyphSet, cluster: &str) -> (r: Result<(GlyphData, usize), NoGlyphErr>)
    ensures
        r == (match resolve(gs, cluster@) {
            Some((g, n)) => Ok((g, n as usize)),
            None => Err(NoGlyphErr),
        }),
{
    proof {
        reveal(resolve);
    }
    match gs {
        GlyphSet::Small => small::get_blit_pattern_offset(cluster),
        _ => Err(NoGlyphErr),
    }
}

} // verus!
