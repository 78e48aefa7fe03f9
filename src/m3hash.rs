//! Murmur3 (32-bit) hashing of grapheme clusters and of frame buffers.
//!
//! Each block of input is one `u32`: a Unicode scalar value for clusters, a
//! pixel word for frame buffers.
use vstd::prelude::*;
use vstd::utf8::{
    decode_first_scalar, encode_scalar, encode_utf8, encode_utf8_first_scalar,
    length_of_first_scalar, valid_first_scalar,
};

verus! {

pub const C1: u32 = 0xcc9e2d51;

pub const C2: u32 = 0x1b873593;

pub const C3: u32 = 0xe6546b64;

pub const F1: u32 = 0x85ebca6b;

pub const F2: u32 = 0xc2b2ae35;

/// `x` rotated left by `r` bits.
pub open spec fn rotl(x: u32, r: u32) -> u32 {
    (x << r) | (x >> ((32 - r) as u32))
}

/// The block scramble applied to each input block.
pub open spec fn scramble(k: u32) -> u32 {
    rotl(k.wrapping_mul(C1), 15).wrapping_mul(C2)
}

/// One round: fold block `k` into the running hash `h`.
pub open spec fn mix(h: u32, k: u32) -> u32 {
    rotl(h ^ scramble(k), 13).wrapping_mul(5).wrapping_add(C3)
}

/// Running hash after folding in `blocks`, in order, starting from `seed`.
pub open spec fn absorb(seed: u32, blocks: Seq<u32>) -> u32
    decreases blocks.len(),
{
    if blocks.len() == 0 {
        seed
    } else {
        mix(absorb(seed, blocks.drop_last()), blocks.last())
    }
}

/// The final avalanche mix.
pub open spec fn avalanche(h: u32) -> u32 {
    let h1 = h ^ (h >> 16);
    let h2 = h1.wrapping_mul(F1);
    let h3 = h2 ^ (h2 >> 13);
    let h4 = h3.wrapping_mul(F2);
    h4 ^ (h4 >> 16)
}

/// Murmur3 of `blocks` with `seed`, finalised with the input length `len`.
pub open spec fn murmur3_of(seed: u32, blocks: Seq<u32>, len: u32) -> u32 {
    avalanche(absorb(seed, blocks) ^ len)
}

/// The leading `limit` characters of `s` (all of `s` when it is shorter).
pub open spec fn leading_chars(s: Seq<char>, limit: u32) -> Seq<char> {
    if limit < s.len() {
        s.take(limit as int)
    } else {
        s
    }
}

/// The scalar values of `cs`.
pub open spec fn scalars(cs: Seq<char>) -> Seq<u32> {
    cs.map_values(|c: char| c as u32)
}

/// Bytes of the UTF-8 encoding of the cluster prefix that a hash covers.
pub open spec fn hashed_len(s: Seq<char>, limit: u32) -> nat {
    encode_utf8(leading_chars(s, limit)).len()
}

/// Hash of the first `limit` scalar values of `s`, as `grapheme_cluster` returns it.
pub open spec fn cluster_hash(s: Seq<char>, seed: u32, limit: u32) -> u32 {
    murmur3_of(seed, scalars(leading_chars(s, limit)), hashed_len(s, limit) as u32)
}

fn rotl_exec(x: u32, r: u32) -> (res: u32)
    requires
        0 < r < 32,
    ensures
        res == rotl(x, r),
{
    (x << r) | (x >> (32 - r))
}

fn mix_exec(h: u32, k: u32) -> (res: u32)
    ensures
        res == mix(h, k),
{
    let k1 = rotl_exec(k.wrapping_mul(C1), 15).wrapping_mul(C2);
    rotl_exec(h ^ k1, 13).wrapping_mul(5).wrapping_add(C3)
}

fn avalanche_exec(h: u32) -> (res: u32)
    ensures
        res == avalanche(h),
{
    let h1 = h ^ (h >> 16);
    let h2 = h1.wrapping_mul(F1);
    let h3 = h2 ^ (h2 >> 13);
    let h4 = h3.wrapping_mul(F2);
    h4 ^ (h4 >> 16)
}

/// Decode the scalar value whose UTF-8 encoding starts at `bytes[i]`;
/// returns it with the length of its encoding.
pub fn decode_scalar_at(bytes: &[u8], i: usize) -> (r: (u32, usize))
    requires
        i < bytes@.len(),
        valid_first_scalar(bytes@.subrange(i as int, bytes@.len() as int)),
    ensures
        r.0 == decode_first_scalar(bytes@.subrange(i as int, bytes@.len() as int)),
        r.1 == length_of_first_scalar(bytes@.subrange(i as int, bytes@.len() as int)),
        1 <= r.1 <= 4,
        i + r.1 <= bytes@.len(),
{
    let ghost sub = bytes@.subrange(i as int, bytes@.len() as int);
    let b0 = bytes[i];
    assert(sub[0] == b0);
    if b0 <= 0x7f {
        ((b0 & 0x7f) as u32, 1)
    } else if 0xc0 <= b0 && b0 <= 0xdf {
        let b1 = bytes[i + 1];
        assert(sub[1] == b1);
        ((((b0 & 0x1f) as u32) << 6) | ((b1 & 0x3f) as u32), 2)
    } else if 0xe0 <= b0 && b0 <= 0xef {
        let b1 = bytes[i + 1];
        let b2 = bytes[i + 2];
        assert(sub[1] == b1 && sub[2] == b2);
        ((((b0 & 0x0f) as u32) << 12) | (((b1 & 0x3f) as u32) << 6) | ((b2 & 0x3f) as u32), 3)
    } else {
        let b1 = bytes[i + 1];
        let b2 = bytes[i + 2];
        let b3 = bytes[i + 3];
        assert(sub[1] == b1 && sub[2] == b2 && sub[3] == b3);
        (
            (((b0 & 0x07) as u32) << 18) | (((b1 & 0x3f) as u32) << 12) | (((b2 & 0x3f) as u32)
                << 6) | ((b3 & 0x3f) as u32),
            4,
        )
    }
}

/// The encoding of a concatenation is the concatenation of the encodings.
pub proof fn lemma_encode_utf8_append(a: Seq<char>, b: Seq<char>)
    ensures
        encode_utf8(a + b) == encode_utf8(a) + encode_utf8(b),
    decreases a.len(),
{
    if a.len() == 0 {
        assert(a + b =~= b);
        assert(encode_utf8(a) =~= Seq::<u8>::empty());
        assert(encode_utf8(a) + encode_utf8(b) =~= encode_utf8(b));
    } else {
        assert((a + b).drop_first() =~= a.drop_first() + b);
        lemma_encode_utf8_append(a.drop_first(), b);
        assert((a + b)[0] == a[0]);
        assert(encode_utf8(a + b) =~= encode_scalar(a[0] as u32) + encode_utf8(a.drop_first() + b));
        assert(encode_utf8(a) + encode_utf8(b) =~= encode_scalar(a[0] as u32) + (encode_utf8(
            a.drop_first(),
        ) + encode_utf8(b)));
    }
}

/// A character takes at most four bytes.
pub proof fn lemma_encode_utf8_len(s: Seq<char>)
    ensures
        encode_utf8(s).len() <= 4 * s.len(),
    decreases s.len(),
{
    if s.len() > 0 {
        lemma_encode_utf8_len(s.drop_first());
    }
}

/// Every character takes at least one byte.
pub proof fn lemma_encode_utf8_len_lower(s: Seq<char>)
    ensures
        s.len() <= encode_utf8(s).len(),
    decreases s.len(),
{
    if s.len() > 0 {
        encode_utf8_first_scalar(s);
        lemma_encode_utf8_len_lower(s.drop_first());
    }
}

/// Only the empty sequence has an empty encoding.
pub proof fn lemma_encode_utf8_empty(s: Seq<char>)
    ensures
        (encode_utf8(s).len() == 0) == (s.len() == 0),
{
    if s.len() > 0 {
        encode_utf8_first_scalar(s);
    }
}

/// Hash the first `limit` scalar values of the cluster `gc`, each one block.
/// Returns the hash and how many bytes of `gc` it covered (`gc[..n]`).
pub fn grapheme_cluster(gc: &str, seed: u32, limit: u32) -> (r: (u32, usize))
    ensures
        r.1 == hashed_len(gc@, limit),
        r.0 == cluster_hash(gc@, seed, limit),
{
    let bytes = gc.as_bytes();
    let ghost s = gc@;
    let mut h = seed;
    let mut n: u32 = 0;
    let mut i: usize = 0;
    proof {
        assert(s.take(0) =~= Seq::<char>::empty());
        assert(scalars(s.take(0)) =~= Seq::<u32>::empty());
        assert(bytes@.subrange(0, bytes@.len() as int) =~= bytes@);
        assert(s.skip(0) =~= s);
    }
    while i < bytes.len() && n < limit
        invariant
            bytes@ == encode_utf8(s),
            n <= limit,
            n <= s.len(),
            i <= bytes@.len(),
            i == encode_utf8(s.take(n as int)).len(),
            bytes@.subrange(i as int, bytes@.len() as int) == encode_utf8(s.skip(n as int)),
            h == absorb(seed, scalars(s.take(n as int))),
        decreases bytes@.len() - i,
    {
        let ghost rest = s.skip(n as int);
        proof {
            lemma_encode_utf8_empty(rest);
            encode_utf8_first_scalar(rest);
        }
        let (c, w) = decode_scalar_at(bytes, i);
        proof {
            let next = s.take(n as int + 1);
            assert(next =~= s.take(n as int) + seq![s[n as int]]);
            assert(rest[0] == s[n as int]);
            lemma_encode_utf8_append(s.take(n as int), seq![s[n as int]]);
            assert(seq![s[n as int]].drop_first() =~= Seq::<char>::empty());
            assert(encode_utf8(Seq::<char>::empty()) =~= Seq::<u8>::empty());
            assert(encode_utf8(seq![s[n as int]]) =~= encode_scalar(s[n as int] as u32)
                + encode_utf8(Seq::<char>::empty()));
            assert(encode_utf8(seq![s[n as int]]) =~= encode_scalar(s[n as int] as u32));
            assert(rest.drop_first() =~= s.skip(n as int + 1));
            assert(scalars(next).drop_last() =~= scalars(s.take(n as int)));
        }
        h = mix_exec(h, c);
        n = n + 1;
        i = i + w;
        proof {
            let enc = encode_utf8(s.skip(n as int - 1));
            assert(bytes@.subrange(i as int, bytes@.len() as int) =~= enc.subrange(
                w as int,
                enc.len() as int,
            ));
        }
    }
    proof {
        lemma_encode_utf8_empty(s.skip(n as int));
        if n < limit {
            assert(s.take(n as int) =~= s);
        } else {
            assert(s.take(n as int) =~= leading_chars(s, limit));
        }
    }
    h = h ^ (#[verifier::truncate] (i as u32));
    (avalanche_exec(h), i)
}

/// Hash a frame buffer, one block per word (used to compare rendered output
/// with a known image).
pub fn frame_buffer(fb: &[u32], seed: u32) -> (r: u32)
    ensures
        r == murmur3_of(seed, fb@, fb@.len() as u32),
{
    let mut h = seed;
    let mut i: usize = 0;
    while i < fb.len()
        invariant
            i <= fb@.len(),
            h == absorb(seed, fb@.take(i as int)),
        decreases fb@.len() - i,
    {
        assert(fb@.take(i as int + 1).drop_last() =~= fb@.take(i as int));
        h = mix_exec(h, fb[i]);
        i = i + 1;
    }
    assert(fb@.take(i as int) =~= fb@);
    h = h ^ (#[verifier::truncate] (fb.len() as u32));
    avalanche_exec(h)
}

} // verus!
