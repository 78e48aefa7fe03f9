//! UTF-8 helpers on string slices: the first scalar value, and the suffix
//! after a prefix of whole characters.
use vstd::prelude::*;
use vstd::utf8::{
    encode_scalar, encode_utf8, encode_utf8_decode_utf8, encode_utf8_first_scalar,
    encode_utf8_valid_utf8, is_char_boundary, length_of_first_scalar, pop_first_scalar,
};
use crate::m3hash::{decode_scalar_at, lemma_encode_utf8_append};

verus! {

/// The UTF-8 length of the first `k` characters of `s` is a character boundary.
pub proof fn lemma_prefix_is_boundary(a: Seq<char>, b: Seq<char>)
    ensures
        is_char_boundary(encode_utf8(a + b), encode_utf8(a).len() as int),
    decreases a.len(),
{
    broadcast use encode_utf8_valid_utf8;

    if a.len() > 0 {
        let ab = a + b;
        encode_utf8_first_scalar(ab);
        encode_utf8_first_scalar(a);
        assert(ab[0] == a[0]);
        assert(ab.drop_first() =~= a.drop_first() + b);
        let bytes = encode_utf8(ab);
        assert(pop_first_scalar(bytes) =~= encode_utf8(a.drop_first() + b));
        assert(length_of_first_scalar(bytes) == encode_scalar(a[0] as u32).len());
        lemma_prefix_is_boundary(a.drop_first(), b);
    }
}

/// The characters of `s` after its first `k`; `used` is the UTF-8 length of
/// those `k`.
pub fn skip_chars(s: &str, k: Ghost<int>, used: usize) -> (r: &str)
    requires
        0 <= k@ <= s@.len(),
        used == encode_utf8(s@.take(k@)).len(),
    ensures
        r@ == s@.skip(k@),
{
    let ghost a = s@.take(k@);
    let ghost b = s@.skip(k@);
    proof {
        assert(s@ =~= a + b);
        lemma_prefix_is_boundary(a, b);
        lemma_encode_utf8_append(a, b);
    }
    let (_head, tail) = s.split_at(used);
    proof {
        let eb = encode_utf8(a) + encode_utf8(b);
        assert(eb.subrange(used as int, eb.len() as int) =~= encode_utf8(b));
        encode_utf8_decode_utf8(tail@);
        encode_utf8_decode_utf8(b);
    }
    tail
}

/// The first scalar value of `s`, if any.
pub fn first_scalar(s: &str) -> (r: Option<u32>)
    ensures
        r == (if s@.len() == 0 { None } else { Some(s@[0] as u32) }),
{
    let bytes = s.as_bytes();
    if bytes.len() == 0 {
        proof {
            crate::m3hash::lemma_encode_utf8_empty(s@);
        }
        None
    } else {
        proof {
            crate::m3hash::lemma_encode_utf8_empty(s@);
            encode_utf8_first_scalar(s@);
            assert(bytes@.subrange(0, bytes@.len() as int) =~= bytes@);
        }
        let (c, _w) = decode_scalar_at(bytes, 0);
        Some(c)
    }
}

/// UTF-8 length of the first character of `s`.
pub fn first_char_len(s: &str) -> (r: usize)
    requires
        s@.len() > 0,
    ensures
        r == encode_utf8(s@.take(1)).len(),
        1 <= r,
{
    let bytes = s.as_bytes();
    proof {
        encode_utf8_first_scalar(s@);
        assert(bytes@.subrange(0, bytes@.len() as int) =~= bytes@);
        assert(s@.take(1) =~= seq![s@[0]]);
        assert(seq![s@[0]].drop_first() =~= Seq::<char>::empty());
        assert(encode_utf8(Seq::<char>::empty()) =~= Seq::<u8>::empty());
        assert(encode_utf8(seq![s@[0]]) =~= encode_scalar(s@[0] as u32) + encode_utf8(
            Seq::<char>::empty(),
        ));
    }
    let (_c, w) = decode_scalar_at(bytes, 0);
    w
}

} // verus!
