use blitstr::fonts::small::{
    HASH_BASIC_LATIN, HASH_CURRENCY_SYMBOLS, HASH_GENERAL_PUNCTUATION, HASH_LATIN_1_SUPPLEMENT,
    HASH_LATIN_EXTENDED_A, HASH_SPECIALS,
};

#[test]
// A failure here means a hash collision in the index tables.
fn test_hashes_unique_and_sorted() {
    for i in 0..HASH_BASIC_LATIN.len() - 1 {
        assert!(HASH_BASIC_LATIN[i] < HASH_BASIC_LATIN[i + 1]);
    }
    for i in 0..HASH_LATIN_1_SUPPLEMENT.len() - 1 {
        assert!(HASH_LATIN_1_SUPPLEMENT[i] < HASH_LATIN_1_SUPPLEMENT[i + 1]);
    }
    for i in 0..HASH_LATIN_EXTENDED_A.len() - 1 {
        assert!(HASH_LATIN_EXTENDED_A[i] < HASH_LATIN_EXTENDED_A[i + 1]);
    }
    for i in 0..HASH_GENERAL_PUNCTUATION.len() - 1 {
        assert!(HASH_GENERAL_PUNCTUATION[i] < HASH_GENERAL_PUNCTUATION[i + 1]);
    }
    for i in 0..HASH_CURRENCY_SYMBOLS.len() - 1 {
        assert!(HASH_CURRENCY_SYMBOLS[i] < HASH_CURRENCY_SYMBOLS[i + 1]);
    }
    for i in 0..HASH_SPECIALS.len() - 1 {
        assert!(HASH_SPECIALS[i] < HASH_SPECIALS[i + 1]);
    }
}
