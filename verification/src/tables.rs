//! Unicode classes as UTF-8 byte-range rows.
//!
//! A row `[n, lo0, hi0, lo1, hi1, lo2, hi2, lo3, hi3]` stands for the byte
//! strings of length `n` whose byte `t` lies in `lo_t..=hi_t`; the rows of a
//! class together stand for the UTF-8 encodings of its codepoints. Rows are
//! ordered by codepoint, so the one-to-three-byte rows (the Basic Multilingual
//! Plane) come before the four-byte rows.
//!
//! The row functions are opaque, so that the tables stay out of proofs that
//! do not need them; `reveal` one to read its rows.

use vstd::prelude::*;

verus! {

/// Word characters: letters, marks, decimal digits, letter numbers, connector
/// punctuation, and the two join controls U+200C and U+200D (Unicode 14.0):
/// the one-byte rows, then the longer rows in groups.
#[verifier::opaque]
pub open spec fn word_rows() -> Seq<[u8; 9]> {
    word_rows_ascii() + word_rows_1() + word_rows_2() + word_rows_3() + word_rows_4() + word_rows_5() + word_rows_6() + word_rows_7() + word_rows_8() + word_rows_9() + word_rows_10() + word_rows_11() + word_rows_12() + word_rows_13() + word_rows_14() + word_rows_15()
}

/// The one-byte rows of [`word_rows`].
#[verifier::opaque]
pub open spec fn word_rows_ascii() -> Seq<[u8; 9]> {
    seq![
        [1, 0x30, 0x39, 0x00, 0x00, 0x00, 0x00, 0x00, 0x00],
        [1, 0x41, 0x5a, 0x00, 0x00, 0x00, 0x00, 0x00, 0x00],
        [1, 0x5f, 0x5f, 0x00, 0x00, 0x00, 0x00, 0x00, 0x00],
        [1, 0x61, 0x7a, 0x00, 0x00, 0x00, 0x00, 0x00, 0x00],
    ]
}

/// Group 1 of the longer rows of [`word_rows`].
#[verifier::opaque]
pub open spec fn word_rows_1() -> Seq<[u8; 9]> {
    seq![
        [2, 0xc2, 0xc2, 0xaa, 0xaa, 0x00, 0x00, 0x00, 0x00],
        [2, 0xc2, 0xc2, 0xb5, 0xb5, 0x00, 0x00, 0x00, 0x00],
        [2, 0xc2, 0xc2, 0xba, 0xba, 0x00, 0x00, 0x00, 0x00],
        [2, 0xc3, 0xc3, 0x80, 0x96, 0x00, 0x00, 0x00, 0x00],
        [2, 0xc3, 0xc3, 0x98, 0xb6, 0x00, 0x00, 0x00, 0x00],
        [2, 0xc3, 0xc3, 0xb8, 0xbf, 0x00, 0x00, 0x00, 0x00],
        [2, 0xc4, 0xca, 0x80, 0xbf, 0x00, 0x00, 0x00, 0x00],
        [2, 0xcb, 0xcb, 0x80, 0x81, 0x00, 0x00, 0x00, 0x00],
        [2, 0xcb, 0xcb, 0x86, 0x91, 0x00, 0x00, 0x00, 0x00],
        [2, 0xcb, 0xcb, 0xa0, 0xa4, 0x00, 0x00, 0x00, 0x00],
        [2, 0xcb, 0xcb, 0xac, 0xac, 0x00, 0x00, 0x00, 0x00],
        [2, 0xcb, 0xcb, 0xae, 0xae, 0x00, 0x00, 0x00, 0x00],
        [2, 0xcc, 0xcc, 0x80, 0xbf, 0x00, 0x00, 0x00, 0x00],
        [2, 0xcd, 0xcd, 0x80, 0xb4, 0x00, 0x00, 0x00, 0x00],
        [2, 0xcd, 0xcd, 0xb6, 0xb7, 0x00, 0x00, 0x00, 0x00],
        [2, 0xcd, 0xcd, 0xba, 0xbd, 0x00, 0x00, 0x00, 0x00],
        [2, 0xcd, 0xcd, 0xbf, 0xbf, 0x00, 0x00, 0x00, 0x00],
        [2, 0xce, 0xce, 0x86, 0x86, 0x00, 0x00, 0x00, 0x00],
        [2, 0xce, 0xce, 0x88, 0x8a, 0x00, 0x00, 0x00, 0x00],
        [2, 0xce, 0xce, 0x8c, 0x8c, 0x00, 0x00, 0x00, 0x00],
        [2, 0xce, 0xce, 0x8e, 0xa1, 0x00, 0x00, 0x00, 0x00],
        [2, 0xce, 0xce, 0xa3, 0xbf, 0x00, 0x00, 0x00, 0x00],
        [2, 0xcf, 0xcf, 0x80, 0xb5, 0x00, 0x00, 0x00, 0x00],
        [2, 0xcf, 0xcf, 0xb7, 0xbf, 0x00, 0x00, 0x00, 0x00],
        [2, 0xd0, 0xd1, 0x80, 0xbf, 0x00, 0x00, 0x00, 0x00],
        [2, 0xd2, 0xd2, 0x80, 0x81, 0x00, 0x00, 0x00, 0x00],
        [2, 0xd2, 0xd2, 0x83, 0xbf, 0x00, 0x00, 0x00, 0x00],
        [2, 0xd3, 0xd3, 0x80, 0xbf, 0x00, 0x00, 0x00, 0x00],
        [2, 0xd4, 0xd4, 0x80, 0xaf, 0x00, 0x00, 0x00, 0x00],
        [2, 0xd4, 0xd4, 0xb1, 0xbf, 0x00, 0x00, 0x00, 0x00],
        [2, 0xd5, 0xd5, 0x80, 0x96, 0x00, 0x00, 0x00, 0x00],
        [2, 0xd5, 0xd5, 0x99, 0x99, 0x00, 0x00, 0x00, 0x00],
        [2, 0xd5, 0xd5, 0xa0, 0xbf, 0x00, 0x00, 0x00, 0x00],
        [2, 0xd6, 0xd6, 0x80, 0x88, 0x00, 0x00, 0x00, 0x00],
        [2, 0xd6, 0xd6, 0x91, 0xbd, 0x00, 0x00, 0x00, 0x00],
        [2, 0xd6, 0xd6, 0xbf, 0xbf, 0x00, 0x00, 0x00, 0x00],
        [2, 0xd7, 0xd7, 0x81, 0x82, 0x00, 0x00, 0x00, 0x00],
        [2, 0xd7, 0xd7, 0x84, 0x85, 0x00, 0x00, 0x00, 0x00],
        [2, 0xd7, 0xd7, 0x87, 0x87, 0x00, 0x00, 0x00, 0x00],
        [2, 0xd7, 0xd7, 0x90, 0xaa, 0x00, 0x00, 0x00, 0x00],
        [2, 0xd7, 0xd7, 0xaf, 0xb2, 0x00, 0x00, 0x00, 0x00],
        [2, 0xd8, 0xd8, 0x90, 0x9a, 0x00, 0x00, 0x00, 0x00],
        [2, 0xd8, 0xd8, 0xa0, 0xbf, 0x00, 0x00, 0x00, 0x00],
        [2, 0xd9, 0xd9, 0x80, 0xa9, 0x00, 0x00, 0x00, 0x00],
        [2, 0xd9, 0xd9, 0xae, 0xbf, 0x00, 0x00, 0x00, 0x00],
        [2, 0xda, 0xda, 0x80, 0xbf, 0x00, 0x00, 0x00, 0x00],
        [2, 0xdb, 0xdb, 0x80, 0x93, 0x00, 0x00, 0x00, 0x00],
        [2, 0xdb, 0xdb, 0x95, 0x9c, 0x00, 0x00, 0x00, 0x00],
        [2, 0xdb, 0xdb, 0x9f, 0xa8, 0x00, 0x00, 0x00, 0x00],
        [2, 0xdb, 0xdb, 0xaa, 0xbc, 0x00, 0x00, 0x00, 0x00],
        [2, 0xdb, 0xdb, 0xbf, 0xbf, 0x00, 0x00, 0x00, 0x00],
        [2, 0xdc, 0xdc, 0x90, 0xbf, 0x00, 0x00, 0x00, 0x00],
        [2, 0xdd, 0xdd, 0x80, 0x8a, 0x00, 0x00, 0x00, 0x00],
        [2, 0xdd, 0xdd, 0x8d, 0xbf, 0x00, 0x00, 0x00, 0x00],
        [2, 0xde, 0xde, 0x80, 0xb1, 0x00, 0x00, 0x00, 0x00],
        [2, 0xdf, 0xdf, 0x80, 0xb5, 0x00, 0x00, 0x00, 0x00],
        [2, 0xdf, 0xdf, 0xba, 0xba, 0x00, 0x00, 0x00, 0x00],
        [2, 0xdf, 0xdf, 0xbd, 0xbd, 0x00, 0x00, 0x00, 0x00],
        [3, 0xe0, 0xe0, 0xa0, 0xa0, 0x80, 0xad, 0x00, 0x00],
        [3, 0xe0, 0xe0, 0xa1, 0xa1, 0x80, 0x9b, 0x00, 0x00],
        [3, 0xe0, 0xe0, 0xa1, 0xa1, 0xa0, 0xaa, 0x00, 0x00],
        [3, 0xe0, 0xe0, 0xa1, 0xa1, 0xb0, 0xbf, 0x00, 0x00],
        [3, 0xe0, 0xe0, 0xa2, 0xa2, 0x80, 0x87, 0x00, 0x00],
        [3, 0xe0, 0xe0, 0xa2, 0xa2, 0x89, 0x8e, 0x00, 0x00],
    ]
}

/// Group 2 of the longer rows of [`word_rows`].
#[verifier::opaque]
pub open spec fn word_rows_2() -> Seq<[u8; 9]> {
    seq![
        [3, 0xe0, 0xe0, 0xa2, 0xa2, 0x98, 0xbf, 0x00, 0x00],
        [3, 0xe0, 0xe0, 0xa3, 0xa3, 0x80, 0xa1, 0x00, 0x00],
        [3, 0xe0, 0xe0, 0xa3, 0xa3, 0xa3, 0xbf, 0x00, 0x00],
        [3, 0xe0, 0xe0, 0xa4, 0xa4, 0x80, 0xbf, 0x00, 0x00],
        [3, 0xe0, 0xe0, 0xa5, 0xa5, 0x80, 0xa3, 0x00, 0x00],
        [3, 0xe0, 0xe0, 0xa5, 0xa5, 0xa6, 0xaf, 0x00, 0x00],
        [3, 0xe0, 0xe0, 0xa5, 0xa5, 0xb1, 0xbf, 0x00, 0x00],
        [3, 0xe0, 0xe0, 0xa6, 0xa6, 0x80, 0x83, 0x00, 0x00],
        [3, 0xe0, 0xe0, 0xa6, 0xa6, 0x85, 0x8c, 0x00, 0x00],
        [3, 0xe0, 0xe0, 0xa6, 0xa6, 0x8f, 0x90, 0x00, 0x00],
        [3, 0xe0, 0xe0, 0xa6, 0xa6, 0x93, 0xa8, 0x00, 0x00],
        [3, 0xe0, 0xe0, 0xa6, 0xa6, 0xaa, 0xb0, 0x00, 0x00],
        [3, 0xe0, 0xe0, 0xa6, 0xa6, 0xb2, 0xb2, 0x00, 0x00],
        [3, 0xe0, 0xe0, 0xa6, 0xa6, 0xb6, 0xb9, 0x00, 0x00],
        [3, 0xe0, 0xe0, 0xa6, 0xa6, 0xbc, 0xbf, 0x00, 0x00],
        [3, 0xe0, 0xe0, 0xa7, 0xa7, 0x80, 0x84, 0x00, 0x00],
        [3, 0xe0, 0xe0, 0xa7, 0xa7, 0x87, 0x88, 0x00, 0x00],
        [3, 0xe0, 0xe0, 0xa7, 0xa7, 0x8b, 0x8e, 0x00, 0x00],
        [3, 0xe0, 0xe0, 0xa7, 0xa7, 0x97, 0x97, 0x00, 0x00],
        [3, 0xe0, 0xe0, 0xa7, 0xa7, 0x9c, 0x9d, 0x00, 0x00],
        [3, 0xe0, 0xe0, 0xa7, 0xa7, 0x9f, 0xa3, 0x00, 0x00],
        [3, 0xe0, 0xe0, 0xa7, 0xa7, 0xa6, 0xb1, 0x00, 0x00],
        [3, 0xe0, 0xe0, 0xa7, 0xa7, 0xbc, 0xbc, 0x00, 0x00],
        [3, 0xe0, 0xe0, 0xa7, 0xa7, 0xbe, 0xbe, 0x00, 0x00],
        [3, 0xe0, 0xe0, 0xa8, 0xa8, 0x81, 0x83, 0x00, 0x00],
        [3, 0xe0, 0xe0, 0xa8, 0xa8, 0x85, 0x8a, 0x00, 0x00],
        [3, 0xe0, 0xe0, 0xa8, 0xa8, 0x8f, 0x90, 0x00, 0x00],
        [3, 0xe0, 0xe0, 0xa8, 0xa8, 0x93, 0xa8, 0x00, 0x00],
        [3, 0xe0, 0xe0, 0xa8, 0xa8, 0xaa, 0xb0, 0x00, 0x00],
        [3, 0xe0, 0xe0, 0xa8, 0xa8, 0xb2, 0xb3, 0x00, 0x00],
        [3, 0xe0, 0xe0, 0xa8, 0xa8, 0xb5, 0xb6, 0x00, 0x00],
        [3, 0xe0, 0xe0, 0xa8, 0xa8, 0xb8, 0xb9, 0x00, 0x00],
        [3, 0xe0, 0xe0, 0xa8, 0xa8, 0xbc, 0xbc, 0x00, 0x00],
        [3, 0xe0, 0xe0, 0xa8, 0xa8, 0xbe, 0xbf, 0x00, 0x00],
        [3, 0xe0, 0xe0, 0xa9, 0xa9, 0x80, 0x82, 0x00, 0x00],
        [3, 0xe0, 0xe0, 0xa9, 0xa9, 0x87, 0x88, 0x00, 0x00],
        [3, 0xe0, 0xe0, 0xa9, 0xa9, 0x8b, 0x8d, 0x00, 0x00],
        [3, 0xe0, 0xe0, 0xa9, 0xa9, 0x91, 0x91, 0x00, 0x00],
        [3, 0xe0, 0xe0, 0xa9, 0xa9, 0x99, 0x9c, 0x00, 0x00],
        [3, 0xe0, 0xe0, 0xa9, 0xa9, 0x9e, 0x9e, 0x00, 0x00],
        [3, 0xe0, 0xe0, 0xa9, 0xa9, 0xa6, 0xb5, 0x00, 0x00],
        [3, 0xe0, 0xe0, 0xaa, 0xaa, 0x81, 0x83, 0x00, 0x00],
        [3, 0xe0, 0xe0, 0xaa, 0xaa, 0x85, 0x8d, 0x00, 0x00],
        [3, 0xe0, 0xe0, 0xaa, 0xaa, 0x8f, 0x91, 0x00, 0x00],
        [3, 0xe0, 0xe0, 0xaa, 0xaa, 0x93, 0xa8, 0x00, 0x00],
        [3, 0xe0, 0xe0, 0xaa, 0xaa, 0xaa, 0xb0, 0x00, 0x00],
        [3, 0xe0, 0xe0, 0xaa, 0xaa, 0xb2, 0xb3, 0x00, 0x00],
        [3, 0xe0, 0xe0, 0xaa, 0xaa, 0xb5, 0xb9, 0x00, 0x00],
        [3, 0xe0, 0xe0, 0xaa, 0xaa, 0xbc, 0xbf, 0x00, 0x00],
        [3, 0xe0, 0xe0, 0xab, 0xab, 0x80, 0x85, 0x00, 0x00],
        [3, 0xe0, 0xe0, 0xab, 0xab, 0x87, 0x89, 0x00, 0x00],
        [3, 0xe0, 0xe0, 0xab, 0xab, 0x8b, 0x8d, 0x00, 0x00],
        [3, 0xe0, 0xe0, 0xab, 0xab, 0x90, 0x90, 0x00, 0x00],
        [3, 0xe0, 0xe0, 0xab, 0xab, 0xa0, 0xa3, 0x00, 0x00],
        [3, 0xe0, 0xe0, 0xab, 0xab, 0xa6, 0xaf, 0x00, 0x00],
        [3, 0xe0, 0xe0, 0xab, 0xab, 0xb9, 0xbf, 0x00, 0x00],
        [3, 0xe0, 0xe0, 0xac, 0xac, 0x81, 0x83, 0x00, 0x00],
        [3, 0xe0, 0xe0, 0xac, 0xac, 0x85, 0x8c, 0x00, 0x00],
        [3, 0xe0, 0xe0, 0xac, 0xac, 0x8f, 0x90, 0x00, 0x00],
        [3, 0xe0, 0xe0, 0xac, 0xac, 0x93, 0xa8, 0x00, 0x00],
        [3, 0xe0, 0xe0, 0xac, 0xac, 0xaa, 0xb0, 0x00, 0x00],
        [3, 0xe0, 0xe0, 0xac, 0xac, 0xb2, 0xb3, 0x00, 0x00],
        [3, 0xe0, 0xe0, 0xac, 0xac, 0xb5, 0xb9, 0x00, 0x00],
        [3, 0xe0, 0xe0, 0xac, 0xac, 0xbc, 0xbf, 0x00, 0x00],
    ]
}

/// Group 3 of the longer rows of [`word_rows`].
#[verifier::opaque]
pub open spec fn word_rows_3() -> Seq<[u8; 9]> {
    seq![
        [3, 0xe0, 0xe0, 0xad, 0xad, 0x80, 0x84, 0x00, 0x00],
        [3, 0xe0, 0xe0, 0xad, 0xad, 0x87, 0x88, 0x00, 0x00],
        [3, 0xe0, 0xe0, 0xad, 0xad, 0x8b, 0x8d, 0x00, 0x00],
        [3, 0xe0, 0xe0, 0xad, 0xad, 0x95, 0x97, 0x00, 0x00],
        [3, 0xe0, 0xe0, 0xad, 0xad, 0x9c, 0x9d, 0x00, 0x00],
        [3, 0xe0, 0xe0, 0xad, 0xad, 0x9f, 0xa3, 0x00, 0x00],
        [3, 0xe0, 0xe0, 0xad, 0xad, 0xa6, 0xaf, 0x00, 0x00],
        [3, 0xe0, 0xe0, 0xad, 0xad, 0xb1, 0xb1, 0x00, 0x00],
        [3, 0xe0, 0xe0, 0xae, 0xae, 0x82, 0x83, 0x00, 0x00],
        [3, 0xe0, 0xe0, 0xae, 0xae, 0x85, 0x8a, 0x00, 0x00],
        [3, 0xe0, 0xe0, 0xae, 0xae, 0x8e, 0x90, 0x00, 0x00],
        [3, 0xe0, 0xe0, 0xae, 0xae, 0x92, 0x95, 0x00, 0x00],
        [3, 0xe0, 0xe0, 0xae, 0xae, 0x99, 0x9a, 0x00, 0x00],
        [3, 0xe0, 0xe0, 0xae, 0xae, 0x9c, 0x9c, 0x00, 0x00],
        [3, 0xe0, 0xe0, 0xae, 0xae, 0x9e, 0x9f, 0x00, 0x00],
        [3, 0xe0, 0xe0, 0xae, 0xae, 0xa3, 0xa4, 0x00, 0x00],
        [3, 0xe0, 0xe0, 0xae, 0xae, 0xa8, 0xaa, 0x00, 0x00],
        [3, 0xe0, 0xe0, 0xae, 0xae, 0xae, 0xb9, 0x00, 0x00],
        [3, 0xe0, 0xe0, 0xae, 0xae, 0xbe, 0xbf, 0x00, 0x00],
        [3, 0xe0, 0xe0, 0xaf, 0xaf, 0x80, 0x82, 0x00, 0x00],
        [3, 0xe0, 0xe0, 0xaf, 0xaf, 0x86, 0x88, 0x00, 0x00],
        [3, 0xe0, 0xe0, 0xaf, 0xaf, 0x8a, 0x8d, 0x00, 0x00],
        [3, 0xe0, 0xe0, 0xaf, 0xaf, 0x90, 0x90, 0x00, 0x00],
        [3, 0xe0, 0xe0, 0xaf, 0xaf, 0x97, 0x97, 0x00, 0x00],
        [3, 0xe0, 0xe0, 0xaf, 0xaf, 0xa6, 0xaf, 0x00, 0x00],
        [3, 0xe0, 0xe0, 0xb0, 0xb0, 0x80, 0x8c, 0x00, 0x00],
        [3, 0xe0, 0xe0, 0xb0, 0xb0, 0x8e, 0x90, 0x00, 0x00],
        [3, 0xe0, 0xe0, 0xb0, 0xb0, 0x92, 0xa8, 0x00, 0x00],
        [3, 0xe0, 0xe0, 0xb0, 0xb0, 0xaa, 0xb9, 0x00, 0x00],
        [3, 0xe0, 0xe0, 0xb0, 0xb0, 0xbc, 0xbf, 0x00, 0x00],
        [3, 0xe0, 0xe0, 0xb1, 0xb1, 0x80, 0x84, 0x00, 0x00],
        [3, 0xe0, 0xe0, 0xb1, 0xb1, 0x86, 0x88, 0x00, 0x00],
        [3, 0xe0, 0xe0, 0xb1, 0xb1, 0x8a, 0x8d, 0x00, 0x00],
        [3, 0xe0, 0xe0, 0xb1, 0xb1, 0x95, 0x96, 0x00, 0x00],
        [3, 0xe0, 0xe0, 0xb1, 0xb1, 0x98, 0x9a, 0x00, 0x00],
        [3, 0xe0, 0xe0, 0xb1, 0xb1, 0x9d, 0x9d, 0x00, 0x00],
        [3, 0xe0, 0xe0, 0xb1, 0xb1, 0xa0, 0xa3, 0x00, 0x00],
        [3, 0xe0, 0xe0, 0xb1, 0xb1, 0xa6, 0xaf, 0x00, 0x00],
        [3, 0xe0, 0xe0, 0xb2, 0xb2, 0x80, 0x83, 0x00, 0x00],
        [3, 0xe0, 0xe0, 0xb2, 0xb2, 0x85, 0x8c, 0x00, 0x00],
        [3, 0xe0, 0xe0, 0xb2, 0xb2, 0x8e, 0x90, 0x00, 0x00],
        [3, 0xe0, 0xe0, 0xb2, 0xb2, 0x92, 0xa8, 0x00, 0x00],
        [3, 0xe0, 0xe0, 0xb2, 0xb2, 0xaa, 0xb3, 0x00, 0x00],
        [3, 0xe0, 0xe0, 0xb2, 0xb2, 0xb5, 0xb9, 0x00, 0x00],
        [3, 0xe0, 0xe0, 0xb2, 0xb2, 0xbc, 0xbf, 0x00, 0x00],
        [3, 0xe0, 0xe0, 0xb3, 0xb3, 0x80, 0x84, 0x00, 0x00],
        [3, 0xe0, 0xe0, 0xb3, 0xb3, 0x86, 0x88, 0x00, 0x00],
        [3, 0xe0, 0xe0, 0xb3, 0xb3, 0x8a, 0x8d, 0x00, 0x00],
        [3, 0xe0, 0xe0, 0xb3, 0xb3, 0x95, 0x96, 0x00, 0x00],
        [3, 0xe0, 0xe0, 0xb3, 0xb3, 0x9d, 0x9e, 0x00, 0x00],
        [3, 0xe0, 0xe0, 0xb3, 0xb3, 0xa0, 0xa3, 0x00, 0x00],
        [3, 0xe0, 0xe0, 0xb3, 0xb3, 0xa6, 0xaf, 0x00, 0x00],
        [3, 0xe0, 0xe0, 0xb3, 0xb3, 0xb1, 0xb2, 0x00, 0x00],
        [3, 0xe0, 0xe0, 0xb4, 0xb4, 0x80, 0x8c, 0x00, 0x00],
        [3, 0xe0, 0xe0, 0xb4, 0xb4, 0x8e, 0x90, 0x00, 0x00],
        [3, 0xe0, 0xe0, 0xb4, 0xb4, 0x92, 0xbf, 0x00, 0x00],
        [3, 0xe0, 0xe0, 0xb5, 0xb5, 0x80, 0x84, 0x00, 0x00],
        [3, 0xe0, 0xe0, 0xb5, 0xb5, 0x86, 0x88, 0x00, 0x00],
        [3, 0xe0, 0xe0, 0xb5, 0xb5, 0x8a, 0x8e, 0x00, 0x00],
        [3, 0xe0, 0xe0, 0xb5, 0xb5, 0x94, 0x97, 0x00, 0x00],
        [3, 0xe0, 0xe0, 0xb5, 0xb5, 0x9f, 0xa3, 0x00, 0x00],
        [3, 0xe0, 0xe0, 0xb5, 0xb5, 0xa6, 0xaf, 0x00, 0x00],
        [3, 0xe0, 0xe0, 0xb5, 0xb5, 0xba, 0xbf, 0x00, 0x00],
        [3, 0xe0, 0xe0, 0xb6, 0xb6, 0x81, 0x83, 0x00, 0x00],
    ]
}

/// Group 4 of the longer rows of [`word_rows`].
#[verifier::opaque]
pub open spec fn word_rows_4() -> Seq<[u8; 9]> {
    seq![
        [3, 0xe0, 0xe0, 0xb6, 0xb6, 0x85, 0x96, 0x00, 0x00],
        [3, 0xe0, 0xe0, 0xb6, 0xb6, 0x9a, 0xb1, 0x00, 0x00],
        [3, 0xe0, 0xe0, 0xb6, 0xb6, 0xb3, 0xbb, 0x00, 0x00],
        [3, 0xe0, 0xe0, 0xb6, 0xb6, 0xbd, 0xbd, 0x00, 0x00],
        [3, 0xe0, 0xe0, 0xb7, 0xb7, 0x80, 0x86, 0x00, 0x00],
        [3, 0xe0, 0xe0, 0xb7, 0xb7, 0x8a, 0x8a, 0x00, 0x00],
        [3, 0xe0, 0xe0, 0xb7, 0xb7, 0x8f, 0x94, 0x00, 0x00],
        [3, 0xe0, 0xe0, 0xb7, 0xb7, 0x96, 0x96, 0x00, 0x00],
        [3, 0xe0, 0xe0, 0xb7, 0xb7, 0x98, 0x9f, 0x00, 0x00],
        [3, 0xe0, 0xe0, 0xb7, 0xb7, 0xa6, 0xaf, 0x00, 0x00],
        [3, 0xe0, 0xe0, 0xb7, 0xb7, 0xb2, 0xb3, 0x00, 0x00],
        [3, 0xe0, 0xe0, 0xb8, 0xb8, 0x81, 0xba, 0x00, 0x00],
        [3, 0xe0, 0xe0, 0xb9, 0xb9, 0x80, 0x8e, 0x00, 0x00],
        [3, 0xe0, 0xe0, 0xb9, 0xb9, 0x90, 0x99, 0x00, 0x00],
        [3, 0xe0, 0xe0, 0xba, 0xba, 0x81, 0x82, 0x00, 0x00],
        [3, 0xe0, 0xe0, 0xba, 0xba, 0x84, 0x84, 0x00, 0x00],
        [3, 0xe0, 0xe0, 0xba, 0xba, 0x86, 0x8a, 0x00, 0x00],
        [3, 0xe0, 0xe0, 0xba, 0xba, 0x8c, 0xa3, 0x00, 0x00],
        [3, 0xe0, 0xe0, 0xba, 0xba, 0xa5, 0xa5, 0x00, 0x00],
        [3, 0xe0, 0xe0, 0xba, 0xba, 0xa7, 0xbd, 0x00, 0x00],
        [3, 0xe0, 0xe0, 0xbb, 0xbb, 0x80, 0x84, 0x00, 0x00],
        [3, 0xe0, 0xe0, 0xbb, 0xbb, 0x86, 0x86, 0x00, 0x00],
        [3, 0xe0, 0xe0, 0xbb, 0xbb, 0x88, 0x8d, 0x00, 0x00],
        [3, 0xe0, 0xe0, 0xbb, 0xbb, 0x90, 0x99, 0x00, 0x00],
        [3, 0xe0, 0xe0, 0xbb, 0xbb, 0x9c, 0x9f, 0x00, 0x00],
        [3, 0xe0, 0xe0, 0xbc, 0xbc, 0x80, 0x80, 0x00, 0x00],
        [3, 0xe0, 0xe0, 0xbc, 0xbc, 0x98, 0x99, 0x00, 0x00],
        [3, 0xe0, 0xe0, 0xbc, 0xbc, 0xa0, 0xa9, 0x00, 0x00],
        [3, 0xe0, 0xe0, 0xbc, 0xbc, 0xb5, 0xb5, 0x00, 0x00],
        [3, 0xe0, 0xe0, 0xbc, 0xbc, 0xb7, 0xb7, 0x00, 0x00],
        [3, 0xe0, 0xe0, 0xbc, 0xbc, 0xb9, 0xb9, 0x00, 0x00],
        [3, 0xe0, 0xe0, 0xbc, 0xbc, 0xbe, 0xbf, 0x00, 0x00],
        [3, 0xe0, 0xe0, 0xbd, 0xbd, 0x80, 0x87, 0x00, 0x00],
        [3, 0xe0, 0xe0, 0xbd, 0xbd, 0x89, 0xac, 0x00, 0x00],
        [3, 0xe0, 0xe0, 0xbd, 0xbd, 0xb1, 0xbf, 0x00, 0x00],
        [3, 0xe0, 0xe0, 0xbe, 0xbe, 0x80, 0x84, 0x00, 0x00],
        [3, 0xe0, 0xe0, 0xbe, 0xbe, 0x86, 0x97, 0x00, 0x00],
        [3, 0xe0, 0xe0, 0xbe, 0xbe, 0x99, 0xbc, 0x00, 0x00],
        [3, 0xe0, 0xe0, 0xbf, 0xbf, 0x86, 0x86, 0x00, 0x00],
        [3, 0xe1, 0xe1, 0x80, 0x80, 0x80, 0xbf, 0x00, 0x00],
        [3, 0xe1, 0xe1, 0x81, 0x81, 0x80, 0x89, 0x00, 0x00],
        [3, 0xe1, 0xe1, 0x81, 0x81, 0x90, 0xbf, 0x00, 0x00],
        [3, 0xe1, 0xe1, 0x82, 0x82, 0x80, 0x9d, 0x00, 0x00],
        [3, 0xe1, 0xe1, 0x82, 0x82, 0xa0, 0xbf, 0x00, 0x00],
        [3, 0xe1, 0xe1, 0x83, 0x83, 0x80, 0x85, 0x00, 0x00],
        [3, 0xe1, 0xe1, 0x83, 0x83, 0x87, 0x87, 0x00, 0x00],
        [3, 0xe1, 0xe1, 0x83, 0x83, 0x8d, 0x8d, 0x00, 0x00],
        [3, 0xe1, 0xe1, 0x83, 0x83, 0x90, 0xba, 0x00, 0x00],
        [3, 0xe1, 0xe1, 0x83, 0x83, 0xbc, 0xbf, 0x00, 0x00],
        [3, 0xe1, 0xe1, 0x84, 0x88, 0x80, 0xbf, 0x00, 0x00],
        [3, 0xe1, 0xe1, 0x89, 0x89, 0x80, 0x88, 0x00, 0x00],
        [3, 0xe1, 0xe1, 0x89, 0x89, 0x8a, 0x8d, 0x00, 0x00],
        [3, 0xe1, 0xe1, 0x89, 0x89, 0x90, 0x96, 0x00, 0x00],
        [3, 0xe1, 0xe1, 0x89, 0x89, 0x98, 0x98, 0x00, 0x00],
        [3, 0xe1, 0xe1, 0x89, 0x89, 0x9a, 0x9d, 0x00, 0x00],
        [3, 0xe1, 0xe1, 0x89, 0x89, 0xa0, 0xbf, 0x00, 0x00],
        [3, 0xe1, 0xe1, 0x8a, 0x8a, 0x80, 0x88, 0x00, 0x00],
        [3, 0xe1, 0xe1, 0x8a, 0x8a, 0x8a, 0x8d, 0x00, 0x00],
        [3, 0xe1, 0xe1, 0x8a, 0x8a, 0x90, 0xb0, 0x00, 0x00],
        [3, 0xe1, 0xe1, 0x8a, 0x8a, 0xb2, 0xb5, 0x00, 0x00],
        [3, 0xe1, 0xe1, 0x8a, 0x8a, 0xb8, 0xbe, 0x00, 0x00],
        [3, 0xe1, 0xe1, 0x8b, 0x8b, 0x80, 0x80, 0x00, 0x00],
        [3, 0xe1, 0xe1, 0x8b, 0x8b, 0x82, 0x85, 0x00, 0x00],
        [3, 0xe1, 0xe1, 0x8b, 0x8b, 0x88, 0x96, 0x00, 0x00],
    ]
}

/// Group 5 of the longer rows of [`word_rows`].
#[verifier::opaque]
pub open spec fn word_rows_5() -> Seq<[u8; 9]> {
    seq![
        [3, 0xe1, 0xe1, 0x8b, 0x8b, 0x98, 0xbf, 0x00, 0x00],
        [3, 0xe1, 0xe1, 0x8c, 0x8c, 0x80, 0x90, 0x00, 0x00],
        [3, 0xe1, 0xe1, 0x8c, 0x8c, 0x92, 0x95, 0x00, 0x00],
        [3, 0xe1, 0xe1, 0x8c, 0x8c, 0x98, 0xbf, 0x00, 0x00],
        [3, 0xe1, 0xe1, 0x8d, 0x8d, 0x80, 0x9a, 0x00, 0x00],
        [3, 0xe1, 0xe1, 0x8d, 0x8d, 0x9d, 0x9f, 0x00, 0x00],
        [3, 0xe1, 0xe1, 0x8e, 0x8e, 0x80, 0x8f, 0x00, 0x00],
        [3, 0xe1, 0xe1, 0x8e, 0x8e, 0xa0, 0xbf, 0x00, 0x00],
        [3, 0xe1, 0xe1, 0x8f, 0x8f, 0x80, 0xb5, 0x00, 0x00],
        [3, 0xe1, 0xe1, 0x8f, 0x8f, 0xb8, 0xbd, 0x00, 0x00],
        [3, 0xe1, 0xe1, 0x90, 0x90, 0x81, 0xbf, 0x00, 0x00],
        [3, 0xe1, 0xe1, 0x91, 0x98, 0x80, 0xbf, 0x00, 0x00],
        [3, 0xe1, 0xe1, 0x99, 0x99, 0x80, 0xac, 0x00, 0x00],
        [3, 0xe1, 0xe1, 0x99, 0x99, 0xaf, 0xbf, 0x00, 0x00],
        [3, 0xe1, 0xe1, 0x9a, 0x9a, 0x81, 0x9a, 0x00, 0x00],
        [3, 0xe1, 0xe1, 0x9a, 0x9a, 0xa0, 0xbf, 0x00, 0x00],
        [3, 0xe1, 0xe1, 0x9b, 0x9b, 0x80, 0xaa, 0x00, 0x00],
        [3, 0xe1, 0xe1, 0x9b, 0x9b, 0xae, 0xb8, 0x00, 0x00],
        [3, 0xe1, 0xe1, 0x9c, 0x9c, 0x80, 0x95, 0x00, 0x00],
        [3, 0xe1, 0xe1, 0x9c, 0x9c, 0x9f, 0xb4, 0x00, 0x00],
        [3, 0xe1, 0xe1, 0x9d, 0x9d, 0x80, 0x93, 0x00, 0x00],
        [3, 0xe1, 0xe1, 0x9d, 0x9d, 0xa0, 0xac, 0x00, 0x00],
        [3, 0xe1, 0xe1, 0x9d, 0x9d, 0xae, 0xb0, 0x00, 0x00],
        [3, 0xe1, 0xe1, 0x9d, 0x9d, 0xb2, 0xb3, 0x00, 0x00],
        [3, 0xe1, 0xe1, 0x9e, 0x9e, 0x80, 0xbf, 0x00, 0x00],
        [3, 0xe1, 0xe1, 0x9f, 0x9f, 0x80, 0x93, 0x00, 0x00],
        [3, 0xe1, 0xe1, 0x9f, 0x9f, 0x97, 0x97, 0x00, 0x00],
        [3, 0xe1, 0xe1, 0x9f, 0x9f, 0x9c, 0x9d, 0x00, 0x00],
        [3, 0xe1, 0xe1, 0x9f, 0x9f, 0xa0, 0xa9, 0x00, 0x00],
        [3, 0xe1, 0xe1, 0xa0, 0xa0, 0x8b, 0x8d, 0x00, 0x00],
        [3, 0xe1, 0xe1, 0xa0, 0xa0, 0x8f, 0x99, 0x00, 0x00],
        [3, 0xe1, 0xe1, 0xa0, 0xa0, 0xa0, 0xbf, 0x00, 0x00],
        [3, 0xe1, 0xe1, 0xa1, 0xa1, 0x80, 0xb8, 0x00, 0x00],
        [3, 0xe1, 0xe1, 0xa2, 0xa2, 0x80, 0xaa, 0x00, 0x00],
        [3, 0xe1, 0xe1, 0xa2, 0xa2, 0xb0, 0xbf, 0x00, 0x00],
        [3, 0xe1, 0xe1, 0xa3, 0xa3, 0x80, 0xb5, 0x00, 0x00],
        [3, 0xe1, 0xe1, 0xa4, 0xa4, 0x80, 0x9e, 0x00, 0x00],
        [3, 0xe1, 0xe1, 0xa4, 0xa4, 0xa0, 0xab, 0x00, 0x00],
        [3, 0xe1, 0xe1, 0xa4, 0xa4, 0xb0, 0xbb, 0x00, 0x00],
        [3, 0xe1, 0xe1, 0xa5, 0xa5, 0x86, 0xad, 0x00, 0x00],
        [3, 0xe1, 0xe1, 0xa5, 0xa5, 0xb0, 0xb4, 0x00, 0x00],
        [3, 0xe1, 0xe1, 0xa6, 0xa6, 0x80, 0xab, 0x00, 0x00],
        [3, 0xe1, 0xe1, 0xa6, 0xa6, 0xb0, 0xbf, 0x00, 0x00],
        [3, 0xe1, 0xe1, 0xa7, 0xa7, 0x80, 0x89, 0x00, 0x00],
        [3, 0xe1, 0xe1, 0xa7, 0xa7, 0x90, 0x99, 0x00, 0x00],
        [3, 0xe1, 0xe1, 0xa8, 0xa8, 0x80, 0x9b, 0x00, 0x00],
        [3, 0xe1, 0xe1, 0xa8, 0xa8, 0xa0, 0xbf, 0x00, 0x00],
        [3, 0xe1, 0xe1, 0xa9, 0xa9, 0x80, 0x9e, 0x00, 0x00],
        [3, 0xe1, 0xe1, 0xa9, 0xa9, 0xa0, 0xbc, 0x00, 0x00],
        [3, 0xe1, 0xe1, 0xa9, 0xa9, 0xbf, 0xbf, 0x00, 0x00],
        [3, 0xe1, 0xe1, 0xaa, 0xaa, 0x80, 0x89, 0x00, 0x00],
        [3, 0xe1, 0xe1, 0xaa, 0xaa, 0x90, 0x99, 0x00, 0x00],
        [3, 0xe1, 0xe1, 0xaa, 0xaa, 0xa7, 0xa7, 0x00, 0x00],
        [3, 0xe1, 0xe1, 0xaa, 0xaa, 0xb0, 0xbf, 0x00, 0x00],
        [3, 0xe1, 0xe1, 0xab, 0xab, 0x80, 0x8e, 0x00, 0x00],
        [3, 0xe1, 0xe1, 0xac, 0xac, 0x80, 0xbf, 0x00, 0x00],
        [3, 0xe1, 0xe1, 0xad, 0xad, 0x80, 0x8c, 0x00, 0x00],
        [3, 0xe1, 0xe1, 0xad, 0xad, 0x90, 0x99, 0x00, 0x00],
        [3, 0xe1, 0xe1, 0xad, 0xad, 0xab, 0xb3, 0x00, 0x00],
        [3, 0xe1, 0xe1, 0xae, 0xae, 0x80, 0xbf, 0x00, 0x00],
        [3, 0xe1, 0xe1, 0xaf, 0xaf, 0x80, 0xb3, 0x00, 0x00],
        [3, 0xe1, 0xe1, 0xb0, 0xb0, 0x80, 0xb7, 0x00, 0x00],
        [3, 0xe1, 0xe1, 0xb1, 0xb1, 0x80, 0x89, 0x00, 0x00],
        [3, 0xe1, 0xe1, 0xb1, 0xb1, 0x8d, 0xbd, 0x00, 0x00],
    ]
}

/// Group 6 of the longer rows of [`word_rows`].
#[verifier::opaque]
pub open spec fn word_rows_6() -> Seq<[u8; 9]> {
    seq![
        [3, 0xe1, 0xe1, 0xb2, 0xb2, 0x80, 0x88, 0x00, 0x00],
        [3, 0xe1, 0xe1, 0xb2, 0xb2, 0x90, 0xba, 0x00, 0x00],
        [3, 0xe1, 0xe1, 0xb2, 0xb2, 0xbd, 0xbf, 0x00, 0x00],
        [3, 0xe1, 0xe1, 0xb3, 0xb3, 0x90, 0x92, 0x00, 0x00],
        [3, 0xe1, 0xe1, 0xb3, 0xb3, 0x94, 0xba, 0x00, 0x00],
        [3, 0xe1, 0xe1, 0xb4, 0xbb, 0x80, 0xbf, 0x00, 0x00],
        [3, 0xe1, 0xe1, 0xbc, 0xbc, 0x80, 0x95, 0x00, 0x00],
        [3, 0xe1, 0xe1, 0xbc, 0xbc, 0x98, 0x9d, 0x00, 0x00],
        [3, 0xe1, 0xe1, 0xbc, 0xbc, 0xa0, 0xbf, 0x00, 0x00],
        [3, 0xe1, 0xe1, 0xbd, 0xbd, 0x80, 0x85, 0x00, 0x00],
        [3, 0xe1, 0xe1, 0xbd, 0xbd, 0x88, 0x8d, 0x00, 0x00],
        [3, 0xe1, 0xe1, 0xbd, 0xbd, 0x90, 0x97, 0x00, 0x00],
        [3, 0xe1, 0xe1, 0xbd, 0xbd, 0x99, 0x99, 0x00, 0x00],
        [3, 0xe1, 0xe1, 0xbd, 0xbd, 0x9b, 0x9b, 0x00, 0x00],
        [3, 0xe1, 0xe1, 0xbd, 0xbd, 0x9d, 0x9d, 0x00, 0x00],
        [3, 0xe1, 0xe1, 0xbd, 0xbd, 0x9f, 0xbd, 0x00, 0x00],
        [3, 0xe1, 0xe1, 0xbe, 0xbe, 0x80, 0xb4, 0x00, 0x00],
        [3, 0xe1, 0xe1, 0xbe, 0xbe, 0xb6, 0xbc, 0x00, 0x00],
        [3, 0xe1, 0xe1, 0xbe, 0xbe, 0xbe, 0xbe, 0x00, 0x00],
        [3, 0xe1, 0xe1, 0xbf, 0xbf, 0x82, 0x84, 0x00, 0x00],
        [3, 0xe1, 0xe1, 0xbf, 0xbf, 0x86, 0x8c, 0x00, 0x00],
        [3, 0xe1, 0xe1, 0xbf, 0xbf, 0x90, 0x93, 0x00, 0x00],
        [3, 0xe1, 0xe1, 0xbf, 0xbf, 0x96, 0x9b, 0x00, 0x00],
        [3, 0xe1, 0xe1, 0xbf, 0xbf, 0xa0, 0xac, 0x00, 0x00],
        [3, 0xe1, 0xe1, 0xbf, 0xbf, 0xb2, 0xb4, 0x00, 0x00],
        [3, 0xe1, 0xe1, 0xbf, 0xbf, 0xb6, 0xbc, 0x00, 0x00],
        [3, 0xe2, 0xe2, 0x80, 0x80, 0x8c, 0x8d, 0x00, 0x00],
        [3, 0xe2, 0xe2, 0x80, 0x80, 0xbf, 0xbf, 0x00, 0x00],
        [3, 0xe2, 0xe2, 0x81, 0x81, 0x80, 0x80, 0x00, 0x00],
        [3, 0xe2, 0xe2, 0x81, 0x81, 0x94, 0x94, 0x00, 0x00],
        [3, 0xe2, 0xe2, 0x81, 0x81, 0xb1, 0xb1, 0x00, 0x00],
        [3, 0xe2, 0xe2, 0x81, 0x81, 0xbf, 0xbf, 0x00, 0x00],
        [3, 0xe2, 0xe2, 0x82, 0x82, 0x90, 0x9c, 0x00, 0x00],
        [3, 0xe2, 0xe2, 0x83, 0x83, 0x90, 0xb0, 0x00, 0x00],
        [3, 0xe2, 0xe2, 0x84, 0x84, 0x82, 0x82, 0x00, 0x00],
        [3, 0xe2, 0xe2, 0x84, 0x84, 0x87, 0x87, 0x00, 0x00],
        [3, 0xe2, 0xe2, 0x84, 0x84, 0x8a, 0x93, 0x00, 0x00],
        [3, 0xe2, 0xe2, 0x84, 0x84, 0x95, 0x95, 0x00, 0x00],
        [3, 0xe2, 0xe2, 0x84, 0x84, 0x99, 0x9d, 0x00, 0x00],
        [3, 0xe2, 0xe2, 0x84, 0x84, 0xa4, 0xa4, 0x00, 0x00],
        [3, 0xe2, 0xe2, 0x84, 0x84, 0xa6, 0xa6, 0x00, 0x00],
        [3, 0xe2, 0xe2, 0x84, 0x84, 0xa8, 0xa8, 0x00, 0x00],
        [3, 0xe2, 0xe2, 0x84, 0x84, 0xaa, 0xad, 0x00, 0x00],
        [3, 0xe2, 0xe2, 0x84, 0x84, 0xaf, 0xb9, 0x00, 0x00],
        [3, 0xe2, 0xe2, 0x84, 0x84, 0xbc, 0xbf, 0x00, 0x00],
        [3, 0xe2, 0xe2, 0x85, 0x85, 0x85, 0x89, 0x00, 0x00],
        [3, 0xe2, 0xe2, 0x85, 0x85, 0x8e, 0x8e, 0x00, 0x00],
        [3, 0xe2, 0xe2, 0x85, 0x85, 0xa0, 0xbf, 0x00, 0x00],
        [3, 0xe2, 0xe2, 0x86, 0x86, 0x80, 0x88, 0x00, 0x00],
        [3, 0xe2, 0xe2, 0xb0, 0xb2, 0x80, 0xbf, 0x00, 0x00],
        [3, 0xe2, 0xe2, 0xb3, 0xb3, 0x80, 0xa4, 0x00, 0x00],
        [3, 0xe2, 0xe2, 0xb3, 0xb3, 0xab, 0xb3, 0x00, 0x00],
        [3, 0xe2, 0xe2, 0xb4, 0xb4, 0x80, 0xa5, 0x00, 0x00],
        [3, 0xe2, 0xe2, 0xb4, 0xb4, 0xa7, 0xa7, 0x00, 0x00],
        [3, 0xe2, 0xe2, 0xb4, 0xb4, 0xad, 0xad, 0x00, 0x00],
        [3, 0xe2, 0xe2, 0xb4, 0xb4, 0xb0, 0xbf, 0x00, 0x00],
        [3, 0xe2, 0xe2, 0xb5, 0xb5, 0x80, 0xa7, 0x00, 0x00],
        [3, 0xe2, 0xe2, 0xb5, 0xb5, 0xaf, 0xaf, 0x00, 0x00],
        [3, 0xe2, 0xe2, 0xb5, 0xb5, 0xbf, 0xbf, 0x00, 0x00],
        [3, 0xe2, 0xe2, 0xb6, 0xb6, 0x80, 0x96, 0x00, 0x00],
        [3, 0xe2, 0xe2, 0xb6, 0xb6, 0xa0, 0xa6, 0x00, 0x00],
        [3, 0xe2, 0xe2, 0xb6, 0xb6, 0xa8, 0xae, 0x00, 0x00],
        [3, 0xe2, 0xe2, 0xb6, 0xb6, 0xb0, 0xb6, 0x00, 0x00],
        [3, 0xe2, 0xe2, 0xb6, 0xb6, 0xb8, 0xbe, 0x00, 0x00],
    ]
}

/// Group 7 of the longer rows of [`word_rows`].
#[verifier::opaque]
pub open spec fn word_rows_7() -> Seq<[u8; 9]> {
    seq![
        [3, 0xe2, 0xe2, 0xb7, 0xb7, 0x80, 0x86, 0x00, 0x00],
        [3, 0xe2, 0xe2, 0xb7, 0xb7, 0x88, 0x8e, 0x00, 0x00],
        [3, 0xe2, 0xe2, 0xb7, 0xb7, 0x90, 0x96, 0x00, 0x00],
        [3, 0xe2, 0xe2, 0xb7, 0xb7, 0x98, 0x9e, 0x00, 0x00],
        [3, 0xe2, 0xe2, 0xb7, 0xb7, 0xa0, 0xbf, 0x00, 0x00],
        [3, 0xe2, 0xe2, 0xb8, 0xb8, 0xaf, 0xaf, 0x00, 0x00],
        [3, 0xe3, 0xe3, 0x80, 0x80, 0x85, 0x87, 0x00, 0x00],
        [3, 0xe3, 0xe3, 0x80, 0x80, 0xa1, 0xaf, 0x00, 0x00],
        [3, 0xe3, 0xe3, 0x80, 0x80, 0xb1, 0xb5, 0x00, 0x00],
        [3, 0xe3, 0xe3, 0x80, 0x80, 0xb8, 0xbc, 0x00, 0x00],
        [3, 0xe3, 0xe3, 0x81, 0x81, 0x81, 0xbf, 0x00, 0x00],
        [3, 0xe3, 0xe3, 0x82, 0x82, 0x80, 0x96, 0x00, 0x00],
        [3, 0xe3, 0xe3, 0x82, 0x82, 0x99, 0x9a, 0x00, 0x00],
        [3, 0xe3, 0xe3, 0x82, 0x82, 0x9d, 0x9f, 0x00, 0x00],
        [3, 0xe3, 0xe3, 0x82, 0x82, 0xa1, 0xbf, 0x00, 0x00],
        [3, 0xe3, 0xe3, 0x83, 0x83, 0x80, 0xba, 0x00, 0x00],
        [3, 0xe3, 0xe3, 0x83, 0x83, 0xbc, 0xbf, 0x00, 0x00],
        [3, 0xe3, 0xe3, 0x84, 0x84, 0x85, 0xaf, 0x00, 0x00],
        [3, 0xe3, 0xe3, 0x84, 0x84, 0xb1, 0xbf, 0x00, 0x00],
        [3, 0xe3, 0xe3, 0x85, 0x85, 0x80, 0xbf, 0x00, 0x00],
        [3, 0xe3, 0xe3, 0x86, 0x86, 0x80, 0x8e, 0x00, 0x00],
        [3, 0xe3, 0xe3, 0x86, 0x86, 0xa0, 0xbf, 0x00, 0x00],
        [3, 0xe3, 0xe3, 0x87, 0x87, 0xb0, 0xbf, 0x00, 0x00],
        [3, 0xe3, 0xe3, 0x90, 0xbf, 0x80, 0xbf, 0x00, 0x00],
        [3, 0xe4, 0xe4, 0x80, 0xb6, 0x80, 0xbf, 0x00, 0x00],
        [3, 0xe4, 0xe4, 0xb8, 0xbf, 0x80, 0xbf, 0x00, 0x00],
        [3, 0xe5, 0xe9, 0x80, 0xbf, 0x80, 0xbf, 0x00, 0x00],
        [3, 0xea, 0xea, 0x80, 0x91, 0x80, 0xbf, 0x00, 0x00],
        [3, 0xea, 0xea, 0x92, 0x92, 0x80, 0x8c, 0x00, 0x00],
        [3, 0xea, 0xea, 0x93, 0x93, 0x90, 0xbd, 0x00, 0x00],
        [3, 0xea, 0xea, 0x94, 0x97, 0x80, 0xbf, 0x00, 0x00],
        [3, 0xea, 0xea, 0x98, 0x98, 0x80, 0x8c, 0x00, 0x00],
        [3, 0xea, 0xea, 0x98, 0x98, 0x90, 0xab, 0x00, 0x00],
        [3, 0xea, 0xea, 0x99, 0x99, 0x80, 0xb2, 0x00, 0x00],
        [3, 0xea, 0xea, 0x99, 0x99, 0xb4, 0xbd, 0x00, 0x00],
        [3, 0xea, 0xea, 0x99, 0x99, 0xbf, 0xbf, 0x00, 0x00],
        [3, 0xea, 0xea, 0x9a, 0x9a, 0x80, 0xbf, 0x00, 0x00],
        [3, 0xea, 0xea, 0x9b, 0x9b, 0x80, 0xb1, 0x00, 0x00],
        [3, 0xea, 0xea, 0x9c, 0x9c, 0x97, 0x9f, 0x00, 0x00],
        [3, 0xea, 0xea, 0x9c, 0x9c, 0xa2, 0xbf, 0x00, 0x00],
        [3, 0xea, 0xea, 0x9d, 0x9d, 0x80, 0xbf, 0x00, 0x00],
        [3, 0xea, 0xea, 0x9e, 0x9e, 0x80, 0x88, 0x00, 0x00],
        [3, 0xea, 0xea, 0x9e, 0x9e, 0x8b, 0xbf, 0x00, 0x00],
        [3, 0xea, 0xea, 0x9f, 0x9f, 0x80, 0x8a, 0x00, 0x00],
        [3, 0xea, 0xea, 0x9f, 0x9f, 0x90, 0x91, 0x00, 0x00],
        [3, 0xea, 0xea, 0x9f, 0x9f, 0x93, 0x93, 0x00, 0x00],
        [3, 0xea, 0xea, 0x9f, 0x9f, 0x95, 0x99, 0x00, 0x00],
        [3, 0xea, 0xea, 0x9f, 0x9f, 0xb2, 0xbf, 0x00, 0x00],
        [3, 0xea, 0xea, 0xa0, 0xa0, 0x80, 0xa7, 0x00, 0x00],
        [3, 0xea, 0xea, 0xa0, 0xa0, 0xac, 0xac, 0x00, 0x00],
        [3, 0xea, 0xea, 0xa1, 0xa1, 0x80, 0xb3, 0x00, 0x00],
        [3, 0xea, 0xea, 0xa2, 0xa2, 0x80, 0xbf, 0x00, 0x00],
        [3, 0xea, 0xea, 0xa3, 0xa3, 0x80, 0x85, 0x00, 0x00],
        [3, 0xea, 0xea, 0xa3, 0xa3, 0x90, 0x99, 0x00, 0x00],
        [3, 0xea, 0xea, 0xa3, 0xa3, 0xa0, 0xb7, 0x00, 0x00],
        [3, 0xea, 0xea, 0xa3, 0xa3, 0xbb, 0xbb, 0x00, 0x00],
        [3, 0xea, 0xea, 0xa3, 0xa3, 0xbd, 0xbf, 0x00, 0x00],
        [3, 0xea, 0xea, 0xa4, 0xa4, 0x80, 0xad, 0x00, 0x00],
        [3, 0xea, 0xea, 0xa4, 0xa4, 0xb0, 0xbf, 0x00, 0x00],
        [3, 0xea, 0xea, 0xa5, 0xa5, 0x80, 0x93, 0x00, 0x00],
        [3, 0xea, 0xea, 0xa5, 0xa5, 0xa0, 0xbc, 0x00, 0x00],
        [3, 0xea, 0xea, 0xa6, 0xa6, 0x80, 0xbf, 0x00, 0x00],
        [3, 0xea, 0xea, 0xa7, 0xa7, 0x80, 0x80, 0x00, 0x00],
        [3, 0xea, 0xea, 0xa7, 0xa7, 0x8f, 0x99, 0x00, 0x00],
    ]
}

/// Group 8 of the longer rows of [`word_rows`].
#[verifier::opaque]
pub open spec fn word_rows_8() -> Seq<[u8; 9]> {
    seq![
        [3, 0xea, 0xea, 0xa7, 0xa7, 0xa0, 0xbe, 0x00, 0x00],
        [3, 0xea, 0xea, 0xa8, 0xa8, 0x80, 0xb6, 0x00, 0x00],
        [3, 0xea, 0xea, 0xa9, 0xa9, 0x80, 0x8d, 0x00, 0x00],
        [3, 0xea, 0xea, 0xa9, 0xa9, 0x90, 0x99, 0x00, 0x00],
        [3, 0xea, 0xea, 0xa9, 0xa9, 0xa0, 0xb6, 0x00, 0x00],
        [3, 0xea, 0xea, 0xa9, 0xa9, 0xba, 0xbf, 0x00, 0x00],
        [3, 0xea, 0xea, 0xaa, 0xaa, 0x80, 0xbf, 0x00, 0x00],
        [3, 0xea, 0xea, 0xab, 0xab, 0x80, 0x82, 0x00, 0x00],
        [3, 0xea, 0xea, 0xab, 0xab, 0x9b, 0x9d, 0x00, 0x00],
        [3, 0xea, 0xea, 0xab, 0xab, 0xa0, 0xaf, 0x00, 0x00],
        [3, 0xea, 0xea, 0xab, 0xab, 0xb2, 0xb6, 0x00, 0x00],
        [3, 0xea, 0xea, 0xac, 0xac, 0x81, 0x86, 0x00, 0x00],
        [3, 0xea, 0xea, 0xac, 0xac, 0x89, 0x8e, 0x00, 0x00],
        [3, 0xea, 0xea, 0xac, 0xac, 0x91, 0x96, 0x00, 0x00],
        [3, 0xea, 0xea, 0xac, 0xac, 0xa0, 0xa6, 0x00, 0x00],
        [3, 0xea, 0xea, 0xac, 0xac, 0xa8, 0xae, 0x00, 0x00],
        [3, 0xea, 0xea, 0xac, 0xac, 0xb0, 0xbf, 0x00, 0x00],
        [3, 0xea, 0xea, 0xad, 0xad, 0x80, 0x9a, 0x00, 0x00],
        [3, 0xea, 0xea, 0xad, 0xad, 0x9c, 0xa9, 0x00, 0x00],
        [3, 0xea, 0xea, 0xad, 0xad, 0xb0, 0xbf, 0x00, 0x00],
        [3, 0xea, 0xea, 0xae, 0xae, 0x80, 0xbf, 0x00, 0x00],
        [3, 0xea, 0xea, 0xaf, 0xaf, 0x80, 0xaa, 0x00, 0x00],
        [3, 0xea, 0xea, 0xaf, 0xaf, 0xac, 0xad, 0x00, 0x00],
        [3, 0xea, 0xea, 0xaf, 0xaf, 0xb0, 0xb9, 0x00, 0x00],
        [3, 0xea, 0xea, 0xb0, 0xbf, 0x80, 0xbf, 0x00, 0x00],
        [3, 0xeb, 0xec, 0x80, 0xbf, 0x80, 0xbf, 0x00, 0x00],
        [3, 0xed, 0xed, 0x80, 0x9d, 0x80, 0xbf, 0x00, 0x00],
        [3, 0xed, 0xed, 0x9e, 0x9e, 0x80, 0xa3, 0x00, 0x00],
        [3, 0xed, 0xed, 0x9e, 0x9e, 0xb0, 0xbf, 0x00, 0x00],
        [3, 0xed, 0xed, 0x9f, 0x9f, 0x80, 0x86, 0x00, 0x00],
        [3, 0xed, 0xed, 0x9f, 0x9f, 0x8b, 0xbb, 0x00, 0x00],
        [3, 0xef, 0xef, 0xa4, 0xa8, 0x80, 0xbf, 0x00, 0x00],
        [3, 0xef, 0xef, 0xa9, 0xa9, 0x80, 0xad, 0x00, 0x00],
        [3, 0xef, 0xef, 0xa9, 0xa9, 0xb0, 0xbf, 0x00, 0x00],
        [3, 0xef, 0xef, 0xaa, 0xaa, 0x80, 0xbf, 0x00, 0x00],
        [3, 0xef, 0xef, 0xab, 0xab, 0x80, 0x99, 0x00, 0x00],
        [3, 0xef, 0xef, 0xac, 0xac, 0x80, 0x86, 0x00, 0x00],
        [3, 0xef, 0xef, 0xac, 0xac, 0x93, 0x97, 0x00, 0x00],
        [3, 0xef, 0xef, 0xac, 0xac, 0x9d, 0xa8, 0x00, 0x00],
        [3, 0xef, 0xef, 0xac, 0xac, 0xaa, 0xb6, 0x00, 0x00],
        [3, 0xef, 0xef, 0xac, 0xac, 0xb8, 0xbc, 0x00, 0x00],
        [3, 0xef, 0xef, 0xac, 0xac, 0xbe, 0xbe, 0x00, 0x00],
        [3, 0xef, 0xef, 0xad, 0xad, 0x80, 0x81, 0x00, 0x00],
        [3, 0xef, 0xef, 0xad, 0xad, 0x83, 0x84, 0x00, 0x00],
        [3, 0xef, 0xef, 0xad, 0xad, 0x86, 0xbf, 0x00, 0x00],
        [3, 0xef, 0xef, 0xae, 0xae, 0x80, 0xb1, 0x00, 0x00],
        [3, 0xef, 0xef, 0xaf, 0xaf, 0x93, 0xbf, 0x00, 0x00],
        [3, 0xef, 0xef, 0xb0, 0xb3, 0x80, 0xbf, 0x00, 0x00],
        [3, 0xef, 0xef, 0xb4, 0xb4, 0x80, 0xbd, 0x00, 0x00],
        [3, 0xef, 0xef, 0xb5, 0xb5, 0x90, 0xbf, 0x00, 0x00],
        [3, 0xef, 0xef, 0xb6, 0xb6, 0x80, 0x8f, 0x00, 0x00],
        [3, 0xef, 0xef, 0xb6, 0xb6, 0x92, 0xbf, 0x00, 0x00],
        [3, 0xef, 0xef, 0xb7, 0xb7, 0x80, 0x87, 0x00, 0x00],
        [3, 0xef, 0xef, 0xb7, 0xb7, 0xb0, 0xbb, 0x00, 0x00],
        [3, 0xef, 0xef, 0xb8, 0xb8, 0x80, 0x8f, 0x00, 0x00],
        [3, 0xef, 0xef, 0xb8, 0xb8, 0xa0, 0xaf, 0x00, 0x00],
        [3, 0xef, 0xef, 0xb8, 0xb8, 0xb3, 0xb4, 0x00, 0x00],
        [3, 0xef, 0xef, 0xb9, 0xb9, 0x8d, 0x8f, 0x00, 0x00],
        [3, 0xef, 0xef, 0xb9, 0xb9, 0xb0, 0xb4, 0x00, 0x00],
        [3, 0xef, 0xef, 0xb9, 0xb9, 0xb6, 0xbf, 0x00, 0x00],
        [3, 0xef, 0xef, 0xba, 0xba, 0x80, 0xbf, 0x00, 0x00],
        [3, 0xef, 0xef, 0xbb, 0xbb, 0x80, 0xbc, 0x00, 0x00],
        [3, 0xef, 0xef, 0xbc, 0xbc, 0x90, 0x99, 0x00, 0x00],
        [3, 0xef, 0xef, 0xbc, 0xbc, 0xa1, 0xba, 0x00, 0x00],
    ]
}

/// Group 9 of the longer rows of [`word_rows`].
#[verifier::opaque]
pub open spec fn word_rows_9() -> Seq<[u8; 9]> {
    seq![
        [3, 0xef, 0xef, 0xbc, 0xbc, 0xbf, 0xbf, 0x00, 0x00],
        [3, 0xef, 0xef, 0xbd, 0xbd, 0x81, 0x9a, 0x00, 0x00],
        [3, 0xef, 0xef, 0xbd, 0xbd, 0xa6, 0xbf, 0x00, 0x00],
        [3, 0xef, 0xef, 0xbe, 0xbe, 0x80, 0xbe, 0x00, 0x00],
        [3, 0xef, 0xef, 0xbf, 0xbf, 0x82, 0x87, 0x00, 0x00],
        [3, 0xef, 0xef, 0xbf, 0xbf, 0x8a, 0x8f, 0x00, 0x00],
        [3, 0xef, 0xef, 0xbf, 0xbf, 0x92, 0x97, 0x00, 0x00],
        [3, 0xef, 0xef, 0xbf, 0xbf, 0x9a, 0x9c, 0x00, 0x00],
        [4, 0xf0, 0xf0, 0x90, 0x90, 0x80, 0x80, 0x80, 0x8b],
        [4, 0xf0, 0xf0, 0x90, 0x90, 0x80, 0x80, 0x8d, 0xa6],
        [4, 0xf0, 0xf0, 0x90, 0x90, 0x80, 0x80, 0xa8, 0xba],
        [4, 0xf0, 0xf0, 0x90, 0x90, 0x80, 0x80, 0xbc, 0xbd],
        [4, 0xf0, 0xf0, 0x90, 0x90, 0x80, 0x80, 0xbf, 0xbf],
        [4, 0xf0, 0xf0, 0x90, 0x90, 0x81, 0x81, 0x80, 0x8d],
        [4, 0xf0, 0xf0, 0x90, 0x90, 0x81, 0x81, 0x90, 0x9d],
        [4, 0xf0, 0xf0, 0x90, 0x90, 0x82, 0x82, 0x80, 0xbf],
        [4, 0xf0, 0xf0, 0x90, 0x90, 0x83, 0x83, 0x80, 0xba],
        [4, 0xf0, 0xf0, 0x90, 0x90, 0x85, 0x85, 0x80, 0xb4],
        [4, 0xf0, 0xf0, 0x90, 0x90, 0x87, 0x87, 0xbd, 0xbd],
        [4, 0xf0, 0xf0, 0x90, 0x90, 0x8a, 0x8a, 0x80, 0x9c],
        [4, 0xf0, 0xf0, 0x90, 0x90, 0x8a, 0x8a, 0xa0, 0xbf],
        [4, 0xf0, 0xf0, 0x90, 0x90, 0x8b, 0x8b, 0x80, 0x90],
        [4, 0xf0, 0xf0, 0x90, 0x90, 0x8b, 0x8b, 0xa0, 0xa0],
        [4, 0xf0, 0xf0, 0x90, 0x90, 0x8c, 0x8c, 0x80, 0x9f],
        [4, 0xf0, 0xf0, 0x90, 0x90, 0x8c, 0x8c, 0xad, 0xbf],
        [4, 0xf0, 0xf0, 0x90, 0x90, 0x8d, 0x8d, 0x80, 0x8a],
        [4, 0xf0, 0xf0, 0x90, 0x90, 0x8d, 0x8d, 0x90, 0xba],
        [4, 0xf0, 0xf0, 0x90, 0x90, 0x8e, 0x8e, 0x80, 0x9d],
        [4, 0xf0, 0xf0, 0x90, 0x90, 0x8e, 0x8e, 0xa0, 0xbf],
        [4, 0xf0, 0xf0, 0x90, 0x90, 0x8f, 0x8f, 0x80, 0x83],
        [4, 0xf0, 0xf0, 0x90, 0x90, 0x8f, 0x8f, 0x88, 0x8f],
        [4, 0xf0, 0xf0, 0x90, 0x90, 0x8f, 0x8f, 0x91, 0x95],
        [4, 0xf0, 0xf0, 0x90, 0x90, 0x90, 0x91, 0x80, 0xbf],
        [4, 0xf0, 0xf0, 0x90, 0x90, 0x92, 0x92, 0x80, 0x9d],
        [4, 0xf0, 0xf0, 0x90, 0x90, 0x92, 0x92, 0xa0, 0xa9],
        [4, 0xf0, 0xf0, 0x90, 0x90, 0x92, 0x92, 0xb0, 0xbf],
        [4, 0xf0, 0xf0, 0x90, 0x90, 0x93, 0x93, 0x80, 0x93],
        [4, 0xf0, 0xf0, 0x90, 0x90, 0x93, 0x93, 0x98, 0xbb],
        [4, 0xf0, 0xf0, 0x90, 0x90, 0x94, 0x94, 0x80, 0xa7],
        [4, 0xf0, 0xf0, 0x90, 0x90, 0x94, 0x94, 0xb0, 0xbf],
        [4, 0xf0, 0xf0, 0x90, 0x90, 0x95, 0x95, 0x80, 0xa3],
        [4, 0xf0, 0xf0, 0x90, 0x90, 0x95, 0x95, 0xb0, 0xba],
        [4, 0xf0, 0xf0, 0x90, 0x90, 0x95, 0x95, 0xbc, 0xbf],
        [4, 0xf0, 0xf0, 0x90, 0x90, 0x96, 0x96, 0x80, 0x8a],
        [4, 0xf0, 0xf0, 0x90, 0x90, 0x96, 0x96, 0x8c, 0x92],
        [4, 0xf0, 0xf0, 0x90, 0x90, 0x96, 0x96, 0x94, 0x95],
        [4, 0xf0, 0xf0, 0x90, 0x90, 0x96, 0x96, 0x97, 0xa1],
        [4, 0xf0, 0xf0, 0x90, 0x90, 0x96, 0x96, 0xa3, 0xb1],
        [4, 0xf0, 0xf0, 0x90, 0x90, 0x96, 0x96, 0xb3, 0xb9],
        [4, 0xf0, 0xf0, 0x90, 0x90, 0x96, 0x96, 0xbb, 0xbc],
        [4, 0xf0, 0xf0, 0x90, 0x90, 0x98, 0x9b, 0x80, 0xbf],
        [4, 0xf0, 0xf0, 0x90, 0x90, 0x9c, 0x9c, 0x80, 0xb6],
        [4, 0xf0, 0xf0, 0x90, 0x90, 0x9d, 0x9d, 0x80, 0x95],
        [4, 0xf0, 0xf0, 0x90, 0x90, 0x9d, 0x9d, 0xa0, 0xa7],
        [4, 0xf0, 0xf0, 0x90, 0x90, 0x9e, 0x9e, 0x80, 0x85],
        [4, 0xf0, 0xf0, 0x90, 0x90, 0x9e, 0x9e, 0x87, 0xb0],
        [4, 0xf0, 0xf0, 0x90, 0x90, 0x9e, 0x9e, 0xb2, 0xba],
        [4, 0xf0, 0xf0, 0x90, 0x90, 0xa0, 0xa0, 0x80, 0x85],
        [4, 0xf0, 0xf0, 0x90, 0x90, 0xa0, 0xa0, 0x88, 0x88],
        [4, 0xf0, 0xf0, 0x90, 0x90, 0xa0, 0xa0, 0x8a, 0xb5],
        [4, 0xf0, 0xf0, 0x90, 0x90, 0xa0, 0xa0, 0xb7, 0xb8],
        [4, 0xf0, 0xf0, 0x90, 0x90, 0xa0, 0xa0, 0xbc, 0xbc],
        [4, 0xf0, 0xf0, 0x90, 0x90, 0xa0, 0xa0, 0xbf, 0xbf],
        [4, 0xf0, 0xf0, 0x90, 0x90, 0xa1, 0xa1, 0x80, 0x95],
    ]
}

/// Group 10 of the longer rows of [`word_rows`].
#[verifier::opaque]
pub open spec fn word_rows_10() -> Seq<[u8; 9]> {
    seq![
        [4, 0xf0, 0xf0, 0x90, 0x90, 0xa1, 0xa1, 0xa0, 0xb6],
        [4, 0xf0, 0xf0, 0x90, 0x90, 0xa2, 0xa2, 0x80, 0x9e],
        [4, 0xf0, 0xf0, 0x90, 0x90, 0xa3, 0xa3, 0xa0, 0xb2],
        [4, 0xf0, 0xf0, 0x90, 0x90, 0xa3, 0xa3, 0xb4, 0xb5],
        [4, 0xf0, 0xf0, 0x90, 0x90, 0xa4, 0xa4, 0x80, 0x95],
        [4, 0xf0, 0xf0, 0x90, 0x90, 0xa4, 0xa4, 0xa0, 0xb9],
        [4, 0xf0, 0xf0, 0x90, 0x90, 0xa6, 0xa6, 0x80, 0xb7],
        [4, 0xf0, 0xf0, 0x90, 0x90, 0xa6, 0xa6, 0xbe, 0xbf],
        [4, 0xf0, 0xf0, 0x90, 0x90, 0xa8, 0xa8, 0x80, 0x83],
        [4, 0xf0, 0xf0, 0x90, 0x90, 0xa8, 0xa8, 0x85, 0x86],
        [4, 0xf0, 0xf0, 0x90, 0x90, 0xa8, 0xa8, 0x8c, 0x93],
        [4, 0xf0, 0xf0, 0x90, 0x90, 0xa8, 0xa8, 0x95, 0x97],
        [4, 0xf0, 0xf0, 0x90, 0x90, 0xa8, 0xa8, 0x99, 0xb5],
        [4, 0xf0, 0xf0, 0x90, 0x90, 0xa8, 0xa8, 0xb8, 0xba],
        [4, 0xf0, 0xf0, 0x90, 0x90, 0xa8, 0xa8, 0xbf, 0xbf],
        [4, 0xf0, 0xf0, 0x90, 0x90, 0xa9, 0xa9, 0xa0, 0xbc],
        [4, 0xf0, 0xf0, 0x90, 0x90, 0xaa, 0xaa, 0x80, 0x9c],
        [4, 0xf0, 0xf0, 0x90, 0x90, 0xab, 0xab, 0x80, 0x87],
        [4, 0xf0, 0xf0, 0x90, 0x90, 0xab, 0xab, 0x89, 0xa6],
        [4, 0xf0, 0xf0, 0x90, 0x90, 0xac, 0xac, 0x80, 0xb5],
        [4, 0xf0, 0xf0, 0x90, 0x90, 0xad, 0xad, 0x80, 0x95],
        [4, 0xf0, 0xf0, 0x90, 0x90, 0xad, 0xad, 0xa0, 0xb2],
        [4, 0xf0, 0xf0, 0x90, 0x90, 0xae, 0xae, 0x80, 0x91],
        [4, 0xf0, 0xf0, 0x90, 0x90, 0xb0, 0xb0, 0x80, 0xbf],
        [4, 0xf0, 0xf0, 0x90, 0x90, 0xb1, 0xb1, 0x80, 0x88],
        [4, 0xf0, 0xf0, 0x90, 0x90, 0xb2, 0xb2, 0x80, 0xb2],
        [4, 0xf0, 0xf0, 0x90, 0x90, 0xb3, 0xb3, 0x80, 0xb2],
        [4, 0xf0, 0xf0, 0x90, 0x90, 0xb4, 0xb4, 0x80, 0xa7],
        [4, 0xf0, 0xf0, 0x90, 0x90, 0xb4, 0xb4, 0xb0, 0xb9],
        [4, 0xf0, 0xf0, 0x90, 0x90, 0xba, 0xba, 0x80, 0xa9],
        [4, 0xf0, 0xf0, 0x90, 0x90, 0xba, 0xba, 0xab, 0xac],
        [4, 0xf0, 0xf0, 0x90, 0x90, 0xba, 0xba, 0xb0, 0xb1],
        [4, 0xf0, 0xf0, 0x90, 0x90, 0xbc, 0xbc, 0x80, 0x9c],
        [4, 0xf0, 0xf0, 0x90, 0x90, 0xbc, 0xbc, 0xa7, 0xa7],
        [4, 0xf0, 0xf0, 0x90, 0x90, 0xbc, 0xbc, 0xb0, 0xbf],
        [4, 0xf0, 0xf0, 0x90, 0x90, 0xbd, 0xbd, 0x80, 0x90],
        [4, 0xf0, 0xf0, 0x90, 0x90, 0xbd, 0xbd, 0xb0, 0xbf],
        [4, 0xf0, 0xf0, 0x90, 0x90, 0xbe, 0xbe, 0x80, 0x85],
        [4, 0xf0, 0xf0, 0x90, 0x90, 0xbe, 0xbe, 0xb0, 0xbf],
        [4, 0xf0, 0xf0, 0x90, 0x90, 0xbf, 0xbf, 0x80, 0x84],
        [4, 0xf0, 0xf0, 0x90, 0x90, 0xbf, 0xbf, 0xa0, 0xb6],
        [4, 0xf0, 0xf0, 0x91, 0x91, 0x80, 0x80, 0x80, 0xbf],
        [4, 0xf0, 0xf0, 0x91, 0x91, 0x81, 0x81, 0x80, 0x86],
        [4, 0xf0, 0xf0, 0x91, 0x91, 0x81, 0x81, 0xa6, 0xb5],
        [4, 0xf0, 0xf0, 0x91, 0x91, 0x81, 0x81, 0xbf, 0xbf],
        [4, 0xf0, 0xf0, 0x91, 0x91, 0x82, 0x82, 0x80, 0xba],
        [4, 0xf0, 0xf0, 0x91, 0x91, 0x83, 0x83, 0x82, 0x82],
        [4, 0xf0, 0xf0, 0x91, 0x91, 0x83, 0x83, 0x90, 0xa8],
        [4, 0xf0, 0xf0, 0x91, 0x91, 0x83, 0x83, 0xb0, 0xb9],
        [4, 0xf0, 0xf0, 0x91, 0x91, 0x84, 0x84, 0x80, 0xb4],
        [4, 0xf0, 0xf0, 0x91, 0x91, 0x84, 0x84, 0xb6, 0xbf],
        [4, 0xf0, 0xf0, 0x91, 0x91, 0x85, 0x85, 0x84, 0x87],
        [4, 0xf0, 0xf0, 0x91, 0x91, 0x85, 0x85, 0x90, 0xb3],
        [4, 0xf0, 0xf0, 0x91, 0x91, 0x85, 0x85, 0xb6, 0xb6],
        [4, 0xf0, 0xf0, 0x91, 0x91, 0x86, 0x86, 0x80, 0xbf],
        [4, 0xf0, 0xf0, 0x91, 0x91, 0x87, 0x87, 0x80, 0x84],
        [4, 0xf0, 0xf0, 0x91, 0x91, 0x87, 0x87, 0x89, 0x8c],
        [4, 0xf0, 0xf0, 0x91, 0x91, 0x87, 0x87, 0x8e, 0x9a],
        [4, 0xf0, 0xf0, 0x91, 0x91, 0x87, 0x87, 0x9c, 0x9c],
        [4, 0xf0, 0xf0, 0x91, 0x91, 0x88, 0x88, 0x80, 0x91],
        [4, 0xf0, 0xf0, 0x91, 0x91, 0x88, 0x88, 0x93, 0xb7],
        [4, 0xf0, 0xf0, 0x91, 0x91, 0x88, 0x88, 0xbe, 0xbe],
        [4, 0xf0, 0xf0, 0x91, 0x91, 0x8a, 0x8a, 0x80, 0x86],
        [4, 0xf0, 0xf0, 0x91, 0x91, 0x8a, 0x8a, 0x88, 0x88],
    ]
}

/// Group 11 of the longer rows of [`word_rows`].
#[verifier::opaque]
pub open spec fn word_rows_11() -> Seq<[u8; 9]> {
    seq![
        [4, 0xf0, 0xf0, 0x91, 0x91, 0x8a, 0x8a, 0x8a, 0x8d],
        [4, 0xf0, 0xf0, 0x91, 0x91, 0x8a, 0x8a, 0x8f, 0x9d],
        [4, 0xf0, 0xf0, 0x91, 0x91, 0x8a, 0x8a, 0x9f, 0xa8],
        [4, 0xf0, 0xf0, 0x91, 0x91, 0x8a, 0x8a, 0xb0, 0xbf],
        [4, 0xf0, 0xf0, 0x91, 0x91, 0x8b, 0x8b, 0x80, 0xaa],
        [4, 0xf0, 0xf0, 0x91, 0x91, 0x8b, 0x8b, 0xb0, 0xb9],
        [4, 0xf0, 0xf0, 0x91, 0x91, 0x8c, 0x8c, 0x80, 0x83],
        [4, 0xf0, 0xf0, 0x91, 0x91, 0x8c, 0x8c, 0x85, 0x8c],
        [4, 0xf0, 0xf0, 0x91, 0x91, 0x8c, 0x8c, 0x8f, 0x90],
        [4, 0xf0, 0xf0, 0x91, 0x91, 0x8c, 0x8c, 0x93, 0xa8],
        [4, 0xf0, 0xf0, 0x91, 0x91, 0x8c, 0x8c, 0xaa, 0xb0],
        [4, 0xf0, 0xf0, 0x91, 0x91, 0x8c, 0x8c, 0xb2, 0xb3],
        [4, 0xf0, 0xf0, 0x91, 0x91, 0x8c, 0x8c, 0xb5, 0xb9],
        [4, 0xf0, 0xf0, 0x91, 0x91, 0x8c, 0x8c, 0xbb, 0xbf],
        [4, 0xf0, 0xf0, 0x91, 0x91, 0x8d, 0x8d, 0x80, 0x84],
        [4, 0xf0, 0xf0, 0x91, 0x91, 0x8d, 0x8d, 0x87, 0x88],
        [4, 0xf0, 0xf0, 0x91, 0x91, 0x8d, 0x8d, 0x8b, 0x8d],
        [4, 0xf0, 0xf0, 0x91, 0x91, 0x8d, 0x8d, 0x90, 0x90],
        [4, 0xf0, 0xf0, 0x91, 0x91, 0x8d, 0x8d, 0x97, 0x97],
        [4, 0xf0, 0xf0, 0x91, 0x91, 0x8d, 0x8d, 0x9d, 0xa3],
        [4, 0xf0, 0xf0, 0x91, 0x91, 0x8d, 0x8d, 0xa6, 0xac],
        [4, 0xf0, 0xf0, 0x91, 0x91, 0x8d, 0x8d, 0xb0, 0xb4],
        [4, 0xf0, 0xf0, 0x91, 0x91, 0x90, 0x90, 0x80, 0xbf],
        [4, 0xf0, 0xf0, 0x91, 0x91, 0x91, 0x91, 0x80, 0x8a],
        [4, 0xf0, 0xf0, 0x91, 0x91, 0x91, 0x91, 0x90, 0x99],
        [4, 0xf0, 0xf0, 0x91, 0x91, 0x91, 0x91, 0x9e, 0xa1],
        [4, 0xf0, 0xf0, 0x91, 0x91, 0x92, 0x92, 0x80, 0xbf],
        [4, 0xf0, 0xf0, 0x91, 0x91, 0x93, 0x93, 0x80, 0x85],
        [4, 0xf0, 0xf0, 0x91, 0x91, 0x93, 0x93, 0x87, 0x87],
        [4, 0xf0, 0xf0, 0x91, 0x91, 0x93, 0x93, 0x90, 0x99],
        [4, 0xf0, 0xf0, 0x91, 0x91, 0x96, 0x96, 0x80, 0xb5],
        [4, 0xf0, 0xf0, 0x91, 0x91, 0x96, 0x96, 0xb8, 0xbf],
        [4, 0xf0, 0xf0, 0x91, 0x91, 0x97, 0x97, 0x80, 0x80],
        [4, 0xf0, 0xf0, 0x91, 0x91, 0x97, 0x97, 0x98, 0x9d],
        [4, 0xf0, 0xf0, 0x91, 0x91, 0x98, 0x98, 0x80, 0xbf],
        [4, 0xf0, 0xf0, 0x91, 0x91, 0x99, 0x99, 0x80, 0x80],
        [4, 0xf0, 0xf0, 0x91, 0x91, 0x99, 0x99, 0x84, 0x84],
        [4, 0xf0, 0xf0, 0x91, 0x91, 0x99, 0x99, 0x90, 0x99],
        [4, 0xf0, 0xf0, 0x91, 0x91, 0x9a, 0x9a, 0x80, 0xb8],
        [4, 0xf0, 0xf0, 0x91, 0x91, 0x9b, 0x9b, 0x80, 0x89],
        [4, 0xf0, 0xf0, 0x91, 0x91, 0x9c, 0x9c, 0x80, 0x9a],
        [4, 0xf0, 0xf0, 0x91, 0x91, 0x9c, 0x9c, 0x9d, 0xab],
        [4, 0xf0, 0xf0, 0x91, 0x91, 0x9c, 0x9c, 0xb0, 0xb9],
        [4, 0xf0, 0xf0, 0x91, 0x91, 0x9d, 0x9d, 0x80, 0x86],
        [4, 0xf0, 0xf0, 0x91, 0x91, 0xa0, 0xa0, 0x80, 0xba],
        [4, 0xf0, 0xf0, 0x91, 0x91, 0xa2, 0xa2, 0xa0, 0xbf],
        [4, 0xf0, 0xf0, 0x91, 0x91, 0xa3, 0xa3, 0x80, 0xa9],
        [4, 0xf0, 0xf0, 0x91, 0x91, 0xa3, 0xa3, 0xbf, 0xbf],
        [4, 0xf0, 0xf0, 0x91, 0x91, 0xa4, 0xa4, 0x80, 0x86],
        [4, 0xf0, 0xf0, 0x91, 0x91, 0xa4, 0xa4, 0x89, 0x89],
        [4, 0xf0, 0xf0, 0x91, 0x91, 0xa4, 0xa4, 0x8c, 0x93],
        [4, 0xf0, 0xf0, 0x91, 0x91, 0xa4, 0xa4, 0x95, 0x96],
        [4, 0xf0, 0xf0, 0x91, 0x91, 0xa4, 0xa4, 0x98, 0xb5],
        [4, 0xf0, 0xf0, 0x91, 0x91, 0xa4, 0xa4, 0xb7, 0xb8],
        [4, 0xf0, 0xf0, 0x91, 0x91, 0xa4, 0xa4, 0xbb, 0xbf],
        [4, 0xf0, 0xf0, 0x91, 0x91, 0xa5, 0xa5, 0x80, 0x83],
        [4, 0xf0, 0xf0, 0x91, 0x91, 0xa5, 0xa5, 0x90, 0x99],
        [4, 0xf0, 0xf0, 0x91, 0x91, 0xa6, 0xa6, 0xa0, 0xa7],
        [4, 0xf0, 0xf0, 0x91, 0x91, 0xa6, 0xa6, 0xaa, 0xbf],
        [4, 0xf0, 0xf0, 0x91, 0x91, 0xa7, 0xa7, 0x80, 0x97],
        [4, 0xf0, 0xf0, 0x91, 0x91, 0xa7, 0xa7, 0x9a, 0xa1],
        [4, 0xf0, 0xf0, 0x91, 0x91, 0xa7, 0xa7, 0xa3, 0xa4],
        [4, 0xf0, 0xf0, 0x91, 0x91, 0xa8, 0xa8, 0x80, 0xbe],
        [4, 0xf0, 0xf0, 0x91, 0x91, 0xa9, 0xa9, 0x87, 0x87],
    ]
}

/// Group 12 of the longer rows of [`word_rows`].
#[verifier::opaque]
pub open spec fn word_rows_12() -> Seq<[u8; 9]> {
    seq![
        [4, 0xf0, 0xf0, 0x91, 0x91, 0xa9, 0xa9, 0x90, 0xbf],
        [4, 0xf0, 0xf0, 0x91, 0x91, 0xaa, 0xaa, 0x80, 0x99],
        [4, 0xf0, 0xf0, 0x91, 0x91, 0xaa, 0xaa, 0x9d, 0x9d],
        [4, 0xf0, 0xf0, 0x91, 0x91, 0xaa, 0xaa, 0xb0, 0xbf],
        [4, 0xf0, 0xf0, 0x91, 0x91, 0xab, 0xab, 0x80, 0xb8],
        [4, 0xf0, 0xf0, 0x91, 0x91, 0xb0, 0xb0, 0x80, 0x88],
        [4, 0xf0, 0xf0, 0x91, 0x91, 0xb0, 0xb0, 0x8a, 0xb6],
        [4, 0xf0, 0xf0, 0x91, 0x91, 0xb0, 0xb0, 0xb8, 0xbf],
        [4, 0xf0, 0xf0, 0x91, 0x91, 0xb1, 0xb1, 0x80, 0x80],
        [4, 0xf0, 0xf0, 0x91, 0x91, 0xb1, 0xb1, 0x90, 0x99],
        [4, 0xf0, 0xf0, 0x91, 0x91, 0xb1, 0xb1, 0xb2, 0xbf],
        [4, 0xf0, 0xf0, 0x91, 0x91, 0xb2, 0xb2, 0x80, 0x8f],
        [4, 0xf0, 0xf0, 0x91, 0x91, 0xb2, 0xb2, 0x92, 0xa7],
        [4, 0xf0, 0xf0, 0x91, 0x91, 0xb2, 0xb2, 0xa9, 0xb6],
        [4, 0xf0, 0xf0, 0x91, 0x91, 0xb4, 0xb4, 0x80, 0x86],
        [4, 0xf0, 0xf0, 0x91, 0x91, 0xb4, 0xb4, 0x88, 0x89],
        [4, 0xf0, 0xf0, 0x91, 0x91, 0xb4, 0xb4, 0x8b, 0xb6],
        [4, 0xf0, 0xf0, 0x91, 0x91, 0xb4, 0xb4, 0xba, 0xba],
        [4, 0xf0, 0xf0, 0x91, 0x91, 0xb4, 0xb4, 0xbc, 0xbd],
        [4, 0xf0, 0xf0, 0x91, 0x91, 0xb4, 0xb4, 0xbf, 0xbf],
        [4, 0xf0, 0xf0, 0x91, 0x91, 0xb5, 0xb5, 0x80, 0x87],
        [4, 0xf0, 0xf0, 0x91, 0x91, 0xb5, 0xb5, 0x90, 0x99],
        [4, 0xf0, 0xf0, 0x91, 0x91, 0xb5, 0xb5, 0xa0, 0xa5],
        [4, 0xf0, 0xf0, 0x91, 0x91, 0xb5, 0xb5, 0xa7, 0xa8],
        [4, 0xf0, 0xf0, 0x91, 0x91, 0xb5, 0xb5, 0xaa, 0xbf],
        [4, 0xf0, 0xf0, 0x91, 0x91, 0xb6, 0xb6, 0x80, 0x8e],
        [4, 0xf0, 0xf0, 0x91, 0x91, 0xb6, 0xb6, 0x90, 0x91],
        [4, 0xf0, 0xf0, 0x91, 0x91, 0xb6, 0xb6, 0x93, 0x98],
        [4, 0xf0, 0xf0, 0x91, 0x91, 0xb6, 0xb6, 0xa0, 0xa9],
        [4, 0xf0, 0xf0, 0x91, 0x91, 0xbb, 0xbb, 0xa0, 0xb6],
        [4, 0xf0, 0xf0, 0x91, 0x91, 0xbe, 0xbe, 0xb0, 0xb0],
        [4, 0xf0, 0xf0, 0x92, 0x92, 0x80, 0x8d, 0x80, 0xbf],
        [4, 0xf0, 0xf0, 0x92, 0x92, 0x8e, 0x8e, 0x80, 0x99],
        [4, 0xf0, 0xf0, 0x92, 0x92, 0x90, 0x90, 0x80, 0xbf],
        [4, 0xf0, 0xf0, 0x92, 0x92, 0x91, 0x91, 0x80, 0xae],
        [4, 0xf0, 0xf0, 0x92, 0x92, 0x92, 0x94, 0x80, 0xbf],
        [4, 0xf0, 0xf0, 0x92, 0x92, 0x95, 0x95, 0x80, 0x83],
        [4, 0xf0, 0xf0, 0x92, 0x92, 0xbe, 0xbe, 0x90, 0xbf],
        [4, 0xf0, 0xf0, 0x92, 0x92, 0xbf, 0xbf, 0x80, 0xb0],
        [4, 0xf0, 0xf0, 0x93, 0x93, 0x80, 0x8f, 0x80, 0xbf],
        [4, 0xf0, 0xf0, 0x93, 0x93, 0x90, 0x90, 0x80, 0xae],
        [4, 0xf0, 0xf0, 0x94, 0x94, 0x90, 0x98, 0x80, 0xbf],
        [4, 0xf0, 0xf0, 0x94, 0x94, 0x99, 0x99, 0x80, 0x86],
        [4, 0xf0, 0xf0, 0x96, 0x96, 0xa0, 0xa7, 0x80, 0xbf],
        [4, 0xf0, 0xf0, 0x96, 0x96, 0xa8, 0xa8, 0x80, 0xb8],
        [4, 0xf0, 0xf0, 0x96, 0x96, 0xa9, 0xa9, 0x80, 0x9e],
        [4, 0xf0, 0xf0, 0x96, 0x96, 0xa9, 0xa9, 0xa0, 0xa9],
        [4, 0xf0, 0xf0, 0x96, 0x96, 0xa9, 0xa9, 0xb0, 0xbf],
        [4, 0xf0, 0xf0, 0x96, 0x96, 0xaa, 0xaa, 0x80, 0xbe],
        [4, 0xf0, 0xf0, 0x96, 0x96, 0xab, 0xab, 0x80, 0x89],
        [4, 0xf0, 0xf0, 0x96, 0x96, 0xab, 0xab, 0x90, 0xad],
        [4, 0xf0, 0xf0, 0x96, 0x96, 0xab, 0xab, 0xb0, 0xb4],
        [4, 0xf0, 0xf0, 0x96, 0x96, 0xac, 0xac, 0x80, 0xb6],
        [4, 0xf0, 0xf0, 0x96, 0x96, 0xad, 0xad, 0x80, 0x83],
        [4, 0xf0, 0xf0, 0x96, 0x96, 0xad, 0xad, 0x90, 0x99],
        [4, 0xf0, 0xf0, 0x96, 0x96, 0xad, 0xad, 0xa3, 0xb7],
        [4, 0xf0, 0xf0, 0x96, 0x96, 0xad, 0xad, 0xbd, 0xbf],
        [4, 0xf0, 0xf0, 0x96, 0x96, 0xae, 0xae, 0x80, 0x8f],
        [4, 0xf0, 0xf0, 0x96, 0x96, 0xb9, 0xb9, 0x80, 0xbf],
        [4, 0xf0, 0xf0, 0x96, 0x96, 0xbc, 0xbc, 0x80, 0xbf],
        [4, 0xf0, 0xf0, 0x96, 0x96, 0xbd, 0xbd, 0x80, 0x8a],
        [4, 0xf0, 0xf0, 0x96, 0x96, 0xbd, 0xbd, 0x8f, 0xbf],
        [4, 0xf0, 0xf0, 0x96, 0x96, 0xbe, 0xbe, 0x80, 0x87],
        [4, 0xf0, 0xf0, 0x96, 0x96, 0xbe, 0xbe, 0x8f, 0x9f],
    ]
}

/// Group 13 of the longer rows of [`word_rows`].
#[verifier::opaque]
pub open spec fn word_rows_13() -> Seq<[u8; 9]> {
    seq![
        [4, 0xf0, 0xf0, 0x96, 0x96, 0xbf, 0xbf, 0xa0, 0xa1],
        [4, 0xf0, 0xf0, 0x96, 0x96, 0xbf, 0xbf, 0xa3, 0xa4],
        [4, 0xf0, 0xf0, 0x96, 0x96, 0xbf, 0xbf, 0xb0, 0xb1],
        [4, 0xf0, 0xf0, 0x97, 0x97, 0x80, 0xbf, 0x80, 0xbf],
        [4, 0xf0, 0xf0, 0x98, 0x98, 0x80, 0x9e, 0x80, 0xbf],
        [4, 0xf0, 0xf0, 0x98, 0x98, 0x9f, 0x9f, 0x80, 0xb7],
        [4, 0xf0, 0xf0, 0x98, 0x98, 0xa0, 0xb2, 0x80, 0xbf],
        [4, 0xf0, 0xf0, 0x98, 0x98, 0xb3, 0xb3, 0x80, 0x95],
        [4, 0xf0, 0xf0, 0x98, 0x98, 0xb4, 0xb4, 0x80, 0x88],
        [4, 0xf0, 0xf0, 0x9a, 0x9a, 0xbf, 0xbf, 0xb0, 0xb3],
        [4, 0xf0, 0xf0, 0x9a, 0x9a, 0xbf, 0xbf, 0xb5, 0xbb],
        [4, 0xf0, 0xf0, 0x9a, 0x9a, 0xbf, 0xbf, 0xbd, 0xbe],
        [4, 0xf0, 0xf0, 0x9b, 0x9b, 0x80, 0x83, 0x80, 0xbf],
        [4, 0xf0, 0xf0, 0x9b, 0x9b, 0x84, 0x84, 0x80, 0xa2],
        [4, 0xf0, 0xf0, 0x9b, 0x9b, 0x85, 0x85, 0x90, 0x92],
        [4, 0xf0, 0xf0, 0x9b, 0x9b, 0x85, 0x85, 0xa4, 0xa7],
        [4, 0xf0, 0xf0, 0x9b, 0x9b, 0x85, 0x85, 0xb0, 0xbf],
        [4, 0xf0, 0xf0, 0x9b, 0x9b, 0x86, 0x8a, 0x80, 0xbf],
        [4, 0xf0, 0xf0, 0x9b, 0x9b, 0x8b, 0x8b, 0x80, 0xbb],
        [4, 0xf0, 0xf0, 0x9b, 0x9b, 0xb0, 0xb0, 0x80, 0xbf],
        [4, 0xf0, 0xf0, 0x9b, 0x9b, 0xb1, 0xb1, 0x80, 0xaa],
        [4, 0xf0, 0xf0, 0x9b, 0x9b, 0xb1, 0xb1, 0xb0, 0xbc],
        [4, 0xf0, 0xf0, 0x9b, 0x9b, 0xb2, 0xb2, 0x80, 0x88],
        [4, 0xf0, 0xf0, 0x9b, 0x9b, 0xb2, 0xb2, 0x90, 0x99],
        [4, 0xf0, 0xf0, 0x9b, 0x9b, 0xb2, 0xb2, 0x9d, 0x9e],
        [4, 0xf0, 0xf0, 0x9c, 0x9c, 0xbc, 0xbc, 0x80, 0xad],
        [4, 0xf0, 0xf0, 0x9c, 0x9c, 0xbc, 0xbc, 0xb0, 0xbf],
        [4, 0xf0, 0xf0, 0x9c, 0x9c, 0xbd, 0xbd, 0x80, 0x86],
        [4, 0xf0, 0xf0, 0x9d, 0x9d, 0x85, 0x85, 0xa5, 0xa9],
        [4, 0xf0, 0xf0, 0x9d, 0x9d, 0x85, 0x85, 0xad, 0xb2],
        [4, 0xf0, 0xf0, 0x9d, 0x9d, 0x85, 0x85, 0xbb, 0xbf],
        [4, 0xf0, 0xf0, 0x9d, 0x9d, 0x86, 0x86, 0x80, 0x82],
        [4, 0xf0, 0xf0, 0x9d, 0x9d, 0x86, 0x86, 0x85, 0x8b],
        [4, 0xf0, 0xf0, 0x9d, 0x9d, 0x86, 0x86, 0xaa, 0xad],
        [4, 0xf0, 0xf0, 0x9d, 0x9d, 0x89, 0x89, 0x82, 0x84],
        [4, 0xf0, 0xf0, 0x9d, 0x9d, 0x90, 0x90, 0x80, 0xbf],
        [4, 0xf0, 0xf0, 0x9d, 0x9d, 0x91, 0x91, 0x80, 0x94],
        [4, 0xf0, 0xf0, 0x9d, 0x9d, 0x91, 0x91, 0x96, 0xbf],
        [4, 0xf0, 0xf0, 0x9d, 0x9d, 0x92, 0x92, 0x80, 0x9c],
        [4, 0xf0, 0xf0, 0x9d, 0x9d, 0x92, 0x92, 0x9e, 0x9f],
        [4, 0xf0, 0xf0, 0x9d, 0x9d, 0x92, 0x92, 0xa2, 0xa2],
        [4, 0xf0, 0xf0, 0x9d, 0x9d, 0x92, 0x92, 0xa5, 0xa6],
        [4, 0xf0, 0xf0, 0x9d, 0x9d, 0x92, 0x92, 0xa9, 0xac],
        [4, 0xf0, 0xf0, 0x9d, 0x9d, 0x92, 0x92, 0xae, 0xb9],
        [4, 0xf0, 0xf0, 0x9d, 0x9d, 0x92, 0x92, 0xbb, 0xbb],
        [4, 0xf0, 0xf0, 0x9d, 0x9d, 0x92, 0x92, 0xbd, 0xbf],
        [4, 0xf0, 0xf0, 0x9d, 0x9d, 0x93, 0x93, 0x80, 0x83],
        [4, 0xf0, 0xf0, 0x9d, 0x9d, 0x93, 0x93, 0x85, 0xbf],
        [4, 0xf0, 0xf0, 0x9d, 0x9d, 0x94, 0x94, 0x80, 0x85],
        [4, 0xf0, 0xf0, 0x9d, 0x9d, 0x94, 0x94, 0x87, 0x8a],
        [4, 0xf0, 0xf0, 0x9d, 0x9d, 0x94, 0x94, 0x8d, 0x94],
        [4, 0xf0, 0xf0, 0x9d, 0x9d, 0x94, 0x94, 0x96, 0x9c],
        [4, 0xf0, 0xf0, 0x9d, 0x9d, 0x94, 0x94, 0x9e, 0xb9],
        [4, 0xf0, 0xf0, 0x9d, 0x9d, 0x94, 0x94, 0xbb, 0xbe],
        [4, 0xf0, 0xf0, 0x9d, 0x9d, 0x95, 0x95, 0x80, 0x84],
        [4, 0xf0, 0xf0, 0x9d, 0x9d, 0x95, 0x95, 0x86, 0x86],
        [4, 0xf0, 0xf0, 0x9d, 0x9d, 0x95, 0x95, 0x8a, 0x90],
        [4, 0xf0, 0xf0, 0x9d, 0x9d, 0x95, 0x95, 0x92, 0xbf],
        [4, 0xf0, 0xf0, 0x9d, 0x9d, 0x96, 0x99, 0x80, 0xbf],
        [4, 0xf0, 0xf0, 0x9d, 0x9d, 0x9a, 0x9a, 0x80, 0xa5],
        [4, 0xf0, 0xf0, 0x9d, 0x9d, 0x9a, 0x9a, 0xa8, 0xbf],
        [4, 0xf0, 0xf0, 0x9d, 0x9d, 0x9b, 0x9b, 0x80, 0x80],
        [4, 0xf0, 0xf0, 0x9d, 0x9d, 0x9b, 0x9b, 0x82, 0x9a],
        [4, 0xf0, 0xf0, 0x9d, 0x9d, 0x9b, 0x9b, 0x9c, 0xba],
    ]
}

/// Group 14 of the longer rows of [`word_rows`].
#[verifier::opaque]
pub open spec fn word_rows_14() -> Seq<[u8; 9]> {
    seq![
        [4, 0xf0, 0xf0, 0x9d, 0x9d, 0x9b, 0x9b, 0xbc, 0xbf],
        [4, 0xf0, 0xf0, 0x9d, 0x9d, 0x9c, 0x9c, 0x80, 0x94],
        [4, 0xf0, 0xf0, 0x9d, 0x9d, 0x9c, 0x9c, 0x96, 0xb4],
        [4, 0xf0, 0xf0, 0x9d, 0x9d, 0x9c, 0x9c, 0xb6, 0xbf],
        [4, 0xf0, 0xf0, 0x9d, 0x9d, 0x9d, 0x9d, 0x80, 0x8e],
        [4, 0xf0, 0xf0, 0x9d, 0x9d, 0x9d, 0x9d, 0x90, 0xae],
        [4, 0xf0, 0xf0, 0x9d, 0x9d, 0x9d, 0x9d, 0xb0, 0xbf],
        [4, 0xf0, 0xf0, 0x9d, 0x9d, 0x9e, 0x9e, 0x80, 0x88],
        [4, 0xf0, 0xf0, 0x9d, 0x9d, 0x9e, 0x9e, 0x8a, 0xa8],
        [4, 0xf0, 0xf0, 0x9d, 0x9d, 0x9e, 0x9e, 0xaa, 0xbf],
        [4, 0xf0, 0xf0, 0x9d, 0x9d, 0x9f, 0x9f, 0x80, 0x82],
        [4, 0xf0, 0xf0, 0x9d, 0x9d, 0x9f, 0x9f, 0x84, 0x8b],
        [4, 0xf0, 0xf0, 0x9d, 0x9d, 0x9f, 0x9f, 0x8e, 0xbf],
        [4, 0xf0, 0xf0, 0x9d, 0x9d, 0xa8, 0xa8, 0x80, 0xb6],
        [4, 0xf0, 0xf0, 0x9d, 0x9d, 0xa8, 0xa8, 0xbb, 0xbf],
        [4, 0xf0, 0xf0, 0x9d, 0x9d, 0xa9, 0xa9, 0x80, 0xac],
        [4, 0xf0, 0xf0, 0x9d, 0x9d, 0xa9, 0xa9, 0xb5, 0xb5],
        [4, 0xf0, 0xf0, 0x9d, 0x9d, 0xaa, 0xaa, 0x84, 0x84],
        [4, 0xf0, 0xf0, 0x9d, 0x9d, 0xaa, 0xaa, 0x9b, 0x9f],
        [4, 0xf0, 0xf0, 0x9d, 0x9d, 0xaa, 0xaa, 0xa1, 0xaf],
        [4, 0xf0, 0xf0, 0x9d, 0x9d, 0xbc, 0xbc, 0x80, 0x9e],
        [4, 0xf0, 0xf0, 0x9e, 0x9e, 0x80, 0x80, 0x80, 0x86],
        [4, 0xf0, 0xf0, 0x9e, 0x9e, 0x80, 0x80, 0x88, 0x98],
        [4, 0xf0, 0xf0, 0x9e, 0x9e, 0x80, 0x80, 0x9b, 0xa1],
        [4, 0xf0, 0xf0, 0x9e, 0x9e, 0x80, 0x80, 0xa3, 0xa4],
        [4, 0xf0, 0xf0, 0x9e, 0x9e, 0x80, 0x80, 0xa6, 0xaa],
        [4, 0xf0, 0xf0, 0x9e, 0x9e, 0x84, 0x84, 0x80, 0xac],
        [4, 0xf0, 0xf0, 0x9e, 0x9e, 0x84, 0x84, 0xb0, 0xbd],
        [4, 0xf0, 0xf0, 0x9e, 0x9e, 0x85, 0x85, 0x80, 0x89],
        [4, 0xf0, 0xf0, 0x9e, 0x9e, 0x85, 0x85, 0x8e, 0x8e],
        [4, 0xf0, 0xf0, 0x9e, 0x9e, 0x8a, 0x8a, 0x90, 0xae],
        [4, 0xf0, 0xf0, 0x9e, 0x9e, 0x8b, 0x8b, 0x80, 0xb9],
        [4, 0xf0, 0xf0, 0x9e, 0x9e, 0x9f, 0x9f, 0xa0, 0xa6],
        [4, 0xf0, 0xf0, 0x9e, 0x9e, 0x9f, 0x9f, 0xa8, 0xab],
        [4, 0xf0, 0xf0, 0x9e, 0x9e, 0x9f, 0x9f, 0xad, 0xae],
        [4, 0xf0, 0xf0, 0x9e, 0x9e, 0x9f, 0x9f, 0xb0, 0xbe],
        [4, 0xf0, 0xf0, 0x9e, 0x9e, 0xa0, 0xa2, 0x80, 0xbf],
        [4, 0xf0, 0xf0, 0x9e, 0x9e, 0xa3, 0xa3, 0x80, 0x84],
        [4, 0xf0, 0xf0, 0x9e, 0x9e, 0xa3, 0xa3, 0x90, 0x96],
        [4, 0xf0, 0xf0, 0x9e, 0x9e, 0xa4, 0xa4, 0x80, 0xbf],
        [4, 0xf0, 0xf0, 0x9e, 0x9e, 0xa5, 0xa5, 0x80, 0x8b],
        [4, 0xf0, 0xf0, 0x9e, 0x9e, 0xa5, 0xa5, 0x90, 0x99],
        [4, 0xf0, 0xf0, 0x9e, 0x9e, 0xb8, 0xb8, 0x80, 0x83],
        [4, 0xf0, 0xf0, 0x9e, 0x9e, 0xb8, 0xb8, 0x85, 0x9f],
        [4, 0xf0, 0xf0, 0x9e, 0x9e, 0xb8, 0xb8, 0xa1, 0xa2],
        [4, 0xf0, 0xf0, 0x9e, 0x9e, 0xb8, 0xb8, 0xa4, 0xa4],
        [4, 0xf0, 0xf0, 0x9e, 0x9e, 0xb8, 0xb8, 0xa7, 0xa7],
        [4, 0xf0, 0xf0, 0x9e, 0x9e, 0xb8, 0xb8, 0xa9, 0xb2],
        [4, 0xf0, 0xf0, 0x9e, 0x9e, 0xb8, 0xb8, 0xb4, 0xb7],
        [4, 0xf0, 0xf0, 0x9e, 0x9e, 0xb8, 0xb8, 0xb9, 0xb9],
        [4, 0xf0, 0xf0, 0x9e, 0x9e, 0xb8, 0xb8, 0xbb, 0xbb],
        [4, 0xf0, 0xf0, 0x9e, 0x9e, 0xb9, 0xb9, 0x82, 0x82],
        [4, 0xf0, 0xf0, 0x9e, 0x9e, 0xb9, 0xb9, 0x87, 0x87],
        [4, 0xf0, 0xf0, 0x9e, 0x9e, 0xb9, 0xb9, 0x89, 0x89],
        [4, 0xf0, 0xf0, 0x9e, 0x9e, 0xb9, 0xb9, 0x8b, 0x8b],
        [4, 0xf0, 0xf0, 0x9e, 0x9e, 0xb9, 0xb9, 0x8d, 0x8f],
        [4, 0xf0, 0xf0, 0x9e, 0x9e, 0xb9, 0xb9, 0x91, 0x92],
        [4, 0xf0, 0xf0, 0x9e, 0x9e, 0xb9, 0xb9, 0x94, 0x94],
        [4, 0xf0, 0xf0, 0x9e, 0x9e, 0xb9, 0xb9, 0x97, 0x97],
        [4, 0xf0, 0xf0, 0x9e, 0x9e, 0xb9, 0xb9, 0x99, 0x99],
        [4, 0xf0, 0xf0, 0x9e, 0x9e, 0xb9, 0xb9, 0x9b, 0x9b],
        [4, 0xf0, 0xf0, 0x9e, 0x9e, 0xb9, 0xb9, 0x9d, 0x9d],
        [4, 0xf0, 0xf0, 0x9e, 0x9e, 0xb9, 0xb9, 0x9f, 0x9f],
        [4, 0xf0, 0xf0, 0x9e, 0x9e, 0xb9, 0xb9, 0xa1, 0xa2],
    ]
}

/// Group 15 of the longer rows of [`word_rows`].
#[verifier::opaque]
pub open spec fn word_rows_15() -> Seq<[u8; 9]> {
    seq![
        [4, 0xf0, 0xf0, 0x9e, 0x9e, 0xb9, 0xb9, 0xa4, 0xa4],
        [4, 0xf0, 0xf0, 0x9e, 0x9e, 0xb9, 0xb9, 0xa7, 0xaa],
        [4, 0xf0, 0xf0, 0x9e, 0x9e, 0xb9, 0xb9, 0xac, 0xb2],
        [4, 0xf0, 0xf0, 0x9e, 0x9e, 0xb9, 0xb9, 0xb4, 0xb7],
        [4, 0xf0, 0xf0, 0x9e, 0x9e, 0xb9, 0xb9, 0xb9, 0xbc],
        [4, 0xf0, 0xf0, 0x9e, 0x9e, 0xb9, 0xb9, 0xbe, 0xbe],
        [4, 0xf0, 0xf0, 0x9e, 0x9e, 0xba, 0xba, 0x80, 0x89],
        [4, 0xf0, 0xf0, 0x9e, 0x9e, 0xba, 0xba, 0x8b, 0x9b],
        [4, 0xf0, 0xf0, 0x9e, 0x9e, 0xba, 0xba, 0xa1, 0xa3],
        [4, 0xf0, 0xf0, 0x9e, 0x9e, 0xba, 0xba, 0xa5, 0xa9],
        [4, 0xf0, 0xf0, 0x9e, 0x9e, 0xba, 0xba, 0xab, 0xbb],
        [4, 0xf0, 0xf0, 0x9f, 0x9f, 0xaf, 0xaf, 0xb0, 0xb9],
        [4, 0xf0, 0xf0, 0xa0, 0xa9, 0x80, 0xbf, 0x80, 0xbf],
        [4, 0xf0, 0xf0, 0xaa, 0xaa, 0x80, 0x9a, 0x80, 0xbf],
        [4, 0xf0, 0xf0, 0xaa, 0xaa, 0x9b, 0x9b, 0x80, 0x9f],
        [4, 0xf0, 0xf0, 0xaa, 0xaa, 0x9c, 0xbf, 0x80, 0xbf],
        [4, 0xf0, 0xf0, 0xab, 0xab, 0x80, 0x9b, 0x80, 0xbf],
        [4, 0xf0, 0xf0, 0xab, 0xab, 0x9c, 0x9c, 0x80, 0xb8],
        [4, 0xf0, 0xf0, 0xab, 0xab, 0x9d, 0x9f, 0x80, 0xbf],
        [4, 0xf0, 0xf0, 0xab, 0xab, 0xa0, 0xa0, 0x80, 0x9d],
        [4, 0xf0, 0xf0, 0xab, 0xab, 0xa0, 0xa0, 0xa0, 0xbf],
        [4, 0xf0, 0xf0, 0xab, 0xab, 0xa1, 0xbf, 0x80, 0xbf],
        [4, 0xf0, 0xf0, 0xac, 0xac, 0x80, 0xb9, 0x80, 0xbf],
        [4, 0xf0, 0xf0, 0xac, 0xac, 0xba, 0xba, 0x80, 0xa1],
        [4, 0xf0, 0xf0, 0xac, 0xac, 0xba, 0xba, 0xb0, 0xbf],
        [4, 0xf0, 0xf0, 0xac, 0xac, 0xbb, 0xbf, 0x80, 0xbf],
        [4, 0xf0, 0xf0, 0xad, 0xad, 0x80, 0xbf, 0x80, 0xbf],
        [4, 0xf0, 0xf0, 0xae, 0xae, 0x80, 0xae, 0x80, 0xbf],
        [4, 0xf0, 0xf0, 0xae, 0xae, 0xaf, 0xaf, 0x80, 0xa0],
        [4, 0xf0, 0xf0, 0xaf, 0xaf, 0xa0, 0xa7, 0x80, 0xbf],
        [4, 0xf0, 0xf0, 0xaf, 0xaf, 0xa8, 0xa8, 0x80, 0x9d],
        [4, 0xf0, 0xf0, 0xb0, 0xb0, 0x80, 0xbf, 0x80, 0xbf],
        [4, 0xf0, 0xf0, 0xb1, 0xb1, 0x80, 0x8c, 0x80, 0xbf],
        [4, 0xf0, 0xf0, 0xb1, 0xb1, 0x8d, 0x8d, 0x80, 0x8a],
        [4, 0xf3, 0xf3, 0xa0, 0xa0, 0x84, 0x86, 0x80, 0xbf],
        [4, 0xf3, 0xf3, 0xa0, 0xa0, 0x87, 0x87, 0x80, 0xaf],
    ]
}

fn word_table_ascii() -> (v: Vec<[u8; 9]>)
    ensures
        v@ == word_rows_ascii(),
        v@.len() == 4,
{
    proof {
        reveal(word_rows_ascii);
    }
    vec![
        [1, 0x30, 0x39, 0x00, 0x00, 0x00, 0x00, 0x00, 0x00],
        [1, 0x41, 0x5a, 0x00, 0x00, 0x00, 0x00, 0x00, 0x00],
        [1, 0x5f, 0x5f, 0x00, 0x00, 0x00, 0x00, 0x00, 0x00],
        [1, 0x61, 0x7a, 0x00, 0x00, 0x00, 0x00, 0x00, 0x00],
    ]
}

fn word_table_1() -> (v: Vec<[u8; 9]>)
    ensures
        v@ == word_rows_1(),
        v@.len() == 64,
{
    proof {
        reveal(word_rows_1);
    }
    vec![
        [2, 0xc2, 0xc2, 0xaa, 0xaa, 0x00, 0x00, 0x00, 0x00],
        [2, 0xc2, 0xc2, 0xb5, 0xb5, 0x00, 0x00, 0x00, 0x00],
        [2, 0xc2, 0xc2, 0xba, 0xba, 0x00, 0x00, 0x00, 0x00],
        [2, 0xc3, 0xc3, 0x80, 0x96, 0x00, 0x00, 0x00, 0x00],
        [2, 0xc3, 0xc3, 0x98, 0xb6, 0x00, 0x00, 0x00, 0x00],
        [2, 0xc3, 0xc3, 0xb8, 0xbf, 0x00, 0x00, 0x00, 0x00],
        [2, 0xc4, 0xca, 0x80, 0xbf, 0x00, 0x00, 0x00, 0x00],
        [2, 0xcb, 0xcb, 0x80, 0x81, 0x00, 0x00, 0x00, 0x00],
        [2, 0xcb, 0xcb, 0x86, 0x91, 0x00, 0x00, 0x00, 0x00],
        [2, 0xcb, 0xcb, 0xa0, 0xa4, 0x00, 0x00, 0x00, 0x00],
        [2, 0xcb, 0xcb, 0xac, 0xac, 0x00, 0x00, 0x00, 0x00],
        [2, 0xcb, 0xcb, 0xae, 0xae, 0x00, 0x00, 0x00, 0x00],
        [2, 0xcc, 0xcc, 0x80, 0xbf, 0x00, 0x00, 0x00, 0x00],
        [2, 0xcd, 0xcd, 0x80, 0xb4, 0x00, 0x00, 0x00, 0x00],
        [2, 0xcd, 0xcd, 0xb6, 0xb7, 0x00, 0x00, 0x00, 0x00],
        [2, 0xcd, 0xcd, 0xba, 0xbd, 0x00, 0x00, 0x00, 0x00],
        [2, 0xcd, 0xcd, 0xbf, 0xbf, 0x00, 0x00, 0x00, 0x00],
        [2, 0xce, 0xce, 0x86, 0x86, 0x00, 0x00, 0x00, 0x00],
        [2, 0xce, 0xce, 0x88, 0x8a, 0x00, 0x00, 0x00, 0x00],
        [2, 0xce, 0xce, 0x8c, 0x8c, 0x00, 0x00, 0x00, 0x00],
        [2, 0xce, 0xce, 0x8e, 0xa1, 0x00, 0x00, 0x00, 0x00],
        [2, 0xce, 0xce, 0xa3, 0xbf, 0x00, 0x00, 0x00, 0x00],
        [2, 0xcf, 0xcf, 0x80, 0xb5, 0x00, 0x00, 0x00, 0x00],
        [2, 0xcf, 0xcf, 0xb7, 0xbf, 0x00, 0x00, 0x00, 0x00],
        [2, 0xd0, 0xd1, 0x80, 0xbf, 0x00, 0x00, 0x00, 0x00],
        [2, 0xd2, 0xd2, 0x80, 0x81, 0x00, 0x00, 0x00, 0x00],
        [2, 0xd2, 0xd2, 0x83, 0xbf, 0x00, 0x00, 0x00, 0x00],
        [2, 0xd3, 0xd3, 0x80, 0xbf, 0x00, 0x00, 0x00, 0x00],
        [2, 0xd4, 0xd4, 0x80, 0xaf, 0x00, 0x00, 0x00, 0x00],
        [2, 0xd4, 0xd4, 0xb1, 0xbf, 0x00, 0x00, 0x00, 0x00],
        [2, 0xd5, 0xd5, 0x80, 0x96, 0x00, 0x00, 0x00, 0x00],
        [2, 0xd5, 0xd5, 0x99, 0x99, 0x00, 0x00, 0x00, 0x00],
        [2, 0xd5, 0xd5, 0xa0, 0xbf, 0x00, 0x00, 0x00, 0x00],
        [2, 0xd6, 0xd6, 0x80, 0x88, 0x00, 0x00, 0x00, 0x00],
        [2, 0xd6, 0xd6, 0x91, 0xbd, 0x00, 0x00, 0x00, 0x00],
        [2, 0xd6, 0xd6, 0xbf, 0xbf, 0x00, 0x00, 0x00, 0x00],
        [2, 0xd7, 0xd7, 0x81, 0x82, 0x00, 0x00, 0x00, 0x00],
        [2, 0xd7, 0xd7, 0x84, 0x85, 0x00, 0x00, 0x00, 0x00],
        [2, 0xd7, 0xd7, 0x87, 0x87, 0x00, 0x00, 0x00, 0x00],
        [2, 0xd7, 0xd7, 0x90, 0xaa, 0x00, 0x00, 0x00, 0x00],
        [2, 0xd7, 0xd7, 0xaf, 0xb2, 0x00, 0x00, 0x00, 0x00],
        [2, 0xd8, 0xd8, 0x90, 0x9a, 0x00, 0x00, 0x00, 0x00],
        [2, 0xd8, 0xd8, 0xa0, 0xbf, 0x00, 0x00, 0x00, 0x00],
        [2, 0xd9, 0xd9, 0x80, 0xa9, 0x00, 0x00, 0x00, 0x00],
        [2, 0xd9, 0xd9, 0xae, 0xbf, 0x00, 0x00, 0x00, 0x00],
        [2, 0xda, 0xda, 0x80, 0xbf, 0x00, 0x00, 0x00, 0x00],
        [2, 0xdb, 0xdb, 0x80, 0x93, 0x00, 0x00, 0x00, 0x00],
        [2, 0xdb, 0xdb, 0x95, 0x9c, 0x00, 0x00, 0x00, 0x00],
        [2, 0xdb, 0xdb, 0x9f, 0xa8, 0x00, 0x00, 0x00, 0x00],
        [2, 0xdb, 0xdb, 0xaa, 0xbc, 0x00, 0x00, 0x00, 0x00],
        [2, 0xdb, 0xdb, 0xbf, 0xbf, 0x00, 0x00, 0x00, 0x00],
        [2, 0xdc, 0xdc, 0x90, 0xbf, 0x00, 0x00, 0x00, 0x00],
        [2, 0xdd, 0xdd, 0x80, 0x8a, 0x00, 0x00, 0x00, 0x00],
        [2, 0xdd, 0xdd, 0x8d, 0xbf, 0x00, 0x00, 0x00, 0x00],
        [2, 0xde, 0xde, 0x80, 0xb1, 0x00, 0x00, 0x00, 0x00],
        [2, 0xdf, 0xdf, 0x80, 0xb5, 0x00, 0x00, 0x00, 0x00],
        [2, 0xdf, 0xdf, 0xba, 0xba, 0x00, 0x00, 0x00, 0x00],
        [2, 0xdf, 0xdf, 0xbd, 0xbd, 0x00, 0x00, 0x00, 0x00],
        [3, 0xe0, 0xe0, 0xa0, 0xa0, 0x80, 0xad, 0x00, 0x00],
        [3, 0xe0, 0xe0, 0xa1, 0xa1, 0x80, 0x9b, 0x00, 0x00],
        [3, 0xe0, 0xe0, 0xa1, 0xa1, 0xa0, 0xaa, 0x00, 0x00],
        [3, 0xe0, 0xe0, 0xa1, 0xa1, 0xb0, 0xbf, 0x00, 0x00],
        [3, 0xe0, 0xe0, 0xa2, 0xa2, 0x80, 0x87, 0x00, 0x00],
        [3, 0xe0, 0xe0, 0xa2, 0xa2, 0x89, 0x8e, 0x00, 0x00],
    ]
}

fn word_table_2() -> (v: Vec<[u8; 9]>)
    ensures
        v@ == word_rows_2(),
        v@.len() == 64,
{
    proof {
        reveal(word_rows_2);
    }
    vec![
        [3, 0xe0, 0xe0, 0xa2, 0xa2, 0x98, 0xbf, 0x00, 0x00],
        [3, 0xe0, 0xe0, 0xa3, 0xa3, 0x80, 0xa1, 0x00, 0x00],
        [3, 0xe0, 0xe0, 0xa3, 0xa3, 0xa3, 0xbf, 0x00, 0x00],
        [3, 0xe0, 0xe0, 0xa4, 0xa4, 0x80, 0xbf, 0x00, 0x00],
        [3, 0xe0, 0xe0, 0xa5, 0xa5, 0x80, 0xa3, 0x00, 0x00],
        [3, 0xe0, 0xe0, 0xa5, 0xa5, 0xa6, 0xaf, 0x00, 0x00],
        [3, 0xe0, 0xe0, 0xa5, 0xa5, 0xb1, 0xbf, 0x00, 0x00],
        [3, 0xe0, 0xe0, 0xa6, 0xa6, 0x80, 0x83, 0x00, 0x00],
        [3, 0xe0, 0xe0, 0xa6, 0xa6, 0x85, 0x8c, 0x00, 0x00],
        [3, 0xe0, 0xe0, 0xa6, 0xa6, 0x8f, 0x90, 0x00, 0x00],
        [3, 0xe0, 0xe0, 0xa6, 0xa6, 0x93, 0xa8, 0x00, 0x00],
        [3, 0xe0, 0xe0, 0xa6, 0xa6, 0xaa, 0xb0, 0x00, 0x00],
        [3, 0xe0, 0xe0, 0xa6, 0xa6, 0xb2, 0xb2, 0x00, 0x00],
        [3, 0xe0, 0xe0, 0xa6, 0xa6, 0xb6, 0xb9, 0x00, 0x00],
        [3, 0xe0, 0xe0, 0xa6, 0xa6, 0xbc, 0xbf, 0x00, 0x00],
        [3, 0xe0, 0xe0, 0xa7, 0xa7, 0x80, 0x84, 0x00, 0x00],
        [3, 0xe0, 0xe0, 0xa7, 0xa7, 0x87, 0x88, 0x00, 0x00],
        [3, 0xe0, 0xe0, 0xa7, 0xa7, 0x8b, 0x8e, 0x00, 0x00],
        [3, 0xe0, 0xe0, 0xa7, 0xa7, 0x97, 0x97, 0x00, 0x00],
        [3, 0xe0, 0xe0, 0xa7, 0xa7, 0x9c, 0x9d, 0x00, 0x00],
        [3, 0xe0, 0xe0, 0xa7, 0xa7, 0x9f, 0xa3, 0x00, 0x00],
        [3, 0xe0, 0xe0, 0xa7, 0xa7, 0xa6, 0xb1, 0x00, 0x00],
        [3, 0xe0, 0xe0, 0xa7, 0xa7, 0xbc, 0xbc, 0x00, 0x00],
        [3, 0xe0, 0xe0, 0xa7, 0xa7, 0xbe, 0xbe, 0x00, 0x00],
        [3, 0xe0, 0xe0, 0xa8, 0xa8, 0x81, 0x83, 0x00, 0x00],
        [3, 0xe0, 0xe0, 0xa8, 0xa8, 0x85, 0x8a, 0x00, 0x00],
        [3, 0xe0, 0xe0, 0xa8, 0xa8, 0x8f, 0x90, 0x00, 0x00],
        [3, 0xe0, 0xe0, 0xa8, 0xa8, 0x93, 0xa8, 0x00, 0x00],
        [3, 0xe0, 0xe0, 0xa8, 0xa8, 0xaa, 0xb0, 0x00, 0x00],
        [3, 0xe0, 0xe0, 0xa8, 0xa8, 0xb2, 0xb3, 0x00, 0x00],
        [3, 0xe0, 0xe0, 0xa8, 0xa8, 0xb5, 0xb6, 0x00, 0x00],
        [3, 0xe0, 0xe0, 0xa8, 0xa8, 0xb8, 0xb9, 0x00, 0x00],
        [3, 0xe0, 0xe0, 0xa8, 0xa8, 0xbc, 0xbc, 0x00, 0x00],
        [3, 0xe0, 0xe0, 0xa8, 0xa8, 0xbe, 0xbf, 0x00, 0x00],
        [3, 0xe0, 0xe0, 0xa9, 0xa9, 0x80, 0x82, 0x00, 0x00],
        [3, 0xe0, 0xe0, 0xa9, 0xa9, 0x87, 0x88, 0x00, 0x00],
        [3, 0xe0, 0xe0, 0xa9, 0xa9, 0x8b, 0x8d, 0x00, 0x00],
        [3, 0xe0, 0xe0, 0xa9, 0xa9, 0x91, 0x91, 0x00, 0x00],
        [3, 0xe0, 0xe0, 0xa9, 0xa9, 0x99, 0x9c, 0x00, 0x00],
        [3, 0xe0, 0xe0, 0xa9, 0xa9, 0x9e, 0x9e, 0x00, 0x00],
        [3, 0xe0, 0xe0, 0xa9, 0xa9, 0xa6, 0xb5, 0x00, 0x00],
        [3, 0xe0, 0xe0, 0xaa, 0xaa, 0x81, 0x83, 0x00, 0x00],
        [3, 0xe0, 0xe0, 0xaa, 0xaa, 0x85, 0x8d, 0x00, 0x00],
        [3, 0xe0, 0xe0, 0xaa, 0xaa, 0x8f, 0x91, 0x00, 0x00],
        [3, 0xe0, 0xe0, 0xaa, 0xaa, 0x93, 0xa8, 0x00, 0x00],
        [3, 0xe0, 0xe0, 0xaa, 0xaa, 0xaa, 0xb0, 0x00, 0x00],
        [3, 0xe0, 0xe0, 0xaa, 0xaa, 0xb2, 0xb3, 0x00, 0x00],
        [3, 0xe0, 0xe0, 0xaa, 0xaa, 0xb5, 0xb9, 0x00, 0x00],
        [3, 0xe0, 0xe0, 0xaa, 0xaa, 0xbc, 0xbf, 0x00, 0x00],
        [3, 0xe0, 0xe0, 0xab, 0xab, 0x80, 0x85, 0x00, 0x00],
        [3, 0xe0, 0xe0, 0xab, 0xab, 0x87, 0x89, 0x00, 0x00],
        [3, 0xe0, 0xe0, 0xab, 0xab, 0x8b, 0x8d, 0x00, 0x00],
        [3, 0xe0, 0xe0, 0xab, 0xab, 0x90, 0x90, 0x00, 0x00],
        [3, 0xe0, 0xe0, 0xab, 0xab, 0xa0, 0xa3, 0x00, 0x00],
        [3, 0xe0, 0xe0, 0xab, 0xab, 0xa6, 0xaf, 0x00, 0x00],
        [3, 0xe0, 0xe0, 0xab, 0xab, 0xb9, 0xbf, 0x00, 0x00],
        [3, 0xe0, 0xe0, 0xac, 0xac, 0x81, 0x83, 0x00, 0x00],
        [3, 0xe0, 0xe0, 0xac, 0xac, 0x85, 0x8c, 0x00, 0x00],
        [3, 0xe0, 0xe0, 0xac, 0xac, 0x8f, 0x90, 0x00, 0x00],
        [3, 0xe0, 0xe0, 0xac, 0xac, 0x93, 0xa8, 0x00, 0x00],
        [3, 0xe0, 0xe0, 0xac, 0xac, 0xaa, 0xb0, 0x00, 0x00],
        [3, 0xe0, 0xe0, 0xac, 0xac, 0xb2, 0xb3, 0x00, 0x00],
        [3, 0xe0, 0xe0, 0xac, 0xac, 0xb5, 0xb9, 0x00, 0x00],
        [3, 0xe0, 0xe0, 0xac, 0xac, 0xbc, 0xbf, 0x00, 0x00],
    ]
}

fn word_table_3() -> (v: Vec<[u8; 9]>)
    ensures
        v@ == word_rows_3(),
        v@.len() == 64,
{
    proof {
        reveal(word_rows_3);
    }
    vec![
        [3, 0xe0, 0xe0, 0xad, 0xad, 0x80, 0x84, 0x00, 0x00],
        [3, 0xe0, 0xe0, 0xad, 0xad, 0x87, 0x88, 0x00, 0x00],
        [3, 0xe0, 0xe0, 0xad, 0xad, 0x8b, 0x8d, 0x00, 0x00],
        [3, 0xe0, 0xe0, 0xad, 0xad, 0x95, 0x97, 0x00, 0x00],
        [3, 0xe0, 0xe0, 0xad, 0xad, 0x9c, 0x9d, 0x00, 0x00],
        [3, 0xe0, 0xe0, 0xad, 0xad, 0x9f, 0xa3, 0x00, 0x00],
        [3, 0xe0, 0xe0, 0xad, 0xad, 0xa6, 0xaf, 0x00, 0x00],
        [3, 0xe0, 0xe0, 0xad, 0xad, 0xb1, 0xb1, 0x00, 0x00],
        [3, 0xe0, 0xe0, 0xae, 0xae, 0x82, 0x83, 0x00, 0x00],
        [3, 0xe0, 0xe0, 0xae, 0xae, 0x85, 0x8a, 0x00, 0x00],
        [3, 0xe0, 0xe0, 0xae, 0xae, 0x8e, 0x90, 0x00, 0x00],
        [3, 0xe0, 0xe0, 0xae, 0xae, 0x92, 0x95, 0x00, 0x00],
        [3, 0xe0, 0xe0, 0xae, 0xae, 0x99, 0x9a, 0x00, 0x00],
        [3, 0xe0, 0xe0, 0xae, 0xae, 0x9c, 0x9c, 0x00, 0x00],
        [3, 0xe0, 0xe0, 0xae, 0xae, 0x9e, 0x9f, 0x00, 0x00],
        [3, 0xe0, 0xe0, 0xae, 0xae, 0xa3, 0xa4, 0x00, 0x00],
        [3, 0xe0, 0xe0, 0xae, 0xae, 0xa8, 0xaa, 0x00, 0x00],
        [3, 0xe0, 0xe0, 0xae, 0xae, 0xae, 0xb9, 0x00, 0x00],
        [3, 0xe0, 0xe0, 0xae, 0xae, 0xbe, 0xbf, 0x00, 0x00],
        [3, 0xe0, 0xe0, 0xaf, 0xaf, 0x80, 0x82, 0x00, 0x00],
        [3, 0xe0, 0xe0, 0xaf, 0xaf, 0x86, 0x88, 0x00, 0x00],
        [3, 0xe0, 0xe0, 0xaf, 0xaf, 0x8a, 0x8d, 0x00, 0x00],
        [3, 0xe0, 0xe0, 0xaf, 0xaf, 0x90, 0x90, 0x00, 0x00],
        [3, 0xe0, 0xe0, 0xaf, 0xaf, 0x97, 0x97, 0x00, 0x00],
        [3, 0xe0, 0xe0, 0xaf, 0xaf, 0xa6, 0xaf, 0x00, 0x00],
        [3, 0xe0, 0xe0, 0xb0, 0xb0, 0x80, 0x8c, 0x00, 0x00],
        [3, 0xe0, 0xe0, 0xb0, 0xb0, 0x8e, 0x90, 0x00, 0x00],
        [3, 0xe0, 0xe0, 0xb0, 0xb0, 0x92, 0xa8, 0x00, 0x00],
        [3, 0xe0, 0xe0, 0xb0, 0xb0, 0xaa, 0xb9, 0x00, 0x00],
        [3, 0xe0, 0xe0, 0xb0, 0xb0, 0xbc, 0xbf, 0x00, 0x00],
        [3, 0xe0, 0xe0, 0xb1, 0xb1, 0x80, 0x84, 0x00, 0x00],
        [3, 0xe0, 0xe0, 0xb1, 0xb1, 0x86, 0x88, 0x00, 0x00],
        [3, 0xe0, 0xe0, 0xb1, 0xb1, 0x8a, 0x8d, 0x00, 0x00],
        [3, 0xe0, 0xe0, 0xb1, 0xb1, 0x95, 0x96, 0x00, 0x00],
        [3, 0xe0, 0xe0, 0xb1, 0xb1, 0x98, 0x9a, 0x00, 0x00],
        [3, 0xe0, 0xe0, 0xb1, 0xb1, 0x9d, 0x9d, 0x00, 0x00],
        [3, 0xe0, 0xe0, 0xb1, 0xb1, 0xa0, 0xa3, 0x00, 0x00],
        [3, 0xe0, 0xe0, 0xb1, 0xb1, 0xa6, 0xaf, 0x00, 0x00],
        [3, 0xe0, 0xe0, 0xb2, 0xb2, 0x80, 0x83, 0x00, 0x00],
        [3, 0xe0, 0xe0, 0xb2, 0xb2, 0x85, 0x8c, 0x00, 0x00],
        [3, 0xe0, 0xe0, 0xb2, 0xb2, 0x8e, 0x90, 0x00, 0x00],
        [3, 0xe0, 0xe0, 0xb2, 0xb2, 0x92, 0xa8, 0x00, 0x00],
        [3, 0xe0, 0xe0, 0xb2, 0xb2, 0xaa, 0xb3, 0x00, 0x00],
        [3, 0xe0, 0xe0, 0xb2, 0xb2, 0xb5, 0xb9, 0x00, 0x00],
        [3, 0xe0, 0xe0, 0xb2, 0xb2, 0xbc, 0xbf, 0x00, 0x00],
        [3, 0xe0, 0xe0, 0xb3, 0xb3, 0x80, 0x84, 0x00, 0x00],
        [3, 0xe0, 0xe0, 0xb3, 0xb3, 0x86, 0x88, 0x00, 0x00],
        [3, 0xe0, 0xe0, 0xb3, 0xb3, 0x8a, 0x8d, 0x00, 0x00],
        [3, 0xe0, 0xe0, 0xb3, 0xb3, 0x95, 0x96, 0x00, 0x00],
        [3, 0xe0, 0xe0, 0xb3, 0xb3, 0x9d, 0x9e, 0x00, 0x00],
        [3, 0xe0, 0xe0, 0xb3, 0xb3, 0xa0, 0xa3, 0x00, 0x00],
        [3, 0xe0, 0xe0, 0xb3, 0xb3, 0xa6, 0xaf, 0x00, 0x00],
        [3, 0xe0, 0xe0, 0xb3, 0xb3, 0xb1, 0xb2, 0x00, 0x00],
        [3, 0xe0, 0xe0, 0xb4, 0xb4, 0x80, 0x8c, 0x00, 0x00],
        [3, 0xe0, 0xe0, 0xb4, 0xb4, 0x8e, 0x90, 0x00, 0x00],
        [3, 0xe0, 0xe0, 0xb4, 0xb4, 0x92, 0xbf, 0x00, 0x00],
        [3, 0xe0, 0xe0, 0xb5, 0xb5, 0x80, 0x84, 0x00, 0x00],
        [3, 0xe0, 0xe0, 0xb5, 0xb5, 0x86, 0x88, 0x00, 0x00],
        [3, 0xe0, 0xe0, 0xb5, 0xb5, 0x8a, 0x8e, 0x00, 0x00],
        [3, 0xe0, 0xe0, 0xb5, 0xb5, 0x94, 0x97, 0x00, 0x00],
        [3, 0xe0, 0xe0, 0xb5, 0xb5, 0x9f, 0xa3, 0x00, 0x00],
        [3, 0xe0, 0xe0, 0xb5, 0xb5, 0xa6, 0xaf, 0x00, 0x00],
        [3, 0xe0, 0xe0, 0xb5, 0xb5, 0xba, 0xbf, 0x00, 0x00],
        [3, 0xe0, 0xe0, 0xb6, 0xb6, 0x81, 0x83, 0x00, 0x00],
    ]
}

fn word_table_4() -> (v: Vec<[u8; 9]>)
    ensures
        v@ == word_rows_4(),
        v@.len() == 64,
{
    proof {
        reveal(word_rows_4);
    }
    vec![
        [3, 0xe0, 0xe0, 0xb6, 0xb6, 0x85, 0x96, 0x00, 0x00],
        [3, 0xe0, 0xe0, 0xb6, 0xb6, 0x9a, 0xb1, 0x00, 0x00],
        [3, 0xe0, 0xe0, 0xb6, 0xb6, 0xb3, 0xbb, 0x00, 0x00],
        [3, 0xe0, 0xe0, 0xb6, 0xb6, 0xbd, 0xbd, 0x00, 0x00],
        [3, 0xe0, 0xe0, 0xb7, 0xb7, 0x80, 0x86, 0x00, 0x00],
        [3, 0xe0, 0xe0, 0xb7, 0xb7, 0x8a, 0x8a, 0x00, 0x00],
        [3, 0xe0, 0xe0, 0xb7, 0xb7, 0x8f, 0x94, 0x00, 0x00],
        [3, 0xe0, 0xe0, 0xb7, 0xb7, 0x96, 0x96, 0x00, 0x00],
        [3, 0xe0, 0xe0, 0xb7, 0xb7, 0x98, 0x9f, 0x00, 0x00],
        [3, 0xe0, 0xe0, 0xb7, 0xb7, 0xa6, 0xaf, 0x00, 0x00],
        [3, 0xe0, 0xe0, 0xb7, 0xb7, 0xb2, 0xb3, 0x00, 0x00],
        [3, 0xe0, 0xe0, 0xb8, 0xb8, 0x81, 0xba, 0x00, 0x00],
        [3, 0xe0, 0xe0, 0xb9, 0xb9, 0x80, 0x8e, 0x00, 0x00],
        [3, 0xe0, 0xe0, 0xb9, 0xb9, 0x90, 0x99, 0x00, 0x00],
        [3, 0xe0, 0xe0, 0xba, 0xba, 0x81, 0x82, 0x00, 0x00],
        [3, 0xe0, 0xe0, 0xba, 0xba, 0x84, 0x84, 0x00, 0x00],
        [3, 0xe0, 0xe0, 0xba, 0xba, 0x86, 0x8a, 0x00, 0x00],
        [3, 0xe0, 0xe0, 0xba, 0xba, 0x8c, 0xa3, 0x00, 0x00],
        [3, 0xe0, 0xe0, 0xba, 0xba, 0xa5, 0xa5, 0x00, 0x00],
        [3, 0xe0, 0xe0, 0xba, 0xba, 0xa7, 0xbd, 0x00, 0x00],
        [3, 0xe0, 0xe0, 0xbb, 0xbb, 0x80, 0x84, 0x00, 0x00],
        [3, 0xe0, 0xe0, 0xbb, 0xbb, 0x86, 0x86, 0x00, 0x00],
        [3, 0xe0, 0xe0, 0xbb, 0xbb, 0x88, 0x8d, 0x00, 0x00],
        [3, 0xe0, 0xe0, 0xbb, 0xbb, 0x90, 0x99, 0x00, 0x00],
        [3, 0xe0, 0xe0, 0xbb, 0xbb, 0x9c, 0x9f, 0x00, 0x00],
        [3, 0xe0, 0xe0, 0xbc, 0xbc, 0x80, 0x80, 0x00, 0x00],
        [3, 0xe0, 0xe0, 0xbc, 0xbc, 0x98, 0x99, 0x00, 0x00],
        [3, 0xe0, 0xe0, 0xbc, 0xbc, 0xa0, 0xa9, 0x00, 0x00],
        [3, 0xe0, 0xe0, 0xbc, 0xbc, 0xb5, 0xb5, 0x00, 0x00],
        [3, 0xe0, 0xe0, 0xbc, 0xbc, 0xb7, 0xb7, 0x00, 0x00],
        [3, 0xe0, 0xe0, 0xbc, 0xbc, 0xb9, 0xb9, 0x00, 0x00],
        [3, 0xe0, 0xe0, 0xbc, 0xbc, 0xbe, 0xbf, 0x00, 0x00],
        [3, 0xe0, 0xe0, 0xbd, 0xbd, 0x80, 0x87, 0x00, 0x00],
        [3, 0xe0, 0xe0, 0xbd, 0xbd, 0x89, 0xac, 0x00, 0x00],
        [3, 0xe0, 0xe0, 0xbd, 0xbd, 0xb1, 0xbf, 0x00, 0x00],
        [3, 0xe0, 0xe0, 0xbe, 0xbe, 0x80, 0x84, 0x00, 0x00],
        [3, 0xe0, 0xe0, 0xbe, 0xbe, 0x86, 0x97, 0x00, 0x00],
        [3, 0xe0, 0xe0, 0xbe, 0xbe, 0x99, 0xbc, 0x00, 0x00],
        [3, 0xe0, 0xe0, 0xbf, 0xbf, 0x86, 0x86, 0x00, 0x00],
        [3, 0xe1, 0xe1, 0x80, 0x80, 0x80, 0xbf, 0x00, 0x00],
        [3, 0xe1, 0xe1, 0x81, 0x81, 0x80, 0x89, 0x00, 0x00],
        [3, 0xe1, 0xe1, 0x81, 0x81, 0x90, 0xbf, 0x00, 0x00],
        [3, 0xe1, 0xe1, 0x82, 0x82, 0x80, 0x9d, 0x00, 0x00],
        [3, 0xe1, 0xe1, 0x82, 0x82, 0xa0, 0xbf, 0x00, 0x00],
        [3, 0xe1, 0xe1, 0x83, 0x83, 0x80, 0x85, 0x00, 0x00],
        [3, 0xe1, 0xe1, 0x83, 0x83, 0x87, 0x87, 0x00, 0x00],
        [3, 0xe1, 0xe1, 0x83, 0x83, 0x8d, 0x8d, 0x00, 0x00],
        [3, 0xe1, 0xe1, 0x83, 0x83, 0x90, 0xba, 0x00, 0x00],
        [3, 0xe1, 0xe1, 0x83, 0x83, 0xbc, 0xbf, 0x00, 0x00],
        [3, 0xe1, 0xe1, 0x84, 0x88, 0x80, 0xbf, 0x00, 0x00],
        [3, 0xe1, 0xe1, 0x89, 0x89, 0x80, 0x88, 0x00, 0x00],
        [3, 0xe1, 0xe1, 0x89, 0x89, 0x8a, 0x8d, 0x00, 0x00],
        [3, 0xe1, 0xe1, 0x89, 0x89, 0x90, 0x96, 0x00, 0x00],
        [3, 0xe1, 0xe1, 0x89, 0x89, 0x98, 0x98, 0x00, 0x00],
        [3, 0xe1, 0xe1, 0x89, 0x89, 0x9a, 0x9d, 0x00, 0x00],
        [3, 0xe1, 0xe1, 0x89, 0x89, 0xa0, 0xbf, 0x00, 0x00],
        [3, 0xe1, 0xe1, 0x8a, 0x8a, 0x80, 0x88, 0x00, 0x00],
        [3, 0xe1, 0xe1, 0x8a, 0x8a, 0x8a, 0x8d, 0x00, 0x00],
        [3, 0xe1, 0xe1, 0x8a, 0x8a, 0x90, 0xb0, 0x00, 0x00],
        [3, 0xe1, 0xe1, 0x8a, 0x8a, 0xb2, 0xb5, 0x00, 0x00],
        [3, 0xe1, 0xe1, 0x8a, 0x8a, 0xb8, 0xbe, 0x00, 0x00],
        [3, 0xe1, 0xe1, 0x8b, 0x8b, 0x80, 0x80, 0x00, 0x00],
        [3, 0xe1, 0xe1, 0x8b, 0x8b, 0x82, 0x85, 0x00, 0x00],
        [3, 0xe1, 0xe1, 0x8b, 0x8b, 0x88, 0x96, 0x00, 0x00],
    ]
}

fn word_table_5() -> (v: Vec<[u8; 9]>)
    ensures
        v@ == word_rows_5(),
        v@.len() == 64,
{
    proof {
        reveal(word_rows_5);
    }
    vec![
        [3, 0xe1, 0xe1, 0x8b, 0x8b, 0x98, 0xbf, 0x00, 0x00],
        [3, 0xe1, 0xe1, 0x8c, 0x8c, 0x80, 0x90, 0x00, 0x00],
        [3, 0xe1, 0xe1, 0x8c, 0x8c, 0x92, 0x95, 0x00, 0x00],
        [3, 0xe1, 0xe1, 0x8c, 0x8c, 0x98, 0xbf, 0x00, 0x00],
        [3, 0xe1, 0xe1, 0x8d, 0x8d, 0x80, 0x9a, 0x00, 0x00],
        [3, 0xe1, 0xe1, 0x8d, 0x8d, 0x9d, 0x9f, 0x00, 0x00],
        [3, 0xe1, 0xe1, 0x8e, 0x8e, 0x80, 0x8f, 0x00, 0x00],
        [3, 0xe1, 0xe1, 0x8e, 0x8e, 0xa0, 0xbf, 0x00, 0x00],
        [3, 0xe1, 0xe1, 0x8f, 0x8f, 0x80, 0xb5, 0x00, 0x00],
        [3, 0xe1, 0xe1, 0x8f, 0x8f, 0xb8, 0xbd, 0x00, 0x00],
        [3, 0xe1, 0xe1, 0x90, 0x90, 0x81, 0xbf, 0x00, 0x00],
        [3, 0xe1, 0xe1, 0x91, 0x98, 0x80, 0xbf, 0x00, 0x00],
        [3, 0xe1, 0xe1, 0x99, 0x99, 0x80, 0xac, 0x00, 0x00],
        [3, 0xe1, 0xe1, 0x99, 0x99, 0xaf, 0xbf, 0x00, 0x00],
        [3, 0xe1, 0xe1, 0x9a, 0x9a, 0x81, 0x9a, 0x00, 0x00],
        [3, 0xe1, 0xe1, 0x9a, 0x9a, 0xa0, 0xbf, 0x00, 0x00],
        [3, 0xe1, 0xe1, 0x9b, 0x9b, 0x80, 0xaa, 0x00, 0x00],
        [3, 0xe1, 0xe1, 0x9b, 0x9b, 0xae, 0xb8, 0x00, 0x00],
        [3, 0xe1, 0xe1, 0x9c, 0x9c, 0x80, 0x95, 0x00, 0x00],
        [3, 0xe1, 0xe1, 0x9c, 0x9c, 0x9f, 0xb4, 0x00, 0x00],
        [3, 0xe1, 0xe1, 0x9d, 0x9d, 0x80, 0x93, 0x00, 0x00],
        [3, 0xe1, 0xe1, 0x9d, 0x9d, 0xa0, 0xac, 0x00, 0x00],
        [3, 0xe1, 0xe1, 0x9d, 0x9d, 0xae, 0xb0, 0x00, 0x00],
        [3, 0xe1, 0xe1, 0x9d, 0x9d, 0xb2, 0xb3, 0x00, 0x00],
        [3, 0xe1, 0xe1, 0x9e, 0x9e, 0x80, 0xbf, 0x00, 0x00],
        [3, 0xe1, 0xe1, 0x9f, 0x9f, 0x80, 0x93, 0x00, 0x00],
        [3, 0xe1, 0xe1, 0x9f, 0x9f, 0x97, 0x97, 0x00, 0x00],
        [3, 0xe1, 0xe1, 0x9f, 0x9f, 0x9c, 0x9d, 0x00, 0x00],
        [3, 0xe1, 0xe1, 0x9f, 0x9f, 0xa0, 0xa9, 0x00, 0x00],
        [3, 0xe1, 0xe1, 0xa0, 0xa0, 0x8b, 0x8d, 0x00, 0x00],
        [3, 0xe1, 0xe1, 0xa0, 0xa0, 0x8f, 0x99, 0x00, 0x00],
        [3, 0xe1, 0xe1, 0xa0, 0xa0, 0xa0, 0xbf, 0x00, 0x00],
        [3, 0xe1, 0xe1, 0xa1, 0xa1, 0x80, 0xb8, 0x00, 0x00],
        [3, 0xe1, 0xe1, 0xa2, 0xa2, 0x80, 0xaa, 0x00, 0x00],
        [3, 0xe1, 0xe1, 0xa2, 0xa2, 0xb0, 0xbf, 0x00, 0x00],
        [3, 0xe1, 0xe1, 0xa3, 0xa3, 0x80, 0xb5, 0x00, 0x00],
        [3, 0xe1, 0xe1, 0xa4, 0xa4, 0x80, 0x9e, 0x00, 0x00],
        [3, 0xe1, 0xe1, 0xa4, 0xa4, 0xa0, 0xab, 0x00, 0x00],
        [3, 0xe1, 0xe1, 0xa4, 0xa4, 0xb0, 0xbb, 0x00, 0x00],
        [3, 0xe1, 0xe1, 0xa5, 0xa5, 0x86, 0xad, 0x00, 0x00],
        [3, 0xe1, 0xe1, 0xa5, 0xa5, 0xb0, 0xb4, 0x00, 0x00],
        [3, 0xe1, 0xe1, 0xa6, 0xa6, 0x80, 0xab, 0x00, 0x00],
        [3, 0xe1, 0xe1, 0xa6, 0xa6, 0xb0, 0xbf, 0x00, 0x00],
        [3, 0xe1, 0xe1, 0xa7, 0xa7, 0x80, 0x89, 0x00, 0x00],
        [3, 0xe1, 0xe1, 0xa7, 0xa7, 0x90, 0x99, 0x00, 0x00],
        [3, 0xe1, 0xe1, 0xa8, 0xa8, 0x80, 0x9b, 0x00, 0x00],
        [3, 0xe1, 0xe1, 0xa8, 0xa8, 0xa0, 0xbf, 0x00, 0x00],
        [3, 0xe1, 0xe1, 0xa9, 0xa9, 0x80, 0x9e, 0x00, 0x00],
        [3, 0xe1, 0xe1, 0xa9, 0xa9, 0xa0, 0xbc, 0x00, 0x00],
        [3, 0xe1, 0xe1, 0xa9, 0xa9, 0xbf, 0xbf, 0x00, 0x00],
        [3, 0xe1, 0xe1, 0xaa, 0xaa, 0x80, 0x89, 0x00, 0x00],
        [3, 0xe1, 0xe1, 0xaa, 0xaa, 0x90, 0x99, 0x00, 0x00],
        [3, 0xe1, 0xe1, 0xaa, 0xaa, 0xa7, 0xa7, 0x00, 0x00],
        [3, 0xe1, 0xe1, 0xaa, 0xaa, 0xb0, 0xbf, 0x00, 0x00],
        [3, 0xe1, 0xe1, 0xab, 0xab, 0x80, 0x8e, 0x00, 0x00],
        [3, 0xe1, 0xe1, 0xac, 0xac, 0x80, 0xbf, 0x00, 0x00],
        [3, 0xe1, 0xe1, 0xad, 0xad, 0x80, 0x8c, 0x00, 0x00],
        [3, 0xe1, 0xe1, 0xad, 0xad, 0x90, 0x99, 0x00, 0x00],
        [3, 0xe1, 0xe1, 0xad, 0xad, 0xab, 0xb3, 0x00, 0x00],
        [3, 0xe1, 0xe1, 0xae, 0xae, 0x80, 0xbf, 0x00, 0x00],
        [3, 0xe1, 0xe1, 0xaf, 0xaf, 0x80, 0xb3, 0x00, 0x00],
        [3, 0xe1, 0xe1, 0xb0, 0xb0, 0x80, 0xb7, 0x00, 0x00],
        [3, 0xe1, 0xe1, 0xb1, 0xb1, 0x80, 0x89, 0x00, 0x00],
        [3, 0xe1, 0xe1, 0xb1, 0xb1, 0x8d, 0xbd, 0x00, 0x00],
    ]
}

fn word_table_6() -> (v: Vec<[u8; 9]>)
    ensures
        v@ == word_rows_6(),
        v@.len() == 64,
{
    proof {
        reveal(word_rows_6);
    }
    vec![
        [3, 0xe1, 0xe1, 0xb2, 0xb2, 0x80, 0x88, 0x00, 0x00],
        [3, 0xe1, 0xe1, 0xb2, 0xb2, 0x90, 0xba, 0x00, 0x00],
        [3, 0xe1, 0xe1, 0xb2, 0xb2, 0xbd, 0xbf, 0x00, 0x00],
        [3, 0xe1, 0xe1, 0xb3, 0xb3, 0x90, 0x92, 0x00, 0x00],
        [3, 0xe1, 0xe1, 0xb3, 0xb3, 0x94, 0xba, 0x00, 0x00],
        [3, 0xe1, 0xe1, 0xb4, 0xbb, 0x80, 0xbf, 0x00, 0x00],
        [3, 0xe1, 0xe1, 0xbc, 0xbc, 0x80, 0x95, 0x00, 0x00],
        [3, 0xe1, 0xe1, 0xbc, 0xbc, 0x98, 0x9d, 0x00, 0x00],
        [3, 0xe1, 0xe1, 0xbc, 0xbc, 0xa0, 0xbf, 0x00, 0x00],
        [3, 0xe1, 0xe1, 0xbd, 0xbd, 0x80, 0x85, 0x00, 0x00],
        [3, 0xe1, 0xe1, 0xbd, 0xbd, 0x88, 0x8d, 0x00, 0x00],
        [3, 0xe1, 0xe1, 0xbd, 0xbd, 0x90, 0x97, 0x00, 0x00],
        [3, 0xe1, 0xe1, 0xbd, 0xbd, 0x99, 0x99, 0x00, 0x00],
        [3, 0xe1, 0xe1, 0xbd, 0xbd, 0x9b, 0x9b, 0x00, 0x00],
        [3, 0xe1, 0xe1, 0xbd, 0xbd, 0x9d, 0x9d, 0x00, 0x00],
        [3, 0xe1, 0xe1, 0xbd, 0xbd, 0x9f, 0xbd, 0x00, 0x00],
        [3, 0xe1, 0xe1, 0xbe, 0xbe, 0x80, 0xb4, 0x00, 0x00],
        [3, 0xe1, 0xe1, 0xbe, 0xbe, 0xb6, 0xbc, 0x00, 0x00],
        [3, 0xe1, 0xe1, 0xbe, 0xbe, 0xbe, 0xbe, 0x00, 0x00],
        [3, 0xe1, 0xe1, 0xbf, 0xbf, 0x82, 0x84, 0x00, 0x00],
        [3, 0xe1, 0xe1, 0xbf, 0xbf, 0x86, 0x8c, 0x00, 0x00],
        [3, 0xe1, 0xe1, 0xbf, 0xbf, 0x90, 0x93, 0x00, 0x00],
        [3, 0xe1, 0xe1, 0xbf, 0xbf, 0x96, 0x9b, 0x00, 0x00],
        [3, 0xe1, 0xe1, 0xbf, 0xbf, 0xa0, 0xac, 0x00, 0x00],
        [3, 0xe1, 0xe1, 0xbf, 0xbf, 0xb2, 0xb4, 0x00, 0x00],
        [3, 0xe1, 0xe1, 0xbf, 0xbf, 0xb6, 0xbc, 0x00, 0x00],
        [3, 0xe2, 0xe2, 0x80, 0x80, 0x8c, 0x8d, 0x00, 0x00],
        [3, 0xe2, 0xe2, 0x80, 0x80, 0xbf, 0xbf, 0x00, 0x00],
        [3, 0xe2, 0xe2, 0x81, 0x81, 0x80, 0x80, 0x00, 0x00],
        [3, 0xe2, 0xe2, 0x81, 0x81, 0x94, 0x94, 0x00, 0x00],
        [3, 0xe2, 0xe2, 0x81, 0x81, 0xb1, 0xb1, 0x00, 0x00],
        [3, 0xe2, 0xe2, 0x81, 0x81, 0xbf, 0xbf, 0x00, 0x00],
        [3, 0xe2, 0xe2, 0x82, 0x82, 0x90, 0x9c, 0x00, 0x00],
        [3, 0xe2, 0xe2, 0x83, 0x83, 0x90, 0xb0, 0x00, 0x00],
        [3, 0xe2, 0xe2, 0x84, 0x84, 0x82, 0x82, 0x00, 0x00],
        [3, 0xe2, 0xe2, 0x84, 0x84, 0x87, 0x87, 0x00, 0x00],
        [3, 0xe2, 0xe2, 0x84, 0x84, 0x8a, 0x93, 0x00, 0x00],
        [3, 0xe2, 0xe2, 0x84, 0x84, 0x95, 0x95, 0x00, 0x00],
        [3, 0xe2, 0xe2, 0x84, 0x84, 0x99, 0x9d, 0x00, 0x00],
        [3, 0xe2, 0xe2, 0x84, 0x84, 0xa4, 0xa4, 0x00, 0x00],
        [3, 0xe2, 0xe2, 0x84, 0x84, 0xa6, 0xa6, 0x00, 0x00],
        [3, 0xe2, 0xe2, 0x84, 0x84, 0xa8, 0xa8, 0x00, 0x00],
        [3, 0xe2, 0xe2, 0x84, 0x84, 0xaa, 0xad, 0x00, 0x00],
        [3, 0xe2, 0xe2, 0x84, 0x84, 0xaf, 0xb9, 0x00, 0x00],
        [3, 0xe2, 0xe2, 0x84, 0x84, 0xbc, 0xbf, 0x00, 0x00],
        [3, 0xe2, 0xe2, 0x85, 0x85, 0x85, 0x89, 0x00, 0x00],
        [3, 0xe2, 0xe2, 0x85, 0x85, 0x8e, 0x8e, 0x00, 0x00],
        [3, 0xe2, 0xe2, 0x85, 0x85, 0xa0, 0xbf, 0x00, 0x00],
        [3, 0xe2, 0xe2, 0x86, 0x86, 0x80, 0x88, 0x00, 0x00],
        [3, 0xe2, 0xe2, 0xb0, 0xb2, 0x80, 0xbf, 0x00, 0x00],
        [3, 0xe2, 0xe2, 0xb3, 0xb3, 0x80, 0xa4, 0x00, 0x00],
        [3, 0xe2, 0xe2, 0xb3, 0xb3, 0xab, 0xb3, 0x00, 0x00],
        [3, 0xe2, 0xe2, 0xb4, 0xb4, 0x80, 0xa5, 0x00, 0x00],
        [3, 0xe2, 0xe2, 0xb4, 0xb4, 0xa7, 0xa7, 0x00, 0x00],
        [3, 0xe2, 0xe2, 0xb4, 0xb4, 0xad, 0xad, 0x00, 0x00],
        [3, 0xe2, 0xe2, 0xb4, 0xb4, 0xb0, 0xbf, 0x00, 0x00],
        [3, 0xe2, 0xe2, 0xb5, 0xb5, 0x80, 0xa7, 0x00, 0x00],
        [3, 0xe2, 0xe2, 0xb5, 0xb5, 0xaf, 0xaf, 0x00, 0x00],
        [3, 0xe2, 0xe2, 0xb5, 0xb5, 0xbf, 0xbf, 0x00, 0x00],
        [3, 0xe2, 0xe2, 0xb6, 0xb6, 0x80, 0x96, 0x00, 0x00],
        [3, 0xe2, 0xe2, 0xb6, 0xb6, 0xa0, 0xa6, 0x00, 0x00],
        [3, 0xe2, 0xe2, 0xb6, 0xb6, 0xa8, 0xae, 0x00, 0x00],
        [3, 0xe2, 0xe2, 0xb6, 0xb6, 0xb0, 0xb6, 0x00, 0x00],
        [3, 0xe2, 0xe2, 0xb6, 0xb6, 0xb8, 0xbe, 0x00, 0x00],
    ]
}

fn word_table_7() -> (v: Vec<[u8; 9]>)
    ensures
        v@ == word_rows_7(),
        v@.len() == 64,
{
    proof {
        reveal(word_rows_7);
    }
    vec![
        [3, 0xe2, 0xe2, 0xb7, 0xb7, 0x80, 0x86, 0x00, 0x00],
        [3, 0xe2, 0xe2, 0xb7, 0xb7, 0x88, 0x8e, 0x00, 0x00],
        [3, 0xe2, 0xe2, 0xb7, 0xb7, 0x90, 0x96, 0x00, 0x00],
        [3, 0xe2, 0xe2, 0xb7, 0xb7, 0x98, 0x9e, 0x00, 0x00],
        [3, 0xe2, 0xe2, 0xb7, 0xb7, 0xa0, 0xbf, 0x00, 0x00],
        [3, 0xe2, 0xe2, 0xb8, 0xb8, 0xaf, 0xaf, 0x00, 0x00],
        [3, 0xe3, 0xe3, 0x80, 0x80, 0x85, 0x87, 0x00, 0x00],
        [3, 0xe3, 0xe3, 0x80, 0x80, 0xa1, 0xaf, 0x00, 0x00],
        [3, 0xe3, 0xe3, 0x80, 0x80, 0xb1, 0xb5, 0x00, 0x00],
        [3, 0xe3, 0xe3, 0x80, 0x80, 0xb8, 0xbc, 0x00, 0x00],
        [3, 0xe3, 0xe3, 0x81, 0x81, 0x81, 0xbf, 0x00, 0x00],
        [3, 0xe3, 0xe3, 0x82, 0x82, 0x80, 0x96, 0x00, 0x00],
        [3, 0xe3, 0xe3, 0x82, 0x82, 0x99, 0x9a, 0x00, 0x00],
        [3, 0xe3, 0xe3, 0x82, 0x82, 0x9d, 0x9f, 0x00, 0x00],
        [3, 0xe3, 0xe3, 0x82, 0x82, 0xa1, 0xbf, 0x00, 0x00],
        [3, 0xe3, 0xe3, 0x83, 0x83, 0x80, 0xba, 0x00, 0x00],
        [3, 0xe3, 0xe3, 0x83, 0x83, 0xbc, 0xbf, 0x00, 0x00],
        [3, 0xe3, 0xe3, 0x84, 0x84, 0x85, 0xaf, 0x00, 0x00],
        [3, 0xe3, 0xe3, 0x84, 0x84, 0xb1, 0xbf, 0x00, 0x00],
        [3, 0xe3, 0xe3, 0x85, 0x85, 0x80, 0xbf, 0x00, 0x00],
        [3, 0xe3, 0xe3, 0x86, 0x86, 0x80, 0x8e, 0x00, 0x00],
        [3, 0xe3, 0xe3, 0x86, 0x86, 0xa0, 0xbf, 0x00, 0x00],
        [3, 0xe3, 0xe3, 0x87, 0x87, 0xb0, 0xbf, 0x00, 0x00],
        [3, 0xe3, 0xe3, 0x90, 0xbf, 0x80, 0xbf, 0x00, 0x00],
        [3, 0xe4, 0xe4, 0x80, 0xb6, 0x80, 0xbf, 0x00, 0x00],
        [3, 0xe4, 0xe4, 0xb8, 0xbf, 0x80, 0xbf, 0x00, 0x00],
        [3, 0xe5, 0xe9, 0x80, 0xbf, 0x80, 0xbf, 0x00, 0x00],
        [3, 0xea, 0xea, 0x80, 0x91, 0x80, 0xbf, 0x00, 0x00],
        [3, 0xea, 0xea, 0x92, 0x92, 0x80, 0x8c, 0x00, 0x00],
        [3, 0xea, 0xea, 0x93, 0x93, 0x90, 0xbd, 0x00, 0x00],
        [3, 0xea, 0xea, 0x94, 0x97, 0x80, 0xbf, 0x00, 0x00],
        [3, 0xea, 0xea, 0x98, 0x98, 0x80, 0x8c, 0x00, 0x00],
        [3, 0xea, 0xea, 0x98, 0x98, 0x90, 0xab, 0x00, 0x00],
        [3, 0xea, 0xea, 0x99, 0x99, 0x80, 0xb2, 0x00, 0x00],
        [3, 0xea, 0xea, 0x99, 0x99, 0xb4, 0xbd, 0x00, 0x00],
        [3, 0xea, 0xea, 0x99, 0x99, 0xbf, 0xbf, 0x00, 0x00],
        [3, 0xea, 0xea, 0x9a, 0x9a, 0x80, 0xbf, 0x00, 0x00],
        [3, 0xea, 0xea, 0x9b, 0x9b, 0x80, 0xb1, 0x00, 0x00],
        [3, 0xea, 0xea, 0x9c, 0x9c, 0x97, 0x9f, 0x00, 0x00],
        [3, 0xea, 0xea, 0x9c, 0x9c, 0xa2, 0xbf, 0x00, 0x00],
        [3, 0xea, 0xea, 0x9d, 0x9d, 0x80, 0xbf, 0x00, 0x00],
        [3, 0xea, 0xea, 0x9e, 0x9e, 0x80, 0x88, 0x00, 0x00],
        [3, 0xea, 0xea, 0x9e, 0x9e, 0x8b, 0xbf, 0x00, 0x00],
        [3, 0xea, 0xea, 0x9f, 0x9f, 0x80, 0x8a, 0x00, 0x00],
        [3, 0xea, 0xea, 0x9f, 0x9f, 0x90, 0x91, 0x00, 0x00],
        [3, 0xea, 0xea, 0x9f, 0x9f, 0x93, 0x93, 0x00, 0x00],
        [3, 0xea, 0xea, 0x9f, 0x9f, 0x95, 0x99, 0x00, 0x00],
        [3, 0xea, 0xea, 0x9f, 0x9f, 0xb2, 0xbf, 0x00, 0x00],
        [3, 0xea, 0xea, 0xa0, 0xa0, 0x80, 0xa7, 0x00, 0x00],
        [3, 0xea, 0xea, 0xa0, 0xa0, 0xac, 0xac, 0x00, 0x00],
        [3, 0xea, 0xea, 0xa1, 0xa1, 0x80, 0xb3, 0x00, 0x00],
        [3, 0xea, 0xea, 0xa2, 0xa2, 0x80, 0xbf, 0x00, 0x00],
        [3, 0xea, 0xea, 0xa3, 0xa3, 0x80, 0x85, 0x00, 0x00],
        [3, 0xea, 0xea, 0xa3, 0xa3, 0x90, 0x99, 0x00, 0x00],
        [3, 0xea, 0xea, 0xa3, 0xa3, 0xa0, 0xb7, 0x00, 0x00],
        [3, 0xea, 0xea, 0xa3, 0xa3, 0xbb, 0xbb, 0x00, 0x00],
        [3, 0xea, 0xea, 0xa3, 0xa3, 0xbd, 0xbf, 0x00, 0x00],
        [3, 0xea, 0xea, 0xa4, 0xa4, 0x80, 0xad, 0x00, 0x00],
        [3, 0xea, 0xea, 0xa4, 0xa4, 0xb0, 0xbf, 0x00, 0x00],
        [3, 0xea, 0xea, 0xa5, 0xa5, 0x80, 0x93, 0x00, 0x00],
        [3, 0xea, 0xea, 0xa5, 0xa5, 0xa0, 0xbc, 0x00, 0x00],
        [3, 0xea, 0xea, 0xa6, 0xa6, 0x80, 0xbf, 0x00, 0x00],
        [3, 0xea, 0xea, 0xa7, 0xa7, 0x80, 0x80, 0x00, 0x00],
        [3, 0xea, 0xea, 0xa7, 0xa7, 0x8f, 0x99, 0x00, 0x00],
    ]
}

fn word_table_8() -> (v: Vec<[u8; 9]>)
    ensures
        v@ == word_rows_8(),
        v@.len() == 64,
{
    proof {
        reveal(word_rows_8);
    }
    vec![
        [3, 0xea, 0xea, 0xa7, 0xa7, 0xa0, 0xbe, 0x00, 0x00],
        [3, 0xea, 0xea, 0xa8, 0xa8, 0x80, 0xb6, 0x00, 0x00],
        [3, 0xea, 0xea, 0xa9, 0xa9, 0x80, 0x8d, 0x00, 0x00],
        [3, 0xea, 0xea, 0xa9, 0xa9, 0x90, 0x99, 0x00, 0x00],
        [3, 0xea, 0xea, 0xa9, 0xa9, 0xa0, 0xb6, 0x00, 0x00],
        [3, 0xea, 0xea, 0xa9, 0xa9, 0xba, 0xbf, 0x00, 0x00],
        [3, 0xea, 0xea, 0xaa, 0xaa, 0x80, 0xbf, 0x00, 0x00],
        [3, 0xea, 0xea, 0xab, 0xab, 0x80, 0x82, 0x00, 0x00],
        [3, 0xea, 0xea, 0xab, 0xab, 0x9b, 0x9d, 0x00, 0x00],
        [3, 0xea, 0xea, 0xab, 0xab, 0xa0, 0xaf, 0x00, 0x00],
        [3, 0xea, 0xea, 0xab, 0xab, 0xb2, 0xb6, 0x00, 0x00],
        [3, 0xea, 0xea, 0xac, 0xac, 0x81, 0x86, 0x00, 0x00],
        [3, 0xea, 0xea, 0xac, 0xac, 0x89, 0x8e, 0x00, 0x00],
        [3, 0xea, 0xea, 0xac, 0xac, 0x91, 0x96, 0x00, 0x00],
        [3, 0xea, 0xea, 0xac, 0xac, 0xa0, 0xa6, 0x00, 0x00],
        [3, 0xea, 0xea, 0xac, 0xac, 0xa8, 0xae, 0x00, 0x00],
        [3, 0xea, 0xea, 0xac, 0xac, 0xb0, 0xbf, 0x00, 0x00],
        [3, 0xea, 0xea, 0xad, 0xad, 0x80, 0x9a, 0x00, 0x00],
        [3, 0xea, 0xea, 0xad, 0xad, 0x9c, 0xa9, 0x00, 0x00],
        [3, 0xea, 0xea, 0xad, 0xad, 0xb0, 0xbf, 0x00, 0x00],
        [3, 0xea, 0xea, 0xae, 0xae, 0x80, 0xbf, 0x00, 0x00],
        [3, 0xea, 0xea, 0xaf, 0xaf, 0x80, 0xaa, 0x00, 0x00],
        [3, 0xea, 0xea, 0xaf, 0xaf, 0xac, 0xad, 0x00, 0x00],
        [3, 0xea, 0xea, 0xaf, 0xaf, 0xb0, 0xb9, 0x00, 0x00],
        [3, 0xea, 0xea, 0xb0, 0xbf, 0x80, 0xbf, 0x00, 0x00],
        [3, 0xeb, 0xec, 0x80, 0xbf, 0x80, 0xbf, 0x00, 0x00],
        [3, 0xed, 0xed, 0x80, 0x9d, 0x80, 0xbf, 0x00, 0x00],
        [3, 0xed, 0xed, 0x9e, 0x9e, 0x80, 0xa3, 0x00, 0x00],
        [3, 0xed, 0xed, 0x9e, 0x9e, 0xb0, 0xbf, 0x00, 0x00],
        [3, 0xed, 0xed, 0x9f, 0x9f, 0x80, 0x86, 0x00, 0x00],
        [3, 0xed, 0xed, 0x9f, 0x9f, 0x8b, 0xbb, 0x00, 0x00],
        [3, 0xef, 0xef, 0xa4, 0xa8, 0x80, 0xbf, 0x00, 0x00],
        [3, 0xef, 0xef, 0xa9, 0xa9, 0x80, 0xad, 0x00, 0x00],
        [3, 0xef, 0xef, 0xa9, 0xa9, 0xb0, 0xbf, 0x00, 0x00],
        [3, 0xef, 0xef, 0xaa, 0xaa, 0x80, 0xbf, 0x00, 0x00],
        [3, 0xef, 0xef, 0xab, 0xab, 0x80, 0x99, 0x00, 0x00],
        [3, 0xef, 0xef, 0xac, 0xac, 0x80, 0x86, 0x00, 0x00],
        [3, 0xef, 0xef, 0xac, 0xac, 0x93, 0x97, 0x00, 0x00],
        [3, 0xef, 0xef, 0xac, 0xac, 0x9d, 0xa8, 0x00, 0x00],
        [3, 0xef, 0xef, 0xac, 0xac, 0xaa, 0xb6, 0x00, 0x00],
        [3, 0xef, 0xef, 0xac, 0xac, 0xb8, 0xbc, 0x00, 0x00],
        [3, 0xef, 0xef, 0xac, 0xac, 0xbe, 0xbe, 0x00, 0x00],
        [3, 0xef, 0xef, 0xad, 0xad, 0x80, 0x81, 0x00, 0x00],
        [3, 0xef, 0xef, 0xad, 0xad, 0x83, 0x84, 0x00, 0x00],
        [3, 0xef, 0xef, 0xad, 0xad, 0x86, 0xbf, 0x00, 0x00],
        [3, 0xef, 0xef, 0xae, 0xae, 0x80, 0xb1, 0x00, 0x00],
        [3, 0xef, 0xef, 0xaf, 0xaf, 0x93, 0xbf, 0x00, 0x00],
        [3, 0xef, 0xef, 0xb0, 0xb3, 0x80, 0xbf, 0x00, 0x00],
        [3, 0xef, 0xef, 0xb4, 0xb4, 0x80, 0xbd, 0x00, 0x00],
        [3, 0xef, 0xef, 0xb5, 0xb5, 0x90, 0xbf, 0x00, 0x00],
        [3, 0xef, 0xef, 0xb6, 0xb6, 0x80, 0x8f, 0x00, 0x00],
        [3, 0xef, 0xef, 0xb6, 0xb6, 0x92, 0xbf, 0x00, 0x00],
        [3, 0xef, 0xef, 0xb7, 0xb7, 0x80, 0x87, 0x00, 0x00],
        [3, 0xef, 0xef, 0xb7, 0xb7, 0xb0, 0xbb, 0x00, 0x00],
        [3, 0xef, 0xef, 0xb8, 0xb8, 0x80, 0x8f, 0x00, 0x00],
        [3, 0xef, 0xef, 0xb8, 0xb8, 0xa0, 0xaf, 0x00, 0x00],
        [3, 0xef, 0xef, 0xb8, 0xb8, 0xb3, 0xb4, 0x00, 0x00],
        [3, 0xef, 0xef, 0xb9, 0xb9, 0x8d, 0x8f, 0x00, 0x00],
        [3, 0xef, 0xef, 0xb9, 0xb9, 0xb0, 0xb4, 0x00, 0x00],
        [3, 0xef, 0xef, 0xb9, 0xb9, 0xb6, 0xbf, 0x00, 0x00],
        [3, 0xef, 0xef, 0xba, 0xba, 0x80, 0xbf, 0x00, 0x00],
        [3, 0xef, 0xef, 0xbb, 0xbb, 0x80, 0xbc, 0x00, 0x00],
        [3, 0xef, 0xef, 0xbc, 0xbc, 0x90, 0x99, 0x00, 0x00],
        [3, 0xef, 0xef, 0xbc, 0xbc, 0xa1, 0xba, 0x00, 0x00],
    ]
}

fn word_table_9() -> (v: Vec<[u8; 9]>)
    ensures
        v@ == word_rows_9(),
        v@.len() == 64,
{
    proof {
        reveal(word_rows_9);
    }
    vec![
        [3, 0xef, 0xef, 0xbc, 0xbc, 0xbf, 0xbf, 0x00, 0x00],
        [3, 0xef, 0xef, 0xbd, 0xbd, 0x81, 0x9a, 0x00, 0x00],
        [3, 0xef, 0xef, 0xbd, 0xbd, 0xa6, 0xbf, 0x00, 0x00],
        [3, 0xef, 0xef, 0xbe, 0xbe, 0x80, 0xbe, 0x00, 0x00],
        [3, 0xef, 0xef, 0xbf, 0xbf, 0x82, 0x87, 0x00, 0x00],
        [3, 0xef, 0xef, 0xbf, 0xbf, 0x8a, 0x8f, 0x00, 0x00],
        [3, 0xef, 0xef, 0xbf, 0xbf, 0x92, 0x97, 0x00, 0x00],
        [3, 0xef, 0xef, 0xbf, 0xbf, 0x9a, 0x9c, 0x00, 0x00],
        [4, 0xf0, 0xf0, 0x90, 0x90, 0x80, 0x80, 0x80, 0x8b],
        [4, 0xf0, 0xf0, 0x90, 0x90, 0x80, 0x80, 0x8d, 0xa6],
        [4, 0xf0, 0xf0, 0x90, 0x90, 0x80, 0x80, 0xa8, 0xba],
        [4, 0xf0, 0xf0, 0x90, 0x90, 0x80, 0x80, 0xbc, 0xbd],
        [4, 0xf0, 0xf0, 0x90, 0x90, 0x80, 0x80, 0xbf, 0xbf],
        [4, 0xf0, 0xf0, 0x90, 0x90, 0x81, 0x81, 0x80, 0x8d],
        [4, 0xf0, 0xf0, 0x90, 0x90, 0x81, 0x81, 0x90, 0x9d],
        [4, 0xf0, 0xf0, 0x90, 0x90, 0x82, 0x82, 0x80, 0xbf],
        [4, 0xf0, 0xf0, 0x90, 0x90, 0x83, 0x83, 0x80, 0xba],
        [4, 0xf0, 0xf0, 0x90, 0x90, 0x85, 0x85, 0x80, 0xb4],
        [4, 0xf0, 0xf0, 0x90, 0x90, 0x87, 0x87, 0xbd, 0xbd],
        [4, 0xf0, 0xf0, 0x90, 0x90, 0x8a, 0x8a, 0x80, 0x9c],
        [4, 0xf0, 0xf0, 0x90, 0x90, 0x8a, 0x8a, 0xa0, 0xbf],
        [4, 0xf0, 0xf0, 0x90, 0x90, 0x8b, 0x8b, 0x80, 0x90],
        [4, 0xf0, 0xf0, 0x90, 0x90, 0x8b, 0x8b, 0xa0, 0xa0],
        [4, 0xf0, 0xf0, 0x90, 0x90, 0x8c, 0x8c, 0x80, 0x9f],
        [4, 0xf0, 0xf0, 0x90, 0x90, 0x8c, 0x8c, 0xad, 0xbf],
        [4, 0xf0, 0xf0, 0x90, 0x90, 0x8d, 0x8d, 0x80, 0x8a],
        [4, 0xf0, 0xf0, 0x90, 0x90, 0x8d, 0x8d, 0x90, 0xba],
        [4, 0xf0, 0xf0, 0x90, 0x90, 0x8e, 0x8e, 0x80, 0x9d],
        [4, 0xf0, 0xf0, 0x90, 0x90, 0x8e, 0x8e, 0xa0, 0xbf],
        [4, 0xf0, 0xf0, 0x90, 0x90, 0x8f, 0x8f, 0x80, 0x83],
        [4, 0xf0, 0xf0, 0x90, 0x90, 0x8f, 0x8f, 0x88, 0x8f],
        [4, 0xf0, 0xf0, 0x90, 0x90, 0x8f, 0x8f, 0x91, 0x95],
        [4, 0xf0, 0xf0, 0x90, 0x90, 0x90, 0x91, 0x80, 0xbf],
        [4, 0xf0, 0xf0, 0x90, 0x90, 0x92, 0x92, 0x80, 0x9d],
        [4, 0xf0, 0xf0, 0x90, 0x90, 0x92, 0x92, 0xa0, 0xa9],
        [4, 0xf0, 0xf0, 0x90, 0x90, 0x92, 0x92, 0xb0, 0xbf],
        [4, 0xf0, 0xf0, 0x90, 0x90, 0x93, 0x93, 0x80, 0x93],
        [4, 0xf0, 0xf0, 0x90, 0x90, 0x93, 0x93, 0x98, 0xbb],
        [4, 0xf0, 0xf0, 0x90, 0x90, 0x94, 0x94, 0x80, 0xa7],
        [4, 0xf0, 0xf0, 0x90, 0x90, 0x94, 0x94, 0xb0, 0xbf],
        [4, 0xf0, 0xf0, 0x90, 0x90, 0x95, 0x95, 0x80, 0xa3],
        [4, 0xf0, 0xf0, 0x90, 0x90, 0x95, 0x95, 0xb0, 0xba],
        [4, 0xf0, 0xf0, 0x90, 0x90, 0x95, 0x95, 0xbc, 0xbf],
        [4, 0xf0, 0xf0, 0x90, 0x90, 0x96, 0x96, 0x80, 0x8a],
        [4, 0xf0, 0xf0, 0x90, 0x90, 0x96, 0x96, 0x8c, 0x92],
        [4, 0xf0, 0xf0, 0x90, 0x90, 0x96, 0x96, 0x94, 0x95],
        [4, 0xf0, 0xf0, 0x90, 0x90, 0x96, 0x96, 0x97, 0xa1],
        [4, 0xf0, 0xf0, 0x90, 0x90, 0x96, 0x96, 0xa3, 0xb1],
        [4, 0xf0, 0xf0, 0x90, 0x90, 0x96, 0x96, 0xb3, 0xb9],
        [4, 0xf0, 0xf0, 0x90, 0x90, 0x96, 0x96, 0xbb, 0xbc],
        [4, 0xf0, 0xf0, 0x90, 0x90, 0x98, 0x9b, 0x80, 0xbf],
        [4, 0xf0, 0xf0, 0x90, 0x90, 0x9c, 0x9c, 0x80, 0xb6],
        [4, 0xf0, 0xf0, 0x90, 0x90, 0x9d, 0x9d, 0x80, 0x95],
        [4, 0xf0, 0xf0, 0x90, 0x90, 0x9d, 0x9d, 0xa0, 0xa7],
        [4, 0xf0, 0xf0, 0x90, 0x90, 0x9e, 0x9e, 0x80, 0x85],
        [4, 0xf0, 0xf0, 0x90, 0x90, 0x9e, 0x9e, 0x87, 0xb0],
        [4, 0xf0, 0xf0, 0x90, 0x90, 0x9e, 0x9e, 0xb2, 0xba],
        [4, 0xf0, 0xf0, 0x90, 0x90, 0xa0, 0xa0, 0x80, 0x85],
        [4, 0xf0, 0xf0, 0x90, 0x90, 0xa0, 0xa0, 0x88, 0x88],
        [4, 0xf0, 0xf0, 0x90, 0x90, 0xa0, 0xa0, 0x8a, 0xb5],
        [4, 0xf0, 0xf0, 0x90, 0x90, 0xa0, 0xa0, 0xb7, 0xb8],
        [4, 0xf0, 0xf0, 0x90, 0x90, 0xa0, 0xa0, 0xbc, 0xbc],
        [4, 0xf0, 0xf0, 0x90, 0x90, 0xa0, 0xa0, 0xbf, 0xbf],
        [4, 0xf0, 0xf0, 0x90, 0x90, 0xa1, 0xa1, 0x80, 0x95],
    ]
}

fn word_table_10() -> (v: Vec<[u8; 9]>)
    ensures
        v@ == word_rows_10(),
        v@.len() == 64,
{
    proof {
        reveal(word_rows_10);
    }
    vec![
        [4, 0xf0, 0xf0, 0x90, 0x90, 0xa1, 0xa1, 0xa0, 0xb6],
        [4, 0xf0, 0xf0, 0x90, 0x90, 0xa2, 0xa2, 0x80, 0x9e],
        [4, 0xf0, 0xf0, 0x90, 0x90, 0xa3, 0xa3, 0xa0, 0xb2],
        [4, 0xf0, 0xf0, 0x90, 0x90, 0xa3, 0xa3, 0xb4, 0xb5],
        [4, 0xf0, 0xf0, 0x90, 0x90, 0xa4, 0xa4, 0x80, 0x95],
        [4, 0xf0, 0xf0, 0x90, 0x90, 0xa4, 0xa4, 0xa0, 0xb9],
        [4, 0xf0, 0xf0, 0x90, 0x90, 0xa6, 0xa6, 0x80, 0xb7],
        [4, 0xf0, 0xf0, 0x90, 0x90, 0xa6, 0xa6, 0xbe, 0xbf],
        [4, 0xf0, 0xf0, 0x90, 0x90, 0xa8, 0xa8, 0x80, 0x83],
        [4, 0xf0, 0xf0, 0x90, 0x90, 0xa8, 0xa8, 0x85, 0x86],
        [4, 0xf0, 0xf0, 0x90, 0x90, 0xa8, 0xa8, 0x8c, 0x93],
        [4, 0xf0, 0xf0, 0x90, 0x90, 0xa8, 0xa8, 0x95, 0x97],
        [4, 0xf0, 0xf0, 0x90, 0x90, 0xa8, 0xa8, 0x99, 0xb5],
        [4, 0xf0, 0xf0, 0x90, 0x90, 0xa8, 0xa8, 0xb8, 0xba],
        [4, 0xf0, 0xf0, 0x90, 0x90, 0xa8, 0xa8, 0xbf, 0xbf],
        [4, 0xf0, 0xf0, 0x90, 0x90, 0xa9, 0xa9, 0xa0, 0xbc],
        [4, 0xf0, 0xf0, 0x90, 0x90, 0xaa, 0xaa, 0x80, 0x9c],
        [4, 0xf0, 0xf0, 0x90, 0x90, 0xab, 0xab, 0x80, 0x87],
        [4, 0xf0, 0xf0, 0x90, 0x90, 0xab, 0xab, 0x89, 0xa6],
        [4, 0xf0, 0xf0, 0x90, 0x90, 0xac, 0xac, 0x80, 0xb5],
        [4, 0xf0, 0xf0, 0x90, 0x90, 0xad, 0xad, 0x80, 0x95],
        [4, 0xf0, 0xf0, 0x90, 0x90, 0xad, 0xad, 0xa0, 0xb2],
        [4, 0xf0, 0xf0, 0x90, 0x90, 0xae, 0xae, 0x80, 0x91],
        [4, 0xf0, 0xf0, 0x90, 0x90, 0xb0, 0xb0, 0x80, 0xbf],
        [4, 0xf0, 0xf0, 0x90, 0x90, 0xb1, 0xb1, 0x80, 0x88],
        [4, 0xf0, 0xf0, 0x90, 0x90, 0xb2, 0xb2, 0x80, 0xb2],
        [4, 0xf0, 0xf0, 0x90, 0x90, 0xb3, 0xb3, 0x80, 0xb2],
        [4, 0xf0, 0xf0, 0x90, 0x90, 0xb4, 0xb4, 0x80, 0xa7],
        [4, 0xf0, 0xf0, 0x90, 0x90, 0xb4, 0xb4, 0xb0, 0xb9],
        [4, 0xf0, 0xf0, 0x90, 0x90, 0xba, 0xba, 0x80, 0xa9],
        [4, 0xf0, 0xf0, 0x90, 0x90, 0xba, 0xba, 0xab, 0xac],
        [4, 0xf0, 0xf0, 0x90, 0x90, 0xba, 0xba, 0xb0, 0xb1],
        [4, 0xf0, 0xf0, 0x90, 0x90, 0xbc, 0xbc, 0x80, 0x9c],
        [4, 0xf0, 0xf0, 0x90, 0x90, 0xbc, 0xbc, 0xa7, 0xa7],
        [4, 0xf0, 0xf0, 0x90, 0x90, 0xbc, 0xbc, 0xb0, 0xbf],
        [4, 0xf0, 0xf0, 0x90, 0x90, 0xbd, 0xbd, 0x80, 0x90],
        [4, 0xf0, 0xf0, 0x90, 0x90, 0xbd, 0xbd, 0xb0, 0xbf],
        [4, 0xf0, 0xf0, 0x90, 0x90, 0xbe, 0xbe, 0x80, 0x85],
        [4, 0xf0, 0xf0, 0x90, 0x90, 0xbe, 0xbe, 0xb0, 0xbf],
        [4, 0xf0, 0xf0, 0x90, 0x90, 0xbf, 0xbf, 0x80, 0x84],
        [4, 0xf0, 0xf0, 0x90, 0x90, 0xbf, 0xbf, 0xa0, 0xb6],
        [4, 0xf0, 0xf0, 0x91, 0x91, 0x80, 0x80, 0x80, 0xbf],
        [4, 0xf0, 0xf0, 0x91, 0x91, 0x81, 0x81, 0x80, 0x86],
        [4, 0xf0, 0xf0, 0x91, 0x91, 0x81, 0x81, 0xa6, 0xb5],
        [4, 0xf0, 0xf0, 0x91, 0x91, 0x81, 0x81, 0xbf, 0xbf],
        [4, 0xf0, 0xf0, 0x91, 0x91, 0x82, 0x82, 0x80, 0xba],
        [4, 0xf0, 0xf0, 0x91, 0x91, 0x83, 0x83, 0x82, 0x82],
        [4, 0xf0, 0xf0, 0x91, 0x91, 0x83, 0x83, 0x90, 0xa8],
        [4, 0xf0, 0xf0, 0x91, 0x91, 0x83, 0x83, 0xb0, 0xb9],
        [4, 0xf0, 0xf0, 0x91, 0x91, 0x84, 0x84, 0x80, 0xb4],
        [4, 0xf0, 0xf0, 0x91, 0x91, 0x84, 0x84, 0xb6, 0xbf],
        [4, 0xf0, 0xf0, 0x91, 0x91, 0x85, 0x85, 0x84, 0x87],
        [4, 0xf0, 0xf0, 0x91, 0x91, 0x85, 0x85, 0x90, 0xb3],
        [4, 0xf0, 0xf0, 0x91, 0x91, 0x85, 0x85, 0xb6, 0xb6],
        [4, 0xf0, 0xf0, 0x91, 0x91, 0x86, 0x86, 0x80, 0xbf],
        [4, 0xf0, 0xf0, 0x91, 0x91, 0x87, 0x87, 0x80, 0x84],
        [4, 0xf0, 0xf0, 0x91, 0x91, 0x87, 0x87, 0x89, 0x8c],
        [4, 0xf0, 0xf0, 0x91, 0x91, 0x87, 0x87, 0x8e, 0x9a],
        [4, 0xf0, 0xf0, 0x91, 0x91, 0x87, 0x87, 0x9c, 0x9c],
        [4, 0xf0, 0xf0, 0x91, 0x91, 0x88, 0x88, 0x80, 0x91],
        [4, 0xf0, 0xf0, 0x91, 0x91, 0x88, 0x88, 0x93, 0xb7],
        [4, 0xf0, 0xf0, 0x91, 0x91, 0x88, 0x88, 0xbe, 0xbe],
        [4, 0xf0, 0xf0, 0x91, 0x91, 0x8a, 0x8a, 0x80, 0x86],
        [4, 0xf0, 0xf0, 0x91, 0x91, 0x8a, 0x8a, 0x88, 0x88],
    ]
}

fn word_table_11() -> (v: Vec<[u8; 9]>)
    ensures
        v@ == word_rows_11(),
        v@.len() == 64,
{
    proof {
        reveal(word_rows_11);
    }
    vec![
        [4, 0xf0, 0xf0, 0x91, 0x91, 0x8a, 0x8a, 0x8a, 0x8d],
        [4, 0xf0, 0xf0, 0x91, 0x91, 0x8a, 0x8a, 0x8f, 0x9d],
        [4, 0xf0, 0xf0, 0x91, 0x91, 0x8a, 0x8a, 0x9f, 0xa8],
        [4, 0xf0, 0xf0, 0x91, 0x91, 0x8a, 0x8a, 0xb0, 0xbf],
        [4, 0xf0, 0xf0, 0x91, 0x91, 0x8b, 0x8b, 0x80, 0xaa],
        [4, 0xf0, 0xf0, 0x91, 0x91, 0x8b, 0x8b, 0xb0, 0xb9],
        [4, 0xf0, 0xf0, 0x91, 0x91, 0x8c, 0x8c, 0x80, 0x83],
        [4, 0xf0, 0xf0, 0x91, 0x91, 0x8c, 0x8c, 0x85, 0x8c],
        [4, 0xf0, 0xf0, 0x91, 0x91, 0x8c, 0x8c, 0x8f, 0x90],
        [4, 0xf0, 0xf0, 0x91, 0x91, 0x8c, 0x8c, 0x93, 0xa8],
        [4, 0xf0, 0xf0, 0x91, 0x91, 0x8c, 0x8c, 0xaa, 0xb0],
        [4, 0xf0, 0xf0, 0x91, 0x91, 0x8c, 0x8c, 0xb2, 0xb3],
        [4, 0xf0, 0xf0, 0x91, 0x91, 0x8c, 0x8c, 0xb5, 0xb9],
        [4, 0xf0, 0xf0, 0x91, 0x91, 0x8c, 0x8c, 0xbb, 0xbf],
        [4, 0xf0, 0xf0, 0x91, 0x91, 0x8d, 0x8d, 0x80, 0x84],
        [4, 0xf0, 0xf0, 0x91, 0x91, 0x8d, 0x8d, 0x87, 0x88],
        [4, 0xf0, 0xf0, 0x91, 0x91, 0x8d, 0x8d, 0x8b, 0x8d],
        [4, 0xf0, 0xf0, 0x91, 0x91, 0x8d, 0x8d, 0x90, 0x90],
        [4, 0xf0, 0xf0, 0x91, 0x91, 0x8d, 0x8d, 0x97, 0x97],
        [4, 0xf0, 0xf0, 0x91, 0x91, 0x8d, 0x8d, 0x9d, 0xa3],
        [4, 0xf0, 0xf0, 0x91, 0x91, 0x8d, 0x8d, 0xa6, 0xac],
        [4, 0xf0, 0xf0, 0x91, 0x91, 0x8d, 0x8d, 0xb0, 0xb4],
        [4, 0xf0, 0xf0, 0x91, 0x91, 0x90, 0x90, 0x80, 0xbf],
        [4, 0xf0, 0xf0, 0x91, 0x91, 0x91, 0x91, 0x80, 0x8a],
        [4, 0xf0, 0xf0, 0x91, 0x91, 0x91, 0x91, 0x90, 0x99],
        [4, 0xf0, 0xf0, 0x91, 0x91, 0x91, 0x91, 0x9e, 0xa1],
        [4, 0xf0, 0xf0, 0x91, 0x91, 0x92, 0x92, 0x80, 0xbf],
        [4, 0xf0, 0xf0, 0x91, 0x91, 0x93, 0x93, 0x80, 0x85],
        [4, 0xf0, 0xf0, 0x91, 0x91, 0x93, 0x93, 0x87, 0x87],
        [4, 0xf0, 0xf0, 0x91, 0x91, 0x93, 0x93, 0x90, 0x99],
        [4, 0xf0, 0xf0, 0x91, 0x91, 0x96, 0x96, 0x80, 0xb5],
        [4, 0xf0, 0xf0, 0x91, 0x91, 0x96, 0x96, 0xb8, 0xbf],
        [4, 0xf0, 0xf0, 0x91, 0x91, 0x97, 0x97, 0x80, 0x80],
        [4, 0xf0, 0xf0, 0x91, 0x91, 0x97, 0x97, 0x98, 0x9d],
        [4, 0xf0, 0xf0, 0x91, 0x91, 0x98, 0x98, 0x80, 0xbf],
        [4, 0xf0, 0xf0, 0x91, 0x91, 0x99, 0x99, 0x80, 0x80],
        [4, 0xf0, 0xf0, 0x91, 0x91, 0x99, 0x99, 0x84, 0x84],
        [4, 0xf0, 0xf0, 0x91, 0x91, 0x99, 0x99, 0x90, 0x99],
        [4, 0xf0, 0xf0, 0x91, 0x91, 0x9a, 0x9a, 0x80, 0xb8],
        [4, 0xf0, 0xf0, 0x91, 0x91, 0x9b, 0x9b, 0x80, 0x89],
        [4, 0xf0, 0xf0, 0x91, 0x91, 0x9c, 0x9c, 0x80, 0x9a],
        [4, 0xf0, 0xf0, 0x91, 0x91, 0x9c, 0x9c, 0x9d, 0xab],
        [4, 0xf0, 0xf0, 0x91, 0x91, 0x9c, 0x9c, 0xb0, 0xb9],
        [4, 0xf0, 0xf0, 0x91, 0x91, 0x9d, 0x9d, 0x80, 0x86],
        [4, 0xf0, 0xf0, 0x91, 0x91, 0xa0, 0xa0, 0x80, 0xba],
        [4, 0xf0, 0xf0, 0x91, 0x91, 0xa2, 0xa2, 0xa0, 0xbf],
        [4, 0xf0, 0xf0, 0x91, 0x91, 0xa3, 0xa3, 0x80, 0xa9],
        [4, 0xf0, 0xf0, 0x91, 0x91, 0xa3, 0xa3, 0xbf, 0xbf],
        [4, 0xf0, 0xf0, 0x91, 0x91, 0xa4, 0xa4, 0x80, 0x86],
        [4, 0xf0, 0xf0, 0x91, 0x91, 0xa4, 0xa4, 0x89, 0x89],
        [4, 0xf0, 0xf0, 0x91, 0x91, 0xa4, 0xa4, 0x8c, 0x93],
        [4, 0xf0, 0xf0, 0x91, 0x91, 0xa4, 0xa4, 0x95, 0x96],
        [4, 0xf0, 0xf0, 0x91, 0x91, 0xa4, 0xa4, 0x98, 0xb5],
        [4, 0xf0, 0xf0, 0x91, 0x91, 0xa4, 0xa4, 0xb7, 0xb8],
        [4, 0xf0, 0xf0, 0x91, 0x91, 0xa4, 0xa4, 0xbb, 0xbf],
        [4, 0xf0, 0xf0, 0x91, 0x91, 0xa5, 0xa5, 0x80, 0x83],
        [4, 0xf0, 0xf0, 0x91, 0x91, 0xa5, 0xa5, 0x90, 0x99],
        [4, 0xf0, 0xf0, 0x91, 0x91, 0xa6, 0xa6, 0xa0, 0xa7],
        [4, 0xf0, 0xf0, 0x91, 0x91, 0xa6, 0xa6, 0xaa, 0xbf],
        [4, 0xf0, 0xf0, 0x91, 0x91, 0xa7, 0xa7, 0x80, 0x97],
        [4, 0xf0, 0xf0, 0x91, 0x91, 0xa7, 0xa7, 0x9a, 0xa1],
        [4, 0xf0, 0xf0, 0x91, 0x91, 0xa7, 0xa7, 0xa3, 0xa4],
        [4, 0xf0, 0xf0, 0x91, 0x91, 0xa8, 0xa8, 0x80, 0xbe],
        [4, 0xf0, 0xf0, 0x91, 0x91, 0xa9, 0xa9, 0x87, 0x87],
    ]
}

fn word_table_12() -> (v: Vec<[u8; 9]>)
    ensures
        v@ == word_rows_12(),
        v@.len() == 64,
{
    proof {
        reveal(word_rows_12);
    }
    vec![
        [4, 0xf0, 0xf0, 0x91, 0x91, 0xa9, 0xa9, 0x90, 0xbf],
        [4, 0xf0, 0xf0, 0x91, 0x91, 0xaa, 0xaa, 0x80, 0x99],
        [4, 0xf0, 0xf0, 0x91, 0x91, 0xaa, 0xaa, 0x9d, 0x9d],
        [4, 0xf0, 0xf0, 0x91, 0x91, 0xaa, 0xaa, 0xb0, 0xbf],
        [4, 0xf0, 0xf0, 0x91, 0x91, 0xab, 0xab, 0x80, 0xb8],
        [4, 0xf0, 0xf0, 0x91, 0x91, 0xb0, 0xb0, 0x80, 0x88],
        [4, 0xf0, 0xf0, 0x91, 0x91, 0xb0, 0xb0, 0x8a, 0xb6],
        [4, 0xf0, 0xf0, 0x91, 0x91, 0xb0, 0xb0, 0xb8, 0xbf],
        [4, 0xf0, 0xf0, 0x91, 0x91, 0xb1, 0xb1, 0x80, 0x80],
        [4, 0xf0, 0xf0, 0x91, 0x91, 0xb1, 0xb1, 0x90, 0x99],
        [4, 0xf0, 0xf0, 0x91, 0x91, 0xb1, 0xb1, 0xb2, 0xbf],
        [4, 0xf0, 0xf0, 0x91, 0x91, 0xb2, 0xb2, 0x80, 0x8f],
        [4, 0xf0, 0xf0, 0x91, 0x91, 0xb2, 0xb2, 0x92, 0xa7],
        [4, 0xf0, 0xf0, 0x91, 0x91, 0xb2, 0xb2, 0xa9, 0xb6],
        [4, 0xf0, 0xf0, 0x91, 0x91, 0xb4, 0xb4, 0x80, 0x86],
        [4, 0xf0, 0xf0, 0x91, 0x91, 0xb4, 0xb4, 0x88, 0x89],
        [4, 0xf0, 0xf0, 0x91, 0x91, 0xb4, 0xb4, 0x8b, 0xb6],
        [4, 0xf0, 0xf0, 0x91, 0x91, 0xb4, 0xb4, 0xba, 0xba],
        [4, 0xf0, 0xf0, 0x91, 0x91, 0xb4, 0xb4, 0xbc, 0xbd],
        [4, 0xf0, 0xf0, 0x91, 0x91, 0xb4, 0xb4, 0xbf, 0xbf],
        [4, 0xf0, 0xf0, 0x91, 0x91, 0xb5, 0xb5, 0x80, 0x87],
        [4, 0xf0, 0xf0, 0x91, 0x91, 0xb5, 0xb5, 0x90, 0x99],
        [4, 0xf0, 0xf0, 0x91, 0x91, 0xb5, 0xb5, 0xa0, 0xa5],
        [4, 0xf0, 0xf0, 0x91, 0x91, 0xb5, 0xb5, 0xa7, 0xa8],
        [4, 0xf0, 0xf0, 0x91, 0x91, 0xb5, 0xb5, 0xaa, 0xbf],
        [4, 0xf0, 0xf0, 0x91, 0x91, 0xb6, 0xb6, 0x80, 0x8e],
        [4, 0xf0, 0xf0, 0x91, 0x91, 0xb6, 0xb6, 0x90, 0x91],
        [4, 0xf0, 0xf0, 0x91, 0x91, 0xb6, 0xb6, 0x93, 0x98],
        [4, 0xf0, 0xf0, 0x91, 0x91, 0xb6, 0xb6, 0xa0, 0xa9],
        [4, 0xf0, 0xf0, 0x91, 0x91, 0xbb, 0xbb, 0xa0, 0xb6],
        [4, 0xf0, 0xf0, 0x91, 0x91, 0xbe, 0xbe, 0xb0, 0xb0],
        [4, 0xf0, 0xf0, 0x92, 0x92, 0x80, 0x8d, 0x80, 0xbf],
        [4, 0xf0, 0xf0, 0x92, 0x92, 0x8e, 0x8e, 0x80, 0x99],
        [4, 0xf0, 0xf0, 0x92, 0x92, 0x90, 0x90, 0x80, 0xbf],
        [4, 0xf0, 0xf0, 0x92, 0x92, 0x91, 0x91, 0x80, 0xae],
        [4, 0xf0, 0xf0, 0x92, 0x92, 0x92, 0x94, 0x80, 0xbf],
        [4, 0xf0, 0xf0, 0x92, 0x92, 0x95, 0x95, 0x80, 0x83],
        [4, 0xf0, 0xf0, 0x92, 0x92, 0xbe, 0xbe, 0x90, 0xbf],
        [4, 0xf0, 0xf0, 0x92, 0x92, 0xbf, 0xbf, 0x80, 0xb0],
        [4, 0xf0, 0xf0, 0x93, 0x93, 0x80, 0x8f, 0x80, 0xbf],
        [4, 0xf0, 0xf0, 0x93, 0x93, 0x90, 0x90, 0x80, 0xae],
        [4, 0xf0, 0xf0, 0x94, 0x94, 0x90, 0x98, 0x80, 0xbf],
        [4, 0xf0, 0xf0, 0x94, 0x94, 0x99, 0x99, 0x80, 0x86],
        [4, 0xf0, 0xf0, 0x96, 0x96, 0xa0, 0xa7, 0x80, 0xbf],
        [4, 0xf0, 0xf0, 0x96, 0x96, 0xa8, 0xa8, 0x80, 0xb8],
        [4, 0xf0, 0xf0, 0x96, 0x96, 0xa9, 0xa9, 0x80, 0x9e],
        [4, 0xf0, 0xf0, 0x96, 0x96, 0xa9, 0xa9, 0xa0, 0xa9],
        [4, 0xf0, 0xf0, 0x96, 0x96, 0xa9, 0xa9, 0xb0, 0xbf],
        [4, 0xf0, 0xf0, 0x96, 0x96, 0xaa, 0xaa, 0x80, 0xbe],
        [4, 0xf0, 0xf0, 0x96, 0x96, 0xab, 0xab, 0x80, 0x89],
        [4, 0xf0, 0xf0, 0x96, 0x96, 0xab, 0xab, 0x90, 0xad],
        [4, 0xf0, 0xf0, 0x96, 0x96, 0xab, 0xab, 0xb0, 0xb4],
        [4, 0xf0, 0xf0, 0x96, 0x96, 0xac, 0xac, 0x80, 0xb6],
        [4, 0xf0, 0xf0, 0x96, 0x96, 0xad, 0xad, 0x80, 0x83],
        [4, 0xf0, 0xf0, 0x96, 0x96, 0xad, 0xad, 0x90, 0x99],
        [4, 0xf0, 0xf0, 0x96, 0x96, 0xad, 0xad, 0xa3, 0xb7],
        [4, 0xf0, 0xf0, 0x96, 0x96, 0xad, 0xad, 0xbd, 0xbf],
        [4, 0xf0, 0xf0, 0x96, 0x96, 0xae, 0xae, 0x80, 0x8f],
        [4, 0xf0, 0xf0, 0x96, 0x96, 0xb9, 0xb9, 0x80, 0xbf],
        [4, 0xf0, 0xf0, 0x96, 0x96, 0xbc, 0xbc, 0x80, 0xbf],
        [4, 0xf0, 0xf0, 0x96, 0x96, 0xbd, 0xbd, 0x80, 0x8a],
        [4, 0xf0, 0xf0, 0x96, 0x96, 0xbd, 0xbd, 0x8f, 0xbf],
        [4, 0xf0, 0xf0, 0x96, 0x96, 0xbe, 0xbe, 0x80, 0x87],
        [4, 0xf0, 0xf0, 0x96, 0x96, 0xbe, 0xbe, 0x8f, 0x9f],
    ]
}

fn word_table_13() -> (v: Vec<[u8; 9]>)
    ensures
        v@ == word_rows_13(),
        v@.len() == 64,
{
    proof {
        reveal(word_rows_13);
    }
    vec![
        [4, 0xf0, 0xf0, 0x96, 0x96, 0xbf, 0xbf, 0xa0, 0xa1],
        [4, 0xf0, 0xf0, 0x96, 0x96, 0xbf, 0xbf, 0xa3, 0xa4],
        [4, 0xf0, 0xf0, 0x96, 0x96, 0xbf, 0xbf, 0xb0, 0xb1],
        [4, 0xf0, 0xf0, 0x97, 0x97, 0x80, 0xbf, 0x80, 0xbf],
        [4, 0xf0, 0xf0, 0x98, 0x98, 0x80, 0x9e, 0x80, 0xbf],
        [4, 0xf0, 0xf0, 0x98, 0x98, 0x9f, 0x9f, 0x80, 0xb7],
        [4, 0xf0, 0xf0, 0x98, 0x98, 0xa0, 0xb2, 0x80, 0xbf],
        [4, 0xf0, 0xf0, 0x98, 0x98, 0xb3, 0xb3, 0x80, 0x95],
        [4, 0xf0, 0xf0, 0x98, 0x98, 0xb4, 0xb4, 0x80, 0x88],
        [4, 0xf0, 0xf0, 0x9a, 0x9a, 0xbf, 0xbf, 0xb0, 0xb3],
        [4, 0xf0, 0xf0, 0x9a, 0x9a, 0xbf, 0xbf, 0xb5, 0xbb],
        [4, 0xf0, 0xf0, 0x9a, 0x9a, 0xbf, 0xbf, 0xbd, 0xbe],
        [4, 0xf0, 0xf0, 0x9b, 0x9b, 0x80, 0x83, 0x80, 0xbf],
        [4, 0xf0, 0xf0, 0x9b, 0x9b, 0x84, 0x84, 0x80, 0xa2],
        [4, 0xf0, 0xf0, 0x9b, 0x9b, 0x85, 0x85, 0x90, 0x92],
        [4, 0xf0, 0xf0, 0x9b, 0x9b, 0x85, 0x85, 0xa4, 0xa7],
        [4, 0xf0, 0xf0, 0x9b, 0x9b, 0x85, 0x85, 0xb0, 0xbf],
        [4, 0xf0, 0xf0, 0x9b, 0x9b, 0x86, 0x8a, 0x80, 0xbf],
        [4, 0xf0, 0xf0, 0x9b, 0x9b, 0x8b, 0x8b, 0x80, 0xbb],
        [4, 0xf0, 0xf0, 0x9b, 0x9b, 0xb0, 0xb0, 0x80, 0xbf],
        [4, 0xf0, 0xf0, 0x9b, 0x9b, 0xb1, 0xb1, 0x80, 0xaa],
        [4, 0xf0, 0xf0, 0x9b, 0x9b, 0xb1, 0xb1, 0xb0, 0xbc],
        [4, 0xf0, 0xf0, 0x9b, 0x9b, 0xb2, 0xb2, 0x80, 0x88],
        [4, 0xf0, 0xf0, 0x9b, 0x9b, 0xb2, 0xb2, 0x90, 0x99],
        [4, 0xf0, 0xf0, 0x9b, 0x9b, 0xb2, 0xb2, 0x9d, 0x9e],
        [4, 0xf0, 0xf0, 0x9c, 0x9c, 0xbc, 0xbc, 0x80, 0xad],
        [4, 0xf0, 0xf0, 0x9c, 0x9c, 0xbc, 0xbc, 0xb0, 0xbf],
        [4, 0xf0, 0xf0, 0x9c, 0x9c, 0xbd, 0xbd, 0x80, 0x86],
        [4, 0xf0, 0xf0, 0x9d, 0x9d, 0x85, 0x85, 0xa5, 0xa9],
        [4, 0xf0, 0xf0, 0x9d, 0x9d, 0x85, 0x85, 0xad, 0xb2],
        [4, 0xf0, 0xf0, 0x9d, 0x9d, 0x85, 0x85, 0xbb, 0xbf],
        [4, 0xf0, 0xf0, 0x9d, 0x9d, 0x86, 0x86, 0x80, 0x82],
        [4, 0xf0, 0xf0, 0x9d, 0x9d, 0x86, 0x86, 0x85, 0x8b],
        [4, 0xf0, 0xf0, 0x9d, 0x9d, 0x86, 0x86, 0xaa, 0xad],
        [4, 0xf0, 0xf0, 0x9d, 0x9d, 0x89, 0x89, 0x82, 0x84],
        [4, 0xf0, 0xf0, 0x9d, 0x9d, 0x90, 0x90, 0x80, 0xbf],
        [4, 0xf0, 0xf0, 0x9d, 0x9d, 0x91, 0x91, 0x80, 0x94],
        [4, 0xf0, 0xf0, 0x9d, 0x9d, 0x91, 0x91, 0x96, 0xbf],
        [4, 0xf0, 0xf0, 0x9d, 0x9d, 0x92, 0x92, 0x80, 0x9c],
        [4, 0xf0, 0xf0, 0x9d, 0x9d, 0x92, 0x92, 0x9e, 0x9f],
        [4, 0xf0, 0xf0, 0x9d, 0x9d, 0x92, 0x92, 0xa2, 0xa2],
        [4, 0xf0, 0xf0, 0x9d, 0x9d, 0x92, 0x92, 0xa5, 0xa6],
        [4, 0xf0, 0xf0, 0x9d, 0x9d, 0x92, 0x92, 0xa9, 0xac],
        [4, 0xf0, 0xf0, 0x9d, 0x9d, 0x92, 0x92, 0xae, 0xb9],
        [4, 0xf0, 0xf0, 0x9d, 0x9d, 0x92, 0x92, 0xbb, 0xbb],
        [4, 0xf0, 0xf0, 0x9d, 0x9d, 0x92, 0x92, 0xbd, 0xbf],
        [4, 0xf0, 0xf0, 0x9d, 0x9d, 0x93, 0x93, 0x80, 0x83],
        [4, 0xf0, 0xf0, 0x9d, 0x9d, 0x93, 0x93, 0x85, 0xbf],
        [4, 0xf0, 0xf0, 0x9d, 0x9d, 0x94, 0x94, 0x80, 0x85],
        [4, 0xf0, 0xf0, 0x9d, 0x9d, 0x94, 0x94, 0x87, 0x8a],
        [4, 0xf0, 0xf0, 0x9d, 0x9d, 0x94, 0x94, 0x8d, 0x94],
        [4, 0xf0, 0xf0, 0x9d, 0x9d, 0x94, 0x94, 0x96, 0x9c],
        [4, 0xf0, 0xf0, 0x9d, 0x9d, 0x94, 0x94, 0x9e, 0xb9],
        [4, 0xf0, 0xf0, 0x9d, 0x9d, 0x94, 0x94, 0xbb, 0xbe],
        [4, 0xf0, 0xf0, 0x9d, 0x9d, 0x95, 0x95, 0x80, 0x84],
        [4, 0xf0, 0xf0, 0x9d, 0x9d, 0x95, 0x95, 0x86, 0x86],
        [4, 0xf0, 0xf0, 0x9d, 0x9d, 0x95, 0x95, 0x8a, 0x90],
        [4, 0xf0, 0xf0, 0x9d, 0x9d, 0x95, 0x95, 0x92, 0xbf],
        [4, 0xf0, 0xf0, 0x9d, 0x9d, 0x96, 0x99, 0x80, 0xbf],
        [4, 0xf0, 0xf0, 0x9d, 0x9d, 0x9a, 0x9a, 0x80, 0xa5],
        [4, 0xf0, 0xf0, 0x9d, 0x9d, 0x9a, 0x9a, 0xa8, 0xbf],
        [4, 0xf0, 0xf0, 0x9d, 0x9d, 0x9b, 0x9b, 0x80, 0x80],
        [4, 0xf0, 0xf0, 0x9d, 0x9d, 0x9b, 0x9b, 0x82, 0x9a],
        [4, 0xf0, 0xf0, 0x9d, 0x9d, 0x9b, 0x9b, 0x9c, 0xba],
    ]
}

fn word_table_14() -> (v: Vec<[u8; 9]>)
    ensures
        v@ == word_rows_14(),
        v@.len() == 64,
{
    proof {
        reveal(word_rows_14);
    }
    vec![
        [4, 0xf0, 0xf0, 0x9d, 0x9d, 0x9b, 0x9b, 0xbc, 0xbf],
        [4, 0xf0, 0xf0, 0x9d, 0x9d, 0x9c, 0x9c, 0x80, 0x94],
        [4, 0xf0, 0xf0, 0x9d, 0x9d, 0x9c, 0x9c, 0x96, 0xb4],
        [4, 0xf0, 0xf0, 0x9d, 0x9d, 0x9c, 0x9c, 0xb6, 0xbf],
        [4, 0xf0, 0xf0, 0x9d, 0x9d, 0x9d, 0x9d, 0x80, 0x8e],
        [4, 0xf0, 0xf0, 0x9d, 0x9d, 0x9d, 0x9d, 0x90, 0xae],
        [4, 0xf0, 0xf0, 0x9d, 0x9d, 0x9d, 0x9d, 0xb0, 0xbf],
        [4, 0xf0, 0xf0, 0x9d, 0x9d, 0x9e, 0x9e, 0x80, 0x88],
        [4, 0xf0, 0xf0, 0x9d, 0x9d, 0x9e, 0x9e, 0x8a, 0xa8],
        [4, 0xf0, 0xf0, 0x9d, 0x9d, 0x9e, 0x9e, 0xaa, 0xbf],
        [4, 0xf0, 0xf0, 0x9d, 0x9d, 0x9f, 0x9f, 0x80, 0x82],
        [4, 0xf0, 0xf0, 0x9d, 0x9d, 0x9f, 0x9f, 0x84, 0x8b],
        [4, 0xf0, 0xf0, 0x9d, 0x9d, 0x9f, 0x9f, 0x8e, 0xbf],
        [4, 0xf0, 0xf0, 0x9d, 0x9d, 0xa8, 0xa8, 0x80, 0xb6],
        [4, 0xf0, 0xf0, 0x9d, 0x9d, 0xa8, 0xa8, 0xbb, 0xbf],
        [4, 0xf0, 0xf0, 0x9d, 0x9d, 0xa9, 0xa9, 0x80, 0xac],
        [4, 0xf0, 0xf0, 0x9d, 0x9d, 0xa9, 0xa9, 0xb5, 0xb5],
        [4, 0xf0, 0xf0, 0x9d, 0x9d, 0xaa, 0xaa, 0x84, 0x84],
        [4, 0xf0, 0xf0, 0x9d, 0x9d, 0xaa, 0xaa, 0x9b, 0x9f],
        [4, 0xf0, 0xf0, 0x9d, 0x9d, 0xaa, 0xaa, 0xa1, 0xaf],
        [4, 0xf0, 0xf0, 0x9d, 0x9d, 0xbc, 0xbc, 0x80, 0x9e],
        [4, 0xf0, 0xf0, 0x9e, 0x9e, 0x80, 0x80, 0x80, 0x86],
        [4, 0xf0, 0xf0, 0x9e, 0x9e, 0x80, 0x80, 0x88, 0x98],
        [4, 0xf0, 0xf0, 0x9e, 0x9e, 0x80, 0x80, 0x9b, 0xa1],
        [4, 0xf0, 0xf0, 0x9e, 0x9e, 0x80, 0x80, 0xa3, 0xa4],
        [4, 0xf0, 0xf0, 0x9e, 0x9e, 0x80, 0x80, 0xa6, 0xaa],
        [4, 0xf0, 0xf0, 0x9e, 0x9e, 0x84, 0x84, 0x80, 0xac],
        [4, 0xf0, 0xf0, 0x9e, 0x9e, 0x84, 0x84, 0xb0, 0xbd],
        [4, 0xf0, 0xf0, 0x9e, 0x9e, 0x85, 0x85, 0x80, 0x89],
        [4, 0xf0, 0xf0, 0x9e, 0x9e, 0x85, 0x85, 0x8e, 0x8e],
        [4, 0xf0, 0xf0, 0x9e, 0x9e, 0x8a, 0x8a, 0x90, 0xae],
        [4, 0xf0, 0xf0, 0x9e, 0x9e, 0x8b, 0x8b, 0x80, 0xb9],
        [4, 0xf0, 0xf0, 0x9e, 0x9e, 0x9f, 0x9f, 0xa0, 0xa6],
        [4, 0xf0, 0xf0, 0x9e, 0x9e, 0x9f, 0x9f, 0xa8, 0xab],
        [4, 0xf0, 0xf0, 0x9e, 0x9e, 0x9f, 0x9f, 0xad, 0xae],
        [4, 0xf0, 0xf0, 0x9e, 0x9e, 0x9f, 0x9f, 0xb0, 0xbe],
        [4, 0xf0, 0xf0, 0x9e, 0x9e, 0xa0, 0xa2, 0x80, 0xbf],
        [4, 0xf0, 0xf0, 0x9e, 0x9e, 0xa3, 0xa3, 0x80, 0x84],
        [4, 0xf0, 0xf0, 0x9e, 0x9e, 0xa3, 0xa3, 0x90, 0x96],
        [4, 0xf0, 0xf0, 0x9e, 0x9e, 0xa4, 0xa4, 0x80, 0xbf],
        [4, 0xf0, 0xf0, 0x9e, 0x9e, 0xa5, 0xa5, 0x80, 0x8b],
        [4, 0xf0, 0xf0, 0x9e, 0x9e, 0xa5, 0xa5, 0x90, 0x99],
        [4, 0xf0, 0xf0, 0x9e, 0x9e, 0xb8, 0xb8, 0x80, 0x83],
        [4, 0xf0, 0xf0, 0x9e, 0x9e, 0xb8, 0xb8, 0x85, 0x9f],
        [4, 0xf0, 0xf0, 0x9e, 0x9e, 0xb8, 0xb8, 0xa1, 0xa2],
        [4, 0xf0, 0xf0, 0x9e, 0x9e, 0xb8, 0xb8, 0xa4, 0xa4],
        [4, 0xf0, 0xf0, 0x9e, 0x9e, 0xb8, 0xb8, 0xa7, 0xa7],
        [4, 0xf0, 0xf0, 0x9e, 0x9e, 0xb8, 0xb8, 0xa9, 0xb2],
        [4, 0xf0, 0xf0, 0x9e, 0x9e, 0xb8, 0xb8, 0xb4, 0xb7],
        [4, 0xf0, 0xf0, 0x9e, 0x9e, 0xb8, 0xb8, 0xb9, 0xb9],
        [4, 0xf0, 0xf0, 0x9e, 0x9e, 0xb8, 0xb8, 0xbb, 0xbb],
        [4, 0xf0, 0xf0, 0x9e, 0x9e, 0xb9, 0xb9, 0x82, 0x82],
        [4, 0xf0, 0xf0, 0x9e, 0x9e, 0xb9, 0xb9, 0x87, 0x87],
        [4, 0xf0, 0xf0, 0x9e, 0x9e, 0xb9, 0xb9, 0x89, 0x89],
        [4, 0xf0, 0xf0, 0x9e, 0x9e, 0xb9, 0xb9, 0x8b, 0x8b],
        [4, 0xf0, 0xf0, 0x9e, 0x9e, 0xb9, 0xb9, 0x8d, 0x8f],
        [4, 0xf0, 0xf0, 0x9e, 0x9e, 0xb9, 0xb9, 0x91, 0x92],
        [4, 0xf0, 0xf0, 0x9e, 0x9e, 0xb9, 0xb9, 0x94, 0x94],
        [4, 0xf0, 0xf0, 0x9e, 0x9e, 0xb9, 0xb9, 0x97, 0x97],
        [4, 0xf0, 0xf0, 0x9e, 0x9e, 0xb9, 0xb9, 0x99, 0x99],
        [4, 0xf0, 0xf0, 0x9e, 0x9e, 0xb9, 0xb9, 0x9b, 0x9b],
        [4, 0xf0, 0xf0, 0x9e, 0x9e, 0xb9, 0xb9, 0x9d, 0x9d],
        [4, 0xf0, 0xf0, 0x9e, 0x9e, 0xb9, 0xb9, 0x9f, 0x9f],
        [4, 0xf0, 0xf0, 0x9e, 0x9e, 0xb9, 0xb9, 0xa1, 0xa2],
    ]
}

fn word_table_15() -> (v: Vec<[u8; 9]>)
    ensures
        v@ == word_rows_15(),
        v@.len() == 36,
{
    proof {
        reveal(word_rows_15);
    }
    vec![
        [4, 0xf0, 0xf0, 0x9e, 0x9e, 0xb9, 0xb9, 0xa4, 0xa4],
        [4, 0xf0, 0xf0, 0x9e, 0x9e, 0xb9, 0xb9, 0xa7, 0xaa],
        [4, 0xf0, 0xf0, 0x9e, 0x9e, 0xb9, 0xb9, 0xac, 0xb2],
        [4, 0xf0, 0xf0, 0x9e, 0x9e, 0xb9, 0xb9, 0xb4, 0xb7],
        [4, 0xf0, 0xf0, 0x9e, 0x9e, 0xb9, 0xb9, 0xb9, 0xbc],
        [4, 0xf0, 0xf0, 0x9e, 0x9e, 0xb9, 0xb9, 0xbe, 0xbe],
        [4, 0xf0, 0xf0, 0x9e, 0x9e, 0xba, 0xba, 0x80, 0x89],
        [4, 0xf0, 0xf0, 0x9e, 0x9e, 0xba, 0xba, 0x8b, 0x9b],
        [4, 0xf0, 0xf0, 0x9e, 0x9e, 0xba, 0xba, 0xa1, 0xa3],
        [4, 0xf0, 0xf0, 0x9e, 0x9e, 0xba, 0xba, 0xa5, 0xa9],
        [4, 0xf0, 0xf0, 0x9e, 0x9e, 0xba, 0xba, 0xab, 0xbb],
        [4, 0xf0, 0xf0, 0x9f, 0x9f, 0xaf, 0xaf, 0xb0, 0xb9],
        [4, 0xf0, 0xf0, 0xa0, 0xa9, 0x80, 0xbf, 0x80, 0xbf],
        [4, 0xf0, 0xf0, 0xaa, 0xaa, 0x80, 0x9a, 0x80, 0xbf],
        [4, 0xf0, 0xf0, 0xaa, 0xaa, 0x9b, 0x9b, 0x80, 0x9f],
        [4, 0xf0, 0xf0, 0xaa, 0xaa, 0x9c, 0xbf, 0x80, 0xbf],
        [4, 0xf0, 0xf0, 0xab, 0xab, 0x80, 0x9b, 0x80, 0xbf],
        [4, 0xf0, 0xf0, 0xab, 0xab, 0x9c, 0x9c, 0x80, 0xb8],
        [4, 0xf0, 0xf0, 0xab, 0xab, 0x9d, 0x9f, 0x80, 0xbf],
        [4, 0xf0, 0xf0, 0xab, 0xab, 0xa0, 0xa0, 0x80, 0x9d],
        [4, 0xf0, 0xf0, 0xab, 0xab, 0xa0, 0xa0, 0xa0, 0xbf],
        [4, 0xf0, 0xf0, 0xab, 0xab, 0xa1, 0xbf, 0x80, 0xbf],
        [4, 0xf0, 0xf0, 0xac, 0xac, 0x80, 0xb9, 0x80, 0xbf],
        [4, 0xf0, 0xf0, 0xac, 0xac, 0xba, 0xba, 0x80, 0xa1],
        [4, 0xf0, 0xf0, 0xac, 0xac, 0xba, 0xba, 0xb0, 0xbf],
        [4, 0xf0, 0xf0, 0xac, 0xac, 0xbb, 0xbf, 0x80, 0xbf],
        [4, 0xf0, 0xf0, 0xad, 0xad, 0x80, 0xbf, 0x80, 0xbf],
        [4, 0xf0, 0xf0, 0xae, 0xae, 0x80, 0xae, 0x80, 0xbf],
        [4, 0xf0, 0xf0, 0xae, 0xae, 0xaf, 0xaf, 0x80, 0xa0],
        [4, 0xf0, 0xf0, 0xaf, 0xaf, 0xa0, 0xa7, 0x80, 0xbf],
        [4, 0xf0, 0xf0, 0xaf, 0xaf, 0xa8, 0xa8, 0x80, 0x9d],
        [4, 0xf0, 0xf0, 0xb0, 0xb0, 0x80, 0xbf, 0x80, 0xbf],
        [4, 0xf0, 0xf0, 0xb1, 0xb1, 0x80, 0x8c, 0x80, 0xbf],
        [4, 0xf0, 0xf0, 0xb1, 0xb1, 0x8d, 0x8d, 0x80, 0x8a],
        [4, 0xf3, 0xf3, 0xa0, 0xa0, 0x84, 0x86, 0x80, 0xbf],
        [4, 0xf3, 0xf3, 0xa0, 0xa0, 0x87, 0x87, 0x80, 0xaf],
    ]
}

/// The rows of [`word_rows`].
pub fn word_table() -> (v: Vec<[u8; 9]>)
    ensures
        v@ == word_rows(),
        v@.len() == 936,
{
    let mut v = word_table_ascii();
    let mut c1 = word_table_1();
    v.append(&mut c1);
    let mut c2 = word_table_2();
    v.append(&mut c2);
    let mut c3 = word_table_3();
    v.append(&mut c3);
    let mut c4 = word_table_4();
    v.append(&mut c4);
    let mut c5 = word_table_5();
    v.append(&mut c5);
    let mut c6 = word_table_6();
    v.append(&mut c6);
    let mut c7 = word_table_7();
    v.append(&mut c7);
    let mut c8 = word_table_8();
    v.append(&mut c8);
    let mut c9 = word_table_9();
    v.append(&mut c9);
    let mut c10 = word_table_10();
    v.append(&mut c10);
    let mut c11 = word_table_11();
    v.append(&mut c11);
    let mut c12 = word_table_12();
    v.append(&mut c12);
    let mut c13 = word_table_13();
    v.append(&mut c13);
    let mut c14 = word_table_14();
    v.append(&mut c14);
    let mut c15 = word_table_15();
    v.append(&mut c15);
    proof {
        reveal(word_rows);
    }
    v
}

/// Decimal digits: the general category Nd (Unicode 14.0).
#[verifier::opaque]
pub open spec fn digit_rows() -> Seq<[u8; 9]> {
    seq![
        [1, 0x30, 0x39, 0x00, 0x00, 0x00, 0x00, 0x00, 0x00],
        [2, 0xd9, 0xd9, 0xa0, 0xa9, 0x00, 0x00, 0x00, 0x00],
        [2, 0xdb, 0xdb, 0xb0, 0xb9, 0x00, 0x00, 0x00, 0x00],
        [2, 0xdf, 0xdf, 0x80, 0x89, 0x00, 0x00, 0x00, 0x00],
        [3, 0xe0, 0xe0, 0xa5, 0xa5, 0xa6, 0xaf, 0x00, 0x00],
        [3, 0xe0, 0xe0, 0xa7, 0xa7, 0xa6, 0xaf, 0x00, 0x00],
        [3, 0xe0, 0xe0, 0xa9, 0xa9, 0xa6, 0xaf, 0x00, 0x00],
        [3, 0xe0, 0xe0, 0xab, 0xab, 0xa6, 0xaf, 0x00, 0x00],
        [3, 0xe0, 0xe0, 0xad, 0xad, 0xa6, 0xaf, 0x00, 0x00],
        [3, 0xe0, 0xe0, 0xaf, 0xaf, 0xa6, 0xaf, 0x00, 0x00],
        [3, 0xe0, 0xe0, 0xb1, 0xb1, 0xa6, 0xaf, 0x00, 0x00],
        [3, 0xe0, 0xe0, 0xb3, 0xb3, 0xa6, 0xaf, 0x00, 0x00],
        [3, 0xe0, 0xe0, 0xb5, 0xb5, 0xa6, 0xaf, 0x00, 0x00],
        [3, 0xe0, 0xe0, 0xb7, 0xb7, 0xa6, 0xaf, 0x00, 0x00],
        [3, 0xe0, 0xe0, 0xb9, 0xb9, 0x90, 0x99, 0x00, 0x00],
        [3, 0xe0, 0xe0, 0xbb, 0xbb, 0x90, 0x99, 0x00, 0x00],
        [3, 0xe0, 0xe0, 0xbc, 0xbc, 0xa0, 0xa9, 0x00, 0x00],
        [3, 0xe1, 0xe1, 0x81, 0x81, 0x80, 0x89, 0x00, 0x00],
        [3, 0xe1, 0xe1, 0x82, 0x82, 0x90, 0x99, 0x00, 0x00],
        [3, 0xe1, 0xe1, 0x9f, 0x9f, 0xa0, 0xa9, 0x00, 0x00],
        [3, 0xe1, 0xe1, 0xa0, 0xa0, 0x90, 0x99, 0x00, 0x00],
        [3, 0xe1, 0xe1, 0xa5, 0xa5, 0x86, 0x8f, 0x00, 0x00],
        [3, 0xe1, 0xe1, 0xa7, 0xa7, 0x90, 0x99, 0x00, 0x00],
        [3, 0xe1, 0xe1, 0xaa, 0xaa, 0x80, 0x89, 0x00, 0x00],
        [3, 0xe1, 0xe1, 0xaa, 0xaa, 0x90, 0x99, 0x00, 0x00],
        [3, 0xe1, 0xe1, 0xad, 0xad, 0x90, 0x99, 0x00, 0x00],
        [3, 0xe1, 0xe1, 0xae, 0xae, 0xb0, 0xb9, 0x00, 0x00],
        [3, 0xe1, 0xe1, 0xb1, 0xb1, 0x80, 0x89, 0x00, 0x00],
        [3, 0xe1, 0xe1, 0xb1, 0xb1, 0x90, 0x99, 0x00, 0x00],
        [3, 0xea, 0xea, 0x98, 0x98, 0xa0, 0xa9, 0x00, 0x00],
        [3, 0xea, 0xea, 0xa3, 0xa3, 0x90, 0x99, 0x00, 0x00],
        [3, 0xea, 0xea, 0xa4, 0xa4, 0x80, 0x89, 0x00, 0x00],
        [3, 0xea, 0xea, 0xa7, 0xa7, 0x90, 0x99, 0x00, 0x00],
        [3, 0xea, 0xea, 0xa7, 0xa7, 0xb0, 0xb9, 0x00, 0x00],
        [3, 0xea, 0xea, 0xa9, 0xa9, 0x90, 0x99, 0x00, 0x00],
        [3, 0xea, 0xea, 0xaf, 0xaf, 0xb0, 0xb9, 0x00, 0x00],
        [3, 0xef, 0xef, 0xbc, 0xbc, 0x90, 0x99, 0x00, 0x00],
        [4, 0xf0, 0xf0, 0x90, 0x90, 0x92, 0x92, 0xa0, 0xa9],
        [4, 0xf0, 0xf0, 0x90, 0x90, 0xb4, 0xb4, 0xb0, 0xb9],
        [4, 0xf0, 0xf0, 0x91, 0x91, 0x81, 0x81, 0xa6, 0xaf],
        [4, 0xf0, 0xf0, 0x91, 0x91, 0x83, 0x83, 0xb0, 0xb9],
        [4, 0xf0, 0xf0, 0x91, 0x91, 0x84, 0x84, 0xb6, 0xbf],
        [4, 0xf0, 0xf0, 0x91, 0x91, 0x87, 0x87, 0x90, 0x99],
        [4, 0xf0, 0xf0, 0x91, 0x91, 0x8b, 0x8b, 0xb0, 0xb9],
        [4, 0xf0, 0xf0, 0x91, 0x91, 0x91, 0x91, 0x90, 0x99],
        [4, 0xf0, 0xf0, 0x91, 0x91, 0x93, 0x93, 0x90, 0x99],
        [4, 0xf0, 0xf0, 0x91, 0x91, 0x99, 0x99, 0x90, 0x99],
        [4, 0xf0, 0xf0, 0x91, 0x91, 0x9b, 0x9b, 0x80, 0x89],
        [4, 0xf0, 0xf0, 0x91, 0x91, 0x9c, 0x9c, 0xb0, 0xb9],
        [4, 0xf0, 0xf0, 0x91, 0x91, 0xa3, 0xa3, 0xa0, 0xa9],
        [4, 0xf0, 0xf0, 0x91, 0x91, 0xa5, 0xa5, 0x90, 0x99],
        [4, 0xf0, 0xf0, 0x91, 0x91, 0xb1, 0xb1, 0x90, 0x99],
        [4, 0xf0, 0xf0, 0x91, 0x91, 0xb5, 0xb5, 0x90, 0x99],
        [4, 0xf0, 0xf0, 0x91, 0x91, 0xb6, 0xb6, 0xa0, 0xa9],
        [4, 0xf0, 0xf0, 0x96, 0x96, 0xa9, 0xa9, 0xa0, 0xa9],
        [4, 0xf0, 0xf0, 0x96, 0x96, 0xab, 0xab, 0x80, 0x89],
        [4, 0xf0, 0xf0, 0x96, 0x96, 0xad, 0xad, 0x90, 0x99],
        [4, 0xf0, 0xf0, 0x9d, 0x9d, 0x9f, 0x9f, 0x8e, 0xbf],
        [4, 0xf0, 0xf0, 0x9e, 0x9e, 0x85, 0x85, 0x80, 0x89],
        [4, 0xf0, 0xf0, 0x9e, 0x9e, 0x8b, 0x8b, 0xb0, 0xb9],
        [4, 0xf0, 0xf0, 0x9e, 0x9e, 0xa5, 0xa5, 0x90, 0x99],
        [4, 0xf0, 0xf0, 0x9f, 0x9f, 0xaf, 0xaf, 0xb0, 0xb9],
    ]
}

/// The rows of [`digit_rows`].
pub fn digit_table() -> (v: Vec<[u8; 9]>)
    ensures
        v@ == digit_rows(),
        v@.len() == 62,
{
    proof {
        reveal(digit_rows);
    }
    vec![
        [1, 0x30, 0x39, 0x00, 0x00, 0x00, 0x00, 0x00, 0x00],
        [2, 0xd9, 0xd9, 0xa0, 0xa9, 0x00, 0x00, 0x00, 0x00],
        [2, 0xdb, 0xdb, 0xb0, 0xb9, 0x00, 0x00, 0x00, 0x00],
        [2, 0xdf, 0xdf, 0x80, 0x89, 0x00, 0x00, 0x00, 0x00],
        [3, 0xe0, 0xe0, 0xa5, 0xa5, 0xa6, 0xaf, 0x00, 0x00],
        [3, 0xe0, 0xe0, 0xa7, 0xa7, 0xa6, 0xaf, 0x00, 0x00],
        [3, 0xe0, 0xe0, 0xa9, 0xa9, 0xa6, 0xaf, 0x00, 0x00],
        [3, 0xe0, 0xe0, 0xab, 0xab, 0xa6, 0xaf, 0x00, 0x00],
        [3, 0xe0, 0xe0, 0xad, 0xad, 0xa6, 0xaf, 0x00, 0x00],
        [3, 0xe0, 0xe0, 0xaf, 0xaf, 0xa6, 0xaf, 0x00, 0x00],
        [3, 0xe0, 0xe0, 0xb1, 0xb1, 0xa6, 0xaf, 0x00, 0x00],
        [3, 0xe0, 0xe0, 0xb3, 0xb3, 0xa6, 0xaf, 0x00, 0x00],
        [3, 0xe0, 0xe0, 0xb5, 0xb5, 0xa6, 0xaf, 0x00, 0x00],
        [3, 0xe0, 0xe0, 0xb7, 0xb7, 0xa6, 0xaf, 0x00, 0x00],
        [3, 0xe0, 0xe0, 0xb9, 0xb9, 0x90, 0x99, 0x00, 0x00],
        [3, 0xe0, 0xe0, 0xbb, 0xbb, 0x90, 0x99, 0x00, 0x00],
        [3, 0xe0, 0xe0, 0xbc, 0xbc, 0xa0, 0xa9, 0x00, 0x00],
        [3, 0xe1, 0xe1, 0x81, 0x81, 0x80, 0x89, 0x00, 0x00],
        [3, 0xe1, 0xe1, 0x82, 0x82, 0x90, 0x99, 0x00, 0x00],
        [3, 0xe1, 0xe1, 0x9f, 0x9f, 0xa0, 0xa9, 0x00, 0x00],
        [3, 0xe1, 0xe1, 0xa0, 0xa0, 0x90, 0x99, 0x00, 0x00],
        [3, 0xe1, 0xe1, 0xa5, 0xa5, 0x86, 0x8f, 0x00, 0x00],
        [3, 0xe1, 0xe1, 0xa7, 0xa7, 0x90, 0x99, 0x00, 0x00],
        [3, 0xe1, 0xe1, 0xaa, 0xaa, 0x80, 0x89, 0x00, 0x00],
        [3, 0xe1, 0xe1, 0xaa, 0xaa, 0x90, 0x99, 0x00, 0x00],
        [3, 0xe1, 0xe1, 0xad, 0xad, 0x90, 0x99, 0x00, 0x00],
        [3, 0xe1, 0xe1, 0xae, 0xae, 0xb0, 0xb9, 0x00, 0x00],
        [3, 0xe1, 0xe1, 0xb1, 0xb1, 0x80, 0x89, 0x00, 0x00],
        [3, 0xe1, 0xe1, 0xb1, 0xb1, 0x90, 0x99, 0x00, 0x00],
        [3, 0xea, 0xea, 0x98, 0x98, 0xa0, 0xa9, 0x00, 0x00],
        [3, 0xea, 0xea, 0xa3, 0xa3, 0x90, 0x99, 0x00, 0x00],
        [3, 0xea, 0xea, 0xa4, 0xa4, 0x80, 0x89, 0x00, 0x00],
        [3, 0xea, 0xea, 0xa7, 0xa7, 0x90, 0x99, 0x00, 0x00],
        [3, 0xea, 0xea, 0xa7, 0xa7, 0xb0, 0xb9, 0x00, 0x00],
        [3, 0xea, 0xea, 0xa9, 0xa9, 0x90, 0x99, 0x00, 0x00],
        [3, 0xea, 0xea, 0xaf, 0xaf, 0xb0, 0xb9, 0x00, 0x00],
        [3, 0xef, 0xef, 0xbc, 0xbc, 0x90, 0x99, 0x00, 0x00],
        [4, 0xf0, 0xf0, 0x90, 0x90, 0x92, 0x92, 0xa0, 0xa9],
        [4, 0xf0, 0xf0, 0x90, 0x90, 0xb4, 0xb4, 0xb0, 0xb9],
        [4, 0xf0, 0xf0, 0x91, 0x91, 0x81, 0x81, 0xa6, 0xaf],
        [4, 0xf0, 0xf0, 0x91, 0x91, 0x83, 0x83, 0xb0, 0xb9],
        [4, 0xf0, 0xf0, 0x91, 0x91, 0x84, 0x84, 0xb6, 0xbf],
        [4, 0xf0, 0xf0, 0x91, 0x91, 0x87, 0x87, 0x90, 0x99],
        [4, 0xf0, 0xf0, 0x91, 0x91, 0x8b, 0x8b, 0xb0, 0xb9],
        [4, 0xf0, 0xf0, 0x91, 0x91, 0x91, 0x91, 0x90, 0x99],
        [4, 0xf0, 0xf0, 0x91, 0x91, 0x93, 0x93, 0x90, 0x99],
        [4, 0xf0, 0xf0, 0x91, 0x91, 0x99, 0x99, 0x90, 0x99],
        [4, 0xf0, 0xf0, 0x91, 0x91, 0x9b, 0x9b, 0x80, 0x89],
        [4, 0xf0, 0xf0, 0x91, 0x91, 0x9c, 0x9c, 0xb0, 0xb9],
        [4, 0xf0, 0xf0, 0x91, 0x91, 0xa3, 0xa3, 0xa0, 0xa9],
        [4, 0xf0, 0xf0, 0x91, 0x91, 0xa5, 0xa5, 0x90, 0x99],
        [4, 0xf0, 0xf0, 0x91, 0x91, 0xb1, 0xb1, 0x90, 0x99],
        [4, 0xf0, 0xf0, 0x91, 0x91, 0xb5, 0xb5, 0x90, 0x99],
        [4, 0xf0, 0xf0, 0x91, 0x91, 0xb6, 0xb6, 0xa0, 0xa9],
        [4, 0xf0, 0xf0, 0x96, 0x96, 0xa9, 0xa9, 0xa0, 0xa9],
        [4, 0xf0, 0xf0, 0x96, 0x96, 0xab, 0xab, 0x80, 0x89],
        [4, 0xf0, 0xf0, 0x96, 0x96, 0xad, 0xad, 0x90, 0x99],
        [4, 0xf0, 0xf0, 0x9d, 0x9d, 0x9f, 0x9f, 0x8e, 0xbf],
        [4, 0xf0, 0xf0, 0x9e, 0x9e, 0x85, 0x85, 0x80, 0x89],
        [4, 0xf0, 0xf0, 0x9e, 0x9e, 0x8b, 0x8b, 0xb0, 0xb9],
        [4, 0xf0, 0xf0, 0x9e, 0x9e, 0xa5, 0xa5, 0x90, 0x99],
        [4, 0xf0, 0xf0, 0x9f, 0x9f, 0xaf, 0xaf, 0xb0, 0xb9],
    ]
}

/// White space: the Unicode White_Space property.
#[verifier::opaque]
pub open spec fn space_rows() -> Seq<[u8; 9]> {
    seq![
        [1, 0x09, 0x0d, 0x00, 0x00, 0x00, 0x00, 0x00, 0x00],
        [1, 0x20, 0x20, 0x00, 0x00, 0x00, 0x00, 0x00, 0x00],
        [2, 0xc2, 0xc2, 0x85, 0x85, 0x00, 0x00, 0x00, 0x00],
        [2, 0xc2, 0xc2, 0xa0, 0xa0, 0x00, 0x00, 0x00, 0x00],
        [3, 0xe1, 0xe1, 0x9a, 0x9a, 0x80, 0x80, 0x00, 0x00],
        [3, 0xe2, 0xe2, 0x80, 0x80, 0x80, 0x8a, 0x00, 0x00],
        [3, 0xe2, 0xe2, 0x80, 0x80, 0xa8, 0xa9, 0x00, 0x00],
        [3, 0xe2, 0xe2, 0x80, 0x80, 0xaf, 0xaf, 0x00, 0x00],
        [3, 0xe2, 0xe2, 0x81, 0x81, 0x9f, 0x9f, 0x00, 0x00],
        [3, 0xe3, 0xe3, 0x80, 0x80, 0x80, 0x80, 0x00, 0x00],
    ]
}

/// The rows of [`space_rows`].
pub fn space_table() -> (v: Vec<[u8; 9]>)
    ensures
        v@ == space_rows(),
        v@.len() == 10,
{
    proof {
        reveal(space_rows);
    }
    vec![
        [1, 0x09, 0x0d, 0x00, 0x00, 0x00, 0x00, 0x00, 0x00],
        [1, 0x20, 0x20, 0x00, 0x00, 0x00, 0x00, 0x00, 0x00],
        [2, 0xc2, 0xc2, 0x85, 0x85, 0x00, 0x00, 0x00, 0x00],
        [2, 0xc2, 0xc2, 0xa0, 0xa0, 0x00, 0x00, 0x00, 0x00],
        [3, 0xe1, 0xe1, 0x9a, 0x9a, 0x80, 0x80, 0x00, 0x00],
        [3, 0xe2, 0xe2, 0x80, 0x80, 0x80, 0x8a, 0x00, 0x00],
        [3, 0xe2, 0xe2, 0x80, 0x80, 0xa8, 0xa9, 0x00, 0x00],
        [3, 0xe2, 0xe2, 0x80, 0x80, 0xaf, 0xaf, 0x00, 0x00],
        [3, 0xe2, 0xe2, 0x81, 0x81, 0x9f, 0x9f, 0x00, 0x00],
        [3, 0xe3, 0xe3, 0x80, 0x80, 0x80, 0x80, 0x00, 0x00],
    ]
}

/// Every row of `rows` from index `lo` on is at least two bytes long.
pub open spec fn multi_byte_from(rows: Seq<[u8; 9]>, lo: int) -> bool {
    forall|r: int| lo <= r < rows.len() ==> #[trigger] rows[r]@[0] >= 2
}

proof fn lemma_multi_byte_concat(a: Seq<[u8; 9]>, b: Seq<[u8; 9]>, lo: int)
    requires
        0 <= lo <= a.len(),
        multi_byte_from(a, lo),
        multi_byte_from(b, 0),
    ensures
        multi_byte_from(a + b, lo),
{
    assert forall|r: int| lo <= r < (a + b).len() implies #[trigger] (a + b)[r]@[0] >= 2 by {
        if r < a.len() {
            assert((a + b)[r] == a[r]);
        } else {
            assert((a + b)[r] == b[r - a.len()]);
        }
    }
}

proof fn lemma_word_rows_1_multi()
    ensures
        multi_byte_from(word_rows_1(), 0),
{
    reveal(word_rows_1);
}

proof fn lemma_word_rows_2_multi()
    ensures
        multi_byte_from(word_rows_2(), 0),
{
    reveal(word_rows_2);
}

proof fn lemma_word_rows_3_multi()
    ensures
        multi_byte_from(word_rows_3(), 0),
{
    reveal(word_rows_3);
}

proof fn lemma_word_rows_4_multi()
    ensures
        multi_byte_from(word_rows_4(), 0),
{
    reveal(word_rows_4);
}

proof fn lemma_word_rows_5_multi()
    ensures
        multi_byte_from(word_rows_5(), 0),
{
    reveal(word_rows_5);
}

proof fn lemma_word_rows_6_multi()
    ensures
        multi_byte_from(word_rows_6(), 0),
{
    reveal(word_rows_6);
}

proof fn lemma_word_rows_7_multi()
    ensures
        multi_byte_from(word_rows_7(), 0),
{
    reveal(word_rows_7);
}

proof fn lemma_word_rows_8_multi()
    ensures
        multi_byte_from(word_rows_8(), 0),
{
    reveal(word_rows_8);
}

proof fn lemma_word_rows_9_multi()
    ensures
        multi_byte_from(word_rows_9(), 0),
{
    reveal(word_rows_9);
}

proof fn lemma_word_rows_10_multi()
    ensures
        multi_byte_from(word_rows_10(), 0),
{
    reveal(word_rows_10);
}

proof fn lemma_word_rows_11_multi()
    ensures
        multi_byte_from(word_rows_11(), 0),
{
    reveal(word_rows_11);
}

proof fn lemma_word_rows_12_multi()
    ensures
        multi_byte_from(word_rows_12(), 0),
{
    reveal(word_rows_12);
}

proof fn lemma_word_rows_13_multi()
    ensures
        multi_byte_from(word_rows_13(), 0),
{
    reveal(word_rows_13);
}

proof fn lemma_word_rows_14_multi()
    ensures
        multi_byte_from(word_rows_14(), 0),
{
    reveal(word_rows_14);
}

proof fn lemma_word_rows_15_multi()
    ensures
        multi_byte_from(word_rows_15(), 0),
{
    reveal(word_rows_15);
}

/// The word rows are the four one-byte rows `0`-`9`, `A`-`Z`, `_` and
/// `a`-`z`, followed by rows at least two bytes long.
pub proof fn lemma_word_rows_shape()
    ensures
        word_rows().len() >= 4,
        word_rows()[0] == [1u8, 0x30, 0x39, 0x00, 0x00, 0x00, 0x00, 0x00, 0x00],
        word_rows()[1] == [1u8, 0x41, 0x5a, 0x00, 0x00, 0x00, 0x00, 0x00, 0x00],
        word_rows()[2] == [1u8, 0x5f, 0x5f, 0x00, 0x00, 0x00, 0x00, 0x00, 0x00],
        word_rows()[3] == [1u8, 0x61, 0x7a, 0x00, 0x00, 0x00, 0x00, 0x00, 0x00],
        multi_byte_from(word_rows(), 4),
{
    reveal(word_rows);
    reveal(word_rows_ascii);
    let mut acc = word_rows_ascii();
    assert(multi_byte_from(acc, 4));
    lemma_word_rows_1_multi();
    lemma_multi_byte_concat(acc, word_rows_1(), 4);
    acc = acc + word_rows_1();
    lemma_word_rows_2_multi();
    lemma_multi_byte_concat(acc, word_rows_2(), 4);
    acc = acc + word_rows_2();
    lemma_word_rows_3_multi();
    lemma_multi_byte_concat(acc, word_rows_3(), 4);
    acc = acc + word_rows_3();
    lemma_word_rows_4_multi();
    lemma_multi_byte_concat(acc, word_rows_4(), 4);
    acc = acc + word_rows_4();
    lemma_word_rows_5_multi();
    lemma_multi_byte_concat(acc, word_rows_5(), 4);
    acc = acc + word_rows_5();
    lemma_word_rows_6_multi();
    lemma_multi_byte_concat(acc, word_rows_6(), 4);
    acc = acc + word_rows_6();
    lemma_word_rows_7_multi();
    lemma_multi_byte_concat(acc, word_rows_7(), 4);
    acc = acc + word_rows_7();
    lemma_word_rows_8_multi();
    lemma_multi_byte_concat(acc, word_rows_8(), 4);
    acc = acc + word_rows_8();
    lemma_word_rows_9_multi();
    lemma_multi_byte_concat(acc, word_rows_9(), 4);
    acc = acc + word_rows_9();
    lemma_word_rows_10_multi();
    lemma_multi_byte_concat(acc, word_rows_10(), 4);
    acc = acc + word_rows_10();
    lemma_word_rows_11_multi();
    lemma_multi_byte_concat(acc, word_rows_11(), 4);
    acc = acc + word_rows_11();
    lemma_word_rows_12_multi();
    lemma_multi_byte_concat(acc, word_rows_12(), 4);
    acc = acc + word_rows_12();
    lemma_word_rows_13_multi();
    lemma_multi_byte_concat(acc, word_rows_13(), 4);
    acc = acc + word_rows_13();
    lemma_word_rows_14_multi();
    lemma_multi_byte_concat(acc, word_rows_14(), 4);
    acc = acc + word_rows_14();
    lemma_word_rows_15_multi();
    lemma_multi_byte_concat(acc, word_rows_15(), 4);
    acc = acc + word_rows_15();
    assert(acc == word_rows());
    assert(word_rows()[0] == word_rows_ascii()[0]);
    assert(word_rows()[1] == word_rows_ascii()[1]);
    assert(word_rows()[2] == word_rows_ascii()[2]);
    assert(word_rows()[3] == word_rows_ascii()[3]);
}

} // verus!
