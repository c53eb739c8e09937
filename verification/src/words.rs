//! Packing between word-aligned byte strings and 32-bit proof words,
//! little-endian, used for untyped ("plain old data") transcript
//! entries.

use vstd::prelude::*;

use vstd::arithmetic::div_mod::lemma_fundamental_div_mod;
use vstd::arithmetic::div_mod::lemma_fundamental_div_mod_converse;

verus! {

/// A 32-bit word assembled from four bytes, little-endian.
pub open spec fn word_from_le(b0: u8, b1: u8, b2: u8, b3: u8) -> u32 {
    (b0 + b1 * 0x100 + b2 * 0x10000 + b3 * 0x1000000) as u32
}

/// Byte `j` of word `w`, little-endian positions 0 through 3.
pub open spec fn word_byte_le(w: u32, j: int) -> u8 {
    if j == 0 {
        (w % 0x100) as u8
    } else if j == 1 {
        ((w / 0x100) % 0x100) as u8
    } else if j == 2 {
        ((w / 0x10000) % 0x100) as u8
    } else {
        (w / 0x1000000) as u8
    }
}

/// The words packed from a word-aligned byte string, little-endian.
pub open spec fn words_of_bytes(bs: Seq<u8>) -> Seq<u32> {
    Seq::new(bs.len() / 4, |i: int| word_from_le(bs[4 * i], bs[4 * i + 1], bs[4 * i + 2], bs[4 * i + 3]))
}

/// The little-endian byte spelling of a word sequence.
pub open spec fn bytes_of_words(ws: Seq<u32>) -> Seq<u8> {
    Seq::new(ws.len() * 4, |i: int| word_byte_le(ws[i / 4], i % 4))
}

/// Each byte of an assembled word is the byte it was assembled from.
proof fn lemma_word_le_bytes(b0: u8, b1: u8, b2: u8, b3: u8)
    ensures
        word_byte_le(word_from_le(b0, b1, b2, b3), 0) == b0,
        word_byte_le(word_from_le(b0, b1, b2, b3), 1) == b1,
        word_byte_le(word_from_le(b0, b1, b2, b3), 2) == b2,
        word_byte_le(word_from_le(b0, b1, b2, b3), 3) == b3,
{
    let w = b0 + b1 * 0x100 + b2 * 0x10000 + b3 * 0x1000000;
    lemma_fundamental_div_mod_converse(
        w,
        0x100,
        b1 + b2 * 0x100 + b3 * 0x10000,
        b0 as int,
    );
    lemma_fundamental_div_mod_converse(
        w,
        0x10000,
        b2 + b3 * 0x100,
        b0 + b1 * 0x100,
    );
    lemma_fundamental_div_mod_converse(w, 0x1000000, b3 as int, b0 + b1 * 0x100 + b2 * 0x10000);
    lemma_fundamental_div_mod_converse(w / 0x100, 0x100, b2 + b3 * 0x100, b1 as int);
    lemma_fundamental_div_mod_converse(w / 0x10000, 0x100, b3 as int, b2 as int);
}

/// Spelling out the words packed from a word-aligned byte string yields
/// the bytes again.
pub proof fn lemma_bytes_words_roundtrip(bs: Seq<u8>)
    requires
        bs.len() % 4 == 0,
    ensures
        bytes_of_words(words_of_bytes(bs)) == bs,
{
    let ws = words_of_bytes(bs);
    lemma_fundamental_div_mod(bs.len() as int, 4);
    assert(ws.len() == bs.len() / 4);
    assert(bytes_of_words(ws).len() == bs.len());
    assert forall|j: int| 0 <= j < bs.len() implies bytes_of_words(ws)[j] == bs[j] by {
        let i = j / 4;
        let k = j % 4;
        lemma_fundamental_div_mod(j, 4);
        assert(j == 4 * i + k);
        assert(0 <= i < ws.len());
        lemma_word_le_bytes(bs[4 * i], bs[4 * i + 1], bs[4 * i + 2], bs[4 * i + 3]);
        assert(bytes_of_words(ws)[j] == word_byte_le(ws[i], k));
    }
    assert(bytes_of_words(ws) =~= bs);
}

/// Pack a word-aligned byte string into words, little-endian.
pub fn words_from_bytes(bytes: &[u8]) -> (r: Vec<u32>)
    requires
        bytes@.len() % 4 == 0,
    ensures
        r@ == words_of_bytes(bytes@),
{
    let n = bytes.len() / 4;
    let mut r: Vec<u32> = Vec::new();
    let mut i: usize = 0;
    while i < n
        invariant
            i <= n,
            n == bytes@.len() / 4,
            bytes@.len() % 4 == 0,
            r@.len() == i,
            forall|j: int|
                0 <= j < i ==> r@[j] == word_from_le(
                    bytes@[4 * j],
                    bytes@[4 * j + 1],
                    bytes@[4 * j + 2],
                    bytes@[4 * j + 3],
                ),
        decreases n - i,
    {
        proof {
            lemma_fundamental_div_mod(bytes@.len() as int, 4);
            assert(bytes@.len() == vstd::slice::spec_slice_len(bytes));
            assert(4 * (n as int) == bytes@.len());
            assert(4 * (i as int) + 3 < bytes@.len());
        }
        let b0 = *vstd::slice::slice_index_get(bytes, 4 * i);
        let b1 = *vstd::slice::slice_index_get(bytes, 4 * i + 1);
        let b2 = *vstd::slice::slice_index_get(bytes, 4 * i + 2);
        let b3 = *vstd::slice::slice_index_get(bytes, 4 * i + 3);
        let w = (b0 as u32) + (b1 as u32) * 0x100 + (b2 as u32) * 0x10000 + (b3 as u32)
            * 0x1000000;
        r.push(w);
        i += 1;
    }
    proof {
        assert(r@ =~= words_of_bytes(bytes@));
    }
    r
}

/// Spell a word sequence out as its little-endian bytes.
pub fn bytes_from_words(words: &[u32]) -> (r: Vec<u8>)
    ensures
        r@ == bytes_of_words(words@),
{
    let n = words.len();
    let mut r: Vec<u8> = Vec::new();
    let mut i: usize = 0;
    while i < n
        invariant
            i <= n,
            n == words@.len(),
            r@.len() == 4 * i,
            forall|j: int| 0 <= j < 4 * i ==> r@[j] == word_byte_le(words@[j / 4], j % 4),
        decreases n - i,
    {
        let w = *vstd::slice::slice_index_get(words, i);
        r.push((w % 0x100) as u8);
        r.push(((w / 0x100) % 0x100) as u8);
        r.push(((w / 0x10000) % 0x100) as u8);
        r.push((w / 0x1000000) as u8);
        proof {
            lemma_fundamental_div_mod_converse(4 * (i as int), 4, i as int, 0);
            lemma_fundamental_div_mod_converse(4 * (i as int) + 1, 4, i as int, 1);
            lemma_fundamental_div_mod_converse(4 * (i as int) + 2, 4, i as int, 2);
            lemma_fundamental_div_mod_converse(4 * (i as int) + 3, 4, i as int, 3);
        }
        i += 1;
    }
    proof {
        assert(r@ =~= bytes_of_words(words@));
    }
    r
}

} // verus!
