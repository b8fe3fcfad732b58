//! Content hashes of word sequences, stable across toolchains and runs.

use vstd::prelude::*;

verus! {

/// The value of `xxhash_rust::xxh3::xxh3_64` on a byte string.
pub uninterp spec fn xxh3_of(bytes: Seq<u8>) -> u64;

/// The bytes of a word, least significant first.
pub open spec fn word_bytes(word: u32) -> Seq<u8> {
    seq![
        (word & 0xFF) as u8,
        ((word >> 8) & 0xFF) as u8,
        ((word >> 16) & 0xFF) as u8,
        ((word >> 24) & 0xFF) as u8,
    ]
}

/// The bytes of the words, in order.
pub open spec fn bytes_of(words: Seq<u32>) -> Seq<u8>
    decreases words.len(),
{
    if words.len() == 0 {
        seq![]
    } else {
        bytes_of(words.drop_last()) + word_bytes(words.last())
    }
}

/// The hash of the words.
pub open spec fn hash_of(words: Seq<u32>) -> u64 {
    xxh3_of(bytes_of(words))
}

/// Calls `xxhash_rust::xxh3::xxh3_64`, the 64-bit XXH3 hash with the default
/// seed and secret. What is claimed is that the result is a function of the
/// bytes alone; which function is not stated.
#[verifier::external_body]
fn xxh3(bytes: &[u8]) -> (r: u64)
    ensures
        r == xxh3_of(bytes@),
{
    xxhash_rust::xxh3::xxh3_64(bytes)
}

/// The bytes of the words, in order, each least significant first.
pub fn little_endian_bytes(words: &[u32]) -> (r: Vec<u8>)
    ensures
        r@ == bytes_of(words@),
{
    let mut bytes: Vec<u8> = Vec::new();
    let mut i: usize = 0;
    assert(words@.take(0) =~= seq![]);
    while i < words.len()
        invariant
            i <= words.len(),
            bytes@ == bytes_of(words@.take(i as int)),
        decreases words.len() - i,
    {
        let word: u32 = words[i];
        assert(words@.take(i + 1).drop_last() =~= words@.take(i as int));
        bytes.push((word & 0xFF) as u8);
        bytes.push(((word >> 8) & 0xFF) as u8);
        bytes.push(((word >> 16) & 0xFF) as u8);
        bytes.push(((word >> 24) & 0xFF) as u8);
        assert(bytes@ =~= bytes_of(words@.take(i as int)) + word_bytes(word));
        i = i + 1;
    }
    assert(words@.take(words@.len() as int) =~= words@);
    bytes
}

/// The hash of the words.
pub fn hash_words(words: &[u32]) -> (r: u64)
    ensures
        r == hash_of(words@),
{
    let bytes: Vec<u8> = little_endian_bytes(words);
    xxh3(bytes.as_slice())
}

/// Different words have different bytes.
pub proof fn word_bytes_are_unique(a: u32, b: u32)
    requires
        word_bytes(a) == word_bytes(b),
    ensures
        a == b,
{
    assert(word_bytes(a)[0] == word_bytes(b)[0]);
    assert(word_bytes(a)[1] == word_bytes(b)[1]);
    assert(word_bytes(a)[2] == word_bytes(b)[2]);
    assert(word_bytes(a)[3] == word_bytes(b)[3]);
    assert(a == b) by (bit_vector)
        requires
            (a & 0xFF) as u8 == (b & 0xFF) as u8,
            ((a >> 8) & 0xFF) as u8 == ((b >> 8) & 0xFF) as u8,
            ((a >> 16) & 0xFF) as u8 == ((b >> 16) & 0xFF) as u8,
            ((a >> 24) & 0xFF) as u8 == ((b >> 24) & 0xFF) as u8,
    ;
}

/// Different word sequences are hashed as different byte strings, so equal
/// hashes of different sequences are collisions of the hash itself.
pub proof fn bytes_determine_the_words(a: Seq<u32>, b: Seq<u32>)
    requires
        bytes_of(a) == bytes_of(b),
    ensures
        a == b,
    decreases a.len(),
{
    four_bytes_per_word(a);
    four_bytes_per_word(b);
    if a.len() > 0 {
        let (head, other) = (bytes_of(a.drop_last()), bytes_of(b.drop_last()));
        four_bytes_per_word(a.drop_last());
        four_bytes_per_word(b.drop_last());
        let n = head.len() as int;
        assert(head =~= bytes_of(a).take(n));
        assert(other =~= bytes_of(b).take(n));
        assert(word_bytes(a.last()) =~= bytes_of(a).skip(n));
        assert(word_bytes(b.last()) =~= bytes_of(b).skip(n));
        bytes_determine_the_words(a.drop_last(), b.drop_last());
        word_bytes_are_unique(a.last(), b.last());
        assert(a =~= a.drop_last().push(a.last()));
        assert(b =~= b.drop_last().push(b.last()));
    } else {
        assert(a =~= b);
    }
}

proof fn four_bytes_per_word(words: Seq<u32>)
    ensures
        bytes_of(words).len() == 4 * words.len(),
    decreases words.len(),
{
    if words.len() > 0 {
        four_bytes_per_word(words.drop_last());
    }
}

} // verus!
