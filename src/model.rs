//! The arithmetic of the hashes as mathematical functions: one combine step
//! per variant, and the hash of a byte sequence as the left fold of that step
//! over the bytes, starting from the seed.
use vstd::prelude::*;

verus! {

/// Folds `step` over `s` from the left, starting from `seed`.
pub open spec fn fold_bytes<W>(step: spec_fn(W, u8) -> W, seed: W, s: Seq<u8>) -> W
    decreases s.len(),
{
    if s.len() == 0 {
        seed
    } else {
        step(fold_bytes(step, seed, s.drop_last()), s.last())
    }
}

/// Folding over a concatenation is folding over the second part from where
/// the first part left off.
pub proof fn lemma_fold_bytes_concat<W>(step: spec_fn(W, u8) -> W, seed: W, s1: Seq<u8>, s2: Seq<u8>)
    ensures
        fold_bytes(step, seed, s1 + s2) == fold_bytes(step, fold_bytes(step, seed, s1), s2),
    decreases s2.len(),
{
    if s2.len() == 0 {
        assert(s1 + s2 == s1);
    } else {
        assert((s1 + s2).drop_last() == s1 + s2.drop_last());
        assert((s1 + s2).last() == s2.last());
        lemma_fold_bytes_concat(step, seed, s1, s2.drop_last());
    }
}

/// The additive combine on a 64-bit word: `h * 33 + b`, modulo 2^64.
pub open spec fn add_step64(h: u64, b: u8) -> u64 {
    (h * 33 + b) as u64
}

/// The additive combine on a 32-bit word: `h * 33 + b`, modulo 2^32.
pub open spec fn add_step32(h: u32, b: u8) -> u32 {
    (h * 33 + b) as u32
}

/// The XOR combine on a 64-bit word: `h * 33` modulo 2^64, XOR `b`.
pub open spec fn xor_step64(h: u64, b: u8) -> u64 {
    ((h * 33) as u64) ^ (b as u64)
}

/// The XOR combine on a 32-bit word: `h * 33` modulo 2^32, XOR `b`.
pub open spec fn xor_step32(h: u32, b: u8) -> u32 {
    ((h * 33) as u32) ^ (b as u32)
}

/// The 64-bit additive hash of `s`, started from `seed`.
pub open spec fn x33a_hash(seed: u64, s: Seq<u8>) -> u64 {
    fold_bytes(|h: u64, b: u8| add_step64(h, b), seed, s)
}

/// The 32-bit additive hash of `s`, started from `seed`.
pub open spec fn x33a_u32_hash(seed: u32, s: Seq<u8>) -> u32 {
    fold_bytes(|h: u32, b: u8| add_step32(h, b), seed, s)
}

/// The 64-bit XOR hash of `s`, started from `seed`.
pub open spec fn x33x_hash(seed: u64, s: Seq<u8>) -> u64 {
    fold_bytes(|h: u64, b: u8| xor_step64(h, b), seed, s)
}

/// The 32-bit XOR hash of `s`, started from `seed`.
pub open spec fn x33x_u32_hash(seed: u32, s: Seq<u8>) -> u32 {
    fold_bytes(|h: u32, b: u8| xor_step32(h, b), seed, s)
}

/// A 32-bit word with its top bit forced on.
pub open spec fn high_bit_set(h: u32) -> u32 {
    h | 0x8000_0000
}

/// Under the 64-bit additive hash, feeding `s1` and then `s2` ends in the same word
/// as feeding `s1 + s2` at once.
pub proof fn lemma_x33a_streaming(seed: u64, s1: Seq<u8>, s2: Seq<u8>)
    ensures
        x33a_hash(x33a_hash(seed, s1), s2) == x33a_hash(seed, s1 + s2),
{
    lemma_fold_bytes_concat(|h: u64, b: u8| add_step64(h, b), seed, s1, s2);
}

/// Under the 64-bit additive hash, feeding no bytes leaves the seed as it is.
pub proof fn lemma_x33a_empty(seed: u64)
    ensures
        x33a_hash(seed, Seq::empty()) == seed,
{
}

/// Under the 32-bit additive hash, feeding `s1` and then `s2` ends in the same word
/// as feeding `s1 + s2` at once.
pub proof fn lemma_x33a_u32_streaming(seed: u32, s1: Seq<u8>, s2: Seq<u8>)
    ensures
        x33a_u32_hash(x33a_u32_hash(seed, s1), s2) == x33a_u32_hash(seed, s1 + s2),
{
    lemma_fold_bytes_concat(|h: u32, b: u8| add_step32(h, b), seed, s1, s2);
}

/// Under the 32-bit additive hash, feeding no bytes leaves the seed as it is.
pub proof fn lemma_x33a_u32_empty(seed: u32)
    ensures
        x33a_u32_hash(seed, Seq::empty()) == seed,
{
}

/// Under the 64-bit XOR hash, feeding `s1` and then `s2` ends in the same word
/// as feeding `s1 + s2` at once.
pub proof fn lemma_x33x_streaming(seed: u64, s1: Seq<u8>, s2: Seq<u8>)
    ensures
        x33x_hash(x33x_hash(seed, s1), s2) == x33x_hash(seed, s1 + s2),
{
    lemma_fold_bytes_concat(|h: u64, b: u8| xor_step64(h, b), seed, s1, s2);
}

/// Under the 64-bit XOR hash, feeding no bytes leaves the seed as it is.
pub proof fn lemma_x33x_empty(seed: u64)
    ensures
        x33x_hash(seed, Seq::empty()) == seed,
{
}

/// Under the 32-bit XOR hash, feeding `s1` and then `s2` ends in the same word
/// as feeding `s1 + s2` at once.
pub proof fn lemma_x33x_u32_streaming(seed: u32, s1: Seq<u8>, s2: Seq<u8>)
    ensures
        x33x_u32_hash(x33x_u32_hash(seed, s1), s2) == x33x_u32_hash(seed, s1 + s2),
{
    lemma_fold_bytes_concat(|h: u32, b: u8| xor_step32(h, b), seed, s1, s2);
}

/// Under the 32-bit XOR hash, feeding no bytes leaves the seed as it is.
pub proof fn lemma_x33x_u32_empty(seed: u32)
    ensures
        x33x_u32_hash(seed, Seq::empty()) == seed,
{
}

/// Forcing the top bit on keeps the other bits and leaves a word of at least
/// 2^31, so never zero.
pub proof fn lemma_high_bit_set(h: u32)
    ensures
        high_bit_set(h) >= 0x8000_0000,
        high_bit_set(h) & 0x7fff_ffff == h & 0x7fff_ffff,
{
    assert((h | 0x8000_0000u32) >= 0x8000_0000u32) by (bit_vector);
    assert((h | 0x8000_0000u32) & 0x7fff_ffffu32 == h & 0x7fff_ffffu32) by (bit_vector);
}

proof fn lemma_wrapping_add64(x: u64, y: u64)
    ensures
        x.wrapping_add(y) == (x + y) as u64,
{
    if x + y > u64::MAX {
        assert((x + y - 0x1_0000_0000_0000_0000) as u64 == (x + y) as u64) by (bit_vector);
    }
}

proof fn lemma_wrapping_add32(x: u32, y: u32)
    ensures
        x.wrapping_add(y) == (x + y) as u32,
{
    if x + y > u32::MAX {
        assert((x + y - 0x1_0000_0000) as u32 == (x + y) as u32) by (bit_vector);
    }
}

/// Shifting by five and adding the word once more multiplies it by 33,
/// modulo 2^64.
pub proof fn lemma_times33_64(h: u64)
    ensures
        ((h << 5u64) as u64).wrapping_add(h) == (h * 33) as u64,
{
    let t = (h << 5u64) as u64;
    lemma_wrapping_add64(t, h);
    assert((((h << 5u64) as u64) + h) as u64 == (h * 33) as u64) by (bit_vector);
}

/// Shifting by five and adding the word once more multiplies it by 33,
/// modulo 2^32.
pub proof fn lemma_times33_32(h: u32)
    ensures
        ((h << 5u32) as u32).wrapping_add(h) == (h * 33) as u32,
{
    let t = (h << 5u32) as u32;
    lemma_wrapping_add32(t, h);
    assert((((h << 5u32) as u32) + h) as u32 == (h * 33) as u32) by (bit_vector);
}

/// The shift-and-add form of the additive combine on 64 bits.
pub proof fn lemma_add_step64(h: u64, b: u8)
    ensures
        ((h << 5u64) as u64).wrapping_add(h).wrapping_add(b as u64) == add_step64(h, b),
{
    lemma_times33_64(h);
    let m = (h * 33) as u64;
    lemma_wrapping_add64(m, b as u64);
    assert((((h * 33) as u64 + (b as u64)) as u64) == ((h * 33 + b) as u64)) by (bit_vector);
}

/// The shift-and-add form of the additive combine on 32 bits.
pub proof fn lemma_add_step32(h: u32, b: u8)
    ensures
        ((h << 5u32) as u32).wrapping_add(h).wrapping_add(b as u32) == add_step32(h, b),
{
    lemma_times33_32(h);
    let m = (h * 33) as u32;
    lemma_wrapping_add32(m, b as u32);
    assert((((h * 33) as u32 + (b as u32)) as u32) == ((h * 33 + b) as u32)) by (bit_vector);
}

} // verus!
