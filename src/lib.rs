//! Streaming, non-cryptographic hash functions after Daniel J. Bernstein's
//! multiply-by-33 designs, bit-exact with the string hashes of several other
//! runtimes.
//!
//! Each hasher holds one machine word, started from a seed (5381 unless a salt
//! is given). Feeding bytes updates the word once per byte, in order, with
//! wrapping arithmetic; reading the result never changes it. The names say the
//! combine step: `X33a` multiplies by 33 and adds the byte, `X33x` multiplies
//! by 33 and XORs it in; `U32` keeps a 32-bit word, and `Php` forces the top
//! bit of the 32-bit result on.
use vstd::prelude::*;
use std::hash::Hasher;

pub mod djbx33a;
pub mod model;
pub mod x33a;
pub mod x33a_u32;
pub mod x33a_u32_php;
pub mod x33x;
pub mod x33x_u32;

verus! {

/// Hashers that keep a 32-bit word and can hand out their result at that
/// width, without going through 64 bits and back.
pub trait HasherU32: Hasher {
    /// The 32-bit result of the bytes fed so far.
    spec fn result32(&self) -> u32;

    /// The 64-bit result, as `finish` returns it.
    spec fn result64(&self) -> u64;

    /// The 64-bit result is the 32-bit one, zero-extended.
    proof fn lemma_result64_widens_result32(&self)
        ensures
            self.result64() == self.result32() as u64,
    ;

    /// Returns the 32-bit result.
    fn finish_u32(&self) -> (r: u32)
        ensures
            r == self.result32(),
    ;
}

} // verus!
