use vstd::prelude::*;
use std::hash::Hasher;
use crate::HasherU32;
use crate::model::{x33a_u32_hash, high_bit_set, lemma_add_step32, lemma_high_bit_set};

verus! {

/// The 32-bit additive hash with the top bit of the result forced on, as PHP
/// does so that no hash is zero (its mark for a hash not yet computed). The
/// word itself evolves as in `X33aU32`; only the result is marked.
pub struct X33aU32Php {
    hash: u32,
}

impl View for X33aU32Php {
    type V = u32;

    closed spec fn view(&self) -> u32 {
        self.hash
    }
}

impl X33aU32Php {
    /// A hash started from the classic seed 5381.
    pub fn new() -> (r: Self)
        ensures
            r@ == 5381,
    {
        X33aU32Php { hash: 5381 }
    }

    /// A hash started from the given seed. Any value is accepted; an odd prime
    /// with bits above the low byte spreads the results best.
    pub fn new_with_salt(s: u32) -> (r: Self)
        ensures
            r@ == s,
    {
        X33aU32Php { hash: s }
    }
}

impl HasherU32 for X33aU32Php {
    open spec fn result32(&self) -> u32 {
        high_bit_set(self@)
    }

    open spec fn result64(&self) -> u64 {
        high_bit_set(self@) as u64
    }

    proof fn lemma_result64_widens_result32(&self) {
    }

    fn finish_u32(&self) -> (r: u32)
        ensures
            r == self@ | 0x8000_0000,
            r >= 0x8000_0000,
    {
        proof {
            lemma_high_bit_set(self@);
        }
        self.hash | 0x8000_0000u32
    }
}

impl Hasher for X33aU32Php {
    /// Returns the result widened to 64 bits; the state is left as it is.
    fn finish(&self) -> (r: u64)
        ensures
            r == (self@ | 0x8000_0000) as u64,
            r == self.result64(),
    {
        (self.hash | 0x8000_0000u32) as u64
    }

    /// Feeds the bytes in order, each as `hash * 33 + byte` written as
    /// `(hash << 5) + hash + byte`.
    fn write(&mut self, bytes: &[u8])
        ensures
            final(self)@ == x33a_u32_hash(old(self)@, bytes@),
    {
        let ghost seed = self.hash;
        let mut i: usize = 0;
        while i < bytes.len()
            invariant
                i <= bytes@.len(),
                self.hash == x33a_u32_hash(seed, bytes@.subrange(0, i as int)),
            decreases bytes@.len() - i,
        {
            let h = self.hash;
            proof {
                lemma_add_step32(h, bytes@[i as int]);
                assert(bytes@.subrange(0, i + 1).drop_last() == bytes@.subrange(0, i as int));
            }
            self.hash = (h << 5).wrapping_add(h).wrapping_add(bytes[i] as u32);
            i += 1;
        }
        assert(bytes@.subrange(0, i as int) == bytes@);
    }
}

} // verus!
