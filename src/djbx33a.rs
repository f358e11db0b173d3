use vstd::prelude::*;
use std::hash::Hasher;
use crate::model::{x33a_hash, lemma_add_step64};

verus! {

/// The 64-bit additive hash in its plainest form: always started from the
/// seed 5381, each byte updates the word to `hash * 33 + byte`. It computes the
/// same values as `X33a::new`.
pub struct Djbx33a {
    hash: u64,
}

impl View for Djbx33a {
    type V = u64;

    closed spec fn view(&self) -> u64 {
        self.hash
    }
}

impl Djbx33a {
    /// A hash started from the classic seed 5381.
    pub fn new() -> (r: Self)
        ensures
            r@ == 5381,
    {
        Djbx33a { hash: 5381 }
    }
}

impl Hasher for Djbx33a {
    /// Returns the word; the state is left as it is.
    fn finish(&self) -> (r: u64)
        ensures
            r == self@,
    {
        self.hash
    }

    /// Feeds the bytes in order, each as `hash * 33 + byte` written as
    /// `(hash << 5) + hash + byte`.
    fn write(&mut self, bytes: &[u8])
        ensures
            final(self)@ == x33a_hash(old(self)@, bytes@),
    {
        let ghost seed = self.hash;
        let mut i: usize = 0;
        while i < bytes.len()
            invariant
                i <= bytes@.len(),
                self.hash == x33a_hash(seed, bytes@.subrange(0, i as int)),
            decreases bytes@.len() - i,
        {
            let h = self.hash;
            proof {
                lemma_add_step64(h, bytes@[i as int]);
                assert(bytes@.subrange(0, i + 1).drop_last() == bytes@.subrange(0, i as int));
            }
            self.hash = (h << 5).wrapping_add(h).wrapping_add(bytes[i] as u64);
            i += 1;
        }
        assert(bytes@.subrange(0, i as int) == bytes@);
    }
}

} // verus!
