use vstd::prelude::*;
use mt19937::MT19937;
use rand::RngCore;

verus! {

#[verifier::external_type_specification]
#[verifier::external_body]
pub struct ExMT19937(MT19937);

/// The `index`-th 32-bit output (counting from 0) of the MT19937 generator
/// seeded with `init_by_array(key)`.
pub uninterp spec fn mt19937_word(key: Seq<u32>, index: nat) -> u32;

/// A Mersenne Twister generator together with the key it was seeded with and
/// the number of words drawn from it so far. The fields are private: only
/// `from_key` makes one and only `next_u32` advances it, so the key and the
/// count always describe the generator's state.
pub struct MersenneTwister {
    rng: MT19937,
    key: Ghost<Seq<u32>>,
    drawn: Ghost<nat>,
}

impl MersenneTwister {
    /// The key the generator was seeded with.
    pub closed spec fn key(&self) -> Seq<u32> {
        self.key@
    }

    /// How many words have been drawn so far.
    pub closed spec fn drawn(&self) -> nat {
        self.drawn@
    }

    /// Relies on `MT19937::new_with_slice_seed`: a generator seeded by the
    /// array form of MT19937 seeding; it reads `key[0]`, so `key` is not empty.
    #[verifier::external_body]
    fn from_key(key: &[u32]) -> (r: MersenneTwister)
        requires
            key@.len() > 0,
        ensures
            r.key() == key@,
            r.drawn() == 0,
    {
        MersenneTwister { rng: MT19937::new_with_slice_seed(key), key: Ghost(key@), drawn: Ghost(0) }
    }

    /// Relies on `RngCore::next_u32` of `MT19937`: the generator's next output.
    #[verifier::external_body]
    pub fn next_u32(&mut self) -> (r: u32)
        ensures
            r == mt19937_word(old(self).key(), old(self).drawn()),
            final(self).key() == old(self).key(),
            final(self).drawn() == old(self).drawn() + 1,
    {
        self.rng.next_u32()
    }

    /// A generator seeded with `key`, nothing drawn yet.
    pub fn seeded(key: &[u32]) -> (r: MersenneTwister)
        requires
            key@.len() > 0,
        ensures
            r.key() == key@,
            r.drawn() == 0,
    {
        Self::from_key(key)
    }
}

} // verus!
