//! The console's entropy source: a pure xorshift32 stream, deterministic
//! from its seed (and therefore replay-safe), plus a process-random seed.

use vstd::prelude::*;

verus! {

/// One xorshift32 update: the next state of the stream.
pub open spec fn xorshift_spec(x: u32) -> u32 {
    let a = x ^ (x << 13u32);
    let b = a ^ (a >> 17u32);
    b ^ (b << 5u32)
}

/// A pseudo-random stream of 32-bit values.
pub struct RandomNumbers {
    state: u32,
}

impl RandomNumbers {
    /// The current stream state.
    pub closed spec fn state(&self) -> u32 {
        self.state
    }

    /// Advances the stream and returns the new state.
    pub fn next_u32(&mut self) -> (r: u32)
        ensures
            r == xorshift_spec(old(self).state()),
            final (self).state() == xorshift_spec(old(self).state()),
    {
        let mut random = self.state;
        random = random ^ (random << 13u32);
        random = random ^ (random >> 17u32);
        random = random ^ (random << 5u32);
        self.state = random;
        random
    }
}

/// The xorshift32 stream starting from `seed`.
pub fn random_numbers(seed: u32) -> (r: RandomNumbers)
    ensures
        r.state() == seed,
{
    RandomNumbers { state: seed }
}

/// A process-random 64-bit seed.
///
/// Relies on std's `RandomState`: finishing a freshly built default hasher
/// yields a value drawn from the per-process random hasher keys. Nothing is
/// promised of the result.
#[verifier::external_body]
pub fn random_seed() -> u64 {
    std::hash::Hasher::finish(&std::hash::BuildHasher::build_hasher(
        &std::collections::hash_map::RandomState::new(),
    ))
}

} // verus!
