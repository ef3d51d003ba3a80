//! SplitMix64: the small deterministic generator used to initialise weights
//! from a seed.

use vstd::prelude::*;

verus! {

/// The SplitMix64 generator.
pub struct SplitMix64 {
    state: u64,
}

/// The output function of SplitMix64 for the state `z`.
pub open spec fn splitmix_mix(z: u64) -> u64 {
    let z1 = (z ^ (z >> 30u64)).wrapping_mul(0xBF58476D1CE4E5B9u64);
    let z2 = (z1 ^ (z1 >> 27u64)).wrapping_mul(0x94D049BB133111EBu64);
    z2 ^ (z2 >> 31u64)
}

impl SplitMix64 {
    /// The current state.
    pub closed spec fn spec_state(&self) -> u64 {
        self.state
    }

    pub fn new(seed: u64) -> (r: Self)
        ensures
            r.spec_state() == seed,
    {
        SplitMix64 { state: seed }
    }

    /// Advance the state by the golden-ratio increment and return the mixed
    /// new state.
    pub fn next_u64(&mut self) -> (r: u64)
        ensures
            final(self).spec_state() == old(self).spec_state().wrapping_add(0x9E3779B97F4A7C15u64),
            r == splitmix_mix(final(self).spec_state()),
    {
        self.state = self.state.wrapping_add(0x9E3779B97F4A7C15u64);
        let mut z = self.state;
        z = (z ^ (z >> 30u64)).wrapping_mul(0xBF58476D1CE4E5B9u64);
        z = (z ^ (z >> 27u64)).wrapping_mul(0x94D049BB133111EBu64);
        z ^ (z >> 31u64)
    }
}

} // verus!
