//! The seeded random source: a 32-bit permuted congruential generator whose
//! state is carried as two plain words, so that a whole run is a function of
//! the seed. Sampling is delegated to the `oorandom` crate; what it returns
//! is named, never restated.
use vstd::prelude::*;

verus! {

/// The generator state `oorandom::Rand32::new` builds from a seed: a function
/// of the seed alone.
pub uninterp spec fn pcg32_seeded(seed: u64) -> (u64, u64);

/// What `oorandom::Rand32::rand_range` produces from a generator state and a
/// half-open bound pair: the sampled value and the advanced state word, both
/// functions of the arguments alone.
pub uninterp spec fn pcg32_range_sample(state: u64, inc: u64, low: u32, high: u32) -> (u32, u64);

/// Relies on `oorandom::Rand32::new` (with `state`/`from_state` moving the
/// state words in and out): the state it builds depends on the seed alone,
/// and the increment word comes out odd — `new_inc` sets its low bit, since
/// the generator needs an odd increment.
#[verifier::external_body]
fn pcg32_seed_raw(seed: u64) -> (r: (u64, u64))
    ensures
        r == pcg32_seeded(seed),
        r.1 % 2 == 1,
{
    let rng = oorandom::Rand32::new(seed);
    rng.state()
}

/// Relies on `oorandom::Rand32::rand_range` (with `state`/`from_state` moving
/// the state words in and out): for a non-empty range it returns a value in
/// `[low, high)`, and the value and the advanced state depend on the state
/// words and the bounds alone. The increment must be odd, as the generator
/// requires: with an odd increment it has full period, so the rejection
/// sampling inside `rand_range` finds an acceptable draw and returns.
#[verifier::external_body]
fn pcg32_range_raw(state: u64, inc: u64, low: u32, high: u32) -> (r: (u32, u64))
    requires
        low < high,
        inc % 2 == 1,
    ensures
        r == pcg32_range_sample(state, inc, low, high),
        low <= r.0 < high,
{
    let mut rng = oorandom::Rand32::from_state((state, inc));
    let value = rng.rand_range(low..high);
    let (state2, _) = rng.state();
    (value, state2)
}

/// A seeded pseudo-random generator, held as plain state words.
#[derive(Clone, Copy, Debug, PartialEq, Eq, Structural)]
pub struct Rng {
    pub state: u64,
    pub inc: u64,
}

/// The generator's increment word is odd, as every generator built from a
/// seed has it and as sampling requires: an odd increment gives the
/// underlying congruential generator full period.
pub open spec fn rng_wf(rng: Rng) -> bool {
    rng.inc % 2 == 1
}

/// The generator a given seed yields.
pub open spec fn seeded_rng(seed: u64) -> Rng {
    Rng { state: pcg32_seeded(seed).0, inc: pcg32_seeded(seed).1 }
}

/// The value `rng` samples from `[low, high)`.
pub open spec fn sample_of(rng: Rng, low: u32, high: u32) -> u32 {
    pcg32_range_sample(rng.state, rng.inc, low, high).0
}

/// The generator after `rng` sampled from `[low, high)`.
pub open spec fn advanced_rng(rng: Rng, low: u32, high: u32) -> Rng {
    Rng { state: pcg32_range_sample(rng.state, rng.inc, low, high).1, inc: rng.inc }
}

impl Rng {
    /// A generator determined by `seed` alone.
    pub fn new(seed: u64) -> (r: Rng)
        ensures
            r == seeded_rng(seed),
            rng_wf(r),
    {
        let (state, inc) = pcg32_seed_raw(seed);
        Rng { state, inc }
    }

    /// Draws a value uniformly from `[low, high)` and advances the state.
    pub fn sample(&mut self, low: u32, high: u32) -> (v: u32)
        requires
            low < high,
            rng_wf(*old(self)),
        ensures
            v == sample_of(*old(self), low, high),
            low <= v < high,
            *final(self) == advanced_rng(*old(self), low, high),
            rng_wf(*final(self)),
    {
        let (value, state2) = pcg32_range_raw(self.state, self.inc, low, high);
        self.state = state2;
        value
    }
}

} // verus!
