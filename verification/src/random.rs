//! The source of random pixel values.
//!
//! A source is either the generator that `rand` keeps for the current thread,
//! seeded by the operating system, or a generator started from a seed of the
//! caller. Nothing is claimed of the values drawn: every function that uses a
//! draw is verified for whatever value comes back.

use vstd::prelude::*;

verus! {

/// The handle of `rand`'s generator of the current thread. Its state is not
/// visible to the verifier.
#[verifier::external_type_specification]
#[verifier::external_body]
pub struct ExThreadRng(rand::rngs::ThreadRng);

/// The standard generator of `rand`. Its state is not visible to the verifier.
#[verifier::external_type_specification]
#[verifier::external_body]
pub struct ExStdRng(rand::rngs::StdRng);

/// A stateful generator of uniformly distributed 32-bit values.
pub enum RandomSource {
    /// The generator of the current thread, seeded by the operating system.
    System(rand::rngs::ThreadRng),
    /// A generator started from a seed, which repeats its values when started
    /// again from the same seed.
    Seeded(rand::rngs::StdRng),
}

/// Calls `rand::thread_rng`, which hands out the generator of the current
/// thread. Trusted to return; it fails only where the operating system gives
/// no entropy at all.
#[verifier::external_body]
fn thread_generator() -> rand::rngs::ThreadRng {
    rand::thread_rng()
}

/// The generator that `SeedableRng::seed_from_u64` of `rand::rngs::StdRng`
/// returns for `seed`: the seed is expanded into the initial state by a fixed
/// computation, so the generator depends on the seed alone.
pub uninterp spec fn seeded_rng(seed: u64) -> rand::rngs::StdRng;

/// Calls `SeedableRng::seed_from_u64` of `rand::rngs::StdRng`, which expands
/// the seed into the generator's initial state. Trusted to return the
/// generator that the seed determines, and nothing is claimed of what that
/// generator holds.
#[verifier::external_body]
fn seeded_generator(seed: u64) -> (rng: rand::rngs::StdRng)
    ensures
        rng == seeded_rng(seed),
{
    rand::SeedableRng::seed_from_u64(seed)
}

/// Calls `Rng::gen` of `rand` for a `u32` on the generator of the current
/// thread. Nothing is claimed of the value.
#[verifier::external_body]
fn draw_system(rng: &mut rand::rngs::ThreadRng) -> u32 {
    rand::Rng::gen(rng)
}

/// Calls `Rng::gen` of `rand` for a `u32` on a seeded generator. Nothing is
/// claimed of the value.
#[verifier::external_body]
fn draw_seeded(rng: &mut rand::rngs::StdRng) -> u32 {
    rand::Rng::gen(rng)
}

impl RandomSource {
    /// The generator of the current thread.
    pub fn system() -> (source: Self)
        ensures
            source is System,
    {
        RandomSource::System(thread_generator())
    }

    /// A generator started from `seed`: the standard generator in the state
    /// that the seed determines.
    pub fn seeded(seed: u64) -> (source: Self)
        ensures
            source == RandomSource::Seeded(seeded_rng(seed)),
    {
        RandomSource::Seeded(seeded_generator(seed))
    }

    /// Draws the next value.
    pub fn draw(&mut self) -> (value: u32)
        ensures
            *old(self) is System <==> *final(self) is System,
    {
        match self {
            RandomSource::System(rng) => draw_system(rng),
            RandomSource::Seeded(rng) => draw_seeded(rng),
        }
    }

    /// Draws `count` values, in the order in which the source gives them.
    pub fn draw_many(&mut self, count: usize) -> (values: Vec<u32>)
        ensures
            values@.len() == count,
            *old(self) is System <==> *final(self) is System,
    {
        let mut values: Vec<u32> = Vec::new();
        let mut done: usize = 0;
        while done < count
            invariant
                done <= count,
                values@.len() == done,
                *old(self) is System <==> *self is System,
            decreases count - done,
        {
            let value = self.draw();
            values.push(value);
            done = done + 1;
        }
        values
    }
}

} // verus!
