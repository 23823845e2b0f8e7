//! The source of the bytes that the random instruction draws.

use vstd::prelude::*;

verus! {

/// A source of random bytes.
///
/// The machine asks nothing of the bytes it receives: every contract that
/// involves one holds for each of the 256 values.
pub trait RandomSource {
    /// Returns the next byte.
    fn next_byte(&mut self) -> u8;
}

/// The thread-local generator of the `rand` crate, `rand::rngs::ThreadRng`.
/// Nothing is known of what a value of it holds.
#[verifier::external_type_specification]
#[verifier::external_body]
pub struct ExThreadRng(rand::rngs::ThreadRng);

/// A source that draws from the thread-local generator of the `rand` crate.
pub struct ThreadRandom {
    rng: rand::rngs::ThreadRng,
}

/// Draws one byte from the generator by calling `rand::Rng::random`.
///
/// Nothing is claimed of the byte, nor of the generator afterwards: the call
/// may return any of the 256 values.
#[verifier::external_body]
fn random_byte(rng: &mut rand::rngs::ThreadRng) -> u8 {
    rand::Rng::random(rng)
}

impl ThreadRandom {
    /// Wraps a handle to the thread-local generator: the source draws from
    /// the generator that it was given.
    pub fn new(rng: rand::rngs::ThreadRng) -> (source: Self)
        ensures
            source.generator() == rng,
    {
        ThreadRandom { rng }
    }
}

impl RandomSource for ThreadRandom {
    fn next_byte(&mut self) -> u8 {
        random_byte(&mut self.rng)
    }
}

impl ThreadRandom {
    /// The generator that the source draws from.
    pub closed spec fn generator(&self) -> rand::rngs::ThreadRng {
        self.rng
    }
}

} // verus!
