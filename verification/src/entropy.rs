//! The source of randomness that a machine is built with, and the generators
//! of the `rand` crate that can serve as one.

use vstd::prelude::*;

verus! {

/// A source of random bytes, handed to the machine when it is built and
/// consulted only by the instruction that randomizes a register.
///
/// Nothing is promised of the bytes: every statement the machine makes about
/// a randomized register holds for whichever byte was drawn.
pub trait EntropySource {
    /// Draws the next byte from the source.
    fn next_byte(&mut self) -> (byte: u8);
}

/// Declares the outside type `rand::rngs::StdRng`, a seedable generator, so
/// that a machine can own one. Nothing is known of what a value holds.
#[verifier::external_type_specification]
#[verifier::external_body]
pub struct ExStdRng(rand::rngs::StdRng);

/// Declares the outside type `rand::rngs::ThreadRng`, the handle to the
/// thread-local generator that `rand::rng()` returns, so that a machine can
/// own one. Nothing is known of what a value holds.
#[verifier::external_type_specification]
#[verifier::external_body]
pub struct ExThreadRng(rand::rngs::ThreadRng);

impl EntropySource for rand::rngs::StdRng {
    fn next_byte(&mut self) -> (byte: u8) {
        std_rng_byte(self)
    }
}

impl EntropySource for rand::rngs::ThreadRng {
    fn next_byte(&mut self) -> (byte: u8) {
        thread_rng_byte(self)
    }
}

/// Calls `rand::Rng::random::<u8>` on a `StdRng`, which takes the next 32
/// bits of the generator's stream and returns their low byte. The contract
/// claims nothing about which byte that is, nor about the generator
/// afterwards.
#[verifier::external_body]
fn std_rng_byte(rng: &mut rand::rngs::StdRng) -> (byte: u8) {
    rand::Rng::random::<u8>(rng)
}

/// Calls `rand::Rng::random::<u8>` on a `ThreadRng`, which takes the next 32
/// bits of the thread-local generator and returns their low byte. The
/// contract claims nothing about which byte that is, nor about the generator
/// afterwards. No argument makes the call fail: it panics only if the
/// operating system refuses fresh entropy when the generator reseeds itself.
#[verifier::external_body]
fn thread_rng_byte(rng: &mut rand::rngs::ThreadRng) -> (byte: u8) {
    rand::Rng::random::<u8>(rng)
}

} // verus!
