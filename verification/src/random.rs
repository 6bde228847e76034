//! The source of the random bytes that the machine draws.

use vstd::prelude::*;
use rand::rngs::ThreadRng;
use rand::Rng;

verus! {

/// `rand::rngs::ThreadRng`, the handle of the generator that each thread
/// owns. Nothing is known of what it holds.
#[verifier::external_type_specification]
#[verifier::external_body]
pub struct ExThreadRng(ThreadRng);

/// `rand::thread_rng` hands out the generator of the calling thread, which
/// the operating system seeds on first use. Nothing is claimed of the
/// generator. The call takes no input and panics only where the operating
/// system has no entropy to give.
pub assume_specification[ rand::thread_rng ]() -> (rng: ThreadRng);

/// `rand::Rng::gen` for a `u8`: the next byte of the generator. Nothing is
/// claimed of the byte, which may be any. The generator takes fresh entropy
/// from the operating system now and then, and panics only where the system
/// has none to give.
#[verifier::external_body]
fn random_byte(rng: &mut ThreadRng) -> (byte: u8) {
    rng.gen()
}

/// A source of random bytes, fed by the generator of the thread that made it.
#[derive(Debug)]
pub struct RandomSource {
    rng: ThreadRng,
}

impl RandomSource {
    /// A source that draws from the generator of the calling thread.
    pub(crate) fn new() -> (source: RandomSource) {
        RandomSource { rng: rand::thread_rng() }
    }

    /// The next byte. It may be any: each call may give another.
    pub(crate) fn next_byte(&mut self) -> (byte: u8) {
        random_byte(&mut self.rng)
    }
}

} // verus!
