//! The source of random bytes for the `Cxkk` instruction.

use rand::rngs::ThreadRng;
use rand::Rng;
use vstd::prelude::*;

verus! {

/// Makes `rand::rngs::ThreadRng` known to the verifier as an opaque type.
#[verifier::external_type_specification]
#[verifier::external_body]
pub struct ExThreadRng(ThreadRng);

/// Calls `rand::thread_rng` and hands back the handle to the thread-local
/// generator, which the operating system seeds. Nothing is claimed about
/// the handle.
#[verifier::external_body]
pub(crate) fn thread_generator() -> (generator: ThreadRng) {
    rand::thread_rng()
}

/// Calls `rand::Rng::gen::<u8>` on the generator, which advances it. Nothing
/// is claimed about the byte that comes back: every value is possible, and
/// two calls may differ.
#[verifier::external_body]
pub(crate) fn random_byte(generator: &mut ThreadRng) -> (byte: u8) {
    generator.gen::<u8>()
}

} // verus!
