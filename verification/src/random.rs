use rand::Rng;
use vstd::prelude::*;

verus! {

/// Draws a byte from the thread-local generator of the `rand` crate
/// (`rand::thread_rng().gen::<u8>()`).
///
/// This is the one place where the machine is not a function of its inputs.
/// Nothing is assumed about the byte that comes back: whatever uses it is
/// proved for all 256 possibilities. (The generator seeds itself from the
/// operating system on first use and panics if the system has no entropy to
/// give; there is no argument by which a caller could rule that out.)
#[verifier::external_body]
pub(crate) fn random_byte() -> (byte: u8) {
    rand::thread_rng().gen::<u8>()
}

} // verus!
