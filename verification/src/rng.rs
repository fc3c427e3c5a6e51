//! The machine's source of randomness, for the Cxkk instruction.

use vstd::prelude::*;

verus! {

/// Relies on rand::random: one byte drawn from the thread-local generator.
/// Nothing is promised of the value; the caller states what holds of every
/// outcome.
#[verifier::external_body]
pub(crate) fn random_byte() -> u8 {
    rand::random()
}

} // verus!
