//! The source of the byte that CXNN draws.

use vstd::prelude::*;

verus! {

/// Calls `rand::random::<u8>()`, which draws a byte from the thread's
/// generator. Nothing is claimed of the byte: any value may come back, and
/// two calls need not agree. The generator is seeded from the operating
/// system when a thread first uses it, and `rand` panics there if the system
/// gives it no entropy.
#[verifier::external_body]
pub(crate) fn random_byte() -> (byte: u8) {
    rand::random::<u8>()
}

} // verus!
