//! The random source of the admission decision.

use vstd::prelude::*;

verus! {

/// Draws one 32-bit value from the thread-local generator, through
/// `rand::random`. Nothing is claimed of the value: every `u32` may come back,
/// and two calls may differ. The generator is seeded from the operating
/// system on first use in a thread, and the call panics only where that
/// seeding fails.
#[verifier::external_body]
pub(crate) fn random_draw() -> u32 {
    rand::random::<u32>()
}

} // verus!
