//! The background timer's randomized delay: a uniform draw below a fixed
//! maximum, in milliseconds.

use vstd::prelude::*;

verus! {

/// The exclusive upper bound on the timer's delay: four seconds.
pub const MAX_DELAY_MILLIS: u64 = 4000;

/// Relies on fastrand::u64: a sample from the given range, which here is
/// never empty; nothing is assumed beyond the bound.
#[verifier::external_body]
fn sample_delay_millis() -> (r: u64)
    ensures
        r < MAX_DELAY_MILLIS,
{
    fastrand::u64(0..MAX_DELAY_MILLIS)
}

/// Draw the delay until the next synthetic incoming message: random, always
/// below the fixed maximum.
pub fn random_duration_millis() -> (r: u64)
    ensures
        r < MAX_DELAY_MILLIS,
{
    sample_delay_millis()
}

} // verus!
