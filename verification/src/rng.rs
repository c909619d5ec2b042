//! The library's two sources of chance, behind trusted wrappers around the
//! `rand` crate.  Nothing is promised of a coin flip; of a drawn offset only
//! its range.  Every function that consumes these values is verified for
//! every outcome.

use rand::Rng;
use vstd::prelude::*;

verus! {

/// Half-width, in milli-units, of the square in which offsets are drawn for
/// respawn and pickup placement.
pub const OFFSET_RANGE: i64 = 5000;

/// Relies on `rand::random::<bool>()`: a fair coin flip.  Nothing is promised
/// of the outcome; callers handle both.
#[verifier::external_body]
pub(crate) fn random_coin() -> bool {
    rand::random::<bool>()
}

/// Relies on `rand::Rng::gen_range` on the inclusive range
/// `-OFFSET_RANGE..=OFFSET_RANGE`: the sample lies within that range.
#[verifier::external_body]
pub(crate) fn random_offset() -> (r: i64)
    ensures
        -OFFSET_RANGE <= r <= OFFSET_RANGE,
{
    rand::thread_rng().gen_range(-OFFSET_RANGE..=OFFSET_RANGE)
}

} // verus!
