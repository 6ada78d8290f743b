//! Random draws for the simulation, taken from the thread-local generator.
use rand::Rng;
use vstd::prelude::*;

verus! {

/// Relies on rand::Rng::random_range over an inclusive range: the value is
/// drawn from `lo..=hi`, which must not be empty.
#[verifier::external_body]
pub(crate) fn random_in(lo: i8, hi: i8) -> (r: i8)
    requires
        lo <= hi,
    ensures
        lo <= r <= hi,
{
    rand::rng().random_range(lo..=hi)
}

} // verus!
