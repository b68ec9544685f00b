//! Trusted boundary to the `rand` crate: the food spawner draws a random
//! index through these wrappers, and everything around the draw is verified
//! for every value the generator may return.

use vstd::prelude::*;
use rand::Rng;

verus! {

/// The thread-local random number generator of the `rand` crate, opaque to
/// verification.
#[verifier::external_type_specification]
#[verifier::external_body]
pub struct ExThreadRng(rand::rngs::ThreadRng);

/// Relies on rand::thread_rng: returns a handle to the lazily-initialized
/// thread-local generator. Nothing is assumed of the values it will produce.
#[verifier::external_body]
pub(crate) fn fresh_rng() -> rand::rngs::ThreadRng {
    rand::thread_rng()
}

/// Relies on rand::Rng::gen_range over the half-open range `0..n`: the result
/// is a uniform draw from that range, so in particular below `n`. gen_range
/// panics on an empty range, hence the bound on `n`.
#[verifier::external_body]
pub(crate) fn gen_below(rng: &mut rand::rngs::ThreadRng, n: usize) -> (r: usize)
    requires
        n > 0,
    ensures
        r < n,
{
    rng.gen_range(0..n)
}

} // verus!
