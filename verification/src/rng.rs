//! The random source threaded explicitly through every operation that draws
//! randomness, so that runs are seed-reproducible: `rand`'s standard seedable
//! generator, carried opaquely, with one trusted draw operation.

use vstd::prelude::*;
use rand::Rng;
use rand::rngs::StdRng;

verus! {

/// `rand`'s standard seedable generator; the caller seeds it and hands it to
/// every drawing operation. Its value is opaque here.
#[verifier::external_type_specification]
#[verifier::external_body]
pub struct ExStdRng(rand::rngs::StdRng);

/// Relies on `rand::Rng::gen_range` over `0..n`: the draw is uniform and lies
/// in the range, and the call is panic-free because the range is non-empty.
#[verifier::external_body]
pub fn rng_below(rng: &mut StdRng, n: u32) -> (r: u32)
    requires
        n >= 1,
    ensures
        r < n,
{
    rng.gen_range(0..n)
}

} // verus!
