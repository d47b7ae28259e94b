use vstd::prelude::*;
use rand::Rng;
use rand::SeedableRng;
use rand::rngs::StdRng;

verus! {

/// The seedable generator `rand::rngs::StdRng`, carried opaque.
#[verifier::external_type_specification]
#[verifier::external_body]
pub struct ExStdRng(StdRng);

/// Relies on `rand::SeedableRng::seed_from_u64`: a generator whose stream is
/// fixed by `seed`. Nothing is stated of the stream itself.
#[verifier::external_body]
pub(crate) fn rng_from_seed(seed: u64) -> StdRng {
    StdRng::seed_from_u64(seed)
}

/// Relies on `rand::Rng::gen_range`: a value drawn from `0..bound`. It
/// panics on an empty range, which `bound > 0` rules out.
#[verifier::external_body]
pub(crate) fn draw_below(rng: &mut StdRng, bound: u128) -> (r: u128)
    requires
        bound > 0,
    ensures
        r < bound,
{
    rng.gen_range(0..bound)
}

} // verus!
