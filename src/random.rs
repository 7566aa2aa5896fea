//! Random draws, made with rand's standard generator.

use rand::rngs::StdRng;
use vstd::prelude::*;

verus! {

#[verifier::external_type_specification]
#[verifier::external_body]
pub struct ExStdRng(StdRng);

/// Relies on rand's `Rng::gen::<bool>`: a fair coin flip. Nothing is known
/// of its outcome.
#[verifier::external_body]
pub(crate) fn flip_coin(rng: &mut StdRng) -> bool {
    rand::Rng::gen::<bool>(rng)
}

/// Relies on rand's `Rng::gen_range` over `0..n`: a value in that range,
/// drawn uniformly. It panics on an empty range, which `requires` excludes.
#[verifier::external_body]
pub(crate) fn pick_below(rng: &mut StdRng, n: usize) -> (r: usize)
    requires
        n > 0,
    ensures
        r < n,
{
    rand::Rng::gen_range(rng, 0..n)
}

} // verus!
