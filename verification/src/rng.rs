//! The simulation's only source of randomness: rand's thread-local
//! generator, behind one trusted wrapper. Everything downstream of a draw
//! is verified for every value the contract admits.

use vstd::prelude::*;
use rand::Rng;

verus! {

#[verifier::external_type_specification]
#[verifier::external_body]
pub struct ExThreadRng(rand::rngs::ThreadRng);

/// Relies on rand's `Rng::gen_range` over an integer `Range`: the sample is
/// uniform in `[lo, hi)`, and the call panics only when the range is empty,
/// which the precondition rules out.
#[verifier::external_body]
pub(crate) fn gen_range_i64(rng: &mut rand::rngs::ThreadRng, lo: i64, hi: i64) -> (r: i64)
    requires
        lo < hi,
    ensures
        lo <= r < hi,
{
    rng.gen_range(lo..hi)
}

} // verus!
