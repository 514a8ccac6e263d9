//! The random source: a small seeded generator from the `rand` crate, seen by
//! the rest of the library only through bounded draws.

use vstd::prelude::*;

use rand::rngs::SmallRng;
use rand::Rng;

verus! {

/// Relies on `rand::rngs::SmallRng` being an ordinary owned value; nothing is
/// assumed of the numbers it yields beyond what each draw below states.
#[verifier::external_type_specification]
#[verifier::external_body]
pub struct ExSmallRng(SmallRng);

/// Relies on rand's `Rng::gen_range` over the inclusive range `lo..=hi`: the
/// draw lies inside the range, and the call panics only on an empty range,
/// which the precondition rules out.
#[verifier::external_body]
pub(crate) fn rng_range_u32(rng: &mut SmallRng, lo: u32, hi: u32) -> (r: u32)
    requires
        lo <= hi,
    ensures
        lo <= r <= hi,
{
    rng.gen_range(lo..=hi)
}

/// Relies on rand's `Rng::gen_range` over the half-open range `0..n`: the
/// draw is a valid index, and the call panics only when `n` is zero, which
/// the precondition rules out.
#[verifier::external_body]
pub(crate) fn rng_index(rng: &mut SmallRng, n: usize) -> (r: usize)
    requires
        n > 0,
    ensures
        r < n,
{
    rng.gen_range(0..n)
}

/// Relies on rand's `Rng::gen_ratio` with ratio 1/2: a fair coin flip. The
/// arguments make a valid ratio, so the call does not panic; nothing is known
/// of the outcome.
#[verifier::external_body]
pub(crate) fn rng_coin(rng: &mut SmallRng) -> bool {
    rng.gen_ratio(1, 2)
}

} // verus!
