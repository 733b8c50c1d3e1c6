//! The two places the rules draw on chance: picking room codes, and seeding a
//! challenge that is dealt on the spot. Both go through `rand`.

use rand::Rng;
use vstd::prelude::*;

verus! {

/// A number drawn uniformly from `0..bound` by `rand::thread_rng().gen_range`.
/// All that is claimed of it is that it lies in that range; which number
/// comes back is chance and is not stated.
#[verifier::external_body]
pub(crate) fn draw_below(bound: usize) -> (n: usize)
    requires
        bound > 0,
    ensures
        n < bound,
{
    rand::thread_rng().gen_range(0..bound)
}

/// A fresh 64-bit seed from `rand::random`. Any value may come back; nothing
/// is claimed of it.
#[verifier::external_body]
pub(crate) fn random_seed() -> u64 {
    rand::random::<u64>()
}

} // verus!
