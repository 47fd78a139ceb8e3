//! The random choices of the game, drawn from the `rand` crate's generator
//! of the current thread. What is said of them here is taken on trust.

use vstd::prelude::*;
use rand::rngs::ThreadRng;
use rand::seq::SliceRandom;
use rand::Rng;

verus! {

/// `rand::rngs::ThreadRng`, the handle to the current thread's generator.
/// Nothing is known of what it holds.
#[verifier::external_type_specification]
#[verifier::external_body]
pub struct ExThreadRng(rand::rngs::ThreadRng);

/// `rand::thread_rng` hands out the handle to the current thread's generator.
/// Nothing is claimed of the handle. The generator is seeded from the
/// operating system on its first use in a thread, and `rand` panics there if
/// the system has no randomness to give.
pub assume_specification[ rand::thread_rng ]() -> (rng: rand::rngs::ThreadRng);

/// `rand::Rng::gen_range` on two `i32` bounds: some number from `low` up to,
/// but not including, `high`. Which one is not said. `rand` panics where
/// `low >= high`, so that is not admitted.
#[verifier::external_body]
pub(crate) fn gen_range(rng: &mut ThreadRng, low: i32, high: i32) -> (r: i32)
    requires
        low < high,
    ensures
        low <= r < high,
{
    rng.gen_range(low, high)
}

/// `rand::seq::SliceRandom::choose` on a slice of numbers: nothing for an
/// empty slice, else one of the slice's elements. Which one is not said.
#[verifier::external_body]
pub(crate) fn choose_from(rng: &mut ThreadRng, items: &[usize]) -> (r: Option<usize>)
    ensures
        items@.len() == 0 ==> r is None,
        items@.len() > 0 ==> r is Some && items@.contains(r->0),
{
    items.choose(rng).copied()
}

} // verus!
