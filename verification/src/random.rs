//! Chance, from the thread's random number generator.

use rand::{rng, Rng};
use vstd::prelude::*;

verus! {

/// A number from `low` up to, but not including, `high`, drawn by
/// `rand::Rng::random_range` from `rand::rng`.
///
/// Claimed is that the number lies in the range, which has to hold one. Which
/// number comes is chance, so nothing is said of it. `rand::rng` panics on a
/// machine that supplies no entropy to seed it.
#[verifier::external_body]
pub(crate) fn random_range(low: usize, high: usize) -> (drawn: usize)
    requires
        low < high,
    ensures
        low <= drawn < high,
{
    rng().random_range(low..high)
}

/// Any 32-bit number, drawn by `rand::Rng::random` from `rand::rng`.
///
/// Which number comes is chance, so nothing is claimed of it. `rand::rng`
/// panics on a machine that supplies no entropy to seed it.
#[verifier::external_body]
pub(crate) fn random_i32() -> (drawn: i32) {
    rng().random()
}

/// The number is one that a draw from the range came back with.
pub closed spec fn was_drawn(low: usize, high: usize, number: usize) -> bool {
    call_ensures(random_range, (low, high), number)
}

/// The number is one that a draw from all of them came back with.
pub closed spec fn was_drawn_i32(number: i32) -> bool {
    call_ensures(random_i32, (), number)
}

/// What was drawn came from the generator, and from the range.
pub(crate) proof fn law_draws_are_made(low: usize, high: usize, number: usize, any: i32)
    ensures
        was_drawn(low, high, number) <==> call_ensures(random_range, (low, high), number),
        was_drawn(low, high, number) ==> low <= number < high,
        was_drawn_i32(any) <==> call_ensures(random_i32, (), any),
{
}

} // verus!
