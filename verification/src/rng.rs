//! The random source of the game.
//!
//! Nothing in this module is proved: each item states what the `rand` crate
//! documents of one of its functions, and the rest of the library builds on
//! these statements. None of them says which value comes out, only what
//! holds of every value that can.

use vstd::prelude::*;
use rand::rngs::ThreadRng;
use rand::seq::SliceRandom;
use rand::Rng;
use crate::game::piece::PieceType;

verus! {

/// `rand::rngs::ThreadRng`, the generator that each game draws from. Its
/// state is not modelled.
#[verifier::external_type_specification]
#[verifier::external_body]
pub struct ExThreadRng(ThreadRng);

/// Calls `rand::thread_rng`, which hands out the calling thread's generator.
/// Nothing is claimed of it.
#[verifier::external_body]
pub(crate) fn thread_rng() -> ThreadRng {
    rand::thread_rng()
}

/// Calls `SliceRandom::shuffle`, which reorders a slice in place by a series
/// of swaps. The claim: afterwards the vector holds the same shapes the same
/// number of times each.
#[verifier::external_body]
pub(crate) fn shuffle(pieces: &mut Vec<PieceType>, rng: &mut ThreadRng)
    ensures
        final(pieces)@.to_multiset() == old(pieces)@.to_multiset(),
{
    pieces.shuffle(rng);
}

/// Calls `Rng::gen_range` on the half-open range from `low` to `high`, which
/// panics on an empty range. The claim: the value lies in the range.
#[verifier::external_body]
pub(crate) fn gen_range(rng: &mut ThreadRng, low: usize, high: usize) -> (value: usize)
    requires
        low < high,
    ensures
        low <= value < high,
{
    rng.gen_range(low..high)
}

/// Calls `Rng::gen_ratio`, which is true with a chance of `numerator` in
/// `denominator` and panics on a zero denominator or a numerator above it.
/// The claim: a chance of zero is never true, and a chance of one always is.
#[verifier::external_body]
pub(crate) fn gen_ratio(rng: &mut ThreadRng, numerator: u32, denominator: u32) -> (hit: bool)
    requires
        denominator > 0,
        numerator <= denominator,
    ensures
        numerator == 0 ==> !hit,
        numerator == denominator ==> hit,
{
    rng.gen_ratio(numerator, denominator)
}

} // verus!
