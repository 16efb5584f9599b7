//! The dice of a melee exchange: a `Xoshiro128PlusPlus` generator that is
//! seeded afresh for every exchange and thrown away after it.

use rand::{Rng, RngCore, SeedableRng};
use rand_xoshiro::Xoshiro128PlusPlus;
use vstd::prelude::*;

verus! {

#[verifier::external_type_specification]
#[verifier::external_body]
pub struct ExXoshiro128PlusPlus(Xoshiro128PlusPlus);

/// The state words of a generator.
pub uninterp spec fn rng_words(rng: Xoshiro128PlusPlus) -> Seq<u32>;

/// The state words of a generator that has just been seeded with `seed`.
pub uninterp spec fn seeded_words(seed: u64) -> Seq<u32>;

/// A yes-or-no draw that is yes `numerator` times in `denominator`, from a
/// generator in state `words`: the answer, and the state after the draw.
pub uninterp spec fn ratio_draw(words: Seq<u32>, numerator: u32, denominator: u32) -> (
    bool,
    Seq<u32>,
);

/// A fair yes-or-no draw from a generator in state `words`: the answer, and
/// the state after the draw.
pub uninterp spec fn coin_draw(words: Seq<u32>) -> (bool, Seq<u32>);

/// The next 32-bit output of a generator in state `words`, and the state
/// after it.
pub uninterp spec fn word_draw(words: Seq<u32>) -> (u32, Seq<u32>);

/// `SeedableRng::seed_from_u64` of `Xoshiro128PlusPlus`: the state of the new
/// generator depends on the seed alone.
#[verifier::external_body]
pub(crate) fn rng_from_seed(seed: u64) -> (rng: Xoshiro128PlusPlus)
    ensures
        rng_words(rng) == seeded_words(seed),
{
    Xoshiro128PlusPlus::seed_from_u64(seed)
}

/// `Rng::gen_ratio`: answer and next state depend on the state before and on
/// the two numbers alone. The call panics unless
/// `numerator <= denominator` and `denominator > 0`.
#[verifier::external_body]
pub(crate) fn draw_ratio(rng: &mut Xoshiro128PlusPlus, numerator: u32, denominator: u32) -> (hit:
    bool)
    requires
        numerator <= denominator,
        denominator > 0,
    ensures
        (hit, rng_words(*final(rng))) == ratio_draw(rng_words(*old(rng)), numerator, denominator),
{
    rng.gen_ratio(numerator, denominator)
}

/// `Rng::gen` for `bool`: answer and next state depend on the state before
/// alone.
#[verifier::external_body]
pub(crate) fn draw_coin(rng: &mut Xoshiro128PlusPlus) -> (heads: bool)
    ensures
        (heads, rng_words(*final(rng))) == coin_draw(rng_words(*old(rng))),
{
    rng.gen::<bool>()
}

/// `RngCore::next_u32`: output and next state depend on the state before
/// alone.
#[verifier::external_body]
pub(crate) fn draw_word(rng: &mut Xoshiro128PlusPlus) -> (word: u32)
    ensures
        (word, rng_words(*final(rng))) == word_draw(rng_words(*old(rng))),
{
    rng.next_u32()
}

} // verus!
