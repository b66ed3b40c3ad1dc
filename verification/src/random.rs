//! The seedable generator behind map generation, food placement and glyph
//! choice.

use vstd::prelude::*;

verus! {

/// The generator type of the `quad_rand` crate, held as an opaque value.
#[verifier::external_type_specification]
#[verifier::external_body]
pub struct ExRandGenerator(quad_rand::RandGenerator);

/// The 64-bit state that a `quad_rand::RandGenerator` holds. Nothing but the
/// three functions below reads or writes it.
pub uninterp spec fn generator_state(g: quad_rand::RandGenerator) -> u64;

/// What `quad_rand::RandGenerator::gen_range` returns for the `i32` bounds
/// `low` and `high` when the generator's state is `state`. The crate computes
/// it in floating point from one draw; no bound on it is claimed here.
pub uninterp spec fn range_draw(state: u64, low: i32, high: i32) -> i32;

/// Multiplier of the generator's state update.
pub const MULTIPLIER: u64 = 6364136223846793005;

/// Increment of the generator's state update.
pub const INCREMENT: u64 = 1442695040888963407;

/// The state that follows `state` after one draw: the state times the
/// multiplier plus the increment, with wrap-around.
pub open spec fn advance(state: u64) -> u64 {
    ((state * MULTIPLIER + INCREMENT) % 0x1_0000_0000_0000_0000) as u64
}

/// The state of a generator that was just seeded with `seed`.
pub open spec fn seeded_state(seed: u64) -> u64 {
    advance(((INCREMENT + seed) % 0x1_0000_0000_0000_0000) as u64)
}

/// The state after `n` draws that started from `state`.
pub open spec fn advance_by(state: u64, n: nat) -> u64
    decreases n,
{
    if n == 0 {
        state
    } else {
        advance(advance_by(state, (n - 1) as nat))
    }
}

/// Calls `quad_rand::RandGenerator::new`. Not proved: that the new
/// generator's state is zero.
#[verifier::external_body]
fn new_generator() -> (g: quad_rand::RandGenerator)
    ensures
        generator_state(g) == 0,
{
    quad_rand::RandGenerator::new()
}

/// Calls `quad_rand::RandGenerator::srand`. Not proved: that it leaves the
/// state that `seeded_state` names. The crate stores zero, draws once, which
/// leaves the increment, adds `seed` with wrap-around and draws once more.
#[verifier::external_body]
fn seed_generator(g: &mut quad_rand::RandGenerator, seed: u64)
    ensures
        generator_state(*final(g)) == seeded_state(seed),
{
    g.srand(seed)
}

/// Calls `quad_rand::RandGenerator::gen_range` with `i32` bounds. Not
/// proved: that the result depends on the state and the bounds alone, and
/// that the call moves the state one draw on. The crate draws once and
/// scales the draw between the bounds.
#[verifier::external_body]
fn draw_in_range(g: &mut quad_rand::RandGenerator, low: i32, high: i32) -> (r: i32)
    ensures
        r == range_draw(generator_state(*old(g)), low, high),
        generator_state(*final(g)) == advance(generator_state(*old(g))),
{
    g.gen_range(low, high)
}

/// A stream of pseudo-random draws that is fixed by its seed.
pub struct RandomSource {
    generator: quad_rand::RandGenerator,
}

impl RandomSource {
    /// The generator's current state.
    pub closed spec fn state(&self) -> u64 {
        generator_state(self.generator)
    }

    /// A source seeded with `seed`.
    pub fn seeded(seed: u64) -> (r: RandomSource)
        ensures
            r.state() == seeded_state(seed),
    {
        let mut generator = new_generator();
        seed_generator(&mut generator, seed);
        RandomSource { generator }
    }

    /// Starts the stream again from `seed`.
    pub fn reseed(&mut self, seed: u64)
        ensures
            final(self).state() == seeded_state(seed),
    {
        seed_generator(&mut self.generator, seed);
    }

    /// Draws once with the bounds `low` and `high`. For `low < high` the
    /// generator aims at a value from `low` up to, not including, `high`;
    /// callers that need the range check it.
    pub fn range(&mut self, low: i32, high: i32) -> (r: i32)
        ensures
            r == range_draw(old(self).state(), low, high),
            final(self).state() == advance(old(self).state()),
    {
        draw_in_range(&mut self.generator, low, high)
    }
}

} // verus!
