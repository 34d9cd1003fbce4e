//! The random source: uniform integer draws from a seedable generator.
use vstd::prelude::*;
use rand::Rng;
use rand::rngs::StdRng;
use crate::model::{TurnDraws, draws_valid};
use crate::rules::{DIE_FACES, ROULETTE_SLOTS, MARKET_EVENTS, PERCENTILE_MAX};

verus! {

#[verifier::external_type_specification]
#[verifier::external_body]
pub struct ExStdRng(StdRng);

/// Relies on rand's `Rng::random_range` over `low..high`: a value drawn
/// uniformly from `low` up to but excluding `high`; it panics only on an
/// empty range.
#[verifier::external_body]
fn draw_uniform(rng: &mut StdRng, low: u32, high: u32) -> (r: u32)
    requires
        low < high,
    ensures
        low <= r < high,
{
    rng.random_range(low..high)
}

/// One die: a value in `1..=DIE_FACES`.
pub fn roll_die(rng: &mut StdRng) -> (r: u32)
    ensures
        1 <= r <= DIE_FACES,
{
    draw_uniform(rng, 1, DIE_FACES + 1)
}

/// Everything a turn may need, drawn afresh.
pub fn draw_turn(rng: &mut StdRng) -> (d: TurnDraws)
    ensures
        draws_valid(d),
{
    let die_one = roll_die(rng);
    let die_two = roll_die(rng);
    let roulette = draw_uniform(rng, 0, ROULETTE_SLOTS);
    let reel_one = roll_die(rng);
    let reel_two = roll_die(rng);
    let reel_three = roll_die(rng);
    let market_event = draw_uniform(rng, 1, MARKET_EVENTS + 1);
    let game_die_one = roll_die(rng);
    let game_die_two = roll_die(rng);
    let percentile = draw_uniform(rng, 1, PERCENTILE_MAX + 1);
    TurnDraws {
        die_one,
        die_two,
        roulette,
        reel_one,
        reel_two,
        reel_three,
        market_event,
        game_die_one,
        game_die_two,
        percentile,
    }
}

} // verus!
