//! Chance sub-games: each maps the values drawn for it to a money delta.
use vstd::prelude::*;

verus! {

/// Faces on each die; a die shows a value in `1..=DIE_FACES`.
pub const DIE_FACES: u32 = 5;

/// Roulette outcomes are drawn from `0..ROULETTE_SLOTS`.
pub const ROULETTE_SLOTS: u32 = 36;

/// Market events are drawn from `1..=MARKET_EVENTS`.
pub const MARKET_EVENTS: u32 = 7;

/// Horse race draws are taken from `1..=PERCENTILE_MAX`.
pub const PERCENTILE_MAX: u32 = 99;

pub const CASINO_ENTRY_COST: i64 = 70000;
pub const ROULETTE_BONUS: i64 = 80000;
pub const SLOT_TRIPLE_BONUS: i64 = 150000;
pub const SLOT_PAIR_BONUS: i64 = 50000;

pub const STOCK_RISE: i64 = 5000;
pub const STOCK_FALL: i64 = 10000;

pub const DICE_GAME_DOUBLE_ONE: i64 = 300000;
pub const DICE_GAME_SINGLE_ONE: i64 = 100000;

/// Horse race draws below this value win.
pub const HORSE_RACE_THRESHOLD: u32 = 46;
pub const HORSE_RACE_BONUS: i64 = 100000;
pub const HORSE_RACE_PENALTY: i64 = 50000;

/// Largest share count of one kind that a participant is assumed to hold.
pub const STOCK_LIMIT: u32 = 1000000;

pub open spec fn is_die(v: u32) -> bool {
    1 <= v <= DIE_FACES
}

pub open spec fn slot_bonus_spec(a: int, b: int, c: int) -> int {
    if a == b && b == c {
        if a == DIE_FACES {
            2 * SLOT_TRIPLE_BONUS
        } else {
            SLOT_TRIPLE_BONUS as int
        }
    } else if a == b || a == c || b == c {
        SLOT_PAIR_BONUS as int
    } else {
        0
    }
}

/// Net money delta of one casino visit.
pub open spec fn casino_spec(roulette: int, a: int, b: int, c: int) -> int {
    -CASINO_ENTRY_COST + (if roulette % 2 == 1 { ROULETTE_BONUS as int } else { 0 })
        + slot_bonus_spec(a, b, c)
}

/// Money delta of one market event for a holder of the given shares.
pub open spec fn market_spec(event: int, oil: int, steel: int, electricity: int) -> int {
    if event == 1 {
        oil * STOCK_RISE
    } else if event == 2 {
        -oil * STOCK_FALL
    } else if event == 3 {
        steel * STOCK_RISE
    } else if event == 4 {
        -steel * STOCK_FALL
    } else if event == 5 {
        electricity * STOCK_RISE
    } else if event == 6 {
        -electricity * STOCK_FALL
    } else {
        (oil + steel + electricity) * STOCK_RISE
    }
}

pub open spec fn dice_game_spec(a: int, b: int) -> int {
    if a == 1 && b == 1 {
        DICE_GAME_DOUBLE_ONE as int
    } else if a == 1 || b == 1 {
        DICE_GAME_SINGLE_ONE as int
    } else {
        0
    }
}

pub open spec fn horse_race_spec(draw: int) -> int {
    if draw < HORSE_RACE_THRESHOLD {
        HORSE_RACE_BONUS as int
    } else {
        -HORSE_RACE_PENALTY
    }
}

/// Movement total of two dice.
pub fn dice_total(a: u32, b: u32) -> (r: usize)
    requires
        is_die(a),
        is_die(b),
    ensures
        r == a + b,
{
    (a + b) as usize
}

/// Bonus of the three-reel slot machine.
pub fn slot_bonus(a: u32, b: u32, c: u32) -> (r: i64)
    ensures
        r == slot_bonus_spec(a as int, b as int, c as int),
{
    if a == b && b == c {
        if a == DIE_FACES {
            2 * SLOT_TRIPLE_BONUS
        } else {
            SLOT_TRIPLE_BONUS
        }
    } else if a == b || a == c || b == c {
        SLOT_PAIR_BONUS
    } else {
        0
    }
}

/// Casino: entry cost, a roulette bonus on odd outcomes, and the slot bonus.
pub fn casino_payout(roulette: u32, a: u32, b: u32, c: u32) -> (r: i64)
    ensures
        r == casino_spec(roulette as int, a as int, b as int, c as int),
{
    let mut result: i64 = -CASINO_ENTRY_COST;
    if roulette % 2 == 1 {
        result = result + ROULETTE_BONUS;
    }
    result + slot_bonus(a, b, c)
}

/// Stock exchange: the delta that one market event brings a holder of the
/// given shares.
pub fn market_delta(event: u32, oil: u32, steel: u32, electricity: u32) -> (r: i64)
    requires
        1 <= event <= MARKET_EVENTS,
        oil <= STOCK_LIMIT,
        steel <= STOCK_LIMIT,
        electricity <= STOCK_LIMIT,
    ensures
        r == market_spec(event as int, oil as int, steel as int, electricity as int),
{
    let oil = oil as i64;
    let steel = steel as i64;
    let electricity = electricity as i64;
    if event == 1 {
        oil * STOCK_RISE
    } else if event == 2 {
        -oil * STOCK_FALL
    } else if event == 3 {
        steel * STOCK_RISE
    } else if event == 4 {
        -steel * STOCK_FALL
    } else if event == 5 {
        electricity * STOCK_RISE
    } else if event == 6 {
        -electricity * STOCK_FALL
    } else {
        (oil + steel + electricity) * STOCK_RISE
    }
}

/// Dice game: a large bonus for a double one, a smaller one for a single one.
pub fn dice_game_payout(a: u32, b: u32) -> (r: i64)
    ensures
        r == dice_game_spec(a as int, b as int),
{
    if a == 1 && b == 1 {
        DICE_GAME_DOUBLE_ONE
    } else if a == 1 || b == 1 {
        DICE_GAME_SINGLE_ONE
    } else {
        0
    }
}

/// Horse race: a bonus below the threshold, a penalty at or above it.
pub fn horse_race_payout(draw: u32) -> (r: i64)
    ensures
        r == horse_race_spec(draw as int),
{
    if draw < HORSE_RACE_THRESHOLD {
        HORSE_RACE_BONUS
    } else {
        -HORSE_RACE_PENALTY
    }
}

} // verus!
