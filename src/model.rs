//! The mathematical model of one trial's state and of what a turn does to it.
use vstd::prelude::*;
use crate::board::{Cell, CellKind, BOARD_LEN, CASINO_HUB, STOCK_EXCHANGE_HUB, DICE_GAME_HUB,
    HORSE_RACE_HUB, LOTTERY_INDEX};
use crate::navigation::{step_spec, loop_landing, toll_due_spec};
use crate::player::{Participant, PLAYER_COUNT, identity_at, seat_of};
use crate::rules::{casino_spec, market_spec, dice_game_spec, horse_race_spec, is_die,
    ROULETTE_SLOTS, MARKET_EVENTS, PERCENTILE_MAX, STOCK_LIMIT};

verus! {

/// Deducted on a move that reaches or passes the lottery index from below.
pub const LOTTERY_TOLL: i64 = 5000;

/// Charged on a `PayIntoLottery` cell and added to the pool.
pub const LOTTERY_STAKE: i64 = 5000;

/// Moved between participants by the two wealth-transfer cells.
pub const GIFT: i64 = 5000;

/// Largest magnitude of a cell's base delta, hotel price or hotel rent.
pub const CELL_LIMIT: i64 = 1000000;

/// Largest magnitude of money or lottery pool that a turn accepts.
pub const MONEY_LIMIT: i64 = 1000000000000000;

/// Everything drawn at random for one turn. Only the values that the landed
/// cell needs are used.
#[derive(Clone, Copy, Debug, PartialEq, Eq, Structural)]
pub struct TurnDraws {
    pub die_one: u32,
    pub die_two: u32,
    pub roulette: u32,
    pub reel_one: u32,
    pub reel_two: u32,
    pub reel_three: u32,
    pub market_event: u32,
    pub game_die_one: u32,
    pub game_die_two: u32,
    pub percentile: u32,
}

/// Every value lies in the range that its draw is taken from.
pub open spec fn draws_valid(d: TurnDraws) -> bool {
    &&& is_die(d.die_one)
    &&& is_die(d.die_two)
    &&& d.roulette < ROULETTE_SLOTS
    &&& is_die(d.reel_one)
    &&& is_die(d.reel_two)
    &&& is_die(d.reel_three)
    &&& 1 <= d.market_event <= MARKET_EVENTS
    &&& is_die(d.game_die_one)
    &&& is_die(d.game_die_two)
    &&& 1 <= d.percentile <= PERCENTILE_MAX
}

/// The state of a trial as values: the board, the lottery pool and the
/// participants in turn order.
pub struct GameView {
    pub board: Seq<Cell>,
    pub pool: int,
    pub players: Seq<Participant>,
}

pub open spec fn cell_sane(c: Cell) -> bool {
    &&& -CELL_LIMIT <= c.base_delta <= CELL_LIMIT
    &&& 0 <= c.hotel_price <= CELL_LIMIT
    &&& 0 <= c.hotel_rent <= CELL_LIMIT
    &&& (c.hotel_owner is Some ==> c.kind == CellKind::Hotel)
}

/// The state is well formed: the fixed board size and line-up, positions on
/// the board, and hotel ownership recorded alike on the cell and on its
/// owner (so that each participant owns at most one hotel).
#[verifier::opaque]
pub open spec fn view_wf(v: GameView) -> bool {
    &&& v.board.len() == BOARD_LEN
    &&& v.players.len() == PLAYER_COUNT
    &&& forall|c: int| 0 <= c < BOARD_LEN ==> #[trigger] cell_sane(v.board[c])
    &&& forall|i: int| 0 <= i < PLAYER_COUNT ==> (#[trigger] v.players[i]).identity == identity_at(i)
        && v.players[i].position < BOARD_LEN
    &&& forall|i: int| 0 <= i < PLAYER_COUNT && (#[trigger] v.players[i]).has_hotel ==>
        v.players[i].hotel_cell < BOARD_LEN
        && v.board[v.players[i].hotel_cell as int].hotel_owner == Some(identity_at(i))
    &&& forall|c: int| 0 <= c < BOARD_LEN && (#[trigger] v.board[c]).hotel_owner is Some ==>
        v.players[seat_of(v.board[c].hotel_owner->0)].has_hotel
        && v.players[seat_of(v.board[c].hotel_owner->0)].hotel_cell == c
}

/// Money and pool within `limit` in magnitude, and share counts below
/// `STOCK_LIMIT`.
pub open spec fn view_bounded(v: GameView, limit: int) -> bool {
    &&& 0 <= v.pool <= limit
    &&& players_bounded(v.players, limit)
}

/// Every participant's money within `limit` in magnitude, and share counts
/// below `STOCK_LIMIT`.
pub open spec fn players_bounded(ps: Seq<Participant>, limit: int) -> bool {
    forall|i: int| 0 <= i < ps.len() ==> -limit <= (#[trigger] ps[i]).money <= limit
        && ps[i].oil_stocks < STOCK_LIMIT
        && ps[i].steel_stocks < STOCK_LIMIT
        && ps[i].electricity_stocks < STOCK_LIMIT
}

pub open spec fn with_money(p: Participant, delta: int) -> Participant {
    Participant { money: (p.money + delta) as i64, ..p }
}

pub open spec fn with_position(p: Participant, position: int) -> Participant {
    Participant { position: position as usize, ..p }
}

/// Every participant's money changes by what the market event brings for
/// their own shares.
pub open spec fn market_all(ps: Seq<Participant>, event: int) -> Seq<Participant> {
    Seq::new(
        ps.len(),
        |i: int|
            with_money(
                ps[i],
                market_spec(
                    event,
                    ps[i].oil_stocks as int,
                    ps[i].steel_stocks as int,
                    ps[i].electricity_stocks as int,
                ),
            ),
    )
}

/// Every participant's money changes by `delta`.
pub open spec fn shift_all(ps: Seq<Participant>, delta: int) -> Seq<Participant> {
    Seq::new(ps.len(), |i: int| with_money(ps[i], delta))
}

/// Every participant but `a` pays `GIFT` to `a`.
pub open spec fn everyone_gives(ps: Seq<Participant>, a: int) -> Seq<Participant> {
    Seq::new(
        ps.len(),
        |i: int|
            if i == a {
                with_money(ps[i], GIFT * (ps.len() - 1))
            } else {
                with_money(ps[i], -GIFT)
            },
    )
}

/// Among seats `0..n` other than `a`, the first one with the least money,
/// or -1 when there is none.
pub open spec fn poorest_other_upto(ps: Seq<Participant>, a: int, n: int) -> int
    decreases n,
{
    if n <= 0 {
        -1
    } else {
        let best = poorest_other_upto(ps, a, n - 1);
        let j = n - 1;
        if j == a {
            best
        } else if best < 0 || ps[j].money < ps[best].money {
            j
        } else {
            best
        }
    }
}

/// The participant other than `a` with the least money, the first in turn
/// order on a tie.
pub open spec fn poorest_other(ps: Seq<Participant>, a: int) -> int {
    poorest_other_upto(ps, a, ps.len() as int)
}

/// What a `Hotel` cell at `pos` does to the active participant `a`.
pub open spec fn hotel_spec(v: GameView, a: int, pos: int) -> GameView {
    let ps = v.players;
    let p = ps[a];
    let cell = v.board[pos];
    if !p.has_hotel && cell.hotel_owner is None {
        GameView {
            board: v.board.update(pos, Cell { hotel_owner: Some(p.identity), ..cell }),
            pool: v.pool,
            players: ps.update(
                a,
                Participant {
                    has_hotel: true,
                    hotel_cell: pos as usize,
                    ..with_money(p, -cell.hotel_price)
                },
            ),
        }
    } else if cell.hotel_owner is Some && cell.hotel_owner->0 != p.identity {
        let o = seat_of(cell.hotel_owner->0);
        GameView {
            board: v.board,
            pool: v.pool,
            players: ps.update(a, with_money(p, -cell.hotel_rent)).update(
                o,
                with_money(ps[o], cell.hotel_rent as int),
            ),
        }
    } else {
        GameView { board: v.board, pool: v.pool, players: ps }
    }
}

/// The state after participant `a` has received the base delta of the cell
/// under them.
pub open spec fn based_spec(v: GameView, a: int) -> GameView {
    let cell = v.board[v.players[a].position as int];
    GameView {
        board: v.board,
        pool: v.pool,
        players: v.players.update(a, with_money(v.players[a], cell.base_delta as int)),
    }
}

/// What the cell under participant `a` does: its base delta, then the
/// effect of its kind.
pub open spec fn effect_spec(v: GameView, a: int, d: TurnDraws) -> GameView {
    let pos = v.players[a].position as int;
    kind_effect(based_spec(v, a), a, pos, v.board[pos].kind, d)
}

/// The effect of a cell of kind `kind` at `pos` on participant `a`.
pub open spec fn kind_effect(v: GameView, a: int, pos: int, kind: CellKind, d: TurnDraws) -> GameView {
    let p = v.players[a];
    let ps = v.players;
    let same = v;
    match kind {
        CellKind::Normal => same,
        CellKind::OilStock => GameView {
            players: ps.update(a, Participant { oil_stocks: (p.oil_stocks + 1) as u32, ..p }),
            ..same
        },
        CellKind::ElectricityStock => GameView {
            players: ps.update(
                a,
                Participant { electricity_stocks: (p.electricity_stocks + 1) as u32, ..p },
            ),
            ..same
        },
        CellKind::SteelStock => GameView {
            players: ps.update(a, Participant { steel_stocks: (p.steel_stocks + 1) as u32, ..p }),
            ..same
        },
        CellKind::ReturnStocks => GameView {
            players: ps.update(
                a,
                Participant { oil_stocks: 0, steel_stocks: 0, electricity_stocks: 0, ..p },
            ),
            ..same
        },
        CellKind::MoveToCasino => GameView {
            players: ps.update(
                a,
                with_position(
                    with_money(
                        p,
                        casino_spec(
                            d.roulette as int,
                            d.reel_one as int,
                            d.reel_two as int,
                            d.reel_three as int,
                        ),
                    ),
                    CASINO_HUB as int,
                ),
            ),
            ..same
        },
        CellKind::MoveToStockExchange => GameView {
            players: market_all(
                ps.update(a, with_position(p, STOCK_EXCHANGE_HUB as int)),
                d.market_event as int,
            ),
            ..same
        },
        CellKind::MoveToDiceGame => GameView {
            players: ps.update(
                a,
                with_position(
                    with_money(p, dice_game_spec(d.game_die_one as int, d.game_die_two as int)),
                    DICE_GAME_HUB as int,
                ),
            ),
            ..same
        },
        CellKind::MoveToHorseRace => GameView {
            players: shift_all(
                ps.update(a, with_position(p, HORSE_RACE_HUB as int)),
                horse_race_spec(d.percentile as int),
            ),
            ..same
        },
        CellKind::MoveToLottery => GameView {
            board: v.board,
            pool: 0,
            players: ps.update(a, with_position(with_money(p, v.pool), LOTTERY_INDEX as int)),
        },
        CellKind::PayIntoLottery => GameView {
            board: v.board,
            pool: v.pool + LOTTERY_STAKE,
            players: ps.update(a, with_money(p, -LOTTERY_STAKE)),
        },
        CellKind::Hotel => hotel_spec(v, a, pos),
        CellKind::EveryoneGivesYouFixedAmount => GameView {
            players: everyone_gives(ps, a),
            ..same
        },
        CellKind::YouGiveSomeoneFixedAmount => {
            let t = poorest_other(ps, a);
            GameView {
                players: ps.update(a, with_money(p, -GIFT)).update(t, with_money(ps[t], GIFT as int)),
                ..same
            }
        },
    }
}

/// Whether the throw `total` from `pos` owes the passive lottery toll.
pub open spec fn move_owes_toll(pos: int, total: int) -> bool {
    toll_due_spec(pos, loop_landing(pos, total))
}

/// The move of participant `a`: to where the throw leads, paying the
/// passive lottery toll when it is owed.
pub open spec fn move_spec(v: GameView, a: int, d: TurnDraws) -> GameView {
    let p = v.players[a];
    let total = d.die_one + d.die_two;
    let toll = move_owes_toll(p.position as int, total);
    let dest = step_spec(v.board, p.position as int, total);
    let paid = if toll {
        with_money(p, -LOTTERY_TOLL)
    } else {
        p
    };
    GameView {
        board: v.board,
        pool: if toll {
            v.pool + LOTTERY_TOLL
        } else {
            v.pool
        },
        players: v.players.update(a, with_position(paid, dest)),
    }
}

/// One turn of participant `a`: the move, then the landed cell's effect.
#[verifier::opaque]
pub open spec fn turn_spec(v: GameView, a: int, d: TurnDraws) -> GameView {
    effect_spec(move_spec(v, a, d), a, d)
}

/// What a well-formed state says of the participant at `seat` and of the
/// cell under them.
pub proof fn lemma_wf_seat(v: GameView, seat: int)
    requires
        view_wf(v),
        0 <= seat < PLAYER_COUNT,
    ensures
        v.board.len() == BOARD_LEN,
        v.players.len() == PLAYER_COUNT,
        v.players[seat].identity == identity_at(seat),
        v.players[seat].position < BOARD_LEN,
        cell_sane(v.board[v.players[seat].position as int]),
        forall|i: int| 0 <= i < PLAYER_COUNT ==> (#[trigger] v.players[i]).position < BOARD_LEN,
{
    reveal(view_wf);
}

/// `w` keeps the board of `v` and each participant's identity and hotel.
pub open spec fn same_holdings(v: GameView, w: GameView) -> bool {
    &&& w.board == v.board
    &&& w.players.len() == v.players.len()
    &&& forall|i: int| 0 <= i < v.players.len() ==> {
        &&& (#[trigger] w.players[i]).identity == v.players[i].identity
        &&& w.players[i].has_hotel == v.players[i].has_hotel
        &&& w.players[i].hotel_cell == v.players[i].hotel_cell
        &&& w.players[i].position < BOARD_LEN
    }
}

/// Changes of money, positions on the board and shares keep a state well
/// formed.
pub proof fn lemma_same_holdings_wf(v: GameView, w: GameView)
    requires
        view_wf(v),
        same_holdings(v, w),
    ensures
        view_wf(w),
{
    reveal(view_wf);
    assert forall|c: int| 0 <= c < BOARD_LEN && (#[trigger] w.board[c]).hotel_owner is Some implies
        w.players[seat_of(w.board[c].hotel_owner->0)].has_hotel
        && w.players[seat_of(w.board[c].hotel_owner->0)].hotel_cell == c by {
        let o = seat_of(w.board[c].hotel_owner->0);
        assert(0 <= o < PLAYER_COUNT);
        assert(w.players[o].has_hotel == v.players[o].has_hotel);
    }
}

/// Buying the unowned hotel at `pos` for participant `a`, who owns none,
/// keeps a state well formed.
#[verifier::rlimit(80)]
#[verifier::spinoff_prover]
pub proof fn lemma_buy_keeps_wf(v: GameView, w: GameView, a: int, pos: int)
    requires
        view_wf(v),
        0 <= a < PLAYER_COUNT,
        0 <= pos < BOARD_LEN,
        !v.players[a].has_hotel,
        v.board[pos].hotel_owner is None,
        v.board[pos].kind == CellKind::Hotel,
        w.board == v.board.update(pos, Cell { hotel_owner: Some(identity_at(a)), ..v.board[pos] }),
        w.players.len() == v.players.len(),
        w.players[a].identity == v.players[a].identity,
        w.players[a].has_hotel,
        w.players[a].hotel_cell == pos,
        w.players[a].position < BOARD_LEN,
        forall|i: int| 0 <= i < PLAYER_COUNT && i != a ==> (#[trigger] w.players[i]) == v.players[i],
    ensures
        view_wf(w),
{
    reveal(view_wf);
    assert forall|c: int| 0 <= c < BOARD_LEN implies #[trigger] cell_sane(w.board[c]) by {
        assert(cell_sane(v.board[c]));
    }
    assert forall|i: int| 0 <= i < PLAYER_COUNT && (#[trigger] w.players[i]).has_hotel implies
        w.players[i].hotel_cell < BOARD_LEN
        && w.board[w.players[i].hotel_cell as int].hotel_owner == Some(identity_at(i)) by {
        if i != a {
            assert(v.players[i].has_hotel);
            assert(v.board[v.players[i].hotel_cell as int].hotel_owner == Some(identity_at(i)));
            assert(v.players[i].hotel_cell != pos);
        }
    }
    assert forall|c: int| 0 <= c < BOARD_LEN && (#[trigger] w.board[c]).hotel_owner is Some implies
        w.players[seat_of(w.board[c].hotel_owner->0)].has_hotel
        && w.players[seat_of(w.board[c].hotel_owner->0)].hotel_cell == c by {
        if c != pos {
            let o = seat_of(v.board[c].hotel_owner->0);
            assert(v.players[o].has_hotel);
            assert(o != a);
        }
    }
}

/// Each participant's money in `w` lies within `bound` of that in `v`.
pub open spec fn money_near(v: Seq<Participant>, w: Seq<Participant>, bound: int) -> bool {
    &&& w.len() == v.len()
    &&& forall|i: int| 0 <= i < v.len() ==> -bound <= (#[trigger] w[i]).money - v[i].money <= bound
}

/// No participant holds more than `s` shares of any kind.
pub open spec fn stocks_at_most(ps: Seq<Participant>, s: int) -> bool {
    forall|i: int| 0 <= i < ps.len() ==> (#[trigger] ps[i]).oil_stocks <= s
        && ps[i].steel_stocks <= s && ps[i].electricity_stocks <= s
}

/// How far one turn can move anyone's money, given the pool `pool` and a
/// share bound `s` before the turn.
pub open spec fn turn_swing(pool: int, s: int) -> int {
    pool + 15000 * s + 3 * CELL_LIMIT
}

/// A move changes only the mover's money and the pool, by the toll at most.
pub proof fn lemma_move_growth(v: GameView, a: int, d: TurnDraws)
    requires
        0 <= a < v.players.len(),
        players_bounded(v.players, MONEY_LIMIT as int),
    ensures
        money_near(v.players, move_spec(v, a, d).players, LOTTERY_TOLL as int),
        v.pool <= move_spec(v, a, d).pool <= v.pool + LOTTERY_TOLL,
        forall|i: int| 0 <= i < v.players.len() ==> {
            &&& (#[trigger] move_spec(v, a, d).players[i]).oil_stocks == v.players[i].oil_stocks
            &&& move_spec(v, a, d).players[i].steel_stocks == v.players[i].steel_stocks
            &&& move_spec(v, a, d).players[i].electricity_stocks == v.players[i].electricity_stocks
        },
{
    let w = move_spec(v, a, d);
    assert forall|i: int| 0 <= i < v.players.len() implies -LOTTERY_TOLL <= (#[trigger] w.players[i]).money
        - v.players[i].money <= LOTTERY_TOLL by {
        if i == a {
            assert(-MONEY_LIMIT <= v.players[i].money <= MONEY_LIMIT);
        }
    }
}

/// A cell's effect moves anyone's money by at most `turn_swing`, adds at
/// most the stake to the pool and at most one share.
#[verifier::rlimit(80)]
#[verifier::spinoff_prover]
pub proof fn lemma_effect_growth(v: GameView, a: int, d: TurnDraws, s: int)
    requires
        view_wf(v),
        0 <= a < PLAYER_COUNT,
        draws_valid(d),
        view_bounded(v, 2 * MONEY_LIMIT),
        stocks_at_most(v.players, s),
        0 <= s < STOCK_LIMIT - 1,
    ensures
        money_near(v.players, effect_spec(v, a, d).players, turn_swing(v.pool, s)),
        stocks_at_most(effect_spec(v, a, d).players, s + 1),
        0 <= effect_spec(v, a, d).pool <= v.pool + LOTTERY_STAKE,
{
    lemma_wf_seat(v, a);
    let pos = v.players[a].position as int;
    let cell = v.board[pos];
    let b = based_spec(v, a);
    let w = effect_spec(v, a, d);
    let bound = turn_swing(v.pool, s);
    assert(-MONEY_LIMIT * 2 <= v.players[a].money <= 2 * MONEY_LIMIT);
    assert(b.players[a].money == v.players[a].money + cell.base_delta);
    if cell.kind == CellKind::YouGiveSomeoneFixedAmount {
        lemma_poorest_other_range(b.players, a);
    } else if cell.kind == CellKind::Hotel {
        if cell.hotel_owner is Some {
            let o = seat_of(cell.hotel_owner->0);
            assert(0 <= o < PLAYER_COUNT);
        }
    }
    assert(w.players.len() == PLAYER_COUNT);
    assert forall|i: int| 0 <= i < PLAYER_COUNT implies -bound <= (#[trigger] w.players[i]).money
        - v.players[i].money <= bound && w.players[i].oil_stocks <= s + 1
        && w.players[i].steel_stocks <= s + 1 && w.players[i].electricity_stocks <= s + 1 by {
        assert(-2 * MONEY_LIMIT <= v.players[i].money <= 2 * MONEY_LIMIT);
        assert(v.players[i].oil_stocks <= s && v.players[i].steel_stocks <= s
            && v.players[i].electricity_stocks <= s);
        if cell.kind == CellKind::YouGiveSomeoneFixedAmount {
            let t = poorest_other(b.players, a);
            lemma_poorest_other_range(b.players, a);
            assert(0 <= t < PLAYER_COUNT && t != a);
        } else if cell.kind == CellKind::Hotel {
            if cell.hotel_owner is Some {
                let o = seat_of(cell.hotel_owner->0);
                assert(0 <= o < PLAYER_COUNT);
            }
        }
    }
}

/// The first poorest participant other than `a` is another seat.
pub proof fn lemma_poorest_other_range(ps: Seq<Participant>, a: int)
    requires
        ps.len() == PLAYER_COUNT,
        0 <= a < PLAYER_COUNT,
    ensures
        0 <= poorest_other(ps, a) < PLAYER_COUNT,
        poorest_other(ps, a) != a,
{
    reveal_with_fuel(poorest_other_upto, 5);
}

} // verus!
