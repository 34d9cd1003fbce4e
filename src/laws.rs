//! Properties of the game that hold for every state and every draw.
use vstd::prelude::*;
use crate::board::{Cell, CellKind, BOARD_LEN, LOTTERY_INDEX};
use crate::model::{GameView, TurnDraws, view_wf, players_bounded, draws_valid, move_spec,
    effect_spec, turn_spec, based_spec, lemma_poorest_other_range, kind_effect, same_holdings,
    lemma_same_holdings_wf, lemma_buy_keeps_wf, lemma_move_growth, lemma_wf_seat, MONEY_LIMIT,
    LOTTERY_TOLL};
use crate::player::{PLAYER_COUNT, identity_at, seat_of};
use crate::rules::is_die;
use crate::navigation::step_spec;
use crate::trial::{run_spec, max_turns, first_broke_spec, lemma_first_broke};

verus! {

/// When a trial ends with a terminator, the terminator's money is at most
/// zero at that check, and every participant ahead of it in turn order has
/// money above zero.
pub proof fn lemma_terminator_ran_out(v: GameView, t: int, ds: Seq<TurnDraws>)
    ensures
        run_spec(v, t, ds).0.terminator is Some ==> exists|k: int|
            #![trigger run_spec(v, t, ds).1.players[k]]
            0 <= k < run_spec(v, t, ds).1.players.len()
            && run_spec(v, t, ds).0.terminator == Some(identity_at(k))
            && run_spec(v, t, ds).1.players[k].money <= 0
            && forall|j: int| 0 <= j < k ==> run_spec(v, t, ds).1.players[j].money > 0,
    decreases max_turns() - t,
{
    if 0 <= t < max_turns() {
        let w = turn_spec(v, t % (PLAYER_COUNT as int), ds[t]);
        let k = first_broke_spec(w.players);
        if k >= 0 {
            lemma_first_broke(w.players, w.players.len() as int);
            assert(run_spec(v, t, ds).1.players[k].money <= 0);
        } else {
            lemma_terminator_ran_out(w, t + 1, ds);
        }
    }
}

/// The passive lottery toll is paid exactly on a move from the loop that
/// starts below the lottery index and reaches or passes it: the mover pays
/// the toll and the pool gains it. On any other move both stay as they were.
pub proof fn lemma_toll_exactly_on_crossing(v: GameView, a: int, d: TurnDraws)
    requires
        0 <= a < v.players.len(),
        v.players[a].position < BOARD_LEN,
        is_die(d.die_one),
        is_die(d.die_two),
        players_bounded(v.players, MONEY_LIMIT as int),
    ensures
        ({
            let pos = v.players[a].position as int;
            let w = move_spec(v, a, d);
            if pos < LOTTERY_INDEX && pos + d.die_one + d.die_two >= LOTTERY_INDEX {
                &&& w.pool == v.pool + LOTTERY_TOLL
                &&& w.players[a].money == v.players[a].money - LOTTERY_TOLL
            } else {
                &&& w.pool == v.pool
                &&& w.players[a].money == v.players[a].money
            }
        }),
{
    lemma_move_growth(v, a, d);
    assert(-MONEY_LIMIT <= v.players[a].money <= MONEY_LIMIT);
}

/// A turn never lowers a share count, except that landing on a
/// `ReturnStocks` cell sets all three of the mover's counts to zero.
pub proof fn lemma_stocks_monotone(v: GameView, a: int, d: TurnDraws)
    requires
        view_wf(v),
        0 <= a < PLAYER_COUNT,
        draws_valid(d),
        players_bounded(v.players, MONEY_LIMIT as int),
        move_spec(v, a, d).players[a].position < BOARD_LEN,
    ensures
        ({
            let m = move_spec(v, a, d);
            let w = turn_spec(v, a, d);
            let landed = v.board[m.players[a].position as int].kind;
            forall|i: int| 0 <= i < PLAYER_COUNT ==> if i == a && landed == CellKind::ReturnStocks {
                &&& (#[trigger] w.players[i]).oil_stocks == 0
                &&& w.players[i].steel_stocks == 0
                &&& w.players[i].electricity_stocks == 0
            } else {
                &&& w.players[i].oil_stocks >= v.players[i].oil_stocks
                &&& w.players[i].steel_stocks >= v.players[i].steel_stocks
                &&& w.players[i].electricity_stocks >= v.players[i].electricity_stocks
            }
        }),
{
    reveal(turn_spec);
    lemma_wf_seat(v, a);
    lemma_move_growth(v, a, d);
    let m = move_spec(v, a, d);
    let w = turn_spec(v, a, d);
    assert(w == effect_spec(m, a, d));
    assert forall|i: int| 0 <= i < PLAYER_COUNT implies {
        let landed = v.board[m.players[a].position as int].kind;
        if i == a && landed == CellKind::ReturnStocks {
            &&& (#[trigger] w.players[i]).oil_stocks == 0
            &&& w.players[i].steel_stocks == 0
            &&& w.players[i].electricity_stocks == 0
        } else {
            &&& w.players[i].oil_stocks >= v.players[i].oil_stocks
            &&& w.players[i].steel_stocks >= v.players[i].steel_stocks
            &&& w.players[i].electricity_stocks >= v.players[i].electricity_stocks
        }
    } by {
        let pos = m.players[a].position as int;
        let cell = m.board[pos];
        if cell.kind == CellKind::YouGiveSomeoneFixedAmount {
            lemma_poorest_other_range(based_spec(m, a).players, a);
        } else if cell.kind == CellKind::Hotel {
            if cell.hotel_owner is Some {
                let o = seat_of(cell.hotel_owner->0);
                assert(0 <= o < PLAYER_COUNT);
            }
        }
        assert(m.players[i].oil_stocks == v.players[i].oil_stocks);
        assert(m.players[i].steel_stocks == v.players[i].steel_stocks);
        assert(m.players[i].electricity_stocks == v.players[i].electricity_stocks);
    }
}

/// A turn keeps every hotel owner that is already set: no owner changes and
/// no owned hotel becomes unowned.
pub proof fn lemma_hotel_owner_kept(v: GameView, a: int, d: TurnDraws)
    requires
        view_wf(v),
        0 <= a < PLAYER_COUNT,
        move_spec(v, a, d).players[a].position < BOARD_LEN,
    ensures
        forall|c: int|
            0 <= c < BOARD_LEN && (#[trigger] v.board[c]).hotel_owner is Some
                ==> turn_spec(v, a, d).board[c].hotel_owner == v.board[c].hotel_owner,
{
    reveal(turn_spec);
    lemma_wf_seat(v, a);
}

/// The outcome of the turns from `t` on depends on the draws from `t` on
/// alone: two draw streams that agree there give the same outcome and the
/// same final state.
pub proof fn lemma_outcome_determined(v: GameView, t: int, ds1: Seq<TurnDraws>, ds2: Seq<TurnDraws>)
    requires
        forall|i: int| t <= i < max_turns() ==> ds1[i] == ds2[i],
    ensures
        run_spec(v, t, ds1) == run_spec(v, t, ds2),
    decreases max_turns() - t,
{
    if 0 <= t < max_turns() {
        assert(ds1[t] == ds2[t]);
        let w = turn_spec(v, t % (PLAYER_COUNT as int), ds1[t]);
        lemma_outcome_determined(w, t + 1, ds1, ds2);
    }
}

/// Every step of movement ends on the board.
pub proof fn lemma_step_in_board(board: Seq<Cell>, pos: int, total: int)
    requires
        board.len() == BOARD_LEN,
        0 <= pos < BOARD_LEN,
        0 <= total <= 100,
    ensures
        0 <= step_spec(board, pos, total) < BOARD_LEN,
{
}

/// A turn keeps the state well formed.
#[verifier::rlimit(60)]
#[verifier::spinoff_prover]
pub proof fn lemma_turn_keeps_wf(v: GameView, a: int, d: TurnDraws)
    requires
        view_wf(v),
        0 <= a < PLAYER_COUNT,
        draws_valid(d),
    ensures
        view_wf(turn_spec(v, a, d)),
{
    reveal(turn_spec);
    lemma_wf_seat(v, a);
    let m = move_spec(v, a, d);
    lemma_step_in_board(v.board, v.players[a].position as int, d.die_one + d.die_two);
    assert(same_holdings(v, m));
    lemma_same_holdings_wf(v, m);
    lemma_wf_seat(m, a);
    let b = based_spec(m, a);
    assert(same_holdings(m, b));
    lemma_same_holdings_wf(m, b);
    let pos = m.players[a].position as int;
    let cell = m.board[pos];
    let w = kind_effect(b, a, pos, cell.kind, d);
    assert(w == effect_spec(m, a, d));
    if cell.kind == CellKind::Hotel {
        if !b.players[a].has_hotel && cell.hotel_owner is None {
            lemma_buy_keeps_wf(b, w, a, pos);
        } else if cell.hotel_owner is Some && cell.hotel_owner->0 != b.players[a].identity {
            let o = seat_of(cell.hotel_owner->0);
            assert(0 <= o < PLAYER_COUNT);
            assert(same_holdings(b, w));
            lemma_same_holdings_wf(b, w);
        } else {
            assert(w == b);
        }
    } else {
        if cell.kind == CellKind::YouGiveSomeoneFixedAmount {
            lemma_poorest_other_range(b.players, a);
        }
        assert(same_holdings(b, w));
        lemma_same_holdings_wf(b, w);
    }
}

/// Over all the turns of a trial from `t` on, every hotel owner that is set
/// stays set to the same participant.
pub proof fn lemma_hotel_owner_kept_in_trial(v: GameView, t: int, ds: Seq<TurnDraws>)
    requires
        view_wf(v),
        forall|i: int| t <= i < max_turns() ==> draws_valid(#[trigger] ds[i]),
    ensures
        forall|c: int|
            0 <= c < BOARD_LEN && (#[trigger] v.board[c]).hotel_owner is Some
                ==> run_spec(v, t, ds).1.board[c].hotel_owner == v.board[c].hotel_owner,
    decreases max_turns() - t,
{
    if 0 <= t < max_turns() {
        let a = t % (PLAYER_COUNT as int);
        let w = turn_spec(v, a, ds[t]);
        assert(draws_valid(ds[t]));
        lemma_wf_seat(v, a);
        lemma_step_in_board(v.board, v.players[a].position as int, ds[t].die_one + ds[t].die_two);
        lemma_hotel_owner_kept(v, a, ds[t]);
        lemma_turn_keeps_wf(v, a, ds[t]);
        if first_broke_spec(w.players) < 0 {
            lemma_hotel_owner_kept_in_trial(w, t + 1, ds);
        }
    }
}

} // verus!
