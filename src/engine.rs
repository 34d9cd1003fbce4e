//! The state of one trial and the turn that advances it: the move, the
//! passive lottery toll and the cell-effect state machine.
use vstd::prelude::*;
use crate::board::{Cell, CellKind, BOARD_LEN, CASINO_HUB, STOCK_EXCHANGE_HUB, DICE_GAME_HUB,
    HORSE_RACE_HUB, LOTTERY_INDEX, build_board, layout};
use crate::model::{GameView, lemma_wf_seat, lemma_same_holdings_wf, lemma_buy_keeps_wf,
    same_holdings, based_spec, kind_effect, TurnDraws, view_wf, view_bounded, players_bounded,
    cell_sane, with_money, with_position, effect_spec, move_spec, turn_spec, market_all, shift_all,
    everyone_gives, poorest_other, poorest_other_upto, hotel_spec, draws_valid, LOTTERY_TOLL,
    LOTTERY_STAKE, GIFT, MONEY_LIMIT, CELL_LIMIT};
use crate::navigation::{destination, landing_index, toll_due};
use crate::player::{Participant, PLAYER_COUNT, create_players, fresh_participants, identity_at};
use crate::rules::{casino_payout, market_delta, dice_game_payout, horse_race_payout, dice_total};

verus! {

/// One trial's state: the board (whose hotel owners change during the
/// trial), the lottery pool, the participants in turn order, and whose turn
/// it is.
pub struct GameState {
    pub board: Vec<Cell>,
    pub lottery_pool: i64,
    pub participants: Vec<Participant>,
    pub active_index: usize,
}

impl View for GameState {
    type V = GameView;

    open spec fn view(&self) -> GameView {
        GameView {
            board: self.board@,
            pool: self.lottery_pool as int,
            players: self.participants@,
        }
    }
}

/// The state every trial starts from.
pub open spec fn initial_view() -> GameView {
    GameView { board: layout(), pool: 0, players: fresh_participants() }
}

impl GameState {
    /// A fresh trial: the built board, an empty pool, the starting line-up,
    /// the first participant to move.
    pub fn new() -> (r: GameState)
        ensures
            r@ == initial_view(),
            r.active_index == 0,
            view_wf(r@),
    {
        let r = GameState {
            board: build_board(),
            lottery_pool: 0,
            participants: create_players(),
            active_index: 0,
        };
        reveal(view_wf);
        assert forall|c: int| 0 <= c < BOARD_LEN implies #[trigger] cell_sane(r.board@[c]) by {}
        r
    }

    /// Changes the money of the participant at `seat` by `delta`.
    fn add_money(&mut self, seat: usize, delta: i64)
        requires
            seat < old(self).participants.len(),
            i64::MIN <= old(self).participants@[seat as int].money + delta <= i64::MAX,
        ensures
            final(self).participants@ == old(self).participants@.update(
                seat as int,
                with_money(old(self).participants@[seat as int], delta as int),
            ),
            final(self).board == old(self).board,
            final(self).lottery_pool == old(self).lottery_pool,
            final(self).active_index == old(self).active_index,
    {
        let mut p = self.participants[seat];
        p.money = p.money + delta;
        self.participants.set(seat, p);
    }

    /// Every participant's money changes by what market event `event` brings
    /// for their own shares.
    fn apply_market(&mut self, event: u32)
        requires
            1 <= event <= 7,
            players_bounded(old(self).participants@, 3 * MONEY_LIMIT),
        ensures
            final(self).participants@ == market_all(old(self).participants@, event as int),
            final(self).board == old(self).board,
            final(self).lottery_pool == old(self).lottery_pool,
            final(self).active_index == old(self).active_index,
    {
        let ghost start = self.participants@;
        let mut i: usize = 0;
        while i < self.participants.len()
            invariant
                1 <= event <= 7,
                players_bounded(start, 3 * MONEY_LIMIT),
                self.participants@.len() == start.len(),
                i <= start.len(),
                forall|j: int| 0 <= j < i ==> self.participants@[j] == market_all(start, event as int)[j],
                forall|j: int| i <= j < start.len() ==> self.participants@[j] == start[j],
                self.board == old(self).board,
                self.lottery_pool == old(self).lottery_pool,
                self.active_index == old(self).active_index,
            decreases start.len() - i,
        {
            let p = self.participants[i];
            assert(start[i as int] == p);
            let delta = market_delta(event, p.oil_stocks, p.steel_stocks, p.electricity_stocks);
            self.add_money(i, delta);
            i = i + 1;
        }
        assert(self.participants@ =~= market_all(start, event as int));
    }

    /// Every participant's money changes by `delta`.
    fn apply_to_all(&mut self, delta: i64)
        requires
            -CELL_LIMIT <= delta <= CELL_LIMIT,
            players_bounded(old(self).participants@, 3 * MONEY_LIMIT),
        ensures
            final(self).participants@ == shift_all(old(self).participants@, delta as int),
            final(self).board == old(self).board,
            final(self).lottery_pool == old(self).lottery_pool,
            final(self).active_index == old(self).active_index,
    {
        let ghost start = self.participants@;
        let mut i: usize = 0;
        while i < self.participants.len()
            invariant
                -CELL_LIMIT <= delta <= CELL_LIMIT,
                players_bounded(start, 3 * MONEY_LIMIT),
                self.participants@.len() == start.len(),
                i <= start.len(),
                forall|j: int| 0 <= j < i ==> self.participants@[j] == shift_all(start, delta as int)[j],
                forall|j: int| i <= j < start.len() ==> self.participants@[j] == start[j],
                self.board == old(self).board,
                self.lottery_pool == old(self).lottery_pool,
                self.active_index == old(self).active_index,
            decreases start.len() - i,
        {
            assert(start[i as int] == self.participants@[i as int]);
            self.add_money(i, delta);
            i = i + 1;
        }
        assert(self.participants@ =~= shift_all(start, delta as int));
    }

    /// Every participant but the one at `seat` pays `GIFT` to it.
    fn collect_gifts(&mut self, seat: usize)
        requires
            seat < old(self).participants.len(),
            old(self).participants.len() == PLAYER_COUNT,
            players_bounded(old(self).participants@, 3 * MONEY_LIMIT),
        ensures
            final(self).participants@ == everyone_gives(old(self).participants@, seat as int),
            final(self).board == old(self).board,
            final(self).lottery_pool == old(self).lottery_pool,
            final(self).active_index == old(self).active_index,
    {
        let ghost start = self.participants@;
        let mut i: usize = 0;
        while i < self.participants.len()
            invariant
                seat < start.len(),
                start.len() == PLAYER_COUNT,
                players_bounded(start, 3 * MONEY_LIMIT),
                self.participants@.len() == start.len(),
                i <= start.len(),
                forall|j: int| 0 <= j < i ==> self.participants@[j] == everyone_gives(start, seat as int)[j],
                forall|j: int| i <= j < start.len() ==> self.participants@[j] == start[j],
                self.board == old(self).board,
                self.lottery_pool == old(self).lottery_pool,
                self.active_index == old(self).active_index,
            decreases start.len() - i,
        {
            assert(start[i as int] == self.participants@[i as int]);
            if i == seat {
                self.add_money(i, GIFT * 3);
            } else {
                self.add_money(i, -GIFT);
            }
            i = i + 1;
        }
        assert(self.participants@ =~= everyone_gives(start, seat as int));
    }

    /// The participant other than the one at `seat` with the least money,
    /// the first in turn order on a tie.
    pub fn poorest_other_than(&self, seat: usize) -> (r: usize)
        requires
            seat < self.participants.len(),
            self.participants.len() == PLAYER_COUNT,
        ensures
            r == poorest_other(self.participants@, seat as int),
            r < PLAYER_COUNT,
            r != seat,
    {
        let ghost ps = self.participants@;
        let mut best: usize = PLAYER_COUNT;
        let mut j: usize = 0;
        while j < self.participants.len()
            invariant
                seat < PLAYER_COUNT,
                ps == self.participants@,
                ps.len() == PLAYER_COUNT,
                j <= PLAYER_COUNT,
                best <= PLAYER_COUNT,
                best == PLAYER_COUNT ==> poorest_other_upto(ps, seat as int, j as int) == -1,
                best == PLAYER_COUNT ==> j <= 1 && (j == 1 ==> seat == 0),
                best < PLAYER_COUNT ==> best == poorest_other_upto(ps, seat as int, j as int),
                best < PLAYER_COUNT ==> best < j && best != seat,
            decreases PLAYER_COUNT - j,
        {
            assert(poorest_other_upto(ps, seat as int, j + 1) == {
                let b = poorest_other_upto(ps, seat as int, j as int);
                if j == seat {
                    b
                } else if b < 0 || ps[j as int].money < ps[b].money {
                    j as int
                } else {
                    b
                }
            });
            if j != seat {
                if best == PLAYER_COUNT {
                    best = j;
                } else if self.participants[j].money < self.participants[best].money {
                    best = j;
                }
            }
            j = j + 1;
        }
        best
    }
}

impl GameState {
    /// Moves the participant at `seat` to board index `position`.
    fn set_position(&mut self, seat: usize, position: usize)
        requires
            seat < old(self).participants.len(),
        ensures
            final(self).participants@ == old(self).participants@.update(
                seat as int,
                with_position(old(self).participants@[seat as int], position as int),
            ),
            final(self).board == old(self).board,
            final(self).lottery_pool == old(self).lottery_pool,
            final(self).active_index == old(self).active_index,
    {
        let mut p = self.participants[seat];
        p.position = position;
        self.participants.set(seat, p);
    }

    /// A `Hotel` cell at `pos` under the participant at `seat`: buys it when
    /// both the participant and the cell are without a hotel owner, pays rent
    /// to another owner, and otherwise does nothing.
    fn resolve_hotel(&mut self, seat: usize, pos: usize)
        requires
            seat < PLAYER_COUNT,
            pos < BOARD_LEN,
            old(self).participants.len() == PLAYER_COUNT,
            old(self).board.len() == BOARD_LEN,
            cell_sane(old(self).board@[pos as int]),
            old(self).board@[pos as int].kind == CellKind::Hotel,
            old(self).participants@[seat as int].identity == identity_at(seat as int),
            players_bounded(old(self).participants@, 3 * MONEY_LIMIT),
            view_wf(old(self)@),
        ensures
            final(self)@ == hotel_spec(old(self)@, seat as int, pos as int),
            final(self).active_index == old(self).active_index,
            view_wf(final(self)@),
    {
        let p = self.participants[seat];
        let cell = self.board[pos];
        assert(cell_sane(self.board@[pos as int]));
        match cell.hotel_owner {
            None => {
                if !p.has_hotel {
                    let mut c = cell;
                    c.hotel_owner = Some(p.identity);
                    self.board.set(pos, c);
                    let mut q = p;
                    q.money = q.money - cell.hotel_price;
                    q.has_hotel = true;
                    q.hotel_cell = pos;
                    self.participants.set(seat, q);
                    assert(self.board@ =~= old(self).board@.update(pos as int, Cell { hotel_owner: Some(p.identity), ..cell }));
                    proof {
                        lemma_wf_seat(old(self)@, seat as int);
                        lemma_buy_keeps_wf(old(self)@, self@, seat as int, pos as int);
                    }
                }
            },
            Some(owner) => {
                if owner != p.identity {
                    let o = owner.seat();
                    assert(o != seat);
                    self.add_money(seat, -cell.hotel_rent);
                    self.add_money(o, cell.hotel_rent);
                    proof {
                        lemma_wf_seat(old(self)@, seat as int);
                        assert(same_holdings(old(self)@, self@));
                        lemma_same_holdings_wf(old(self)@, self@);
                    }
                }
            },
        }
    }

    /// Resolves the cell under the participant at `seat`: its base delta,
    /// then the effect of its kind (stock purchases and returns, the
    /// mini-game teleports and payouts, the lottery, hotels and the two
    /// wealth transfers).
    pub fn apply_cell_effect(&mut self, seat: usize, d: &TurnDraws)
        requires
            seat < PLAYER_COUNT,
            view_wf(old(self)@),
            view_bounded(old(self)@, 2 * MONEY_LIMIT),
            draws_valid(*d),
        ensures
            final(self)@ == effect_spec(old(self)@, seat as int, *d),
            final(self).active_index == old(self).active_index,
            view_wf(final(self)@),
    {
        proof {
            lemma_wf_seat(self@, seat as int);
        }
        let pos = self.participants[seat].position;
        let cell = self.board[pos];
        self.add_money(seat, cell.base_delta);
        assert(self@ == based_spec(old(self)@, seat as int));
        proof {
            assert(same_holdings(old(self)@, self@));
            lemma_same_holdings_wf(old(self)@, self@);
        }
        if cell.kind != CellKind::Normal {
            self.apply_kind_effect(seat, pos, cell.kind, d);
        }
    }

    /// The effect of a cell of kind `kind` at `pos` on the participant at
    /// `seat`, after its base delta.
    #[verifier::rlimit(40)]
    fn apply_kind_effect(&mut self, seat: usize, pos: usize, kind: CellKind, d: &TurnDraws)
        requires
            seat < PLAYER_COUNT,
            pos < BOARD_LEN,
            old(self).participants.len() == PLAYER_COUNT,
            old(self).board.len() == BOARD_LEN,
            old(self).board@[pos as int].kind == kind,
            kind != CellKind::Normal,
            cell_sane(old(self).board@[pos as int]),
            old(self).participants@[seat as int].identity == identity_at(seat as int),
            view_bounded(old(self)@, 3 * MONEY_LIMIT),
            draws_valid(*d),
            view_wf(old(self)@),
        ensures
            final(self)@ == kind_effect(old(self)@, seat as int, pos as int, kind, *d),
            final(self).active_index == old(self).active_index,
            view_wf(final(self)@),
    {
        proof {
            lemma_wf_seat(self@, seat as int);
        }
        match kind {
            CellKind::Normal => {},
            CellKind::OilStock => {
                let mut p = self.participants[seat];
                p.oil_stocks = p.oil_stocks + 1;
                self.participants.set(seat, p);
            },
            CellKind::ElectricityStock => {
                let mut p = self.participants[seat];
                p.electricity_stocks = p.electricity_stocks + 1;
                self.participants.set(seat, p);
            },
            CellKind::SteelStock => {
                let mut p = self.participants[seat];
                p.steel_stocks = p.steel_stocks + 1;
                self.participants.set(seat, p);
            },
            CellKind::ReturnStocks => {
                let mut p = self.participants[seat];
                p.oil_stocks = 0;
                p.steel_stocks = 0;
                p.electricity_stocks = 0;
                self.participants.set(seat, p);
            },
            CellKind::MoveToCasino => {
                let delta = casino_payout(d.roulette, d.reel_one, d.reel_two, d.reel_three);
                self.add_money(seat, delta);
                self.set_position(seat, CASINO_HUB);
                assert(self.participants@ =~= kind_effect(old(self)@, seat as int, pos as int, kind, *d).players);
            },
            CellKind::MoveToStockExchange => {
                self.set_position(seat, STOCK_EXCHANGE_HUB);
                self.apply_market(d.market_event);
            },
            CellKind::MoveToDiceGame => {
                let delta = dice_game_payout(d.game_die_one, d.game_die_two);
                self.add_money(seat, delta);
                self.set_position(seat, DICE_GAME_HUB);
                assert(self.participants@ =~= kind_effect(old(self)@, seat as int, pos as int, kind, *d).players);
            },
            CellKind::MoveToHorseRace => {
                self.set_position(seat, HORSE_RACE_HUB);
                self.apply_to_all(horse_race_payout(d.percentile));
            },
            CellKind::MoveToLottery => {
                let pool = self.lottery_pool;
                self.add_money(seat, pool);
                self.lottery_pool = 0;
                self.set_position(seat, LOTTERY_INDEX);
                assert(self.participants@ =~= kind_effect(old(self)@, seat as int, pos as int, kind, *d).players);
            },
            CellKind::PayIntoLottery => {
                self.add_money(seat, -LOTTERY_STAKE);
                self.lottery_pool = self.lottery_pool + LOTTERY_STAKE;
            },
            CellKind::Hotel => {
                self.resolve_hotel(seat, pos);
            },
            CellKind::EveryoneGivesYouFixedAmount => {
                self.collect_gifts(seat);
            },
            CellKind::YouGiveSomeoneFixedAmount => {
                let t = self.poorest_other_than(seat);
                self.add_money(seat, -GIFT);
                self.add_money(t, GIFT);
            },
        }
        if kind != CellKind::Hotel {
            proof {
                assert(same_holdings(old(self)@, self@));
                lemma_same_holdings_wf(old(self)@, self@);
            }
        }
    }
}

impl GameState {
    /// The move of the participant at `seat`: to where the throw leads,
    /// paying the passive lottery toll into the pool when the move reaches
    /// or passes the lottery index from below.
    pub fn move_participant(&mut self, seat: usize, d: &TurnDraws)
        requires
            seat < PLAYER_COUNT,
            view_wf(old(self)@),
            view_bounded(old(self)@, MONEY_LIMIT as int),
            draws_valid(*d),
        ensures
            final(self)@ == move_spec(old(self)@, seat as int, *d),
            final(self).active_index == old(self).active_index,
            view_wf(final(self)@),
            view_bounded(final(self)@, 2 * MONEY_LIMIT),
    {
        proof {
            lemma_wf_seat(self@, seat as int);
        }
        let ghost v = self@;
        let mut p = self.participants[seat];
        let total = dice_total(d.die_one, d.die_two);
        let dest = destination(&self.board, p.position, total);
        if p.position < LOTTERY_INDEX {
            let landing = landing_index(p.position, total);
            if toll_due(p.position, landing) {
                p.money = p.money - LOTTERY_TOLL;
                self.lottery_pool = self.lottery_pool + LOTTERY_TOLL;
            }
        }
        p.position = dest;
        self.participants.set(seat, p);
        proof {
            assert(self@ == move_spec(v, seat as int, *d));
            assert(same_holdings(v, self@));
            lemma_same_holdings_wf(v, self@);
        }
    }

    /// One turn of the participant at `seat`: the move, then the landed
    /// cell's effect.
    pub fn play_turn(&mut self, seat: usize, d: &TurnDraws)
        requires
            seat < PLAYER_COUNT,
            view_wf(old(self)@),
            view_bounded(old(self)@, MONEY_LIMIT as int),
            draws_valid(*d),
        ensures
            final(self)@ == turn_spec(old(self)@, seat as int, *d),
            final(self).active_index == old(self).active_index,
            view_wf(final(self)@),
    {
        let ghost v = self@;
        self.move_participant(seat, d);
        self.apply_cell_effect(seat, d);
        assert(self@ == turn_spec(v, seat as int, *d)) by {
            reveal(turn_spec);
        }
    }
}

} // verus!
