//! One trial: rounds of turns until a participant's money is used up or the
//! round cap passes.
use vstd::prelude::*;
use rand::rngs::StdRng;
use crate::engine::{GameState, initial_view};
use crate::model::{GameView, TurnDraws, lemma_wf_seat, view_wf, players_bounded, draws_valid,
    turn_spec, stocks_at_most, lemma_move_growth, lemma_effect_growth};
use crate::player::{Identity, Participant, PLAYER_COUNT, identity_at, seat_of, fresh_participants};
use crate::rules::STOCK_LIMIT;
use crate::random::draw_turn;

verus! {

/// The last round index a trial plays; rounds are numbered from 0.
pub const ROUND_CAP: usize = 500;

/// Most turns a trial plays.
pub open spec fn max_turns() -> int {
    (ROUND_CAP + 1) * PLAYER_COUNT
}

/// Among seats `0..n`, the first whose money is at most zero, or -1.
pub open spec fn first_broke_upto(ps: Seq<Participant>, n: int) -> int
    decreases n,
{
    if n <= 0 {
        -1
    } else {
        let f = first_broke_upto(ps, n - 1);
        if f >= 0 {
            f
        } else if ps[n - 1].money <= 0 {
            n - 1
        } else {
            -1
        }
    }
}

/// The first participant in turn order whose money is at most zero, or -1.
pub open spec fn first_broke_spec(ps: Seq<Participant>) -> int {
    first_broke_upto(ps, ps.len() as int)
}

/// How a trial ended: the participant whose money ran out first, if any,
/// and the round in which that happened (0 when none did).
#[derive(Clone, Copy, Debug, PartialEq, Eq, Structural)]
pub struct TrialResult {
    pub terminator: Option<Identity>,
    pub rounds: usize,
}

/// The outcome and the final state of a trial whose turns `t` on are played
/// from state `v` with the draws `ds[t]`, `ds[t + 1]`, ...
pub open spec fn run_spec(v: GameView, t: int, ds: Seq<TurnDraws>) -> (TrialResult, GameView)
    decreases max_turns() - t,
{
    if t < 0 || t >= max_turns() {
        (TrialResult { terminator: None, rounds: 0 }, v)
    } else {
        let w = turn_spec(v, t % (PLAYER_COUNT as int), ds[t]);
        let k = first_broke_spec(w.players);
        if k >= 0 {
            (TrialResult { terminator: Some(identity_at(k)), rounds: (t / (PLAYER_COUNT as int)) as usize }, w)
        } else {
            run_spec(w, t + 1, ds)
        }
    }
}

/// The participant whose money is at most zero that comes first in turn
/// order.
pub fn first_broke(ps: &Vec<Participant>) -> (r: Option<usize>)
    ensures
        first_broke_spec(ps@) >= 0 ==> r == Some(first_broke_spec(ps@) as usize),
        first_broke_spec(ps@) < 0 ==> r is None,
{
    let mut j: usize = 0;
    while j < ps.len()
        invariant
            j <= ps.len(),
            first_broke_upto(ps@, j as int) == -1,
        decreases ps.len() - j,
    {
        if ps[j].money <= 0 {
            proof {
                assert(first_broke_upto(ps@, j + 1) == j);
                lemma_first_broke_stays(ps@, j + 1, ps@.len() as int);
            }
            return Some(j);
        }
        j = j + 1;
    }
    None
}

/// Once found among the first `m` seats, the first broke seat stays the
/// same among more seats.
proof fn lemma_first_broke_stays(ps: Seq<Participant>, m: int, n: int)
    requires
        0 <= m <= n,
        first_broke_upto(ps, m) >= 0,
    ensures
        first_broke_upto(ps, n) == first_broke_upto(ps, m),
    decreases n - m,
{
    if m < n {
        lemma_first_broke_stays(ps, m, n - 1);
    }
}

/// The seat `first_broke_spec` reports has money at most zero, and every
/// seat before it has money above zero; when it reports none, every seat
/// has money above zero.
pub proof fn lemma_first_broke(ps: Seq<Participant>, n: int)
    requires
        0 <= n <= ps.len(),
    ensures
        first_broke_upto(ps, n) >= 0 ==> {
            &&& first_broke_upto(ps, n) < n
            &&& ps[first_broke_upto(ps, n)].money <= 0
            &&& forall|j: int| 0 <= j < first_broke_upto(ps, n) ==> ps[j].money > 0
        },
        first_broke_upto(ps, n) < 0 ==> forall|j: int| 0 <= j < n ==> ps[j].money > 0,
    decreases n,
{
    if n > 0 {
        lemma_first_broke(ps, n - 1);
    }
}

/// Money, pool and share bounds that hold after `t` turns of a trial that
/// starts within the starting bounds.
pub open spec fn trial_bounded(v: GameView, t: int) -> bool {
    &&& 0 <= v.pool <= 1000000 + 10000 * t
    &&& players_bounded(v.players, 1000000 + 100000000 * t)
    &&& stocks_at_most(v.players, t)
}

/// A state a trial can start from: well formed, money and pool within the
/// starting amount, no shares held.
pub open spec fn can_start(v: GameView) -> bool {
    &&& view_wf(v)
    &&& trial_bounded(v, 0)
}

impl GameState {
    /// Plays the trial out: participants take turns in seat order, a round
    /// after another from round 0 to `ROUND_CAP`; after every turn the
    /// participants are scanned in seat order and the first whose money is
    /// at most zero ends the trial.
    ///
    /// The outcome is what `run_spec` gives for the draws that were made.
    pub fn play_out(&mut self, rng: &mut StdRng) -> (r: TrialResult)
        requires
            can_start(old(self)@),
        ensures
            exists|ds: Seq<TurnDraws>|
                #![trigger run_spec(old(self)@, 0, ds)]
                (forall|i: int| 0 <= i < ds.len() ==> draws_valid(#[trigger] ds[i]))
                && (r, final(self)@) == run_spec(old(self)@, 0, ds),
            view_wf(final(self)@),
            r.terminator is Some ==> {
                &&& first_broke_spec(final(self).participants@) == seat_of(r.terminator->0)
                &&& r.rounds <= ROUND_CAP
            },
            r.terminator is None ==> r.rounds == 0 && first_broke_spec(final(self).participants@) < 0,
    {
        let ghost v0 = self@;
        let ghost mut drawn: Seq<TurnDraws> = Seq::empty();
        let turns: usize = (ROUND_CAP + 1) * PLAYER_COUNT;
        let mut t: usize = 0;
        let mut outcome = TrialResult { terminator: None, rounds: 0 };
        let mut done = false;
        while !done && t < turns
            invariant
                turns == max_turns(),
                t <= turns,
                view_wf(self@),
                forall|i: int| 0 <= i < drawn.len() ==> draws_valid(#[trigger] drawn[i]),
                !done ==> {
                    &&& trial_bounded(self@, t as int)
                    &&& drawn.len() == t
                    &&& outcome == TrialResult { terminator: None, rounds: 0 }
                    &&& forall|ds: Seq<TurnDraws>|
                        ds.len() >= t && #[trigger] ds.take(t as int) == drawn ==> run_spec(v0, 0, ds)
                            == run_spec(self@, t as int, ds)
                    &&& t > 0 ==> first_broke_spec(self.participants@) < 0
                },
                done ==> {
                    &&& (outcome, self@) == run_spec(v0, 0, drawn)
                    &&& outcome.terminator is Some
                    &&& first_broke_spec(self.participants@) == seat_of(outcome.terminator->0)
                    &&& outcome.rounds <= ROUND_CAP
                },
            decreases 2 * (turns - t) + if done {
                0int
            } else {
                1int
            },
        {
            let seat = t % PLAYER_COUNT;
            let d = draw_turn(rng);
            let ghost v = self@;
            self.active_index = seat;
            proof {
                lemma_wf_seat(v, seat as int);
                lemma_move_growth(v, seat as int, d);
            }
            self.move_participant(seat, &d);
            let ghost m = self@;
            proof {
                lemma_effect_growth(m, seat as int, d, t as int);
            }
            self.apply_cell_effect(seat, &d);
            let ghost before = drawn;
            proof {
                assert(self@ == turn_spec(v, seat as int, d)) by {
                    reveal(turn_spec);
                }
                drawn = drawn.push(d);
                assert(drawn.take(t as int) =~= before);
            }
            let broke = first_broke(&self.participants);
            match broke {
                Some(k) => {
                    proof {
                        assert(drawn.take(t + 1) =~= drawn);
                        assert(run_spec(v0, 0, drawn) == run_spec(v, t as int, drawn));
                        assert(drawn[t as int] == d);
                        lemma_wf_seat(self@, 0);
                        lemma_first_broke(self.participants@, PLAYER_COUNT as int);
                    }
                    outcome = TrialResult { terminator: Some(Identity::at_seat(k)), rounds: t / PLAYER_COUNT };
                    done = true;
                },
                None => {
                    proof {
                        assert forall|ds: Seq<TurnDraws>|
                            ds.len() >= t + 1 && #[trigger] ds.take(t + 1) == drawn implies run_spec(v0, 0, ds)
                                == run_spec(self@, t + 1, ds) by {
                            assert(ds.take(t as int) =~= drawn.take(t as int));
                            assert(ds[t as int] == ds.take(t + 1)[t as int]);
                            assert(run_spec(v0, 0, ds) == run_spec(v, t as int, ds));
                        }
                    }
                    t = t + 1;
                },
            }
        }
        proof {
            if !done {
                assert(drawn.take(t as int) =~= drawn);
                assert(run_spec(v0, 0, drawn) == (outcome, self@));
            }
        }
        outcome
    }
}

/// What a trial from the starting state can end with: the outcome of
/// `run_spec` for some stream of valid draws.
pub open spec fn possible_outcome(r: TrialResult) -> bool {
    exists|ds: Seq<TurnDraws>|
        #![trigger run_spec(initial_view(), 0, ds)]
        (forall|i: int| 0 <= i < ds.len() ==> draws_valid(#[trigger] ds[i]))
        && run_spec(initial_view(), 0, ds).0 == r
}

/// One trial from a freshly built board and freshly reset participants.
pub fn simulate_trial(rng: &mut StdRng) -> (r: TrialResult)
    ensures
        possible_outcome(r),
        r.terminator is Some ==> r.rounds <= ROUND_CAP,
        r.terminator is None ==> r.rounds == 0,
{
    let mut state = GameState::new();
    proof {
        assert(state.participants@ == fresh_participants());
        assert forall|i: int| 0 <= i < state.participants@.len() implies
            -1000000 <= (#[trigger] state.participants@[i]).money <= 1000000
            && state.participants@[i].oil_stocks < STOCK_LIMIT
            && state.participants@[i].steel_stocks < STOCK_LIMIT
            && state.participants@[i].electricity_stocks < STOCK_LIMIT by {
        }
    }
    state.play_out(rng)
}

} // verus!
