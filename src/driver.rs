//! The Monte Carlo driver: many independent trials, tallied by the
//! participant whose money ran out first.
use vstd::prelude::*;
use rand::rngs::StdRng;
use crate::player::Identity;
use crate::trial::{TrialResult, possible_outcome, simulate_trial};

verus! {

/// Number of trials the driver runs by default.
pub const DEFAULT_TRIALS: u64 = 1000000;

/// How many trials each participant ended by running out of money.
#[derive(Clone, Copy, Debug, PartialEq, Eq, Structural)]
pub struct Tally {
    pub green: u64,
    pub red: u64,
    pub blue: u64,
    pub yellow: u64,
}

pub open spec fn count_of(t: Tally, id: Identity) -> int {
    match id {
        Identity::Green => t.green as int,
        Identity::Red => t.red as int,
        Identity::Blue => t.blue as int,
        Identity::Yellow => t.yellow as int,
    }
}

/// Number of results in `rs` whose terminator is `id`.
pub open spec fn ended_by(rs: Seq<TrialResult>, id: Identity) -> int
    decreases rs.len(),
{
    if rs.len() == 0 {
        0
    } else {
        ended_by(rs.drop_last(), id) + if rs.last().terminator == Some(id) {
            1int
        } else {
            0int
        }
    }
}

/// `t` counts, for each participant, the results of `rs` it ended.
pub open spec fn tallies(t: Tally, rs: Seq<TrialResult>) -> bool {
    forall|id: Identity| #[trigger] count_of(t, id) == ended_by(rs, id)
}

proof fn lemma_ended_by_bound(rs: Seq<TrialResult>, id: Identity)
    ensures
        0 <= ended_by(rs, id) <= rs.len(),
    decreases rs.len(),
{
    if rs.len() > 0 {
        lemma_ended_by_bound(rs.drop_last(), id);
    }
}

impl Tally {
    /// No trials counted.
    pub fn new() -> (r: Tally)
        ensures
            tallies(r, Seq::empty()),
    {
        Tally { green: 0, red: 0, blue: 0, yellow: 0 }
    }

    /// The count of `id`.
    pub fn count(&self, id: Identity) -> (r: u64)
        ensures
            r == count_of(*self, id),
    {
        match id {
            Identity::Green => self.green,
            Identity::Red => self.red,
            Identity::Blue => self.blue,
            Identity::Yellow => self.yellow,
        }
    }

    /// Counts one more trial: its terminator's count goes up by one; a
    /// trial without a terminator changes nothing.
    pub fn record(&mut self, r: &TrialResult)
        requires
            r.terminator is Some ==> count_of(*old(self), r.terminator->0) < u64::MAX,
        ensures
            forall|id: Identity|
                #[trigger] count_of(*final(self), id) == count_of(*old(self), id) + if r.terminator
                    == Some(id) {
                    1int
                } else {
                    0int
                },
    {
        match r.terminator {
            Some(Identity::Green) => self.green = self.green + 1,
            Some(Identity::Red) => self.red = self.red + 1,
            Some(Identity::Blue) => self.blue = self.blue + 1,
            Some(Identity::Yellow) => self.yellow = self.yellow + 1,
            None => {},
        }
    }
}

/// Runs `n` independent trials and tallies their terminators; trials that
/// reach the round cap without one are left out of every count.
pub fn run_trials(rng: &mut StdRng, n: u64) -> (r: Tally)
    ensures
        exists|rs: Seq<TrialResult>|
            #![trigger tallies(r, rs)]
            rs.len() == n && (forall|i: int| 0 <= i < rs.len() ==> possible_outcome(#[trigger] rs[i]))
                && tallies(r, rs),
{
    let mut tally = Tally::new();
    let ghost mut rs: Seq<TrialResult> = Seq::empty();
    let mut i: u64 = 0;
    while i < n
        invariant
            i <= n,
            rs.len() == i,
            forall|j: int| 0 <= j < rs.len() ==> possible_outcome(#[trigger] rs[j]),
            tallies(tally, rs),
        decreases n - i,
    {
        let result = simulate_trial(rng);
        proof {
            if result.terminator is Some {
                lemma_ended_by_bound(rs, result.terminator->0);
            }
        }
        let ghost before = tally;
        tally.record(&result);
        proof {
            let next = rs.push(result);
            assert(next.drop_last() =~= rs);
            assert forall|id: Identity| #[trigger] count_of(tally, id) == ended_by(next, id) by {
                assert(count_of(before, id) == ended_by(rs, id));
            }
            rs = next;
        }
        i = i + 1;
    }
    tally
}

} // verus!
