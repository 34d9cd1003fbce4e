//! Participants and their identities.
use vstd::prelude::*;

verus! {

/// Number of participants in a trial.
pub const PLAYER_COUNT: usize = 4;

/// Money each participant starts a trial with.
pub const STARTING_MONEY: i64 = 1000000;

/// The participants, in the fixed order in which they take their turns.
#[derive(Clone, Copy, Debug, PartialEq, Eq, Structural)]
pub enum Identity {
    Green,
    Red,
    Blue,
    Yellow,
}

/// Place of an identity in the turn order.
pub open spec fn seat_of(id: Identity) -> int {
    match id {
        Identity::Green => 0,
        Identity::Red => 1,
        Identity::Blue => 2,
        Identity::Yellow => 3,
    }
}

pub open spec fn identity_at(seat: int) -> Identity {
    if seat == 0 {
        Identity::Green
    } else if seat == 1 {
        Identity::Red
    } else if seat == 2 {
        Identity::Blue
    } else {
        Identity::Yellow
    }
}

pub open spec fn start_position_spec(id: Identity) -> int {
    match id {
        Identity::Green => 0,
        Identity::Red => 17,
        Identity::Blue => 35,
        Identity::Yellow => 50,
    }
}

impl Identity {
    /// Place of this identity in the turn order.
    pub fn seat(&self) -> (r: usize)
        ensures
            r == seat_of(*self),
            r < PLAYER_COUNT,
    {
        match self {
            Identity::Green => 0,
            Identity::Red => 1,
            Identity::Blue => 2,
            Identity::Yellow => 3,
        }
    }

    /// The identity whose turn comes at `seat`.
    pub fn at_seat(seat: usize) -> (r: Identity)
        requires
            seat < PLAYER_COUNT,
        ensures
            r == identity_at(seat as int),
            seat_of(r) == seat,
    {
        if seat == 0 {
            Identity::Green
        } else if seat == 1 {
            Identity::Red
        } else if seat == 2 {
            Identity::Blue
        } else {
            Identity::Yellow
        }
    }

    /// The fixed board index this identity starts each trial on.
    pub fn start_position(&self) -> (r: usize)
        ensures
            r == start_position_spec(*self),
    {
        match self {
            Identity::Green => 0,
            Identity::Red => 17,
            Identity::Blue => 35,
            Identity::Yellow => 50,
        }
    }

    /// Display name of the identity.
    pub fn name(&self) -> (r: String)
        ensures
            r@ == name_spec(*self),
    {
        match self {
            Identity::Green => String::from_str("Green"),
            Identity::Red => String::from_str("Red"),
            Identity::Blue => String::from_str("Blue"),
            Identity::Yellow => String::from_str("Yellow"),
        }
    }
}

pub open spec fn name_spec(id: Identity) -> Seq<char> {
    match id {
        Identity::Green => "Green"@,
        Identity::Red => "Red"@,
        Identity::Blue => "Blue"@,
        Identity::Yellow => "Yellow"@,
    }
}

/// One participant's state during a trial.
#[derive(Clone, Copy, Debug, PartialEq, Eq, Structural)]
pub struct Participant {
    pub identity: Identity,
    pub money: i64,
    pub position: usize,
    pub oil_stocks: u32,
    pub steel_stocks: u32,
    pub electricity_stocks: u32,
    pub has_hotel: bool,
    /// Board index of the owned hotel; meaningful only when `has_hotel`.
    pub hotel_cell: usize,
}

pub open spec fn fresh_participant(id: Identity) -> Participant {
    Participant {
        identity: id,
        money: STARTING_MONEY,
        position: start_position_spec(id) as usize,
        oil_stocks: 0,
        steel_stocks: 0,
        electricity_stocks: 0,
        has_hotel: false,
        hotel_cell: 0,
    }
}

impl Participant {
    /// A participant as it stands at the start of a trial.
    pub fn new(identity: Identity) -> (r: Participant)
        ensures
            r == fresh_participant(identity),
    {
        Participant {
            identity,
            money: STARTING_MONEY,
            position: identity.start_position(),
            oil_stocks: 0,
            steel_stocks: 0,
            electricity_stocks: 0,
            has_hotel: false,
            hotel_cell: 0,
        }
    }
}

/// The starting line-up, in turn order.
pub open spec fn fresh_participants() -> Seq<Participant> {
    Seq::new(PLAYER_COUNT as nat, |i: int| fresh_participant(identity_at(i)))
}

/// All participants, reset for a new trial, in turn order.
pub fn create_players() -> (r: Vec<Participant>)
    ensures
        r@ == fresh_participants(),
{
    let mut players: Vec<Participant> = Vec::new();
    let mut seat: usize = 0;
    while seat < PLAYER_COUNT
        invariant
            seat <= PLAYER_COUNT,
            players@ == fresh_participants().take(seat as int),
        decreases PLAYER_COUNT - seat,
    {
        players.push(Participant::new(Identity::at_seat(seat)));
        seat = seat + 1;
        assert(players@ =~= fresh_participants().take(seat as int));
    }
    assert(players@ =~= fresh_participants());
    players
}

} // verus!
