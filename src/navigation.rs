//! Movement over the board: plain steps around the primary loop, the
//! detour choice at a branch-entry zone, and steps inside a branch spur.
use vstd::prelude::*;
use crate::board::{Cell, BOARD_LEN, PRIMARY_LEN, SPUR_COUNT, ZONE_WIDTH, LOTTERY_INDEX,
    DICE_GAME_HUB, HORSE_RACE_HUB, STOCK_EXCHANGE_HUB, CASINO_HUB};

verus! {

/// A branch spur: `len` cells from board index `first_cell` on, entered from
/// the `ZONE_WIDTH` loop cells just before `hub` and left onto the loop at
/// `hub`.
#[derive(Clone, Copy, Debug, PartialEq, Eq, Structural)]
pub struct Spur {
    pub hub: usize,
    pub first_cell: usize,
    pub len: usize,
}

pub open spec fn spur_spec(k: int) -> Spur {
    if k == 0 {
        Spur { hub: DICE_GAME_HUB, first_cell: 64, len: 1 }
    } else if k == 1 {
        Spur { hub: HORSE_RACE_HUB, first_cell: 65, len: 1 }
    } else if k == 2 {
        Spur { hub: STOCK_EXCHANGE_HUB, first_cell: 66, len: 1 }
    } else {
        Spur { hub: CASINO_HUB, first_cell: 67, len: 1 }
    }
}

/// Spur `k` of the navigation table.
pub fn spur(k: usize) -> (r: Spur)
    requires
        k < SPUR_COUNT,
    ensures
        r == spur_spec(k as int),
{
    if k == 0 {
        Spur { hub: DICE_GAME_HUB, first_cell: 64, len: 1 }
    } else if k == 1 {
        Spur { hub: HORSE_RACE_HUB, first_cell: 65, len: 1 }
    } else if k == 2 {
        Spur { hub: STOCK_EXCHANGE_HUB, first_cell: 66, len: 1 }
    } else {
        Spur { hub: CASINO_HUB, first_cell: 67, len: 1 }
    }
}

pub open spec fn in_zone(s: Spur, index: int) -> bool {
    s.hub - ZONE_WIDTH <= index < s.hub
}

pub open spec fn in_spur(s: Spur, index: int) -> bool {
    s.first_cell <= index < s.first_cell + s.len
}

/// A spur is well placed on a board of `board_len` cells: its hub and entry
/// zone lie on the primary loop, and its cells lie after the loop and on the
/// board.
pub open spec fn spur_fits(s: Spur, board_len: int) -> bool {
    &&& ZONE_WIDTH <= s.hub < PRIMARY_LEN
    &&& PRIMARY_LEN <= s.first_cell
    &&& 1 <= s.len
    &&& s.first_cell + s.len <= board_len
}

/// The spur whose entry zone holds loop index `index`, or `SPUR_COUNT` when
/// there is none; the first one in table order wins.
pub open spec fn zone_spur(index: int) -> int {
    if in_zone(spur_spec(0), index) {
        0
    } else if in_zone(spur_spec(1), index) {
        1
    } else if in_zone(spur_spec(2), index) {
        2
    } else if in_zone(spur_spec(3), index) {
        3
    } else {
        SPUR_COUNT as int
    }
}

/// The spur that holds board index `index`, or `SPUR_COUNT` when there is
/// none; the first one in table order wins.
pub open spec fn holding_spur(index: int) -> int {
    if in_spur(spur_spec(0), index) {
        0
    } else if in_spur(spur_spec(1), index) {
        1
    } else if in_spur(spur_spec(2), index) {
        2
    } else if in_spur(spur_spec(3), index) {
        3
    } else {
        SPUR_COUNT as int
    }
}

/// Loop index reached by `total` plain steps from loop index `pos`.
pub open spec fn loop_landing(pos: int, total: int) -> int {
    (pos + total) % (PRIMARY_LEN as int)
}

/// Where a participant at `pos` ends up after a throw of `total`.
///
/// From the loop: the loop index `total` steps on; if that lies in a spur's
/// entry zone, the participant takes the spur's first cell instead when its
/// base delta is lower than that of the loop cell (on a tie it stays on the
/// loop). From inside a spur: `total` steps deeper while they stay in the
/// spur, else out onto the loop, the hub being the first loop cell.
pub open spec fn step_spec(board: Seq<Cell>, pos: int, total: int) -> int {
    if pos < PRIMARY_LEN {
        let landing = loop_landing(pos, total);
        let k = zone_spur(landing);
        if k < SPUR_COUNT && board[spur_spec(k).first_cell as int].base_delta
            < board[landing].base_delta {
            spur_spec(k).first_cell as int
        } else {
            landing
        }
    } else {
        let s = spur_spec(holding_spur(pos));
        let offset = pos - s.first_cell + total;
        if offset < s.len {
            s.first_cell + offset
        } else {
            (s.hub + offset - s.len) % (PRIMARY_LEN as int)
        }
    }
}

/// The passive lottery toll is owed on a move from `pos` whose loop landing
/// index is `landing`: the move starts below the lottery index and reaches or
/// passes it.
pub open spec fn toll_due_spec(pos: int, landing: int) -> bool {
    pos < LOTTERY_INDEX && LOTTERY_INDEX <= landing
}

/// Errors in the navigation table.
#[derive(Clone, Copy, Debug, PartialEq, Eq, Structural)]
pub enum LayoutError {
    /// The primary loop is longer than the board.
    LoopBeyondBoard,
    /// The spur at this place of the table does not fit the board.
    SpurOutOfRange(usize),
}

pub open spec fn layout_ok(board_len: int) -> bool {
    &&& PRIMARY_LEN <= board_len
    &&& forall|k: int| 0 <= k < SPUR_COUNT ==> spur_fits(spur_spec(k), board_len)
}

/// Checks the navigation table against a board of `board_len` cells.
pub fn check_layout(board_len: usize) -> (r: Result<(), LayoutError>)
    ensures
        r is Ok <==> layout_ok(board_len as int),
        r == Err::<(), LayoutError>(LayoutError::LoopBeyondBoard) <==> board_len < PRIMARY_LEN,
        forall|k: usize|
            r == Err::<(), LayoutError>(LayoutError::SpurOutOfRange(k)) <==> {
                &&& PRIMARY_LEN <= board_len
                &&& k < SPUR_COUNT
                &&& !spur_fits(spur_spec(k as int), board_len as int)
                &&& forall|j: int| 0 <= j < k ==> spur_fits(spur_spec(j), board_len as int)
            },
{
    if board_len < PRIMARY_LEN {
        return Err(LayoutError::LoopBeyondBoard);
    }
    let mut k: usize = 0;
    while k < SPUR_COUNT
        invariant
            k <= SPUR_COUNT,
            PRIMARY_LEN <= board_len,
            forall|j: int| 0 <= j < k ==> spur_fits(spur_spec(j), board_len as int),
        decreases SPUR_COUNT - k,
    {
        let s = spur(k);
        let fits = ZONE_WIDTH <= s.hub && s.hub < PRIMARY_LEN && PRIMARY_LEN <= s.first_cell
            && 1 <= s.len && s.len <= board_len && s.first_cell <= board_len - s.len;
        if !fits {
            return Err(LayoutError::SpurOutOfRange(k));
        }
        k = k + 1;
    }
    Ok(())
}

/// The navigation table fits the board that `build_board` makes.
pub proof fn lemma_layout_fits()
    ensures
        layout_ok(BOARD_LEN as int),
{
}

/// Spur whose entry zone holds `index`, or `SPUR_COUNT`.
pub fn find_zone_spur(index: usize) -> (r: usize)
    ensures
        r == zone_spur(index as int),
{
    let mut k: usize = 0;
    while k < SPUR_COUNT
        invariant
            k <= SPUR_COUNT,
            forall|j: int| 0 <= j < k ==> !in_zone(spur_spec(j), index as int),
        decreases SPUR_COUNT - k,
    {
        let s = spur(k);
        if s.hub - ZONE_WIDTH <= index && index < s.hub {
            return k;
        }
        k = k + 1;
    }
    SPUR_COUNT
}

/// Spur that holds board index `index`, or `SPUR_COUNT`.
pub fn find_holding_spur(index: usize) -> (r: usize)
    ensures
        r == holding_spur(index as int),
{
    let mut k: usize = 0;
    while k < SPUR_COUNT
        invariant
            k <= SPUR_COUNT,
            forall|j: int| 0 <= j < k ==> !in_spur(spur_spec(j), index as int),
        decreases SPUR_COUNT - k,
    {
        let s = spur(k);
        if s.first_cell <= index && index < s.first_cell + s.len {
            return k;
        }
        k = k + 1;
    }
    SPUR_COUNT
}

/// Loop index reached by `total` plain steps from loop index `pos`.
pub fn landing_index(pos: usize, total: usize) -> (r: usize)
    requires
        pos < PRIMARY_LEN,
        total <= 100,
    ensures
        r == loop_landing(pos as int, total as int),
        r < PRIMARY_LEN,
{
    (pos + total) % PRIMARY_LEN
}

/// Whether the passive lottery toll is owed on a move from `pos` whose loop
/// landing index is `landing`.
pub fn toll_due(pos: usize, landing: usize) -> (r: bool)
    ensures
        r == toll_due_spec(pos as int, landing as int),
{
    pos < LOTTERY_INDEX && LOTTERY_INDEX <= landing
}

/// Where a participant at `pos` ends up after a throw of `total`.
pub fn destination(board: &Vec<Cell>, pos: usize, total: usize) -> (r: usize)
    requires
        board.len() == BOARD_LEN,
        pos < BOARD_LEN,
        total <= 100,
    ensures
        r == step_spec(board@, pos as int, total as int),
        r < BOARD_LEN,
{
    if pos < PRIMARY_LEN {
        let landing = landing_index(pos, total);
        let k = find_zone_spur(landing);
        if k < SPUR_COUNT {
            let s = spur(k);
            if board[s.first_cell].base_delta < board[landing].base_delta {
                return s.first_cell;
            }
        }
        landing
    } else {
        let k = find_holding_spur(pos);
        assert(k < SPUR_COUNT);
        let s = spur(k);
        let offset = pos - s.first_cell + total;
        if offset < s.len {
            s.first_cell + offset
        } else {
            (s.hub + offset - s.len) % PRIMARY_LEN
        }
    }
}

} // verus!
