//! The fixed board: its cells, the primary loop, the branch spurs and the
//! mini-game hubs.
use vstd::prelude::*;
use crate::player::Identity;

verus! {

/// Cells reachable by plain movement: indices `0..PRIMARY_LEN`.
pub const PRIMARY_LEN: usize = 64;

/// All cells, the branch cells included.
pub const BOARD_LEN: usize = 68;

/// Number of branch spurs.
pub const SPUR_COUNT: usize = 4;

/// Width of the branch-entry zone that precedes each spur's hub.
pub const ZONE_WIDTH: usize = 3;

pub const DICE_GAME_HUB: usize = 20;
pub const HORSE_RACE_HUB: usize = 28;
pub const LOTTERY_INDEX: usize = 44;
pub const STOCK_EXCHANGE_HUB: usize = 53;
pub const CASINO_HUB: usize = 61;

/// What landing on a cell does, besides its base money delta.
#[derive(Clone, Copy, Debug, PartialEq, Eq, Structural)]
pub enum CellKind {
    Normal,
    OilStock,
    ElectricityStock,
    SteelStock,
    ReturnStocks,
    MoveToCasino,
    MoveToStockExchange,
    MoveToDiceGame,
    MoveToHorseRace,
    MoveToLottery,
    PayIntoLottery,
    Hotel,
    EveryoneGivesYouFixedAmount,
    YouGiveSomeoneFixedAmount,
}

/// One board cell. `hotel_price`, `hotel_rent` and `hotel_owner` matter only
/// on a `Hotel` cell.
#[derive(Clone, Copy, Debug, PartialEq, Eq, Structural)]
pub struct Cell {
    pub base_delta: i64,
    pub kind: CellKind,
    pub hotel_price: i64,
    pub hotel_rent: i64,
    pub hotel_owner: Option<Identity>,
}

pub open spec fn plain_cell_spec(delta: int, kind: CellKind) -> Cell {
    Cell { base_delta: delta as i64, kind, hotel_price: 0, hotel_rent: 0, hotel_owner: None }
}

pub open spec fn hotel_cell_spec(price: int, rent: int) -> Cell {
    Cell {
        base_delta: 0,
        kind: CellKind::Hotel,
        hotel_price: price as i64,
        hotel_rent: rent as i64,
        hotel_owner: None,
    }
}

/// A cell that is not a hotel.
pub fn plain_cell(delta: i64, kind: CellKind) -> (r: Cell)
    ensures
        r == plain_cell_spec(delta as int, kind),
{
    Cell { base_delta: delta, kind, hotel_price: 0, hotel_rent: 0, hotel_owner: None }
}

/// An unowned hotel cell.
pub fn hotel_cell(price: i64, rent: i64) -> (r: Cell)
    ensures
        r == hotel_cell_spec(price as int, rent as int),
{
    Cell { base_delta: 0, kind: CellKind::Hotel, hotel_price: price, hotel_rent: rent, hotel_owner: None }
}

/// Cell `i` of the board as every trial starts it: the primary loop, then
/// one cell for each spur.
pub open spec fn layout_cell(i: usize) -> Cell {
    match i {
        0 => plain_cell_spec(-100000, CellKind::ElectricityStock),
        1 => plain_cell_spec(0, CellKind::MoveToCasino),
        2 => plain_cell_spec(-170000, CellKind::Normal),
        3 => plain_cell_spec(-100000, CellKind::Normal),
        4 => hotel_cell_spec(150000, 15000),
        5 => plain_cell_spec(0, CellKind::MoveToStockExchange),
        6 => plain_cell_spec(-50000, CellKind::PayIntoLottery),
        7 => plain_cell_spec(-180000, CellKind::Normal),
        8 => plain_cell_spec(-100000, CellKind::OilStock),
        9 => plain_cell_spec(0, CellKind::MoveToDiceGame),
        10 => plain_cell_spec(-50000, CellKind::Normal),
        11 => plain_cell_spec(-100000, CellKind::ElectricityStock),
        12 => plain_cell_spec(0, CellKind::MoveToHorseRace),
        13 => hotel_cell_spec(150000, 15000),
        14 => plain_cell_spec(0, CellKind::MoveToCasino),
        15 => plain_cell_spec(-100000, CellKind::SteelStock),
        16 => plain_cell_spec(-50000, CellKind::PayIntoLottery),
        17 => plain_cell_spec(0, CellKind::MoveToCasino),
        18 => plain_cell_spec(0, CellKind::MoveToStockExchange),
        19 => plain_cell_spec(-10000, CellKind::Normal),
        20 => plain_cell_spec(-100000, CellKind::SteelStock),
        21 => plain_cell_spec(-25000, CellKind::Normal),
        22 => plain_cell_spec(0, CellKind::MoveToLottery),
        23 => plain_cell_spec(5000, CellKind::Normal),
        24 => plain_cell_spec(0, CellKind::MoveToStockExchange),
        25 => plain_cell_spec(-100000, CellKind::OilStock),
        26 => plain_cell_spec(-50000, CellKind::Normal),
        27 => plain_cell_spec(0, CellKind::MoveToLottery),
        28 => plain_cell_spec(-100000, CellKind::OilStock),
        29 => plain_cell_spec(-10000, CellKind::Normal),
        30 => hotel_cell_spec(50000, 5000),
        31 => plain_cell_spec(0, CellKind::MoveToDiceGame),
        32 => plain_cell_spec(0, CellKind::EveryoneGivesYouFixedAmount),
        33 => plain_cell_spec(-10000, CellKind::Normal),
        34 => plain_cell_spec(0, CellKind::MoveToCasino),
        35 => plain_cell_spec(-100000, CellKind::SteelStock),
        36 => plain_cell_spec(0, CellKind::MoveToHorseRace),
        37 => plain_cell_spec(0, CellKind::MoveToStockExchange),
        38 => plain_cell_spec(-100000, CellKind::OilStock),
        39 => plain_cell_spec(0, CellKind::ReturnStocks),
        40 => hotel_cell_spec(200000, 20000),
        41 => plain_cell_spec(0, CellKind::MoveToCasino),
        42 => plain_cell_spec(-100000, CellKind::ElectricityStock),
        43 => plain_cell_spec(-150000, CellKind::Normal),
        44 => plain_cell_spec(-10000, CellKind::PayIntoLottery),
        45 => plain_cell_spec(1500, CellKind::Normal),
        46 => plain_cell_spec(0, CellKind::MoveToDiceGame),
        47 => plain_cell_spec(0, CellKind::MoveToCasino),
        48 => hotel_cell_spec(100000, 10000),
        49 => plain_cell_spec(-100000, CellKind::SteelStock),
        50 => plain_cell_spec(0, CellKind::YouGiveSomeoneFixedAmount),
        51 => plain_cell_spec(0, CellKind::MoveToDiceGame),
        52 => plain_cell_spec(-7500, CellKind::Normal),
        53 => plain_cell_spec(-100000, CellKind::ElectricityStock),
        54 => plain_cell_spec(0, CellKind::MoveToLottery),
        55 => plain_cell_spec(100000, CellKind::Normal),
        56 => plain_cell_spec(-25000, CellKind::Normal),
        57 => plain_cell_spec(0, CellKind::MoveToCasino),
        58 => plain_cell_spec(-20000, CellKind::Normal),
        59 => plain_cell_spec(-100000, CellKind::ElectricityStock),
        60 => plain_cell_spec(0, CellKind::MoveToDiceGame),
        61 => plain_cell_spec(0, CellKind::MoveToHorseRace),
        62 => plain_cell_spec(-100000, CellKind::SteelStock),
        63 => hotel_cell_spec(100000, 10000),
        64 => plain_cell_spec(-100000, CellKind::SteelStock),
        65 => plain_cell_spec(0, CellKind::ElectricityStock),
        66 => plain_cell_spec(0, CellKind::MoveToStockExchange),
        _ => plain_cell_spec(10000, CellKind::Normal),
    }
}

pub open spec fn layout() -> Seq<Cell> {
    Seq::new(BOARD_LEN as nat, |i: int| layout_cell(i as usize))
}

/// Cell `i` of the board as every trial starts it.
pub fn layout_cell_at(i: usize) -> (r: Cell)
    requires
        i < BOARD_LEN,
    ensures
        r == layout_cell(i),
{
    match i {
        0 => plain_cell(-100000, CellKind::ElectricityStock),
        1 => plain_cell(0, CellKind::MoveToCasino),
        2 => plain_cell(-170000, CellKind::Normal),
        3 => plain_cell(-100000, CellKind::Normal),
        4 => hotel_cell(150000, 15000),
        5 => plain_cell(0, CellKind::MoveToStockExchange),
        6 => plain_cell(-50000, CellKind::PayIntoLottery),
        7 => plain_cell(-180000, CellKind::Normal),
        8 => plain_cell(-100000, CellKind::OilStock),
        9 => plain_cell(0, CellKind::MoveToDiceGame),
        10 => plain_cell(-50000, CellKind::Normal),
        11 => plain_cell(-100000, CellKind::ElectricityStock),
        12 => plain_cell(0, CellKind::MoveToHorseRace),
        13 => hotel_cell(150000, 15000),
        14 => plain_cell(0, CellKind::MoveToCasino),
        15 => plain_cell(-100000, CellKind::SteelStock),
        16 => plain_cell(-50000, CellKind::PayIntoLottery),
        17 => plain_cell(0, CellKind::MoveToCasino),
        18 => plain_cell(0, CellKind::MoveToStockExchange),
        19 => plain_cell(-10000, CellKind::Normal),
        20 => plain_cell(-100000, CellKind::SteelStock),
        21 => plain_cell(-25000, CellKind::Normal),
        22 => plain_cell(0, CellKind::MoveToLottery),
        23 => plain_cell(5000, CellKind::Normal),
        24 => plain_cell(0, CellKind::MoveToStockExchange),
        25 => plain_cell(-100000, CellKind::OilStock),
        26 => plain_cell(-50000, CellKind::Normal),
        27 => plain_cell(0, CellKind::MoveToLottery),
        28 => plain_cell(-100000, CellKind::OilStock),
        29 => plain_cell(-10000, CellKind::Normal),
        30 => hotel_cell(50000, 5000),
        31 => plain_cell(0, CellKind::MoveToDiceGame),
        32 => plain_cell(0, CellKind::EveryoneGivesYouFixedAmount),
        33 => plain_cell(-10000, CellKind::Normal),
        34 => plain_cell(0, CellKind::MoveToCasino),
        35 => plain_cell(-100000, CellKind::SteelStock),
        36 => plain_cell(0, CellKind::MoveToHorseRace),
        37 => plain_cell(0, CellKind::MoveToStockExchange),
        38 => plain_cell(-100000, CellKind::OilStock),
        39 => plain_cell(0, CellKind::ReturnStocks),
        40 => hotel_cell(200000, 20000),
        41 => plain_cell(0, CellKind::MoveToCasino),
        42 => plain_cell(-100000, CellKind::ElectricityStock),
        43 => plain_cell(-150000, CellKind::Normal),
        44 => plain_cell(-10000, CellKind::PayIntoLottery),
        45 => plain_cell(1500, CellKind::Normal),
        46 => plain_cell(0, CellKind::MoveToDiceGame),
        47 => plain_cell(0, CellKind::MoveToCasino),
        48 => hotel_cell(100000, 10000),
        49 => plain_cell(-100000, CellKind::SteelStock),
        50 => plain_cell(0, CellKind::YouGiveSomeoneFixedAmount),
        51 => plain_cell(0, CellKind::MoveToDiceGame),
        52 => plain_cell(-7500, CellKind::Normal),
        53 => plain_cell(-100000, CellKind::ElectricityStock),
        54 => plain_cell(0, CellKind::MoveToLottery),
        55 => plain_cell(100000, CellKind::Normal),
        56 => plain_cell(-25000, CellKind::Normal),
        57 => plain_cell(0, CellKind::MoveToCasino),
        58 => plain_cell(-20000, CellKind::Normal),
        59 => plain_cell(-100000, CellKind::ElectricityStock),
        60 => plain_cell(0, CellKind::MoveToDiceGame),
        61 => plain_cell(0, CellKind::MoveToHorseRace),
        62 => plain_cell(-100000, CellKind::SteelStock),
        63 => hotel_cell(100000, 10000),
        64 => plain_cell(-100000, CellKind::SteelStock),
        65 => plain_cell(0, CellKind::ElectricityStock),
        66 => plain_cell(0, CellKind::MoveToStockExchange),
        _ => plain_cell(10000, CellKind::Normal),
    }
}

/// Builds the board as every trial starts it.
pub fn build_board() -> (board: Vec<Cell>)
    ensures
        board@ == layout(),
{
    let mut board: Vec<Cell> = Vec::new();
    let mut i: usize = 0;
    while i < BOARD_LEN
        invariant
            i <= BOARD_LEN,
            board@ == layout().take(i as int),
        decreases BOARD_LEN - i,
    {
        board.push(layout_cell_at(i));
        i = i + 1;
        assert(board@ =~= layout().take(i as int));
    }
    assert(board@ =~= layout());
    board
}

} // verus!
