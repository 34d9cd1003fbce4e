use rand::rngs::StdRng;
use rand::SeedableRng;
use ruin_odds::board::{build_board, CellKind, BOARD_LEN, CASINO_HUB, LOTTERY_INDEX};
use ruin_odds::driver::{run_trials, Tally};
use ruin_odds::engine::GameState;
use ruin_odds::model::TurnDraws;
use ruin_odds::navigation::{check_layout, destination, toll_due, LayoutError};
use ruin_odds::player::{create_players, Identity, Participant, STARTING_MONEY};
use ruin_odds::random::roll_die;
use ruin_odds::rules::{
    casino_payout, dice_game_payout, dice_total, horse_race_payout, market_delta, slot_bonus,
    DIE_FACES,
};
use ruin_odds::trial::{first_broke, simulate_trial, TrialResult, ROUND_CAP};

fn quiet_draws() -> TurnDraws {
    TurnDraws {
        die_one: 1,
        die_two: 1,
        roulette: 0,
        reel_one: 1,
        reel_two: 2,
        reel_three: 3,
        market_event: 1,
        game_die_one: 2,
        game_die_two: 3,
        percentile: 50,
    }
}

fn state_with_green_at(position: usize) -> GameState {
    let mut state = GameState::new();
    state.participants[0].position = position;
    state
}

#[test]
fn electricity_stock_on_start_cell() {
    let mut state = state_with_green_at(0);
    state.apply_cell_effect(0, &quiet_draws());
    let green = state.participants[0];
    assert_eq!(green.money, 900000);
    assert_eq!(green.electricity_stocks, 1);
    assert_eq!(green.oil_stocks, 0);
    assert_eq!(green.steel_stocks, 0);
}

#[test]
fn rent_goes_to_the_hotel_owner() {
    let mut state = state_with_green_at(4);
    // Green already owns the hotel on cell 30.
    state.board[30].hotel_owner = Some(Identity::Green);
    state.participants[0].has_hotel = true;
    state.participants[0].hotel_cell = 30;
    // Blue owns the hotel on cell 4 (price 150000, rent 15000).
    state.board[4].hotel_owner = Some(Identity::Blue);
    state.participants[2].has_hotel = true;
    state.participants[2].hotel_cell = 4;
    assert_eq!(state.board[4].hotel_price, 150000);
    assert_eq!(state.board[4].hotel_rent, 15000);
    state.apply_cell_effect(0, &quiet_draws());
    assert_eq!(state.participants[0].money, STARTING_MONEY - 15000);
    assert_eq!(state.participants[2].money, STARTING_MONEY + 15000);
    assert_eq!(state.board[4].hotel_owner, Some(Identity::Blue));
    assert_eq!(state.participants[0].hotel_cell, 30);
}

#[test]
fn hotel_bought_once_and_owner_kept() {
    let mut state = state_with_green_at(13);
    state.apply_cell_effect(0, &quiet_draws());
    assert_eq!(state.board[13].hotel_owner, Some(Identity::Green));
    assert!(state.participants[0].has_hotel);
    assert_eq!(state.participants[0].hotel_cell, 13);
    assert_eq!(state.participants[0].money, STARTING_MONEY - 150000);
    // Red lands on it: pays rent, the owner stays.
    state.participants[1].position = 13;
    state.apply_cell_effect(1, &quiet_draws());
    assert_eq!(state.board[13].hotel_owner, Some(Identity::Green));
    assert_eq!(state.participants[1].money, STARTING_MONEY - 15000);
    assert_eq!(state.participants[0].money, STARTING_MONEY - 150000 + 15000);
    // Green again: no charge on its own hotel.
    state.apply_cell_effect(0, &quiet_draws());
    assert_eq!(state.participants[0].money, STARTING_MONEY - 135000);
    // Green on another unowned hotel: owns one already, nothing happens.
    state.participants[0].position = 30;
    state.apply_cell_effect(0, &quiet_draws());
    assert_eq!(state.board[30].hotel_owner, None);
    assert_eq!(state.participants[0].hotel_cell, 13);
    assert_eq!(state.participants[0].money, STARTING_MONEY - 135000);
}

#[test]
fn return_stocks_zeroes_all_counters() {
    let mut state = state_with_green_at(39);
    assert_eq!(state.board[39].kind, CellKind::ReturnStocks);
    state.participants[0].oil_stocks = 2;
    state.participants[0].steel_stocks = 3;
    state.participants[0].electricity_stocks = 4;
    state.apply_cell_effect(0, &quiet_draws());
    let green = state.participants[0];
    assert_eq!((green.oil_stocks, green.steel_stocks, green.electricity_stocks), (0, 0, 0));
}

#[test]
fn stock_cells_add_one_share() {
    let mut state = state_with_green_at(8);
    state.apply_cell_effect(0, &quiet_draws());
    assert_eq!(state.participants[0].oil_stocks, 1);
    state.participants[0].position = 15;
    state.apply_cell_effect(0, &quiet_draws());
    assert_eq!(state.participants[0].steel_stocks, 1);
    assert_eq!(state.participants[0].oil_stocks, 1);
    assert_eq!(state.participants[0].money, STARTING_MONEY - 200000);
}

#[test]
fn toll_paid_when_crossing_lottery_index() {
    let mut state = state_with_green_at(40);
    let mut d = quiet_draws();
    d.die_one = 2;
    d.die_two = 3;
    state.move_participant(0, &d);
    assert_eq!(state.participants[0].position, 45);
    assert_eq!(state.lottery_pool, 5000);
    assert_eq!(state.participants[0].money, STARTING_MONEY - 5000);
}

#[test]
fn toll_paid_when_landing_on_lottery_index() {
    let mut state = state_with_green_at(42);
    state.move_participant(0, &quiet_draws());
    assert_eq!(state.participants[0].position, LOTTERY_INDEX);
    assert_eq!(state.lottery_pool, 5000);
}

#[test]
fn no_toll_from_lottery_index_or_below_it() {
    let mut state = state_with_green_at(44);
    state.move_participant(0, &quiet_draws());
    assert_eq!(state.participants[0].position, 46);
    assert_eq!(state.lottery_pool, 0);
    let mut state = state_with_green_at(30);
    state.move_participant(0, &quiet_draws());
    assert_eq!(state.participants[0].position, 32);
    assert_eq!(state.lottery_pool, 0);
    assert_eq!(state.participants[0].money, STARTING_MONEY);
    assert!(toll_due(43, 44));
    assert!(!toll_due(44, 50));
    assert!(!toll_due(30, 43));
}

#[test]
fn lottery_pays_out_whole_pool() {
    let mut state = state_with_green_at(22);
    state.lottery_pool = 20000;
    state.apply_cell_effect(0, &quiet_draws());
    assert_eq!(state.participants[0].money, STARTING_MONEY + 20000);
    assert_eq!(state.participants[0].position, LOTTERY_INDEX);
    assert_eq!(state.lottery_pool, 0);
}

#[test]
fn pay_into_lottery_adds_stake_not_base_delta() {
    let mut state = state_with_green_at(6);
    state.apply_cell_effect(0, &quiet_draws());
    assert_eq!(state.participants[0].money, STARTING_MONEY - 50000 - 5000);
    assert_eq!(state.lottery_pool, 5000);
}

#[test]
fn stock_exchange_applies_to_everyone() {
    let mut state = state_with_green_at(5);
    state.participants[0].oil_stocks = 2;
    state.participants[1].oil_stocks = 1;
    state.participants[2].steel_stocks = 4;
    state.apply_cell_effect(0, &quiet_draws());
    assert_eq!(state.participants[0].position, 53);
    assert_eq!(state.participants[0].money, STARTING_MONEY + 10000);
    assert_eq!(state.participants[1].money, STARTING_MONEY + 5000);
    assert_eq!(state.participants[2].money, STARTING_MONEY);
    assert_eq!(state.participants[3].money, STARTING_MONEY);
}

#[test]
fn horse_race_applies_to_everyone() {
    let mut state = state_with_green_at(12);
    let mut d = quiet_draws();
    d.percentile = 10;
    state.apply_cell_effect(0, &d);
    assert_eq!(state.participants[0].position, 28);
    for p in state.participants.iter() {
        assert_eq!(p.money, STARTING_MONEY + 100000);
    }
}

#[test]
fn casino_teleports_and_pays() {
    let mut state = state_with_green_at(1);
    let mut d = quiet_draws();
    d.roulette = 7;
    d.reel_one = 4;
    d.reel_two = 4;
    d.reel_three = 2;
    state.apply_cell_effect(0, &d);
    assert_eq!(state.participants[0].position, CASINO_HUB);
    assert_eq!(state.participants[0].money, STARTING_MONEY - 70000 + 80000 + 50000);
}

#[test]
fn dice_game_teleports_and_pays() {
    let mut state = state_with_green_at(9);
    let mut d = quiet_draws();
    d.game_die_one = 1;
    d.game_die_two = 1;
    state.apply_cell_effect(0, &d);
    assert_eq!(state.participants[0].position, 20);
    assert_eq!(state.participants[0].money, STARTING_MONEY + 300000);
}

#[test]
fn everyone_gives_the_lander() {
    let mut state = state_with_green_at(32);
    assert_eq!(state.board[32].kind, CellKind::EveryoneGivesYouFixedAmount);
    state.apply_cell_effect(0, &quiet_draws());
    assert_eq!(state.participants[0].money, STARTING_MONEY + 15000);
    for seat in 1..4 {
        assert_eq!(state.participants[seat].money, STARTING_MONEY - 5000);
    }
}

#[test]
fn gift_goes_to_first_poorest_other() {
    let mut state = state_with_green_at(50);
    assert_eq!(state.board[50].kind, CellKind::YouGiveSomeoneFixedAmount);
    state.participants[0].money = 100;
    state.participants[1].money = 500;
    state.participants[2].money = 300;
    state.participants[3].money = 300;
    assert_eq!(state.poorest_other_than(0), 2);
    state.apply_cell_effect(0, &quiet_draws());
    assert_eq!(state.participants[0].money, 100 - 5000);
    assert_eq!(state.participants[2].money, 5300);
    assert_eq!(state.participants[3].money, 300);
}

#[test]
fn play_turn_moves_then_resolves() {
    let mut state = state_with_green_at(0);
    let mut d = quiet_draws();
    d.die_one = 1;
    d.die_two = 2;
    state.play_turn(0, &d);
    // Cell 3: plain cost of 100000.
    assert_eq!(state.participants[0].position, 3);
    assert_eq!(state.participants[0].money, STARTING_MONEY - 100000);
}

#[test]
fn entry_zone_takes_cheaper_spur_cell() {
    let board = build_board();
    // Loop index 18 lies in the entry zone of the dice game spur; its spur
    // cell 64 has the lower base delta.
    assert_eq!(destination(&board, 15, 3), 64);
    // Loop index 25 has a lower base delta than the horse race spur cell.
    assert_eq!(destination(&board, 20, 5), 25);
    // Equal deltas stay on the loop.
    assert_eq!(destination(&board, 24, 3), 27);
}

#[test]
fn leaving_a_spur_rejoins_the_loop_at_its_hub() {
    let board = build_board();
    assert_eq!(destination(&board, 64, 5), 24);
    assert_eq!(destination(&board, 64, 2), 21);
    // Out of the casino spur, past the end of the loop.
    assert_eq!(destination(&board, 67, 4), 0);
    assert_eq!(destination(&board, 67, 2), 62);
}

#[test]
fn plain_moves_wrap_around_the_loop() {
    let board = build_board();
    assert_eq!(destination(&board, 60, 6), 2);
    assert_eq!(destination(&board, 0, 10), 10);
}

#[test]
fn layout_checks() {
    assert_eq!(check_layout(BOARD_LEN), Ok(()));
    assert_eq!(check_layout(60), Err(LayoutError::LoopBeyondBoard));
    assert_eq!(check_layout(66), Err(LayoutError::SpurOutOfRange(2)));
    assert_eq!(check_layout(64), Err(LayoutError::SpurOutOfRange(0)));
}

#[test]
fn board_layout_values() {
    let board = build_board();
    assert_eq!(board.len(), 68);
    assert_eq!(board[0].base_delta, -100000);
    assert_eq!(board[0].kind, CellKind::ElectricityStock);
    assert_eq!(board[40].hotel_price, 200000);
    assert_eq!(board[40].hotel_rent, 20000);
    assert_eq!(board[67].base_delta, 10000);
    assert!(board.iter().all(|c| c.hotel_owner.is_none()));
}

#[test]
fn starting_line_up() {
    let players = create_players();
    let ids: Vec<Identity> = players.iter().map(|p| p.identity).collect();
    assert_eq!(ids, vec![Identity::Green, Identity::Red, Identity::Blue, Identity::Yellow]);
    let positions: Vec<usize> = players.iter().map(|p| p.position).collect();
    assert_eq!(positions, vec![0, 17, 35, 50]);
    assert!(players.iter().all(|p| p.money == 1000000 && !p.has_hotel));
    assert_eq!(Identity::Blue.name(), "Blue");
    assert_eq!(Identity::at_seat(3), Identity::Yellow);
    assert_eq!(Identity::Red.seat(), 1);
}

#[test]
fn first_broke_scans_in_seat_order() {
    let mut players: Vec<Participant> = create_players();
    assert_eq!(first_broke(&players), None);
    players[1].money = 0;
    players[2].money = -3;
    assert_eq!(first_broke(&players), Some(1));
    players[0].money = -1;
    assert_eq!(first_broke(&players), Some(0));
}

#[test]
fn casino_payouts() {
    assert_eq!(casino_payout(1, 5, 5, 5), -70000 + 80000 + 300000);
    assert_eq!(casino_payout(2, 3, 3, 3), -70000 + 150000);
    assert_eq!(casino_payout(0, 3, 3, 1), -70000 + 50000);
    assert_eq!(casino_payout(2, 1, 2, 3), -70000);
    assert_eq!(slot_bonus(2, 4, 2), 50000);
}

#[test]
fn market_deltas() {
    assert_eq!(market_delta(1, 3, 1, 1), 15000);
    assert_eq!(market_delta(2, 3, 1, 1), -30000);
    assert_eq!(market_delta(4, 0, 2, 0), -20000);
    assert_eq!(market_delta(5, 0, 0, 2), 10000);
    assert_eq!(market_delta(7, 1, 2, 3), 30000);
}

#[test]
fn dice_game_and_horse_race_payouts() {
    assert_eq!(dice_game_payout(1, 1), 300000);
    assert_eq!(dice_game_payout(1, 4), 100000);
    assert_eq!(dice_game_payout(5, 1), 100000);
    assert_eq!(dice_game_payout(2, 3), 0);
    assert_eq!(horse_race_payout(45), 100000);
    assert_eq!(horse_race_payout(46), -50000);
    assert_eq!(dice_total(2, 5), 7);
}

#[test]
fn dice_show_five_faces() {
    assert_eq!(DIE_FACES, 5);
    let mut rng = StdRng::seed_from_u64(7);
    let mut seen = [false; 7];
    for _ in 0..500 {
        let v = roll_die(&mut rng);
        assert!((1..=5).contains(&v));
        seen[v as usize] = true;
    }
    assert!(seen[1] && seen[5]);
}

#[test]
fn tally_counts_terminators() {
    let mut t = Tally::new();
    t.record(&TrialResult { terminator: Some(Identity::Red), rounds: 3 });
    t.record(&TrialResult { terminator: None, rounds: 0 });
    t.record(&TrialResult { terminator: Some(Identity::Red), rounds: 9 });
    t.record(&TrialResult { terminator: Some(Identity::Yellow), rounds: 1 });
    assert_eq!((t.green, t.red, t.blue, t.yellow), (0, 2, 0, 1));
    assert_eq!(t.count(Identity::Red), 2);
}

#[test]
fn trial_ends_with_a_broke_terminator() {
    let mut rng = StdRng::seed_from_u64(11);
    for _ in 0..50 {
        let mut state = GameState::new();
        let r = state.play_out(&mut rng);
        match r.terminator {
            Some(id) => {
                let k = id.seat();
                assert!(state.participants[k].money <= 0);
                assert!(state.participants[..k].iter().all(|p| p.money > 0));
                assert!(r.rounds <= ROUND_CAP);
            }
            None => assert_eq!(r.rounds, 0),
        }
    }
    let r = simulate_trial(&mut rng);
    assert!(r.terminator.is_none() || r.rounds <= ROUND_CAP);
}

#[test]
fn seeded_runs_repeat() {
    let mut a = StdRng::seed_from_u64(2024);
    let mut b = StdRng::seed_from_u64(2024);
    let ta = run_trials(&mut a, 300);
    let tb = run_trials(&mut b, 300);
    assert_eq!(ta, tb);
    assert!(ta.green + ta.red + ta.blue + ta.yellow <= 300);
}

#[test]
fn terminations_spread_over_all_participants() {
    let mut rng = StdRng::seed_from_u64(99);
    let t = run_trials(&mut rng, 10000);
    let total = t.green + t.red + t.blue + t.yellow;
    assert!(total > 9000);
    for count in [t.green, t.red, t.blue, t.yellow] {
        assert!(count * 10 >= total, "{:?}", t);
        assert!(count * 100 <= total * 45, "{:?}", t);
    }
}
