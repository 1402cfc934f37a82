use number_guessing_game::engine::{
    cancel_game, initialize_game, join_game, make_guess, settle_game,
};
use number_guessing_game::state::{Address, ErrorCode, GameState};

fn fresh(deposit: u64, fee_percent: u8) -> GameState {
    initialize_game(Address(1), Address(9), deposit, fee_percent).unwrap()
}

fn ready_game(deposit: u64, fee_percent: u8, guess_one: u8, guess_two: u8) -> GameState {
    let mut g = fresh(deposit, fee_percent);
    join_game(&mut g, Address(1)).unwrap();
    join_game(&mut g, Address(2)).unwrap();
    make_guess(&mut g, Address(1), guess_one).unwrap();
    make_guess(&mut g, Address(2), guess_two).unwrap();
    g
}

#[test]
fn initialize_sets_every_field() {
    let g = fresh(100, 10);
    assert!(g.is_initialized);
    assert_eq!(g.player_one, Address(1));
    assert_eq!(g.player_two, None);
    assert!(!g.player_one_deposited);
    assert!(!g.player_two_deposited);
    assert_eq!(g.player_one_guess, None);
    assert_eq!(g.player_two_guess, None);
    assert_eq!(g.random_number, None);
    assert_eq!(g.winner, None);
    assert_eq!(g.deposit_amount, 100);
    assert_eq!(g.total_pot, 0);
    assert_eq!(g.platform_fee_percent, 10);
    assert_eq!(g.platform_wallet, Address(9));
    assert!(!g.game_settled);
    assert!(!g.game_cancelled);
    assert!(g.is_well_formed());
}

#[test]
fn initialize_rejects_fee_over_100() {
    let r = initialize_game(Address(1), Address(9), 100, 101);
    assert_eq!(r, Err(ErrorCode::InvalidPlatformFee));
}

#[test]
fn join_moves_one_stake_per_participant() {
    let mut g = fresh(100, 10);
    let d1 = join_game(&mut g, Address(1)).unwrap();
    assert_eq!(d1.player, Address(1));
    assert_eq!(d1.amount, 100);
    assert!(g.player_one_deposited);
    assert_eq!(g.total_pot, 100);
    let d2 = join_game(&mut g, Address(2)).unwrap();
    assert_eq!(d2.player, Address(2));
    assert_eq!(d2.amount, 100);
    assert_eq!(g.player_two, Some(Address(2)));
    assert!(g.player_two_deposited);
    assert_eq!(g.total_pot, 200);
    assert!(g.is_well_formed());
}

#[test]
fn join_twice_is_rejected() {
    let mut g = fresh(100, 10);
    join_game(&mut g, Address(1)).unwrap();
    let before = g;
    assert_eq!(join_game(&mut g, Address(1)), Err(ErrorCode::PlayerAlreadyJoined));
    assert_eq!(g, before);
    join_game(&mut g, Address(2)).unwrap();
    let before = g;
    assert_eq!(join_game(&mut g, Address(2)), Err(ErrorCode::PlayerAlreadyJoined));
    assert_eq!(g, before);
}

#[test]
fn join_on_uninitialized_record_is_rejected() {
    let mut g = GameState {
        is_initialized: false,
        player_one: Address(1),
        player_two: None,
        player_one_deposited: false,
        player_two_deposited: false,
        player_one_guess: None,
        player_two_guess: None,
        random_number: None,
        winner: None,
        deposit_amount: 100,
        total_pot: 0,
        platform_fee_percent: 10,
        platform_wallet: Address(9),
        game_settled: false,
        game_cancelled: false,
    };
    assert!(g.is_well_formed());
    assert_eq!(join_game(&mut g, Address(1)), Err(ErrorCode::GameNotInitialized));
}

#[test]
fn third_identity_finds_game_full() {
    // Scenario: both slots filled and deposited, a third identity joins.
    let mut g = fresh(100, 10);
    join_game(&mut g, Address(1)).unwrap();
    join_game(&mut g, Address(2)).unwrap();
    let before = g;
    assert_eq!(join_game(&mut g, Address(3)), Err(ErrorCode::GameAlreadyFull));
    assert_eq!(g, before);
}

#[test]
fn guess_requires_range_membership_and_deposit() {
    let mut g = fresh(100, 10);
    join_game(&mut g, Address(1)).unwrap();
    assert_eq!(make_guess(&mut g, Address(1), 0), Err(ErrorCode::InvalidGuess));
    assert_eq!(make_guess(&mut g, Address(1), 11), Err(ErrorCode::InvalidGuess));
    // A stranger is not a participant.
    assert_eq!(make_guess(&mut g, Address(3), 5), Err(ErrorCode::PlayerNotJoined));
    // Player two bound but... here player two is unbound, so also not joined.
    let mut h = fresh(100, 10);
    // Player one is bound at creation but has not deposited yet.
    assert_eq!(make_guess(&mut h, Address(1), 5), Err(ErrorCode::PlayerNotDeposited));
    // Player one deposited: the guess lands in the right slot.
    assert_eq!(make_guess(&mut g, Address(1), 5), Ok(()));
    assert_eq!(g.player_one_guess, Some(5));
    assert_eq!(g.player_two_guess, None);
}

#[test]
fn second_guess_by_same_participant_is_rejected() {
    let mut g = fresh(100, 10);
    join_game(&mut g, Address(1)).unwrap();
    join_game(&mut g, Address(2)).unwrap();
    make_guess(&mut g, Address(1), 4).unwrap();
    let before = g;
    assert_eq!(make_guess(&mut g, Address(1), 4), Err(ErrorCode::PlayerAlreadyGuessed));
    assert_eq!(make_guess(&mut g, Address(1), 9), Err(ErrorCode::PlayerAlreadyGuessed));
    assert_eq!(g, before);
    make_guess(&mut g, Address(2), 6).unwrap();
    let before = g;
    assert_eq!(make_guess(&mut g, Address(2), 2), Err(ErrorCode::PlayerAlreadyGuessed));
    assert_eq!(g, before);
}

#[test]
fn settle_tie_scenario() {
    // Scenario: deposit 100 each, fee 10%, guesses 3 and 7, target 5.
    // Distances tie at 2: fee 20, remainder 180, split 90/90, no winner.
    let mut g = ready_game(100, 10, 3, 7);
    let s = settle_game(&mut g, 5).unwrap();
    assert_eq!(s.platform_wallet, Address(9));
    assert_eq!(s.platform_fee, 20);
    assert_eq!(s.player_one, Address(1));
    assert_eq!(s.player_one_amount, 90);
    assert_eq!(s.player_two, Address(2));
    assert_eq!(s.player_two_amount, 90);
    assert_eq!(g.winner, None);
    assert_eq!(g.random_number, Some(5));
    assert!(g.game_settled);
    assert!(g.is_well_formed());
}

#[test]
fn settle_player_one_wins_scenario() {
    // Scenario: deposit 50 each, fee 0%, guesses 2 and 9, target 3.
    // Distances 1 and 6: player one takes the whole pot of 100.
    let mut g = ready_game(50, 0, 2, 9);
    let s = settle_game(&mut g, 3).unwrap();
    assert_eq!(s.platform_fee, 0);
    assert_eq!(s.player_one_amount, 100);
    assert_eq!(s.player_two_amount, 0);
    assert_eq!(g.winner, Some(Address(1)));
    assert!(g.game_settled);
}

#[test]
fn settle_player_two_wins() {
    let mut g = ready_game(50, 0, 9, 2);
    let s = settle_game(&mut g, 3).unwrap();
    assert_eq!(s.platform_fee, 0);
    assert_eq!(s.player_one_amount, 0);
    assert_eq!(s.player_two_amount, 100);
    assert_eq!(g.winner, Some(Address(2)));
}

#[test]
fn settle_tie_odd_remainder_unit_goes_to_player_one() {
    // Pot 150, fee 33% -> fee 49, remainder 101: split 51/50.
    let mut g = ready_game(75, 33, 4, 6);
    let s = settle_game(&mut g, 5).unwrap();
    assert_eq!(s.platform_fee, 49);
    assert_eq!(s.player_one_amount, 51);
    assert_eq!(s.player_two_amount, 50);
    assert_eq!(s.platform_fee + s.player_one_amount + s.player_two_amount, g.total_pot);
    assert_eq!(g.winner, None);
}

#[test]
fn settle_credits_always_cover_the_pot() {
    let cases: Vec<(u64, u8, u8, u8, u8)> = vec![
        (100, 10, 3, 7, 5),
        (50, 0, 2, 9, 3),
        (75, 33, 4, 6, 5),
        (1, 100, 1, 10, 10),
        (12345, 7, 5, 5, 1),
        (999, 99, 10, 1, 6),
    ];
    for (deposit, fee_percent, guess_one, guess_two, target) in cases {
        let mut g = ready_game(deposit, fee_percent, guess_one, guess_two);
        let pot = g.total_pot;
        let s = settle_game(&mut g, target).unwrap();
        assert_eq!(s.platform_fee + s.player_one_amount + s.player_two_amount, pot);
    }
}

#[test]
fn settle_rejects_out_of_range_target() {
    let mut g = ready_game(100, 10, 3, 7);
    let before = g;
    assert_eq!(settle_game(&mut g, 0), Err(ErrorCode::InvalidGuess));
    assert_eq!(settle_game(&mut g, 11), Err(ErrorCode::InvalidGuess));
    assert_eq!(g, before);
}

#[test]
fn settle_rejects_unready_games() {
    let mut g = fresh(100, 10);
    join_game(&mut g, Address(1)).unwrap();
    let before = g;
    assert_eq!(settle_game(&mut g, 5), Err(ErrorCode::GameNotReady));
    assert_eq!(g, before);
    join_game(&mut g, Address(2)).unwrap();
    let before = g;
    assert_eq!(settle_game(&mut g, 5), Err(ErrorCode::GameNotReady));
    assert_eq!(g, before);
    make_guess(&mut g, Address(1), 3).unwrap();
    assert_eq!(settle_game(&mut g, 5), Err(ErrorCode::GameNotReady));
    make_guess(&mut g, Address(2), 7).unwrap();
    assert_eq!(settle_game(&mut g, 5).is_ok(), true);
}

#[test]
fn cancel_refunds_only_deposited_participants() {
    // Scenario: only player one has deposited 50 when the game is cancelled.
    let mut g = fresh(50, 10);
    join_game(&mut g, Address(1)).unwrap();
    let rf = cancel_game(&mut g, Address(1)).unwrap();
    assert_eq!(rf.player_one, Address(1));
    assert_eq!(rf.player_one_amount, 50);
    assert_eq!(rf.player_two, None);
    assert_eq!(rf.player_two_amount, 0);
    assert!(g.game_cancelled);
    assert!(!g.game_settled);
    assert!(g.is_well_formed());
}

#[test]
fn cancel_refunds_both_deposits_without_fee() {
    let mut g = fresh(50, 100);
    join_game(&mut g, Address(1)).unwrap();
    join_game(&mut g, Address(2)).unwrap();
    let rf = cancel_game(&mut g, Address(2)).unwrap();
    assert_eq!(rf.player_one_amount, 50);
    assert_eq!(rf.player_two, Some(Address(2)));
    assert_eq!(rf.player_two_amount, 50);
    assert_eq!(rf.player_one_amount + rf.player_two_amount, g.total_pot);
}

#[test]
fn cancel_by_stranger_is_rejected() {
    let mut g = fresh(50, 10);
    join_game(&mut g, Address(1)).unwrap();
    let before = g;
    assert_eq!(cancel_game(&mut g, Address(7)), Err(ErrorCode::UnauthorizedAction));
    assert_eq!(g, before);
}

#[test]
fn cancel_before_any_deposit_refunds_nothing() {
    let mut g = fresh(50, 10);
    let rf = cancel_game(&mut g, Address(1)).unwrap();
    assert_eq!(rf.player_one_amount, 0);
    assert_eq!(rf.player_two, None);
    assert_eq!(rf.player_two_amount, 0);
    assert!(g.game_cancelled);
}

#[test]
fn stranger_joining_first_becomes_player_two() {
    // The creator's slot is reserved: a different identity joining before
    // the creator deposits is bound as player two, not player one.
    let mut g = fresh(100, 10);
    let d = join_game(&mut g, Address(2)).unwrap();
    assert_eq!(d.player, Address(2));
    assert_eq!(g.player_two, Some(Address(2)));
    assert!(g.player_two_deposited);
    assert!(!g.player_one_deposited);
    assert_eq!(g.total_pot, 100);
    assert!(g.is_well_formed());
}

#[test]
fn well_formedness_check_rejects_corrupt_records() {
    let good = fresh(100, 10);
    let mut both_terminal = good;
    both_terminal.game_settled = true;
    both_terminal.game_cancelled = true;
    assert!(!both_terminal.is_well_formed());
    let mut wrong_pot = good;
    wrong_pot.total_pot = 100;
    assert!(!wrong_pot.is_well_formed());
    let mut guess_without_deposit = good;
    guess_without_deposit.player_one_guess = Some(5);
    assert!(!guess_without_deposit.is_well_formed());
    let mut winner_without_settlement = good;
    winner_without_settlement.winner = Some(Address(1));
    assert!(!winner_without_settlement.is_well_formed());
    let mut fee_out_of_range = good;
    fee_out_of_range.platform_fee_percent = 101;
    assert!(!fee_out_of_range.is_well_formed());
    let mut terminal_without_init = good;
    terminal_without_init.is_initialized = false;
    terminal_without_init.game_settled = true;
    assert!(!terminal_without_init.is_well_formed());
    let mut creator_in_both_slots = good;
    creator_in_both_slots.player_two = Some(good.player_one);
    assert!(!creator_in_both_slots.is_well_formed());
}

#[test]
fn settled_game_is_terminal() {
    let mut g = ready_game(100, 10, 3, 7);
    settle_game(&mut g, 5).unwrap();
    let before = g;
    assert_eq!(join_game(&mut g, Address(3)), Err(ErrorCode::GameAlreadySettled));
    assert_eq!(g, before);
    assert_eq!(make_guess(&mut g, Address(1), 4), Err(ErrorCode::GameAlreadySettled));
    assert_eq!(g, before);
    assert_eq!(settle_game(&mut g, 5), Err(ErrorCode::GameAlreadySettled));
    assert_eq!(g, before);
    assert_eq!(cancel_game(&mut g, Address(1)), Err(ErrorCode::GameAlreadySettled));
    assert_eq!(g, before);
}

#[test]
fn cancelled_game_is_terminal() {
    let mut g = fresh(100, 10);
    join_game(&mut g, Address(1)).unwrap();
    cancel_game(&mut g, Address(1)).unwrap();
    let before = g;
    assert_eq!(join_game(&mut g, Address(2)), Err(ErrorCode::GameAlreadyCancelled));
    assert_eq!(g, before);
    assert_eq!(make_guess(&mut g, Address(1), 4), Err(ErrorCode::GameAlreadyCancelled));
    assert_eq!(g, before);
    assert_eq!(settle_game(&mut g, 5), Err(ErrorCode::GameAlreadyCancelled));
    assert_eq!(g, before);
    assert_eq!(cancel_game(&mut g, Address(1)), Err(ErrorCode::GameAlreadyCancelled));
    assert_eq!(g, before);
}
