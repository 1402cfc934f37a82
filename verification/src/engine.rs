//! The five operations of the game's lifecycle. Each one validates its
//! preconditions against the current record, then either rejects the call
//! with the record untouched, or applies the transition and returns the
//! exact fund movements the ledger substrate must perform atomically with
//! the state update.

use vstd::prelude::*;
use crate::state::{Address, ErrorCode, GameState};
use crate::payout::{
    abs_diff, fee_of, lemma_fee_conservation, lemma_tie_split_exact, platform_fee_amount,
};

verus! {

/// A stake moving from a participant's balance into the game's held balance.
#[derive(Clone, Copy, Debug, PartialEq, Eq, Structural)]
pub struct Deposit {
    pub player: Address,
    pub amount: u64,
}

/// A record that game operations may still act on: initialized and not yet
/// terminal.
pub open spec fn live(g: GameState) -> bool {
    g.is_initialized && !g.game_settled && !g.game_cancelled
}

/// The freshly created record: creator bound as player one, nothing
/// deposited, guessed, drawn or decided, and an empty pot.
pub open spec fn fresh_game(
    creator: Address,
    platform_wallet: Address,
    deposit_amount: u64,
    platform_fee_percent: u8,
) -> GameState {
    GameState {
        is_initialized: true,
        player_one: creator,
        player_two: None,
        player_one_deposited: false,
        player_two_deposited: false,
        player_one_guess: None,
        player_two_guess: None,
        random_number: None,
        winner: None,
        deposit_amount,
        total_pot: 0,
        platform_fee_percent,
        platform_wallet,
        game_settled: false,
        game_cancelled: false,
    }
}

/// Creates a game record. The creator becomes player one; the stake, fee
/// percent and platform wallet are fixed for the record's whole life. No
/// funds move. Rejected only when the fee percent exceeds 100.
pub fn initialize_game(
    creator: Address,
    platform_wallet: Address,
    deposit_amount: u64,
    platform_fee_percent: u8,
) -> (r: Result<GameState, ErrorCode>)
    requires
        deposit_amount <= u64::MAX / 2,
    ensures
        platform_fee_percent > 100 ==> r == Err::<GameState, ErrorCode>(
            ErrorCode::InvalidPlatformFee,
        ),
        platform_fee_percent <= 100 ==> r == Ok::<GameState, ErrorCode>(
            fresh_game(creator, platform_wallet, deposit_amount, platform_fee_percent),
        ),
        r matches Ok(g) ==> g.well_formed(),
{
    if platform_fee_percent > 100 {
        return Err(ErrorCode::InvalidPlatformFee);
    }
    Ok(GameState {
        is_initialized: true,
        player_one: creator,
        player_two: None,
        player_one_deposited: false,
        player_two_deposited: false,
        player_one_guess: None,
        player_two_guess: None,
        random_number: None,
        winner: None,
        deposit_amount,
        total_pot: 0,
        platform_fee_percent,
        platform_wallet,
        game_settled: false,
        game_cancelled: false,
    })
}

/// The record after player one's stake is accepted.
pub open spec fn after_player_one_deposit(g: GameState) -> GameState {
    GameState {
        player_one_deposited: true,
        total_pot: (g.total_pot + g.deposit_amount) as u64,
        ..g
    }
}

/// The record after a new identity is bound as player two and its stake
/// accepted in the same step.
pub open spec fn after_player_two_bind(g: GameState, player: Address) -> GameState {
    GameState {
        player_two: Some(player),
        player_two_deposited: true,
        total_pot: (g.total_pot + g.deposit_amount) as u64,
        ..g
    }
}

/// The record after the already-bound player two's stake is accepted.
pub open spec fn after_player_two_deposit(g: GameState) -> GameState {
    GameState {
        player_two_deposited: true,
        total_pot: (g.total_pot + g.deposit_amount) as u64,
        ..g
    }
}

/// Accepts a participant's stake. Player one may deposit once; the first
/// different identity is bound as player two and deposits in the same call;
/// a repeat deposit is `PlayerAlreadyJoined` and any further identity is
/// `GameAlreadyFull`. On success the returned `Deposit` is the transfer the
/// ledger must perform — exactly one stake from the caller into the held
/// balance — atomically with the record update.
pub fn join_game(game: &mut GameState, player: Address) -> (r: Result<Deposit, ErrorCode>)
    requires
        old(game).well_formed(),
    ensures
        final(game).well_formed(),
        r is Err ==> *final(game) == *old(game),
        !old(game).is_initialized ==> r == Err::<Deposit, ErrorCode>(
            ErrorCode::GameNotInitialized,
        ),
        old(game).game_settled ==> r == Err::<Deposit, ErrorCode>(
            ErrorCode::GameAlreadySettled,
        ),
        old(game).game_cancelled ==> r
            == Err::<Deposit, ErrorCode>(ErrorCode::GameAlreadyCancelled),
        live(*old(game)) ==> {
            let before = *old(game);
            let stake = (Deposit { player, amount: before.deposit_amount });
            if player == before.player_one {
                if before.player_one_deposited {
                    r == Err::<Deposit, ErrorCode>(ErrorCode::PlayerAlreadyJoined)
                } else {
                    r == Ok::<Deposit, ErrorCode>(stake) && *final(game)
                        == after_player_one_deposit(before)
                }
            } else if before.player_two is None {
                r == Ok::<Deposit, ErrorCode>(stake) && *final(game) == after_player_two_bind(
                    before,
                    player,
                )
            } else if before.player_two == Some(player) {
                if before.player_two_deposited {
                    r == Err::<Deposit, ErrorCode>(ErrorCode::PlayerAlreadyJoined)
                } else {
                    r == Ok::<Deposit, ErrorCode>(stake) && *final(game)
                        == after_player_two_deposit(before)
                }
            } else {
                r == Err::<Deposit, ErrorCode>(ErrorCode::GameAlreadyFull)
            }
        },
{
    if !game.is_initialized {
        return Err(ErrorCode::GameNotInitialized);
    }
    if game.game_settled {
        return Err(ErrorCode::GameAlreadySettled);
    }
    if game.game_cancelled {
        return Err(ErrorCode::GameAlreadyCancelled);
    }
    let deposit_amount = game.deposit_amount;
    if player == game.player_one {
        if game.player_one_deposited {
            return Err(ErrorCode::PlayerAlreadyJoined);
        }
        game.player_one_deposited = true;
        game.total_pot = game.total_pot + deposit_amount;
        Ok(Deposit { player, amount: deposit_amount })
    } else {
        match game.player_two {
            None => {
                game.player_two = Some(player);
                game.player_two_deposited = true;
                game.total_pot = game.total_pot + deposit_amount;
                Ok(Deposit { player, amount: deposit_amount })
            },
            Some(second) => {
                if player == second {
                    if game.player_two_deposited {
                        return Err(ErrorCode::PlayerAlreadyJoined);
                    }
                    game.player_two_deposited = true;
                    game.total_pot = game.total_pot + deposit_amount;
                    Ok(Deposit { player, amount: deposit_amount })
                } else {
                    Err(ErrorCode::GameAlreadyFull)
                }
            },
        }
    }
}

/// The record with player one's guess written.
pub open spec fn after_player_one_guess(g: GameState, guess: u8) -> GameState {
    GameState { player_one_guess: Some(guess), ..g }
}

/// The record with player two's guess written.
pub open spec fn after_player_two_guess(g: GameState, guess: u8) -> GameState {
    GameState { player_two_guess: Some(guess), ..g }
}

/// Records a participant's guess, write-once per participant. The guess must
/// lie in [1, 10]; the caller must be a bound participant who has deposited
/// and not guessed yet. No funds move.
pub fn make_guess(game: &mut GameState, player: Address, guess: u8) -> (r: Result<
    (),
    ErrorCode,
>)
    requires
        old(game).well_formed(),
    ensures
        final(game).well_formed(),
        r is Err ==> *final(game) == *old(game),
        !old(game).is_initialized ==> r == Err::<(), ErrorCode>(ErrorCode::GameNotInitialized),
        old(game).game_settled ==> r == Err::<(), ErrorCode>(
            ErrorCode::GameAlreadySettled,
        ),
        old(game).game_cancelled ==> r
            == Err::<(), ErrorCode>(ErrorCode::GameAlreadyCancelled),
        live(*old(game)) ==> {
            let before = *old(game);
            if !(1 <= guess <= 10) {
                r == Err::<(), ErrorCode>(ErrorCode::InvalidGuess)
            } else if player == before.player_one {
                if !before.player_one_deposited {
                    r == Err::<(), ErrorCode>(ErrorCode::PlayerNotDeposited)
                } else if before.player_one_guess is Some {
                    r == Err::<(), ErrorCode>(ErrorCode::PlayerAlreadyGuessed)
                } else {
                    r == Ok::<(), ErrorCode>(()) && *final(game) == after_player_one_guess(
                        before,
                        guess,
                    )
                }
            } else if before.player_two == Some(player) {
                if !before.player_two_deposited {
                    r == Err::<(), ErrorCode>(ErrorCode::PlayerNotDeposited)
                } else if before.player_two_guess is Some {
                    r == Err::<(), ErrorCode>(ErrorCode::PlayerAlreadyGuessed)
                } else {
                    r == Ok::<(), ErrorCode>(()) && *final(game) == after_player_two_guess(
                        before,
                        guess,
                    )
                }
            } else {
                r == Err::<(), ErrorCode>(ErrorCode::PlayerNotJoined)
            }
        },
{
    if !game.is_initialized {
        return Err(ErrorCode::GameNotInitialized);
    }
    if game.game_settled {
        return Err(ErrorCode::GameAlreadySettled);
    }
    if game.game_cancelled {
        return Err(ErrorCode::GameAlreadyCancelled);
    }
    if !(1 <= guess && guess <= 10) {
        return Err(ErrorCode::InvalidGuess);
    }
    if player == game.player_one {
        if !game.player_one_deposited {
            return Err(ErrorCode::PlayerNotDeposited);
        }
        if game.player_one_guess.is_some() {
            return Err(ErrorCode::PlayerAlreadyGuessed);
        }
        game.player_one_guess = Some(guess);
        Ok(())
    } else {
        let second_matches: bool = match game.player_two {
            Some(second) => player == second,
            None => false,
        };
        if second_matches {
            if !game.player_two_deposited {
                return Err(ErrorCode::PlayerNotDeposited);
            }
            if game.player_two_guess.is_some() {
                return Err(ErrorCode::PlayerAlreadyGuessed);
            }
            game.player_two_guess = Some(guess);
            Ok(())
        } else {
            Err(ErrorCode::PlayerNotJoined)
        }
    }
}

/// Every credit the ledger must perform when a game settles: the fee to the
/// platform wallet and the two participants' shares, all debited from the
/// held balance. The three amounts always sum to the whole pot.
#[derive(Clone, Copy, Debug, PartialEq, Eq, Structural)]
pub struct Settlement {
    pub platform_wallet: Address,
    pub platform_fee: u64,
    pub player_one: Address,
    pub player_one_amount: u64,
    pub player_two: Address,
    pub player_two_amount: u64,
}

/// Whether a record can settle: live, both stakes in, both guesses written,
/// second participant bound.
pub open spec fn ready_to_settle(g: GameState) -> bool {
    &&& live(g)
    &&& g.player_one_deposited
    &&& g.player_two_deposited
    &&& g.player_one_guess is Some
    &&& g.player_two_guess is Some
    &&& g.player_two is Some
}

/// The winner for a drawn number: the participant whose guess is strictly
/// closer; an exact tie has none.
pub open spec fn winner_of(g: GameState, random_number: u8) -> Option<Address>
    recommends
        ready_to_settle(g),
{
    let diff_one = abs_diff(g.player_one_guess->0 as int, random_number as int);
    let diff_two = abs_diff(g.player_two_guess->0 as int, random_number as int);
    if diff_one < diff_two {
        Some(g.player_one)
    } else if diff_two < diff_one {
        g.player_two
    } else {
        None
    }
}

/// What is left of the pot once the platform fee is taken.
pub open spec fn remaining_pot(g: GameState) -> int {
    g.total_pot - fee_of(g.total_pot as int, g.platform_fee_percent as int)
}

/// Player one's settlement credit: the whole remainder on a win, nothing on
/// a loss, and on a tie half the remainder rounded up — the odd unit goes to
/// the first participant.
pub open spec fn player_one_payout(g: GameState, random_number: u8) -> int
    recommends
        ready_to_settle(g),
{
    let diff_one = abs_diff(g.player_one_guess->0 as int, random_number as int);
    let diff_two = abs_diff(g.player_two_guess->0 as int, random_number as int);
    if diff_one < diff_two {
        remaining_pot(g)
    } else if diff_two < diff_one {
        0int
    } else {
        remaining_pot(g) - remaining_pot(g) / 2
    }
}

/// Player two's settlement credit: the whole remainder on a win, nothing on
/// a loss, half the remainder rounded down on a tie.
pub open spec fn player_two_payout(g: GameState, random_number: u8) -> int
    recommends
        ready_to_settle(g),
{
    let diff_one = abs_diff(g.player_one_guess->0 as int, random_number as int);
    let diff_two = abs_diff(g.player_two_guess->0 as int, random_number as int);
    if diff_two < diff_one {
        remaining_pot(g)
    } else if diff_one < diff_two {
        0int
    } else {
        remaining_pot(g) / 2
    }
}

/// The record once settled: drawn number recorded, winner decided, terminal
/// flag set, everything else untouched.
pub open spec fn settled_state(g: GameState, random_number: u8) -> GameState {
    GameState {
        random_number: Some(random_number),
        winner: winner_of(g, random_number),
        game_settled: true,
        ..g
    }
}

/// Settles a ready game against a drawn number in [1, 10]. The platform fee
/// `floor(total_pot * platform_fee_percent / 100)` goes to the platform
/// wallet; the strictly closer guesser takes the whole remainder; an exact
/// tie splits the remainder evenly, the odd unit (if any) to player one. The
/// returned credits always sum to the whole pot: settlement never under- or
/// over-draws the held balance.
pub fn settle_game(game: &mut GameState, random_number: u8) -> (r: Result<Settlement, ErrorCode>)
    requires
        old(game).well_formed(),
    ensures
        final(game).well_formed(),
        r is Err ==> *final(game) == *old(game),
        !old(game).is_initialized ==> r == Err::<Settlement, ErrorCode>(
            ErrorCode::GameNotInitialized,
        ),
        old(game).game_settled ==> r == Err::<Settlement, ErrorCode>(
            ErrorCode::GameAlreadySettled,
        ),
        old(game).game_cancelled ==> r
            == Err::<Settlement, ErrorCode>(ErrorCode::GameAlreadyCancelled),
        live(*old(game)) && !(1 <= random_number <= 10) ==> r == Err::<Settlement, ErrorCode>(
            ErrorCode::InvalidGuess,
        ),
        live(*old(game)) && 1 <= random_number <= 10 && !ready_to_settle(*old(game)) ==> r
            == Err::<Settlement, ErrorCode>(ErrorCode::GameNotReady),
        ready_to_settle(*old(game)) && 1 <= random_number <= 10 ==> {
            let before = *old(game);
            r matches Ok(s) && {
                &&& *final(game) == settled_state(before, random_number)
                &&& s.platform_wallet == before.platform_wallet
                &&& s.player_one == before.player_one
                &&& Some(s.player_two) == before.player_two
                &&& s.platform_fee == fee_of(
                    before.total_pot as int,
                    before.platform_fee_percent as int,
                )
                &&& s.player_one_amount == player_one_payout(before, random_number)
                &&& s.player_two_amount == player_two_payout(before, random_number)
                &&& s.platform_fee + s.player_one_amount + s.player_two_amount
                    == before.total_pot
            }
        },
{
    if !game.is_initialized {
        return Err(ErrorCode::GameNotInitialized);
    }
    if game.game_settled {
        return Err(ErrorCode::GameAlreadySettled);
    }
    if game.game_cancelled {
        return Err(ErrorCode::GameAlreadyCancelled);
    }
    if !(1 <= random_number && random_number <= 10) {
        return Err(ErrorCode::InvalidGuess);
    }
    if !(game.player_one_deposited && game.player_two_deposited) {
        return Err(ErrorCode::GameNotReady);
    }
    let guess_one: u8 = match game.player_one_guess {
        Some(g) => g,
        None => {
            return Err(ErrorCode::GameNotReady);
        },
    };
    let guess_two: u8 = match game.player_two_guess {
        Some(g) => g,
        None => {
            return Err(ErrorCode::GameNotReady);
        },
    };
    let second: Address = match game.player_two {
        Some(p) => p,
        None => {
            return Err(ErrorCode::GameNotReady);
        },
    };
    let diff_one: u8 = if guess_one > random_number {
        guess_one - random_number
    } else {
        random_number - guess_one
    };
    let diff_two: u8 = if guess_two > random_number {
        guess_two - random_number
    } else {
        random_number - guess_two
    };
    let platform_fee = platform_fee_amount(game.total_pot, game.platform_fee_percent);
    let remaining: u64 = game.total_pot - platform_fee;
    let player_one_amount: u64;
    let player_two_amount: u64;
    if diff_one < diff_two {
        game.winner = Some(game.player_one);
        player_one_amount = remaining;
        player_two_amount = 0;
    } else if diff_two < diff_one {
        game.winner = Some(second);
        player_one_amount = 0;
        player_two_amount = remaining;
    } else {
        proof {
            lemma_tie_split_exact(remaining as int);
        }
        let split: u64 = remaining / 2;
        game.winner = None;
        player_one_amount = remaining - split;
        player_two_amount = split;
    }
    game.random_number = Some(random_number);
    game.game_settled = true;
    Ok(
        Settlement {
            platform_wallet: game.platform_wallet,
            platform_fee,
            player_one: game.player_one,
            player_one_amount,
            player_two: second,
            player_two_amount,
        },
    )
}

/// The decision and conservation laws of settlement, for every ready record
/// and every drawn number: the participant with the strictly smaller guess
/// distance is declared winner and credited the whole remainder while the
/// other gets nothing; equal distances leave no winner and split the
/// remainder evenly, the odd unit going to player one; and in every case the
/// platform fee and the two credits sum to the whole pot.
pub proof fn lemma_settlement_decision(g: GameState, random_number: u8)
    requires
        g.well_formed(),
        ready_to_settle(g),
    ensures
        abs_diff(g.player_one_guess->0 as int, random_number as int) < abs_diff(
            g.player_two_guess->0 as int,
            random_number as int,
        ) ==> winner_of(g, random_number) == Some(g.player_one) && player_one_payout(
            g,
            random_number,
        ) == remaining_pot(g) && player_two_payout(g, random_number) == 0,
        abs_diff(g.player_two_guess->0 as int, random_number as int) < abs_diff(
            g.player_one_guess->0 as int,
            random_number as int,
        ) ==> winner_of(g, random_number) == g.player_two && player_two_payout(g, random_number)
            == remaining_pot(g) && player_one_payout(g, random_number) == 0,
        abs_diff(g.player_one_guess->0 as int, random_number as int) == abs_diff(
            g.player_two_guess->0 as int,
            random_number as int,
        ) ==> {
            &&& winner_of(g, random_number) is None
            &&& player_two_payout(g, random_number) == remaining_pot(g) / 2
            &&& remaining_pot(g) % 2 == 0 ==> player_one_payout(g, random_number)
                == remaining_pot(g) / 2
            &&& remaining_pot(g) % 2 == 1 ==> player_one_payout(g, random_number)
                == remaining_pot(g) / 2 + 1
        },
        fee_of(g.total_pot as int, g.platform_fee_percent as int) + player_one_payout(
            g,
            random_number,
        ) + player_two_payout(g, random_number) == g.total_pot,
{
    lemma_fee_conservation(g.total_pot as int, g.platform_fee_percent as int);
    lemma_tie_split_exact(remaining_pot(g));
}

/// Every refund the ledger must perform when a game is cancelled: each
/// participant who deposited gets exactly one stake back from the held
/// balance; nobody else is touched and no fee is charged.
#[derive(Clone, Copy, Debug, PartialEq, Eq)]
pub struct Refund {
    pub player_one: Address,
    pub player_one_amount: u64,
    pub player_two: Option<Address>,
    pub player_two_amount: u64,
}

/// The record once cancelled: terminal flag set, everything else untouched.
pub open spec fn cancelled_state(g: GameState) -> GameState {
    GameState { game_cancelled: true, ..g }
}

/// Cancels a live game. Only a bound participant may cancel; each
/// participant who deposited is refunded exactly one stake, so the refunds
/// always sum to the whole pot and empty the held balance.
pub fn cancel_game(game: &mut GameState, authority: Address) -> (r: Result<Refund, ErrorCode>)
    requires
        old(game).well_formed(),
    ensures
        final(game).well_formed(),
        r is Err ==> *final(game) == *old(game),
        !old(game).is_initialized ==> r == Err::<Refund, ErrorCode>(ErrorCode::GameNotInitialized),
        old(game).game_settled ==> r == Err::<Refund, ErrorCode>(
            ErrorCode::GameAlreadySettled,
        ),
        old(game).game_cancelled ==> r
            == Err::<Refund, ErrorCode>(ErrorCode::GameAlreadyCancelled),
        live(*old(game)) ==> {
            let before = *old(game);
            if authority == before.player_one || before.player_two == Some(authority) {
                r matches Ok(rf) && {
                    &&& *final(game) == cancelled_state(before)
                    &&& rf.player_one == before.player_one
                    &&& rf.player_one_amount == (if before.player_one_deposited {
                        before.deposit_amount as int
                    } else {
                        0int
                    })
                    &&& rf.player_two == before.player_two
                    &&& rf.player_two_amount == (if before.player_two_deposited {
                        before.deposit_amount as int
                    } else {
                        0int
                    })
                    &&& rf.player_one_amount + rf.player_two_amount == before.total_pot
                }
            } else {
                r == Err::<Refund, ErrorCode>(ErrorCode::UnauthorizedAction)
            }
        },
{
    if !game.is_initialized {
        return Err(ErrorCode::GameNotInitialized);
    }
    if game.game_settled {
        return Err(ErrorCode::GameAlreadySettled);
    }
    if game.game_cancelled {
        return Err(ErrorCode::GameAlreadyCancelled);
    }
    let is_player_one: bool = authority == game.player_one;
    let is_player_two: bool = match game.player_two {
        Some(second) => authority == second,
        None => false,
    };
    if !(is_player_one || is_player_two) {
        return Err(ErrorCode::UnauthorizedAction);
    }
    let player_one_amount: u64 = if game.player_one_deposited {
        game.deposit_amount
    } else {
        0
    };
    let player_two_amount: u64 = if game.player_two_deposited {
        game.deposit_amount
    } else {
        0
    };
    game.game_cancelled = true;
    Ok(
        Refund {
            player_one: game.player_one,
            player_one_amount,
            player_two: game.player_two,
            player_two_amount,
        },
    )
}

} // verus!
