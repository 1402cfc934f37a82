//! The game record, its error taxonomy, and the invariant every operation
//! preserves.

use vstd::prelude::*;

verus! {

/// An already-authenticated participant identity. The engine never verifies
/// signatures; it only compares identities for equality.
#[derive(Clone, Copy, Debug, PartialEq, Eq, Structural)]
pub struct Address(pub u64);

/// Every way an operation can be rejected. Each error aborts the whole call:
/// no error leaves the record or the ledger partially changed.
#[derive(Clone, Copy, Debug, PartialEq, Eq, Structural)]
pub enum ErrorCode {
    GameAlreadyInitialized,
    GameNotInitialized,
    PlayerAlreadyJoined,
    GameAlreadyFull,
    InsufficientDeposit,
    InvalidGuess,
    PlayerNotJoined,
    PlayerNotDeposited,
    PlayerAlreadyGuessed,
    GameNotReady,
    GameAlreadySettled,
    GameAlreadyCancelled,
    UnauthorizedAction,
    InvalidPlatformFee,
}

/// One game record. `player_one` is fixed at creation; `player_two` is bound
/// on the first join by a different identity. Guesses are write-once; the
/// `game_settled` / `game_cancelled` flags are terminal and mutually
/// exclusive.
#[derive(Clone, Copy, Debug, PartialEq, Eq)]
pub struct GameState {
    pub is_initialized: bool,
    pub player_one: Address,
    pub player_two: Option<Address>,
    pub player_one_deposited: bool,
    pub player_two_deposited: bool,
    pub player_one_guess: Option<u8>,
    pub player_two_guess: Option<u8>,
    pub random_number: Option<u8>,
    pub winner: Option<Address>,
    pub deposit_amount: u64,
    pub total_pot: u64,
    pub platform_fee_percent: u8,
    pub platform_wallet: Address,
    pub game_settled: bool,
    pub game_cancelled: bool,
}

impl GameState {
    /// What the held balance must contain: one stake per accepted deposit.
    pub open spec fn expected_pot(self) -> int {
        (if self.player_one_deposited { self.deposit_amount as int } else { 0int })
            + (if self.player_two_deposited { self.deposit_amount as int } else { 0int })
    }

    /// The record invariant. It holds of every record the engine hands out
    /// and is preserved by every operation:
    /// - the two terminal flags are never both set, and only an initialized
    ///   record can reach a terminal state;
    /// - the second participant is never the creator: the slots hold two
    ///   distinct identities;
    /// - the fee percent lies in [0, 100];
    /// - two full stakes fit in the pot's integer type;
    /// - the pot is exactly the stake times the number of accepted deposits;
    /// - a guess is present only if that participant deposited, and lies in
    ///   [1, 10];
    /// - a second deposit implies a bound second participant;
    /// - the drawn number and the winner are present only once settled, and
    ///   the drawn number lies in [1, 10].
    pub open spec fn well_formed(self) -> bool {
        &&& !(self.game_settled && self.game_cancelled)
        &&& (self.game_settled || self.game_cancelled ==> self.is_initialized)
        &&& (self.player_two matches Some(p) ==> p != self.player_one)
        &&& self.platform_fee_percent <= 100
        &&& self.deposit_amount <= u64::MAX / 2
        &&& self.total_pot == self.expected_pot()
        &&& (self.player_one_guess matches Some(g) ==>
            self.player_one_deposited && 1 <= g <= 10)
        &&& (self.player_two_guess matches Some(g) ==>
            self.player_two_deposited && 1 <= g <= 10)
        &&& (self.player_two_deposited ==> self.player_two is Some)
        &&& (self.random_number matches Some(n) ==>
            self.game_settled && 1 <= n <= 10)
        &&& (self.winner is Some ==> self.game_settled)
    }

    /// Runtime check of the record invariant, for callers that receive a
    /// record from storage they do not trust.
    pub fn is_well_formed(&self) -> (r: bool)
        ensures
            r == self.well_formed(),
    {
        if self.game_settled && self.game_cancelled {
            return false;
        }
        if (self.game_settled || self.game_cancelled) && !self.is_initialized {
            return false;
        }
        match self.player_two {
            Some(p) => {
                if p == self.player_one {
                    return false;
                }
            },
            None => {},
        }
        if self.platform_fee_percent > 100 {
            return false;
        }
        if self.deposit_amount > u64::MAX / 2 {
            return false;
        }
        let expected: u64 = (if self.player_one_deposited { self.deposit_amount } else { 0 })
            + (if self.player_two_deposited { self.deposit_amount } else { 0 });
        if self.total_pot != expected {
            return false;
        }
        match self.player_one_guess {
            Some(g) => {
                if !(self.player_one_deposited && 1 <= g && g <= 10) {
                    return false;
                }
            },
            None => {},
        }
        match self.player_two_guess {
            Some(g) => {
                if !(self.player_two_deposited && 1 <= g && g <= 10) {
                    return false;
                }
            },
            None => {},
        }
        if self.player_two_deposited && self.player_two.is_none() {
            return false;
        }
        match self.random_number {
            Some(n) => {
                if !(self.game_settled && 1 <= n && n <= 10) {
                    return false;
                }
            },
            None => {},
        }
        if self.winner.is_some() && !self.game_settled {
            return false;
        }
        true
    }
}

} // verus!
