//! A two-party wagering game: two participants each deposit an equal stake
//! and submit a private guess in [1, 10]; a settlement call reveals a target
//! number, awards the pot (minus a platform fee) to whoever guessed closer,
//! and splits it evenly on an exact tie. The engine here is the game's state
//! machine and its fund-settlement arithmetic: every operation validates its
//! preconditions, mutates the record, and returns the exact ledger movements
//! the surrounding account substrate must perform. Identity authentication,
//! balance storage and transfer execution are that substrate's business; the
//! engine sees callers as already-authenticated identities and amounts as
//! plain integers.

pub mod state;
pub mod payout;
pub mod engine;
