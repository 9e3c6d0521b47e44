//! The wager-placing half of a dice game that runs on a replicated ledger.
//!
//! A player stakes lamports on a roll threshold against the pool that one
//! house keeps. This crate resolves the two addresses a wager lives at,
//! decides whether a wager is admissible, writes its record and settles the
//! stake, so that a wager is either placed in full or leaves no trace.
//!
//! The ledger stays outside. [`PlaceBet`] holds what the accounts of one
//! wager hold, as plain values. [`PlaceBet::check_wager`] and
//! [`PlaceBet::deposit`] decide, and the second writes the order that the
//! caller hands to the ledger; [`PlaceBet::place_bet`] then takes the
//! ledger's answer and gives the accounts as they are afterwards. On a
//! ledger that undoes a failed instruction by itself,
//! [`PlaceBet::create_bet`] and [`PlaceBet::deposit`] are all it takes.

pub mod address;
pub mod clock;
pub mod errors;
pub mod place_bet;
pub mod state;

pub use address::Address;
pub use errors::DiceError;
pub use place_bet::{PlaceBet, PlaceBetBumps, Transfer, TransferOutcome, WagerAccounts};
pub use state::Bet;
