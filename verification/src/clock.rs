use anchor_lang::prelude::{Clock, ProgramError};
use anchor_lang::solana_program::sysvar::Sysvar;
use vstd::prelude::*;

use crate::errors::{fails_with, DiceError};

verus! {

/// The runtime's error type, carried through and never looked into.
#[verifier::external_type_specification]
#[verifier::external_body]
pub struct ExProgramError(ProgramError);

/// Calls `Clock::get` of `anchor_lang` (which has it from `solana_sysvar`)
/// and hands on the slot of the clock it returns, or the runtime's error.
///
/// Nothing is claimed of the outcome: the slot is whatever the runtime
/// reports at the moment of the call, and outside a running program there
/// is no clock to ask.
#[verifier::external_body]
pub(crate) fn current_slot() -> (reading: Result<u64, ProgramError>) {
    match Clock::get() {
        Ok(clock) => Ok(clock.slot),
        Err(e) => Err(e),
    }
}

/// Turns a reading of the clock into an answer for the caller: the slot as
/// it is, and `ClockUnavailable` for whatever error the runtime gave.
pub fn require_slot(reading: Result<u64, ProgramError>) -> (slot: Result<u64, DiceError>)
    ensures
        match reading {
            Ok(read) => slot matches Ok(handed) && handed == read,
            Err(_) => fails_with(slot, DiceError::ClockUnavailable),
        },
{
    match reading {
        Ok(read) => Ok(read),
        Err(_) => Err(DiceError::ClockUnavailable),
    }
}

} // verus!
