use vstd::prelude::*;

verus! {

/// Why a wager was turned away.
///
/// The first four variants are faults of the request itself, the fifth of
/// the player's balance. The last three come from the surroundings: the
/// ledger, the addressing scheme and the cluster clock.
#[derive(Clone, Copy, Debug, PartialEq, Eq, Structural)]
pub enum DiceError {
    /// The roll is 2 or below.
    RollTooLow,
    /// The roll is 96 or above.
    RollTooHigh,
    /// The stake is below the smallest stake the game takes.
    BetTooSmall,
    /// The stake is not strictly below what the pool holds.
    BetTooLarge,
    /// The player holds less than the stake.
    InsufficientFunds,
    /// The ledger did not move the stake.
    TransferFailed,
    /// No bump gives the seeds a valid address.
    AddressDerivationFailed,
    /// The runtime could not tell the current slot.
    ClockUnavailable,
}

impl DiceError {
    /// Whether the fault lies in the request or the player's funds, so that
    /// the caller can mend it, as opposed to a fault of the surroundings.
    pub open spec fn is_rule_violation(self) -> bool {
        self is RollTooLow || self is RollTooHigh || self is BetTooSmall || self is BetTooLarge
            || self is InsufficientFunds
    }

    /// Tells a broken rule from a fault of the ledger or the runtime.
    pub fn is_validation(&self) -> (yes: bool)
        ensures
            yes == self.is_rule_violation(),
    {
        match self {
            DiceError::RollTooLow
            | DiceError::RollTooHigh
            | DiceError::BetTooSmall
            | DiceError::BetTooLarge
            | DiceError::InsufficientFunds => true,
            DiceError::TransferFailed
            | DiceError::AddressDerivationFailed
            | DiceError::ClockUnavailable => false,
        }
    }
}

/// Whether `outcome` is a failure, and the failure is `e`.
pub open spec fn fails_with<T>(outcome: Result<T, DiceError>, e: DiceError) -> bool {
    outcome matches Err(found) && found == e
}

} // verus!
