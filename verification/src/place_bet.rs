use vstd::prelude::*;

use crate::address::{bet_address, pool_address, resolve_bet_address, resolve_pool_address, Address};
use crate::clock::{current_slot, require_slot};
use crate::errors::{fails_with, DiceError};
use crate::state::{Bet, MINIMUM_BET, ROLL_CEILING, ROLL_FLOOR};

verus! {

/// The bumps of the two derived accounts of a wager.
#[derive(Clone, Copy, Debug, PartialEq, Eq)]
pub struct PlaceBetBumps {
    /// The bump of the pool's address.
    pub vault: u8,
    /// The bump of the bet record's address.
    pub bet: u8,
}

/// Where the two derived accounts of a wager live.
#[derive(Clone, Copy, Debug, PartialEq, Eq)]
pub struct WagerAccounts {
    /// The address of the house's pool.
    pub vault: Address,
    /// The address of the bet record.
    pub bet: Address,
    /// The bumps of both.
    pub bumps: PlaceBetBumps,
}

/// An order to the ledger: move `lamports` from one account to another.
#[derive(Clone, Copy, Debug, PartialEq, Eq)]
pub struct Transfer {
    /// The account that pays.
    pub from: Address,
    /// The account that receives.
    pub to: Address,
    /// How much moves.
    pub lamports: u64,
}

/// What the ledger answered to a transfer.
#[derive(Clone, Copy, Debug, PartialEq, Eq, Structural)]
pub enum TransferOutcome {
    /// The lamports moved.
    Completed,
    /// Nothing moved.
    Failed,
}

/// The accounts that one wager touches, as the values they hold.
#[derive(Clone, Copy, Debug, PartialEq, Eq)]
pub struct PlaceBet {
    /// The player, who signs the request and pays the stake.
    pub player: Address,
    /// What the player can spend, in lamports.
    pub player_lamports: u64,
    /// The house whose pool the wager is placed against.
    pub house: Address,
    /// The pool that escrows the stakes of the house.
    pub vault: Address,
    /// What the pool holds, in lamports.
    pub vault_lamports: u64,
    /// What the bet account holds: nothing yet, or a record.
    pub bet: Option<Bet>,
}

/// Resolves the pool of a house and the bet record that `seed` selects in
/// it, the second from the address of the first.
///
/// Fails with `AddressDerivationFailed` exactly when one of the two
/// derivations finds no bump.
pub fn resolve_accounts(program_id: &Address, house: &Address, seed: u128) -> (resolved: Result<
    WagerAccounts,
    DiceError,
>)
    ensures
        match resolved {
            Ok(accounts) => {
                &&& pool_address(program_id@, house@) == Some(
                    (accounts.vault@, accounts.bumps.vault),
                )
                &&& bet_address(program_id@, accounts.vault@, seed) == Some(
                    (accounts.bet@, accounts.bumps.bet),
                )
            },
            Err(e) => {
                &&& e == DiceError::AddressDerivationFailed
                &&& match pool_address(program_id@, house@) {
                    Some((vault, _)) => bet_address(program_id@, vault, seed) is None,
                    None => true,
                }
            },
        },
{
    let (vault, vault_bump) = resolve_pool_address(program_id, house)?;
    let (bet, bet_bump) = resolve_bet_address(program_id, &vault, seed)?;
    Ok(WagerAccounts { vault, bet, bumps: PlaceBetBumps { vault: vault_bump, bet: bet_bump } })
}

impl PlaceBet {
    /// The first rule that a wager of this roll and stake breaks, the rules
    /// taken in their order: the roll's floor, the roll's ceiling, the
    /// smallest stake, the pool's cover. `None` where it breaks none.
    pub open spec fn wager_fault(self, roll: u8, amount: u64) -> Option<DiceError> {
        if roll <= ROLL_FLOOR {
            Some(DiceError::RollTooLow)
        } else if roll >= ROLL_CEILING {
            Some(DiceError::RollTooHigh)
        } else if amount < MINIMUM_BET {
            Some(DiceError::BetTooSmall)
        } else if amount >= self.vault_lamports {
            Some(DiceError::BetTooLarge)
        } else {
            None
        }
    }

    /// Why the stake cannot be handed to the ledger: the player holds less,
    /// or the pool's balance would pass what the ledger can count. `None`
    /// where it can.
    pub open spec fn deposit_fault(self, amount: u64) -> Option<DiceError> {
        if self.player_lamports < amount {
            Some(DiceError::InsufficientFunds)
        } else if self.vault_lamports + amount > u64::MAX {
            Some(DiceError::TransferFailed)
        } else {
            None
        }
    }

    /// Why a wager is not placed: the rule it breaks, else what keeps the
    /// stake from the ledger, else the ledger's refusal. `None` where it is
    /// placed.
    pub open spec fn placement_fault(
        self,
        roll: u8,
        amount: u64,
        ledger: TransferOutcome,
    ) -> Option<DiceError> {
        if self.wager_fault(roll, amount) is Some {
            self.wager_fault(roll, amount)
        } else if self.deposit_fault(amount) is Some {
            self.deposit_fault(amount)
        } else if ledger is Failed {
            Some(DiceError::TransferFailed)
        } else {
            None
        }
    }

    /// What holds of accounts that the game has written to: the record in
    /// the bet account, if there is one, is well formed.
    pub open spec fn well_formed(self) -> bool {
        self.bet matches Some(bet) ==> bet.well_formed()
    }

    /// The record of a wager placed from these accounts.
    pub open spec fn record(
        self,
        bumps: PlaceBetBumps,
        slot: u64,
        seed: u128,
        roll: u8,
        amount: u64,
    ) -> Bet {
        Bet { slot, player: self.player, seed, roll, amount, bump: bumps.bet }
    }

    /// The order that moves a stake from the player to the pool.
    pub open spec fn stake_transfer(self, amount: u64) -> Transfer {
        Transfer { from: self.player, to: self.vault, lamports: amount }
    }

    /// These accounts with `bet` in the bet account.
    pub open spec fn with_bet(self, bet: Bet) -> PlaceBet {
        PlaceBet { bet: Some(bet), ..self }
    }

    /// These accounts once `amount` has moved from the player to the pool.
    pub open spec fn with_stake_moved(self, amount: u64) -> PlaceBet
        recommends
            self.deposit_fault(amount) is None,
    {
        PlaceBet {
            player_lamports: (self.player_lamports - amount) as u64,
            vault_lamports: (self.vault_lamports + amount) as u64,
            ..self
        }
    }

    /// Tests a roll and a stake against the four rules of a wager, and
    /// names the first one broken.
    pub fn check_wager(&self, roll: u8, amount: u64) -> (checked: Result<(), DiceError>)
        ensures
            match self.wager_fault(roll, amount) {
                Some(e) => fails_with(checked, e),
                None => checked is Ok,
            },
    {
        if roll <= ROLL_FLOOR {
            return Err(DiceError::RollTooLow);
        }
        if roll >= ROLL_CEILING {
            return Err(DiceError::RollTooHigh);
        }
        if amount < MINIMUM_BET {
            return Err(DiceError::BetTooSmall);
        }
        if amount >= self.vault_lamports {
            return Err(DiceError::BetTooLarge);
        }
        Ok(())
    }

    /// Validates a wager and writes its record, stamped with `slot`.
    ///
    /// A wager that breaks a rule is turned away with that rule's error and
    /// nothing changes. Any other wager leaves its record in the bet
    /// account, over whatever was there, and changes nothing else.
    pub fn create_bet_at_slot(
        &mut self,
        bumps: &PlaceBetBumps,
        slot: u64,
        seed: u128,
        roll: u8,
        amount: u64,
    ) -> (created: Result<(), DiceError>)
        ensures
            match old(self).wager_fault(roll, amount) {
                Some(e) => fails_with(created, e) && *final(self) == *old(self),
                None => {
                    &&& created is Ok
                    &&& *final(self) == old(self).with_bet(
                        old(self).record(*bumps, slot, seed, roll, amount),
                    )
                    &&& old(self).record(*bumps, slot, seed, roll, amount).well_formed()
                },
            },
            old(self).well_formed() ==> final(self).well_formed(),
    {
        self.check_wager(roll, amount)?;
        self.bet = Some(Bet { slot, player: self.player, seed, roll, amount, bump: bumps.bet });
        Ok(())
    }

    /// Validates a wager and writes its record, stamped with the slot that
    /// the runtime reports.
    ///
    /// A wager that breaks a rule is turned away with that rule's error,
    /// before the clock is asked. Where the clock gives no slot the wager
    /// fails with `ClockUnavailable`. In both cases nothing changes.
    /// Otherwise the record is the one that `create_bet_at_slot` writes for
    /// the slot that the clock gave.
    pub fn create_bet(
        &mut self,
        bumps: &PlaceBetBumps,
        seed: u128,
        roll: u8,
        amount: u64,
    ) -> (created: Result<(), DiceError>)
        ensures
            match created {
                Ok(()) => {
                    &&& old(self).wager_fault(roll, amount) is None
                    &&& exists|slot: u64|
                        *final(self) == old(self).with_bet(
                            #[trigger] old(self).record(*bumps, slot, seed, roll, amount),
                        )
                },
                Err(e) => {
                    &&& *final(self) == *old(self)
                    &&& match old(self).wager_fault(roll, amount) {
                        Some(fault) => e == fault,
                        None => e == DiceError::ClockUnavailable,
                    }
                },
            },
            old(self).well_formed() ==> final(self).well_formed(),
    {
        self.check_wager(roll, amount)?;
        let slot = require_slot(current_slot())?;
        self.create_bet_at_slot(bumps, slot, seed, roll, amount)
    }

    /// Decides whether the stake can go to the ledger, and writes the order
    /// that moves it from the player to the pool.
    ///
    /// Fails with `InsufficientFunds` exactly when the player holds less
    /// than `amount`; else with `TransferFailed` exactly when the pool's
    /// balance with the stake on top would pass the largest balance the
    /// ledger can count. Carrying the order out is the caller's part.
    pub fn deposit(&self, amount: u64) -> (order: Result<Transfer, DiceError>)
        ensures
            match self.deposit_fault(amount) {
                Some(e) => fails_with(order, e),
                None => order matches Ok(transfer) && transfer == self.stake_transfer(amount),
            },
    {
        if self.player_lamports < amount {
            return Err(DiceError::InsufficientFunds);
        }
        if amount > u64::MAX - self.vault_lamports {
            return Err(DiceError::TransferFailed);
        }
        Ok(Transfer { from: self.player, to: self.vault, lamports: amount })
    }

    /// Places a wager as one step: from the accounts, the request, the slot
    /// and the ledger's answer to the stake's transfer, to the accounts
    /// afterwards.
    ///
    /// The wager is placed exactly when it breaks no rule, the stake can go
    /// to the ledger, and the ledger moved it. Then the record is in the bet
    /// account, the stake has left the player and reached the pool, and the
    /// record is returned. In every other case the error names the first
    /// thing that stood in the way and the accounts are as they were: a
    /// record that was written before the ledger refused is taken back.
    /// The ledger's answer is read only where the order was given.
    ///
    /// The first clause gives the outcome in full. The others spell out what
    /// it means rule by rule: when a wager is placed and with which terms;
    /// each rule's error, the rules taken in their order; that a transfer
    /// which fails after the rules have passed fails the wager; that a wager
    /// which is turned away leaves no trace; and that a sound record stays
    /// sound.
    pub fn place_bet(
        &mut self,
        bumps: &PlaceBetBumps,
        slot: u64,
        seed: u128,
        roll: u8,
        amount: u64,
        ledger: TransferOutcome,
    ) -> (placed: Result<Bet, DiceError>)
        ensures
            match old(self).placement_fault(roll, amount, ledger) {
                Some(e) => fails_with(placed, e) && *final(self) == *old(self),
                None => {
                    &&& placed matches Ok(bet)
                    &&& bet == old(self).record(*bumps, slot, seed, roll, amount)
                    &&& *final(self) == old(self).with_bet(bet).with_stake_moved(amount)
                },
            },
            ROLL_FLOOR < roll < ROLL_CEILING && MINIMUM_BET <= amount < old(self).vault_lamports
                && amount <= old(self).player_lamports && old(self).vault_lamports + amount
                <= u64::MAX && ledger is Completed ==> placed is Ok,
            placed matches Ok(bet) ==> {
                &&& bet.slot == slot && bet.player == old(self).player && bet.seed == seed
                &&& bet.roll == roll && bet.amount == amount && bet.bump == bumps.bet
                &&& bet.well_formed()
                &&& final(self).bet == Some(bet)
                &&& final(self).player_lamports == old(self).player_lamports - amount
                &&& final(self).vault_lamports == old(self).vault_lamports + amount
                &&& final(self).player == old(self).player
                &&& final(self).house == old(self).house
                &&& final(self).vault == old(self).vault
            },
            roll <= ROLL_FLOOR ==> fails_with(placed, DiceError::RollTooLow),
            roll > ROLL_FLOOR && roll >= ROLL_CEILING ==> fails_with(
                placed,
                DiceError::RollTooHigh,
            ),
            ROLL_FLOOR < roll < ROLL_CEILING && amount < MINIMUM_BET ==> fails_with(
                placed,
                DiceError::BetTooSmall,
            ),
            ROLL_FLOOR < roll < ROLL_CEILING && amount >= MINIMUM_BET && amount >= old(
                self,
            ).vault_lamports ==> fails_with(placed, DiceError::BetTooLarge),
            old(self).wager_fault(roll, amount) is None && old(self).player_lamports < amount
                ==> fails_with(placed, DiceError::InsufficientFunds),
            old(self).wager_fault(roll, amount) is None && old(self).player_lamports >= amount
                && ledger is Failed ==> fails_with(placed, DiceError::TransferFailed),
            placed is Err ==> *final(self) == *old(self),
            old(self).well_formed() ==> final(self).well_formed(),
    {
        let before = self.bet;
        self.create_bet_at_slot(bumps, slot, seed, roll, amount)?;
        let bet = Bet { slot, player: self.player, seed, roll, amount, bump: bumps.bet };
        match self.deposit(amount) {
            Err(e) => {
                self.bet = before;
                Err(e)
            },
            Ok(order) => match ledger {
                TransferOutcome::Completed => {
                    self.player_lamports = self.player_lamports - order.lamports;
                    self.vault_lamports = self.vault_lamports + order.lamports;
                    Ok(bet)
                },
                TransferOutcome::Failed => {
                    self.bet = before;
                    Err(DiceError::TransferFailed)
                },
            },
        }
    }
}

} // verus!
