//! A model of the asset ledger at its interface.
//!
//! The real ledger is an external collaborator: it holds the accounts, checks
//! the caller's authorization cryptographically, and moves or issues units.
//! This crate consumes exactly two of its capabilities, a transfer and an
//! issuance, and needs nothing of an account beyond its balance. The two
//! operations below therefore act on plain `u64` balances handed in by the
//! caller; holding the exclusive borrow stands in for being authorized over
//! the account. Each operation either applies its whole effect or, on
//! failure, leaves every balance exactly as it was.

use vstd::prelude::*;

use crate::errors::LedgerError;

verus! {

/// What `transfer` does to the two balances: the new source, the new
/// destination, and the outcome, in that order.
pub open spec fn transfer_spec(from: u64, to: u64, amount: u64) -> (u64, u64, Result<
    (),
    LedgerError,
>) {
    if from < amount {
        (from, to, Err(LedgerError::InsufficientFunds))
    } else if to + amount > u64::MAX {
        (from, to, Err(LedgerError::Overflow))
    } else {
        ((from - amount) as u64, (to + amount) as u64, Ok(()))
    }
}

/// What `mint_to` does to the supply and the receiving balance: the new
/// supply, the new balance, and the outcome, in that order.
pub open spec fn mint_to_spec(supply: u64, to: u64, amount: u64) -> (u64, u64, Result<
    (),
    LedgerError,
>) {
    if supply + amount > u64::MAX {
        (supply, to, Err(LedgerError::Overflow))
    } else if to + amount > u64::MAX {
        (supply, to, Err(LedgerError::Overflow))
    } else {
        ((supply + amount) as u64, (to + amount) as u64, Ok(()))
    }
}

/// Move `amount` units from one balance to another.
///
/// Fails with `InsufficientFunds` if the source holds less than `amount`,
/// and with `Overflow` if the destination cannot take it; on failure neither
/// balance changes.
pub fn transfer(from: &mut u64, to: &mut u64, amount: u64) -> (r: Result<(), LedgerError>)
    ensures
        (*final(from), *final(to), r) == transfer_spec(*old(from), *old(to), amount),
{
    if *from < amount {
        return Err(LedgerError::InsufficientFunds);
    }
    match to.checked_add(amount) {
        None => Err(LedgerError::Overflow),
        Some(new_to) => {
            *from = *from - amount;
            *to = new_to;
            Ok(())
        },
    }
}

/// Issue `amount` new units: grow the issued supply and credit the receiving
/// balance by the same amount.
///
/// Fails with `Overflow` if either counter cannot take the amount; on failure
/// neither changes.
pub fn mint_to(supply: &mut u64, to: &mut u64, amount: u64) -> (r: Result<(), LedgerError>)
    ensures
        (*final(supply), *final(to), r) == mint_to_spec(*old(supply), *old(to), amount),
{
    match supply.checked_add(amount) {
        None => Err(LedgerError::Overflow),
        Some(new_supply) => match to.checked_add(amount) {
            None => Err(LedgerError::Overflow),
            Some(new_to) => {
                *supply = new_supply;
                *to = new_to;
                Ok(())
            },
        },
    }
}

} // verus!
