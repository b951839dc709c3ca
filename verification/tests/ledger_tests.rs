use token_sale_program::errors::LedgerError;
use token_sale_program::ledger::{mint_to, transfer};

#[test]
fn transfer_moves_the_amount() {
    let mut from: u64 = 500;
    let mut to: u64 = 7;
    assert_eq!(transfer(&mut from, &mut to, 120), Ok(()));
    assert_eq!(from, 380);
    assert_eq!(to, 127);
}

#[test]
fn transfer_refuses_more_than_the_balance() {
    let mut from: u64 = 100;
    let mut to: u64 = 0;
    assert_eq!(transfer(&mut from, &mut to, 101), Err(LedgerError::InsufficientFunds));
    assert_eq!(from, 100);
    assert_eq!(to, 0);
}

#[test]
fn transfer_refuses_a_destination_overflow() {
    let mut from: u64 = 100;
    let mut to: u64 = u64::MAX - 5;
    assert_eq!(transfer(&mut from, &mut to, 6), Err(LedgerError::Overflow));
    assert_eq!(from, 100);
    assert_eq!(to, u64::MAX - 5);
}

#[test]
fn mint_grows_supply_and_balance_together() {
    let mut supply: u64 = 1000;
    let mut to: u64 = 3;
    assert_eq!(mint_to(&mut supply, &mut to, 60), Ok(()));
    assert_eq!(supply, 1060);
    assert_eq!(to, 63);
}

#[test]
fn mint_refuses_a_supply_overflow() {
    let mut supply: u64 = u64::MAX - 1;
    let mut to: u64 = 0;
    assert_eq!(mint_to(&mut supply, &mut to, 2), Err(LedgerError::Overflow));
    assert_eq!(supply, u64::MAX - 1);
    assert_eq!(to, 0);
}

#[test]
fn mint_refuses_a_balance_overflow() {
    let mut supply: u64 = 0;
    let mut to: u64 = u64::MAX;
    assert_eq!(mint_to(&mut supply, &mut to, 1), Err(LedgerError::Overflow));
    assert_eq!(supply, 0);
    assert_eq!(to, u64::MAX);
}
