//! The purchase executor: admission of a purchase request, the payment it
//! owes, and the atomic commit of payment, issuance and counter update.

use vstd::prelude::*;

use crate::errors::{LedgerError, TokenSaleError};
use crate::ledger;
use crate::sale::TokenSale;

verus! {

/// Everything one purchase touches: the sale record, the sale token's issued
/// supply, and the balances of the buyer's token account, the buyer's
/// payment account, and the treasury. The caller loads these from the
/// collaborators, hands them in, and writes them back on success.
#[derive(Clone, Copy, Debug)]
pub struct BuyTokens {
    pub sale: TokenSale,
    /// Units of the sale token issued so far, across all holders.
    pub mint_supply: u64,
    /// Sale-token balance of the buyer's token account.
    pub buyer_token_balance: u64,
    /// Payment-asset balance of the buyer's payment account.
    pub buyer_usdc_balance: u64,
    /// Payment-asset balance of the treasury.
    pub treasury_balance: u64,
}

/// Admission of a purchase of `amount` units at time `now`, and the payment
/// it owes. The gates fire in this order: the window, overflow of the new
/// counter value, the hard cap, overflow of the payment.
pub open spec fn admit_spec(sale: TokenSale, now: i64, amount: u64) -> Result<
    u64,
    TokenSaleError,
> {
    if !sale.in_window(now) {
        Err(TokenSaleError::SaleNotActive)
    } else if sale.total_sold + amount > u64::MAX {
        Err(TokenSaleError::ArithmeticOverflow)
    } else if sale.total_sold + amount > sale.hard_cap {
        Err(TokenSaleError::HardCapReached)
    } else if amount * sale.price_per_token > u64::MAX {
        Err(TokenSaleError::ArithmeticOverflow)
    } else {
        Ok((amount * sale.price_per_token) as u64)
    }
}

/// What one purchase request does: the state after the request and its
/// outcome. On any failure the state is the one handed in, untouched; on
/// success the payment moves from buyer to treasury, `amount` units are
/// issued to the buyer, and `total_sold` grows by `amount`.
pub open spec fn buy_spec(a: BuyTokens, now: i64, amount: u64) -> (BuyTokens, Result<
    (),
    TokenSaleError,
>) {
    match admit_spec(a.sale, now, amount) {
        Err(e) => (a, Err(e)),
        Ok(due) => {
            if a.buyer_usdc_balance < due {
                (a, Err(TokenSaleError::Ledger(LedgerError::InsufficientFunds)))
            } else if a.treasury_balance + due > u64::MAX {
                (a, Err(TokenSaleError::Ledger(LedgerError::Overflow)))
            } else if a.mint_supply + amount > u64::MAX || a.buyer_token_balance + amount
                > u64::MAX {
                (a, Err(TokenSaleError::Ledger(LedgerError::Overflow)))
            } else {
                (
                    BuyTokens {
                        sale: TokenSale {
                            total_sold: (a.sale.total_sold + amount) as u64,
                            ..a.sale
                        },
                        mint_supply: (a.mint_supply + amount) as u64,
                        buyer_token_balance: (a.buyer_token_balance + amount) as u64,
                        buyer_usdc_balance: (a.buyer_usdc_balance - due) as u64,
                        treasury_balance: (a.treasury_balance + due) as u64,
                    },
                    Ok(()),
                )
            }
        },
    }
}

/// Validate a purchase request against the sale and the clock, and compute
/// the payment it owes. Reads only; the sale is not touched.
///
/// Returns `SaleNotActive` outside the window, `ArithmeticOverflow` where
/// `total_sold + amount` or `amount * price_per_token` does not fit a `u64`,
/// and `HardCapReached` where the new counter value would pass the cap;
/// otherwise the payment due, `amount * price_per_token`.
pub fn check_purchase(sale: &TokenSale, now: i64, amount: u64) -> (r: Result<u64, TokenSaleError>)
    ensures
        r == admit_spec(*sale, now, amount),
{
    if now < sale.start_time || now > sale.end_time {
        return Err(TokenSaleError::SaleNotActive);
    }
    let new_total = match sale.total_sold.checked_add(amount) {
        None => {
            return Err(TokenSaleError::ArithmeticOverflow);
        },
        Some(t) => t,
    };
    if new_total > sale.hard_cap {
        return Err(TokenSaleError::HardCapReached);
    }
    match amount.checked_mul(sale.price_per_token) {
        None => Err(TokenSaleError::ArithmeticOverflow),
        Some(due) => Ok(due),
    }
}

/// Advance the counter of an admitted purchase. The caller must have
/// admitted the request against this very state, so the sum fits under the
/// cap; everything but `total_sold` stays as it was.
pub fn commit_purchase(sale: &mut TokenSale, amount: u64)
    requires
        old(sale).total_sold + amount <= old(sale).hard_cap,
    ensures
        *final(sale) == (TokenSale { total_sold: (old(sale).total_sold + amount) as u64, ..*old(
            sale,
        ) }),
{
    sale.total_sold = sale.total_sold + amount;
}

/// Execute one purchase request as a single indivisible unit.
///
/// Validates the request (window, cap, arithmetic), moves the payment from
/// the buyer to the treasury, issues `amount` new units to the buyer, and
/// advances `total_sold` — all of it, or, on any failure, none of it: a
/// rejected or failed purchase leaves every account and the sale exactly as
/// they were. `buy_spec` pins the outcome and the new state exactly.
pub fn buy_tokens(accounts: &mut BuyTokens, now: i64, amount: u64) -> (r: Result<
    (),
    TokenSaleError,
>)
    ensures
        (*final(accounts), r) == buy_spec(*old(accounts), now, amount),
        r is Err ==> *final(accounts) == *old(accounts),
        r is Ok ==> final(accounts).sale.total_sold == old(accounts).sale.total_sold + amount
            && final(accounts).sale.total_sold <= old(accounts).sale.hard_cap,
        !old(accounts).sale.in_window(now) ==> r == Err::<(), TokenSaleError>(
            TokenSaleError::SaleNotActive,
        ),
        final(accounts).sale.total_sold >= old(accounts).sale.total_sold,
        old(accounts).sale.valid() ==> final(accounts).sale.valid(),
{
    let due = match check_purchase(&accounts.sale, now, amount) {
        Err(e) => {
            return Err(e);
        },
        Ok(d) => d,
    };
    match ledger::transfer(&mut accounts.buyer_usdc_balance, &mut accounts.treasury_balance, due) {
        Err(e) => {
            return Err(TokenSaleError::Ledger(e));
        },
        Ok(_) => {},
    }
    match ledger::mint_to(&mut accounts.mint_supply, &mut accounts.buyer_token_balance, amount) {
        Err(e) => {
            // The payment already moved, so compensate: give it back before
            // reporting, leaving no partial effect behind.
            accounts.treasury_balance = accounts.treasury_balance - due;
            accounts.buyer_usdc_balance = accounts.buyer_usdc_balance + due;
            return Err(TokenSaleError::Ledger(e));
        },
        Ok(_) => {},
    }
    commit_purchase(&mut accounts.sale, amount);
    Ok(())
}

} // verus!
