//! Sale configuration and state: the record a sale lives in, its
//! well-formedness, and the time-derived phase of the sale.

use vstd::prelude::*;

verus! {

/// Identity of an external entity (an authority, a mint, or an account).
/// The sale only records and hands identities around; it never looks inside
/// them. Binding an identity to a real account is the record store's job.
#[derive(Clone, Copy, Debug, PartialEq, Eq)]
pub struct Pubkey {
    pub bytes: [u8; 32],
}

/// The identities a sale is created over.
#[derive(Clone, Copy, Debug)]
pub struct InitializeSale {
    /// Who may authorize issuance of the sale token.
    pub authority: Pubkey,
    /// The sale token being sold.
    pub token_mint: Pubkey,
    /// The payment asset buyers pay with.
    pub usdc_mint: Pubkey,
    /// The account that receives buyer payments.
    pub treasury: Pubkey,
}

/// One sale: its immutable configuration plus the running `total_sold`
/// counter, the only field any operation ever mutates.
#[derive(Clone, Copy, Debug)]
pub struct TokenSale {
    pub authority: Pubkey,
    pub token_mint: Pubkey,
    pub usdc_mint: Pubkey,
    pub treasury: Pubkey,
    /// First instant (inclusive) at which purchases are admitted.
    pub start_time: i64,
    /// Last instant (inclusive) at which purchases are admitted.
    pub end_time: i64,
    /// Payment units owed per one sale-token unit.
    pub price_per_token: u64,
    /// Maximum cumulative units sellable over the sale's lifetime.
    pub hard_cap: u64,
    /// Cumulative units issued so far; never decreases.
    pub total_sold: u64,
    /// Recorded at creation and never consulted: whether the sale is live is
    /// always re-derived from the clock and the window, never from a flag.
    pub is_active: bool,
}

impl TokenSale {
    /// A well-formed sale: a non-empty window, a positive price, a positive
    /// cap, and a counter that has not outrun the cap.
    pub open spec fn valid(self) -> bool {
        &&& self.start_time < self.end_time
        &&& self.price_per_token > 0
        &&& self.hard_cap > 0
        &&& self.total_sold <= self.hard_cap
    }

    /// Whether `now` falls inside the sale window (both ends inclusive).
    pub open spec fn in_window(self, now: i64) -> bool {
        self.start_time <= now <= self.end_time
    }

    /// The phase the sale is in at time `now`, derived from the clock and the
    /// counter alone.
    pub open spec fn phase_spec(self, now: i64) -> SalePhase {
        if now < self.start_time {
            SalePhase::Pending
        } else if now > self.end_time {
            SalePhase::Closed
        } else if self.total_sold < self.hard_cap {
            SalePhase::Open
        } else {
            SalePhase::SoldOut
        }
    }

    /// Re-derive the sale's phase from the current time. Purchases are
    /// admissible only in the `Open` phase.
    pub fn phase(&self, now: i64) -> (p: SalePhase)
        ensures
            p == self.phase_spec(now),
    {
        if now < self.start_time {
            SalePhase::Pending
        } else if now > self.end_time {
            SalePhase::Closed
        } else if self.total_sold < self.hard_cap {
            SalePhase::Open
        } else {
            SalePhase::SoldOut
        }
    }
}

/// The four phases of a sale. `Pending`, `Open` and `Closed` follow from the
/// clock against the window; `SoldOut` additionally needs the cap reached.
#[derive(Clone, Copy, Debug, PartialEq, Eq, Structural)]
pub enum SalePhase {
    Pending,
    Open,
    SoldOut,
    Closed,
}

/// Create the state of a fresh sale over the given identities and parameters.
///
/// All identities and parameters are copied verbatim; nothing is sold yet.
/// No asset moves during initialization. Uniqueness of the sale per
/// (authority, token) pair is the record store's creation rule, not checked
/// here.
pub fn initialize_sale(
    accounts: &InitializeSale,
    start_time: i64,
    end_time: i64,
    price_per_token: u64,
    hard_cap: u64,
) -> (sale: TokenSale)
    requires
        start_time < end_time,
        price_per_token > 0,
        hard_cap > 0,
    ensures
        sale.authority == accounts.authority,
        sale.token_mint == accounts.token_mint,
        sale.usdc_mint == accounts.usdc_mint,
        sale.treasury == accounts.treasury,
        sale.start_time == start_time,
        sale.end_time == end_time,
        sale.price_per_token == price_per_token,
        sale.hard_cap == hard_cap,
        sale.total_sold == 0,
        !sale.is_active,
        sale.valid(),
{
    TokenSale {
        authority: accounts.authority,
        token_mint: accounts.token_mint,
        usdc_mint: accounts.usdc_mint,
        treasury: accounts.treasury,
        start_time,
        end_time,
        price_per_token,
        hard_cap,
        total_sold: 0,
        is_active: false,
    }
}

} // verus!
