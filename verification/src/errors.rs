//! Error taxonomy of the sale.

use vstd::prelude::*;

verus! {

/// Failure reported by the asset-ledger collaborator when it is asked to move
/// or issue units. These propagate to the purchase caller unchanged.
#[derive(Clone, Copy, Debug, PartialEq, Eq, Structural)]
pub enum LedgerError {
    /// The paying account holds less than the requested amount.
    InsufficientFunds,
    /// A balance or the issued supply would exceed its representable range.
    Overflow,
}

/// Everything a sale operation can fail with.
///
/// `SaleNotActive` and `HardCapReached` reject a request that is outside the
/// sale's rules; `ArithmeticOverflow` rejects a request whose numbers do not
/// fit the counters; `Ledger` carries a collaborator failure verbatim.
#[derive(Clone, Copy, Debug, PartialEq, Eq, Structural)]
pub enum TokenSaleError {
    /// The current time is outside the `[start_time, end_time]` window.
    SaleNotActive,
    /// Admitting the purchase would push `total_sold` past `hard_cap`.
    HardCapReached,
    /// `total_sold + amount` or `amount * price_per_token` overflows.
    ArithmeticOverflow,
    /// The ledger refused the payment transfer or the issuance.
    Ledger(LedgerError),
}

} // verus!
