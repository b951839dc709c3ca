//! The sale's guarantees, stated and proved over the purchase transition
//! `buy_spec`. Since `buy_tokens` returns exactly `buy_spec` of its inputs,
//! each of these holds of the executable purchase as well.

use vstd::prelude::*;

use crate::errors::TokenSaleError;
use crate::purchase::{buy_spec, BuyTokens};

verus! {

/// The state after running a whole sequence of purchase requests, each a
/// `(now, amount)` pair, in order, against one sale.
pub open spec fn run(a: BuyTokens, reqs: Seq<(i64, u64)>) -> BuyTokens
    decreases reqs.len(),
{
    if reqs.len() == 0 {
        a
    } else {
        buy_spec(run(a, reqs.drop_last()), reqs.last().0, reqs.last().1).0
    }
}

/// The sum of the amounts of exactly those requests in the sequence that
/// were admitted (returned `Ok`) when their turn came.
pub open spec fn admitted_sum(a: BuyTokens, reqs: Seq<(i64, u64)>) -> int
    decreases reqs.len(),
{
    if reqs.len() == 0 {
        0
    } else {
        admitted_sum(a, reqs.drop_last()) + (if buy_spec(
            run(a, reqs.drop_last()),
            reqs.last().0,
            reqs.last().1,
        ).1 is Ok {
            reqs.last().1 as int
        } else {
            0
        })
    }
}

/// Cap invariant: over any sequence of purchase requests against one sale,
/// the counter never passes the hard cap, the cap and the rest of the
/// configuration never change, and the counter equals its starting value
/// plus the exact sum of the admitted amounts.
pub proof fn lemma_cap_invariant(a: BuyTokens, reqs: Seq<(i64, u64)>)
    requires
        a.sale.total_sold <= a.sale.hard_cap,
    ensures
        run(a, reqs).sale.total_sold <= run(a, reqs).sale.hard_cap,
        run(a, reqs).sale.hard_cap == a.sale.hard_cap,
        run(a, reqs).sale.start_time == a.sale.start_time,
        run(a, reqs).sale.end_time == a.sale.end_time,
        run(a, reqs).sale.price_per_token == a.sale.price_per_token,
        run(a, reqs).sale.total_sold == a.sale.total_sold + admitted_sum(a, reqs),
    decreases reqs.len(),
{
    if reqs.len() > 0 {
        lemma_cap_invariant(a, reqs.drop_last());
    }
}

/// Window invariant: a request whose time lies outside the sale window is
/// rejected with `SaleNotActive` and touches nothing — neither the counter
/// nor any ledger balance.
pub proof fn lemma_window_invariant(a: BuyTokens, now: i64, amount: u64)
    requires
        now < a.sale.start_time || now > a.sale.end_time,
    ensures
        buy_spec(a, now, amount).0 == a,
        buy_spec(a, now, amount).1 == Err::<(), TokenSaleError>(TokenSaleError::SaleNotActive),
{
}

/// Atomicity: whenever a purchase fails — rejected up front, refused by the
/// ledger transfer, or refused by the issuance — the whole state is exactly
/// what it was: no counter movement, no balance movement, no partial commit.
pub proof fn lemma_failure_is_atomic(a: BuyTokens, now: i64, amount: u64)
    requires
        buy_spec(a, now, amount).1 is Err,
    ensures
        buy_spec(a, now, amount).0 == a,
{
}

/// Overflow safety: a request that passes the window and the cap but whose
/// payment `amount * price_per_token` does not fit a `u64` is rejected with
/// `ArithmeticOverflow` and causes no state change.
pub proof fn lemma_payment_overflow_rejected(a: BuyTokens, now: i64, amount: u64)
    requires
        a.sale.in_window(now),
        a.sale.total_sold + amount <= a.sale.hard_cap,
        amount * a.sale.price_per_token > u64::MAX,
    ensures
        buy_spec(a, now, amount).1 == Err::<(), TokenSaleError>(TokenSaleError::ArithmeticOverflow),
        buy_spec(a, now, amount).0 == a,
{
}

/// Idempotence of rejection: repeating an identical rejected request
/// produces the identical rejection and the identical state — rejections
/// cause no drift.
pub proof fn lemma_rejection_idempotent(a: BuyTokens, now: i64, amount: u64)
    requires
        buy_spec(a, now, amount).1 is Err,
    ensures
        buy_spec(buy_spec(a, now, amount).0, now, amount) == buy_spec(a, now, amount),
{
    lemma_failure_is_atomic(a, now, amount);
}

} // verus!
