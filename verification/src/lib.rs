//! A fixed-price, capped-supply token sale.
//!
//! A seller configures a time window, a price per token unit, and a hard cap
//! on the number of units that may ever be sold. Buyers exchange a payment
//! asset for newly issued sale tokens at the fixed price while the window is
//! open and the cap is not exceeded. Every admitted purchase moves the
//! payment, issues the tokens, and advances the running `total_sold` counter
//! as one indivisible unit: either all three effects happen or none do.
//!
//! The ledger that actually holds balances, the clock, and the durable record
//! store are external collaborators; this crate works on plain values handed
//! in by its caller and states exactly how each operation transforms them.

pub mod errors;
pub mod laws;
pub mod ledger;
pub mod purchase;
pub mod sale;
