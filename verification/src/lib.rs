//! A two-outcome prediction market engine.
//!
//! Users buy and sell shares of one of two sides against a shared liquidity
//! pool. Prices move by a constant-product market-making rule over two
//! virtual reserves; after the market is resolved, holders of the winning
//! side redeem a proportional payout from the accumulated pool.
//!
//! The crate holds the pricing formulas, the per-market and per-user
//! ledgers, the lifecycle rules that gate every operation, and proofs of
//! the reserve-product and pool-accounting properties. Fund custody,
//! account addressing and caller authentication are left to the host.

pub mod errors;
pub mod events;
pub mod handlers;
pub mod helpers;
pub mod laws;
pub mod ledger;
pub mod state;
