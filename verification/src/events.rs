//! Structured records that a successful operation hands back for external
//! indexing. They are advisory snapshots, never authoritative state.

use vstd::prelude::*;

verus! {

/// Emitted once per market, at creation.
#[derive(Debug)]
pub struct StreamInitialized {
    pub stream_id: u64,
    pub authority: u64,
    pub team_a_name: Vec<u8>,
    pub team_b_name: Vec<u8>,
    /// Total virtual liquidity the reserves were split from.
    pub initial_liquidity: u64,
    /// Spot price at creation; always one whole scale unit.
    pub initial_price: u64,
    pub end_time: i64,
    pub stream_link: Vec<u8>,
}

/// Emitted by every successful purchase.
#[derive(Debug)]
pub struct SharesPurchased {
    pub stream_id: u64,
    pub user: u64,
    pub team_id: u8,
    pub sol_spent: u64,
    pub shares_received: u64,
    pub price_before: u64,
    pub price_after: u64,
    pub reserve_team_before: u64,
    pub reserve_team_after: u64,
}

/// Emitted by every successful sale.
#[derive(Debug)]
pub struct SharesSold {
    pub stream_id: u64,
    pub user: u64,
    pub team_id: u8,
    pub shares_sold: u64,
    pub sol_received: u64,
    pub price_before: u64,
    pub price_after: u64,
    pub reserve_team_before: u64,
    pub reserve_team_after: u64,
}

/// Emitted once per market, at resolution.
#[derive(Debug)]
pub struct StreamEnded {
    pub stream_id: u64,
    pub winning_team: u8,
    pub total_pool: u64,
    pub team_a_shares: u64,
    pub team_b_shares: u64,
    pub final_team_a_price: u64,
    pub final_team_b_price: u64,
}

/// Emitted by every successful claim.
#[derive(Debug)]
pub struct WinningsClaimed {
    pub stream_id: u64,
    pub user: u64,
    pub winning_team: u8,
    pub shares: u64,
    pub payout: u64,
}

} // verus!
