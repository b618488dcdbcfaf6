//! The persistent records of the engine: one `Stream` per market and one
//! `UserPosition` per (market, user) pair.
//!
//! Caller and authority identities are plain 64-bit keys supplied by the
//! host's authentication layer; the key 0 is reserved as "no owner yet",
//! which is how a freshly allocated position is recognised. Display
//! strings are kept as their raw bytes.

use vstd::prelude::*;

verus! {

/// One market: reserves, cumulative shares, pool total and lifecycle flags.
///
/// Mutated only through the handlers; every handler preserves [`Stream::wf`].
#[derive(Debug)]
pub struct Stream {
    /// Identity that created the market and owns its lifecycle-ending rights.
    pub authority: u64,
    /// Caller-supplied market key.
    pub stream_id: u64,
    /// Display name of side 1, at most 32 bytes.
    pub team_a_name: Vec<u8>,
    /// Display name of side 2, at most 32 bytes.
    pub team_b_name: Vec<u8>,
    /// Virtual liquidity backing side 1.
    pub team_a_reserve: u64,
    /// Virtual liquidity backing side 2.
    pub team_b_reserve: u64,
    /// Cumulative outstanding shares issued on side 1.
    pub team_a_shares_sold: u64,
    /// Cumulative outstanding shares issued on side 2.
    pub team_b_shares_sold: u64,
    /// Net lamports custodied for this market: grows on buys, shrinks on sells.
    pub total_pool: u64,
    /// Unix seconds at creation.
    pub start_time: i64,
    /// Unix seconds after which trading stops and resolution may happen.
    pub end_time: i64,
    /// True from creation until the market is ended; a one-way transition.
    pub is_active: bool,
    /// 0 while undecided, 1 or 2 once the market has been resolved.
    pub winning_team: u8,
    /// Opaque display link, at most 256 bytes.
    pub stream_link: Vec<u8>,
}

impl Stream {
    /// Well-formedness: reserves are positive while trading is open, the
    /// winner is declared exactly when the market has ended, and the
    /// display fields respect their byte limits.
    pub open spec fn wf(self) -> bool {
        &&& self.is_active ==> self.team_a_reserve > 0 && self.team_b_reserve > 0
        &&& self.is_active ==> self.winning_team == 0
        &&& self.winning_team <= 2
        &&& self.team_a_name@.len() <= 32
        &&& self.team_b_name@.len() <= 32
        &&& self.stream_link@.len() <= 256
    }

    /// The reserve pair seen from side `team_id`: (own reserve, opposite reserve).
    pub open spec fn reserves_of(self, team_id: u8) -> (u64, u64) {
        if team_id == 1 {
            (self.team_a_reserve, self.team_b_reserve)
        } else {
            (self.team_b_reserve, self.team_a_reserve)
        }
    }

    /// Cumulative shares issued on side `team_id`.
    pub open spec fn shares_sold_of(self, team_id: u8) -> u64 {
        if team_id == 1 {
            self.team_a_shares_sold
        } else {
            self.team_b_shares_sold
        }
    }

    /// The constant-product invariant `team_a_reserve * team_b_reserve`.
    pub open spec fn reserve_product(self) -> int {
        self.team_a_reserve * self.team_b_reserve
    }
}

/// One user's ledger within one market.
#[derive(Debug)]
pub struct UserPosition {
    /// Identity that owns this position; 0 means the record is still blank.
    pub user: u64,
    /// Key of the market this position belongs to.
    pub stream_id: u64,
    /// Outstanding shares held on side 1.
    pub team_a_shares: u64,
    /// Outstanding shares held on side 2.
    pub team_b_shares: u64,
    /// Net lamports this user has committed; shrinks when shares are sold.
    pub total_invested: u64,
    /// Set exactly once, by a successful claim after resolution.
    pub has_claimed: bool,
}

impl UserPosition {
    /// A blank position record, as the keyed store hands it out before the
    /// owner's first purchase.
    pub open spec fn spec_blank() -> UserPosition {
        UserPosition {
            user: 0,
            stream_id: 0,
            team_a_shares: 0,
            team_b_shares: 0,
            total_invested: 0,
            has_claimed: false,
        }
    }

    /// Executable counterpart of [`UserPosition::spec_blank`].
    pub fn blank() -> (r: UserPosition)
        ensures
            r == UserPosition::spec_blank(),
    {
        UserPosition {
            user: 0,
            stream_id: 0,
            team_a_shares: 0,
            team_b_shares: 0,
            total_invested: 0,
            has_claimed: false,
        }
    }

    /// Shares held on side `team_id`.
    pub open spec fn shares_of(self, team_id: u8) -> u64 {
        if team_id == 1 {
            self.team_a_shares
        } else {
            self.team_b_shares
        }
    }
}

} // verus!
