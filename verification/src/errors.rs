//! Error taxonomy of the engine.
//!
//! Every operation checks its preconditions before touching any record, so
//! an error always leaves the market and position ledgers unchanged.

use vstd::prelude::*;

verus! {

/// Why an operation was refused.
#[derive(Clone, Copy, Debug, PartialEq, Eq, Structural)]
pub enum ErrorCode {
    /// The market is not active.
    StreamNotActive,
    /// The market's trading window has closed.
    StreamEnded,
    /// The market's trading window has not closed yet.
    StreamNotEnded,
    /// The side identifier is neither 1 (team A) nor 2 (team B).
    InvalidTeam,
    /// A zero trade amount, or a trade whose floored result is zero.
    InvalidAmount,
    /// A price against an empty reserve, or an ill-formed initial liquidity.
    InvalidPrice,
    /// A non-positive market duration.
    InvalidDuration,
    /// A team name longer than 32 bytes.
    NameTooLong,
    /// The caller does not own the record it tries to change.
    Unauthorized,
    /// An intermediate ledger quantity left its 64-bit range.
    MathOverflow,
    /// The market is still active, so settlement operations are refused.
    StreamStillActive,
    /// The market ended without a declared winner.
    NoWinnerDeclared,
    /// The position has already redeemed its payout.
    AlreadyClaimed,
    /// The position holds no shares on the winning side.
    NoWinningShares,
    /// The computed payout is zero.
    NoPayout,
    /// The position holds fewer shares than it tries to sell.
    InsufficientShares,
}

} // verus!
