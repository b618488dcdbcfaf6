//! The market operations: initialize, buy, sell, end, claim and emergency
//! withdraw.
//!
//! Each handler validates every precondition before it mutates anything, so
//! a failed operation leaves both ledger records exactly as they were. The
//! host supplies the authenticated caller identity and the current time,
//! performs the escrow transfer for the amount a successful result names,
//! and stores the records back; the handlers own all bookkeeping in
//! between.
//!
//! For every handler there is a spec-level model: an error function that
//! says exactly which failure each input produces, and transition functions
//! that say exactly how the records change on success. The handler's
//! contract ties its result to that model.

use vstd::prelude::*;

use crate::errors::ErrorCode;
use crate::events::{SharesPurchased, SharesSold, StreamEnded, StreamInitialized, WinningsClaimed};
use crate::helpers::{
    calculate_price, calculate_shares_out, calculate_sol_out, lemma_balanced_price,
    spec_price_wide, spec_shares_out, spec_sol_out, PRECISION,
};
use crate::state::{Stream, UserPosition};

verus! {

/// Which failure, if any, market initialization reports for these inputs.
///
/// Checks run in this order: name lengths, a positive and even initial
/// liquidity, a positive duration, and a scheduled end that still fits in
/// a 64-bit timestamp.
pub open spec fn initialize_error(
    team_a_name: Seq<u8>,
    team_b_name: Seq<u8>,
    initial_liquidity: u64,
    stream_duration: i64,
    now: i64,
) -> Option<ErrorCode> {
    if team_a_name.len() > 32 {
        Some(ErrorCode::NameTooLong)
    } else if team_b_name.len() > 32 {
        Some(ErrorCode::NameTooLong)
    } else if initial_liquidity == 0 {
        Some(ErrorCode::InvalidPrice)
    } else if initial_liquidity % 2 != 0 {
        Some(ErrorCode::InvalidPrice)
    } else if stream_duration <= 0 {
        Some(ErrorCode::InvalidDuration)
    } else if now + stream_duration > i64::MAX {
        Some(ErrorCode::MathOverflow)
    } else {
        None
    }
}

/// Create a market: split `initial_liquidity` evenly into the two virtual
/// reserves, open trading now and schedule its end `stream_duration`
/// seconds ahead.
///
/// Returns the new market record together with its creation event, whose
/// initial spot price is always exactly one scale unit, [`PRECISION`].
pub fn initialize_stream_handler(
    authority: u64,
    stream_id: u64,
    team_a_name: Vec<u8>,
    team_b_name: Vec<u8>,
    initial_liquidity: u64,
    stream_duration: i64,
    stream_link: Vec<u8>,
    now: i64,
) -> (r: Result<(Stream, StreamInitialized), ErrorCode>)
    requires
        stream_link@.len() <= 256,
    ensures
        match r {
            Ok((stream, ev)) => {
                &&& initialize_error(
                    team_a_name@,
                    team_b_name@,
                    initial_liquidity,
                    stream_duration,
                    now,
                ) is None
                &&& stream.authority == authority
                &&& stream.stream_id == stream_id
                &&& stream.team_a_name == team_a_name
                &&& stream.team_b_name == team_b_name
                &&& stream.team_a_reserve == initial_liquidity / 2
                &&& stream.team_b_reserve == initial_liquidity / 2
                &&& stream.team_a_shares_sold == 0
                &&& stream.team_b_shares_sold == 0
                &&& stream.total_pool == 0
                &&& stream.start_time == now
                &&& stream.end_time == now + stream_duration
                &&& stream.is_active
                &&& stream.winning_team == 0
                &&& stream.stream_link == stream_link
                &&& stream.wf()
                &&& ev.stream_id == stream_id
                &&& ev.authority == authority
                &&& ev.team_a_name@ == team_a_name@
                &&& ev.team_b_name@ == team_b_name@
                &&& ev.initial_liquidity == initial_liquidity
                &&& ev.initial_price == PRECISION
                &&& ev.end_time == now + stream_duration
                &&& ev.stream_link@ == stream_link@
            },
            Err(e) => Some(e) == initialize_error(
                team_a_name@,
                team_b_name@,
                initial_liquidity,
                stream_duration,
                now,
            ),
        },
{
    if team_a_name.len() > 32 {
        return Err(ErrorCode::NameTooLong);
    }
    if team_b_name.len() > 32 {
        return Err(ErrorCode::NameTooLong);
    }
    if initial_liquidity == 0 {
        return Err(ErrorCode::InvalidPrice);
    }
    if initial_liquidity % 2 != 0 {
        return Err(ErrorCode::InvalidPrice);
    }
    if stream_duration <= 0 {
        return Err(ErrorCode::InvalidDuration);
    }
    if now > i64::MAX - stream_duration {
        return Err(ErrorCode::MathOverflow);
    }

    let half_liquidity = initial_liquidity / 2;

    let ev_team_a_name = team_a_name.clone();
    let ev_team_b_name = team_b_name.clone();
    let ev_stream_link = stream_link.clone();
    proof {
        assert(ev_team_a_name@ =~= team_a_name@);
        assert(ev_team_b_name@ =~= team_b_name@);
        assert(ev_stream_link@ =~= stream_link@);
    }

    let stream = Stream {
        authority,
        stream_id,
        team_a_name,
        team_b_name,
        team_a_reserve: half_liquidity,
        team_b_reserve: half_liquidity,
        team_a_shares_sold: 0,
        team_b_shares_sold: 0,
        total_pool: 0,
        start_time: now,
        end_time: now + stream_duration,
        is_active: true,
        winning_team: 0,
        stream_link,
    };

    proof {
        lemma_balanced_price(half_liquidity);
    }
    let initial_price = match calculate_price(stream.team_a_reserve, stream.team_b_reserve) {
        Ok(p) => p,
        Err(e) => return Err(e),
    };

    let ev = StreamInitialized {
        stream_id,
        authority,
        team_a_name: ev_team_a_name,
        team_b_name: ev_team_b_name,
        initial_liquidity,
        initial_price,
        end_time: stream.end_time,
        stream_link: ev_stream_link,
    };

    Ok((stream, ev))
}

/// The position a purchase credits: the record as it stands, or a fresh
/// one owned by the buyer if the record is still blank (lazy creation on a
/// user's first trade).
pub open spec fn position_for(p: UserPosition, user: u64, stream_id: u64) -> UserPosition {
    if p.user == 0 {
        UserPosition {
            user,
            stream_id,
            team_a_shares: 0,
            team_b_shares: 0,
            total_invested: 0,
            has_claimed: false,
        }
    } else {
        p
    }
}

/// Which failure, if any, a purchase reports for these inputs.
///
/// Checks run in this order: the market is active and inside its trading
/// window, the side and amount are valid, both price snapshots fit in 64
/// bits, the floored share output is not zero, and no ledger counter
/// would leave its 64-bit range.
pub open spec fn purchase_error(
    s: Stream,
    p: UserPosition,
    team_id: u8,
    sol_amount: u64,
    now: i64,
) -> Option<ErrorCode> {
    if !s.is_active {
        Some(ErrorCode::StreamNotActive)
    } else if now >= s.end_time {
        Some(ErrorCode::StreamEnded)
    } else if !(team_id == 1 || team_id == 2) {
        Some(ErrorCode::InvalidTeam)
    } else if sol_amount == 0 {
        Some(ErrorCode::InvalidAmount)
    } else {
        let (reserve_team, reserve_opposite) = s.reserves_of(team_id);
        let shares = spec_shares_out(sol_amount, reserve_team, reserve_opposite);
        let held = if p.user == 0 {
            0
        } else {
            p.shares_of(team_id) as int
        };
        let invested = if p.user == 0 {
            0
        } else {
            p.total_invested as int
        };
        if spec_price_wide(reserve_team, reserve_opposite) > u64::MAX {
            Some(ErrorCode::MathOverflow)
        } else if shares == 0 {
            Some(ErrorCode::InvalidAmount)
        } else if reserve_opposite + sol_amount > u64::MAX {
            Some(ErrorCode::MathOverflow)
        } else if s.shares_sold_of(team_id) + shares > u64::MAX {
            Some(ErrorCode::MathOverflow)
        } else if s.total_pool + sol_amount > u64::MAX {
            Some(ErrorCode::MathOverflow)
        } else if spec_price_wide(
            (reserve_team - shares) as u64,
            (reserve_opposite + sol_amount) as u64,
        ) > u64::MAX {
            Some(ErrorCode::MathOverflow)
        } else if held + shares > u64::MAX {
            Some(ErrorCode::MathOverflow)
        } else if invested + sol_amount > u64::MAX {
            Some(ErrorCode::MathOverflow)
        } else {
            None
        }
    }
}

/// The market after a successful purchase: the chosen side's reserve
/// shrinks by the floored share output, the opposite reserve and the pool
/// grow by the spent amount, and the side's cumulative issue grows by the
/// share output.
pub open spec fn stream_after_purchase(s: Stream, team_id: u8, sol_amount: u64) -> Stream {
    let (reserve_team, reserve_opposite) = s.reserves_of(team_id);
    let shares = spec_shares_out(sol_amount, reserve_team, reserve_opposite);
    if team_id == 1 {
        Stream {
            team_a_reserve: (reserve_team - shares) as u64,
            team_b_reserve: (reserve_opposite + sol_amount) as u64,
            team_a_shares_sold: (s.team_a_shares_sold + shares) as u64,
            total_pool: (s.total_pool + sol_amount) as u64,
            ..s
        }
    } else {
        Stream {
            team_b_reserve: (reserve_team - shares) as u64,
            team_a_reserve: (reserve_opposite + sol_amount) as u64,
            team_b_shares_sold: (s.team_b_shares_sold + shares) as u64,
            total_pool: (s.total_pool + sol_amount) as u64,
            ..s
        }
    }
}

/// The buyer's position after a successful purchase: created if blank,
/// then credited with the share output and the spent amount.
pub open spec fn position_after_purchase(
    s: Stream,
    p: UserPosition,
    user: u64,
    stream_id: u64,
    team_id: u8,
    sol_amount: u64,
) -> UserPosition {
    let (reserve_team, reserve_opposite) = s.reserves_of(team_id);
    let shares = spec_shares_out(sol_amount, reserve_team, reserve_opposite);
    let p1 = position_for(p, user, stream_id);
    if team_id == 1 {
        UserPosition {
            team_a_shares: (p1.team_a_shares + shares) as u64,
            total_invested: (p1.total_invested + sol_amount) as u64,
            ..p1
        }
    } else {
        UserPosition {
            team_b_shares: (p1.team_b_shares + shares) as u64,
            total_invested: (p1.total_invested + sol_amount) as u64,
            ..p1
        }
    }
}

/// The trade record of a successful purchase: amounts, and price and
/// reserve snapshots on the traded side before and after.
pub open spec fn purchase_event(
    s: Stream,
    user: u64,
    stream_id: u64,
    team_id: u8,
    sol_amount: u64,
) -> SharesPurchased {
    let (reserve_team, reserve_opposite) = s.reserves_of(team_id);
    let shares = spec_shares_out(sol_amount, reserve_team, reserve_opposite);
    let s2 = stream_after_purchase(s, team_id, sol_amount);
    let (reserve_team_after, reserve_opposite_after) = s2.reserves_of(team_id);
    SharesPurchased {
        stream_id,
        user,
        team_id,
        sol_spent: sol_amount,
        shares_received: shares as u64,
        price_before: spec_price_wide(reserve_team, reserve_opposite) as u64,
        price_after: spec_price_wide(reserve_team_after, reserve_opposite_after) as u64,
        reserve_team_before: reserve_team,
        reserve_team_after: reserve_team_after,
    }
}

/// Buy shares of side `team_id` for `sol_amount` lamports.
///
/// On success the host owes the market's escrow a deposit of exactly
/// `sol_amount`; the market and the buyer's position change exactly as
/// [`stream_after_purchase`] and [`position_after_purchase`] say, and the
/// market stays well-formed. On failure both records are untouched and the
/// error is exactly what [`purchase_error`] says.
///
/// The keyed store addresses the position record by (market, caller), so a
/// non-blank record is owned by the caller and points at this market; the
/// caller identity 0 is reserved for blank records.
pub fn purchase_shares_handler(
    stream: &mut Stream,
    user_position: &mut UserPosition,
    user: u64,
    stream_id: u64,
    team_id: u8,
    sol_amount: u64,
    now: i64,
) -> (r: Result<SharesPurchased, ErrorCode>)
    requires
        old(stream).wf(),
        old(stream).stream_id == stream_id,
        user != 0,
        old(user_position).user == 0 || (old(user_position).user == user && old(
            user_position,
        ).stream_id == stream_id),
    ensures
        final(stream).wf(),
        match r {
            Ok(ev) => {
                &&& purchase_error(*old(stream), *old(user_position), team_id, sol_amount, now)
                    is None
                &&& *final(stream) == stream_after_purchase(*old(stream), team_id, sol_amount)
                &&& *final(user_position) == position_after_purchase(
                    *old(stream),
                    *old(user_position),
                    user,
                    stream_id,
                    team_id,
                    sol_amount,
                )
                &&& ev == purchase_event(*old(stream), user, stream_id, team_id, sol_amount)
            },
            Err(e) => {
                &&& Some(e) == purchase_error(
                    *old(stream),
                    *old(user_position),
                    team_id,
                    sol_amount,
                    now,
                )
                &&& *final(stream) == *old(stream)
                &&& *final(user_position) == *old(user_position)
            },
        },
{
    if !stream.is_active {
        return Err(ErrorCode::StreamNotActive);
    }
    if now >= stream.end_time {
        return Err(ErrorCode::StreamEnded);
    }
    if !(team_id == 1 || team_id == 2) {
        return Err(ErrorCode::InvalidTeam);
    }
    if sol_amount == 0 {
        return Err(ErrorCode::InvalidAmount);
    }

    let (reserve_team, reserve_opposite) = if team_id == 1 {
        (stream.team_a_reserve, stream.team_b_reserve)
    } else {
        (stream.team_b_reserve, stream.team_a_reserve)
    };

    let price_before = match calculate_price(reserve_team, reserve_opposite) {
        Ok(p) => p,
        Err(e) => return Err(e),
    };

    let shares_out = match calculate_shares_out(sol_amount, reserve_team, reserve_opposite) {
        Ok(s) => s,
        Err(e) => return Err(e),
    };

    if sol_amount > u64::MAX - reserve_opposite {
        return Err(ErrorCode::MathOverflow);
    }
    let shares_sold = if team_id == 1 {
        stream.team_a_shares_sold
    } else {
        stream.team_b_shares_sold
    };
    if shares_out > u64::MAX - shares_sold {
        return Err(ErrorCode::MathOverflow);
    }
    if sol_amount > u64::MAX - stream.total_pool {
        return Err(ErrorCode::MathOverflow);
    }

    let reserve_team_after = reserve_team - shares_out;
    let reserve_opposite_after = reserve_opposite + sol_amount;
    let price_after = match calculate_price(reserve_team_after, reserve_opposite_after) {
        Ok(p) => p,
        Err(e) => return Err(e),
    };

    let held = if user_position.user == 0 {
        0
    } else if team_id == 1 {
        user_position.team_a_shares
    } else {
        user_position.team_b_shares
    };
    if shares_out > u64::MAX - held {
        return Err(ErrorCode::MathOverflow);
    }
    let invested = if user_position.user == 0 {
        0
    } else {
        user_position.total_invested
    };
    if sol_amount > u64::MAX - invested {
        return Err(ErrorCode::MathOverflow);
    }

    if team_id == 1 {
        stream.team_a_reserve = reserve_team_after;
        stream.team_b_reserve = reserve_opposite_after;
        stream.team_a_shares_sold = stream.team_a_shares_sold + shares_out;
    } else {
        stream.team_b_reserve = reserve_team_after;
        stream.team_a_reserve = reserve_opposite_after;
        stream.team_b_shares_sold = stream.team_b_shares_sold + shares_out;
    }
    stream.total_pool = stream.total_pool + sol_amount;

    if user_position.user == 0 {
        user_position.user = user;
        user_position.stream_id = stream_id;
        user_position.team_a_shares = 0;
        user_position.team_b_shares = 0;
        user_position.total_invested = 0;
        user_position.has_claimed = false;
    }
    if team_id == 1 {
        user_position.team_a_shares = user_position.team_a_shares + shares_out;
    } else {
        user_position.team_b_shares = user_position.team_b_shares + shares_out;
    }
    user_position.total_invested = user_position.total_invested + sol_amount;

    Ok(
        SharesPurchased {
            stream_id,
            user,
            team_id,
            sol_spent: sol_amount,
            shares_received: shares_out,
            price_before,
            price_after,
            reserve_team_before: reserve_team,
            reserve_team_after,
        },
    )
}

/// Which failure, if any, a sale reports for these inputs.
///
/// Checks run in this order: the market is active and inside its trading
/// window, the side and amount are valid, the caller owns the position and
/// holds enough shares on that side, both price snapshots fit in 64 bits,
/// the floored lamport output is not zero, and no ledger counter would
/// leave its 64-bit range or fall below zero.
pub open spec fn sale_error(
    s: Stream,
    p: UserPosition,
    user: u64,
    team_id: u8,
    shares_amount: u64,
    now: i64,
) -> Option<ErrorCode> {
    if !s.is_active {
        Some(ErrorCode::StreamNotActive)
    } else if now >= s.end_time {
        Some(ErrorCode::StreamEnded)
    } else if !(team_id == 1 || team_id == 2) {
        Some(ErrorCode::InvalidTeam)
    } else if shares_amount == 0 {
        Some(ErrorCode::InvalidAmount)
    } else if user != p.user {
        Some(ErrorCode::Unauthorized)
    } else if p.shares_of(team_id) < shares_amount {
        Some(ErrorCode::InsufficientShares)
    } else {
        let (reserve_team, reserve_opposite) = s.reserves_of(team_id);
        let sol = spec_sol_out(shares_amount, reserve_team, reserve_opposite);
        if spec_price_wide(reserve_team, reserve_opposite) > u64::MAX {
            Some(ErrorCode::MathOverflow)
        } else if sol == 0 {
            Some(ErrorCode::InvalidAmount)
        } else if reserve_team + shares_amount > u64::MAX {
            Some(ErrorCode::MathOverflow)
        } else if s.shares_sold_of(team_id) < shares_amount {
            Some(ErrorCode::MathOverflow)
        } else if s.total_pool < sol {
            Some(ErrorCode::MathOverflow)
        } else if spec_price_wide(
            (reserve_team + shares_amount) as u64,
            (reserve_opposite - sol) as u64,
        ) > u64::MAX {
            Some(ErrorCode::MathOverflow)
        } else if p.total_invested < sol {
            Some(ErrorCode::MathOverflow)
        } else {
            None
        }
    }
}

/// The market after a successful sale: the exact reverse of a purchase's
/// reserve updates — the chosen side's reserve grows by the shares given
/// back, the opposite reserve and the pool shrink by the floored lamport
/// output, and the side's cumulative issue shrinks by the shares.
pub open spec fn stream_after_sale(s: Stream, team_id: u8, shares_amount: u64) -> Stream {
    let (reserve_team, reserve_opposite) = s.reserves_of(team_id);
    let sol = spec_sol_out(shares_amount, reserve_team, reserve_opposite);
    if team_id == 1 {
        Stream {
            team_a_reserve: (reserve_team + shares_amount) as u64,
            team_b_reserve: (reserve_opposite - sol) as u64,
            team_a_shares_sold: (s.team_a_shares_sold - shares_amount) as u64,
            total_pool: (s.total_pool - sol) as u64,
            ..s
        }
    } else {
        Stream {
            team_b_reserve: (reserve_team + shares_amount) as u64,
            team_a_reserve: (reserve_opposite - sol) as u64,
            team_b_shares_sold: (s.team_b_shares_sold - shares_amount) as u64,
            total_pool: (s.total_pool - sol) as u64,
            ..s
        }
    }
}

/// The seller's position after a successful sale: debited by the shares
/// given back and by the lamports received.
pub open spec fn position_after_sale(
    s: Stream,
    p: UserPosition,
    team_id: u8,
    shares_amount: u64,
) -> UserPosition {
    let (reserve_team, reserve_opposite) = s.reserves_of(team_id);
    let sol = spec_sol_out(shares_amount, reserve_team, reserve_opposite);
    if team_id == 1 {
        UserPosition {
            team_a_shares: (p.team_a_shares - shares_amount) as u64,
            total_invested: (p.total_invested - sol) as u64,
            ..p
        }
    } else {
        UserPosition {
            team_b_shares: (p.team_b_shares - shares_amount) as u64,
            total_invested: (p.total_invested - sol) as u64,
            ..p
        }
    }
}

/// The trade record of a successful sale: amounts, and price and reserve
/// snapshots on the traded side before and after.
pub open spec fn sale_event(
    s: Stream,
    user: u64,
    stream_id: u64,
    team_id: u8,
    shares_amount: u64,
) -> SharesSold {
    let (reserve_team, reserve_opposite) = s.reserves_of(team_id);
    let sol = spec_sol_out(shares_amount, reserve_team, reserve_opposite);
    let s2 = stream_after_sale(s, team_id, shares_amount);
    let (reserve_team_after, reserve_opposite_after) = s2.reserves_of(team_id);
    SharesSold {
        stream_id,
        user,
        team_id,
        shares_sold: shares_amount,
        sol_received: sol as u64,
        price_before: spec_price_wide(reserve_team, reserve_opposite) as u64,
        price_after: spec_price_wide(reserve_team_after, reserve_opposite_after) as u64,
        reserve_team_before: reserve_team,
        reserve_team_after: reserve_team_after,
    }
}

/// Sell `shares_amount` shares of side `team_id` back to the pool.
///
/// On success the host owes the caller a payment of exactly the event's
/// `sol_received` out of the market's escrow; the market and the seller's
/// position change exactly as [`stream_after_sale`] and
/// [`position_after_sale`] say, and the market stays well-formed. On
/// failure both records are untouched and the error is exactly what
/// [`sale_error`] says.
pub fn sell_shares_handler(
    stream: &mut Stream,
    user_position: &mut UserPosition,
    user: u64,
    stream_id: u64,
    team_id: u8,
    shares_amount: u64,
    now: i64,
) -> (r: Result<SharesSold, ErrorCode>)
    requires
        old(stream).wf(),
        old(stream).stream_id == stream_id,
        old(user_position).user != 0 ==> old(user_position).stream_id == stream_id,
    ensures
        final(stream).wf(),
        match r {
            Ok(ev) => {
                &&& sale_error(
                    *old(stream),
                    *old(user_position),
                    user,
                    team_id,
                    shares_amount,
                    now,
                ) is None
                &&& *final(stream) == stream_after_sale(*old(stream), team_id, shares_amount)
                &&& *final(user_position) == position_after_sale(
                    *old(stream),
                    *old(user_position),
                    team_id,
                    shares_amount,
                )
                &&& ev == sale_event(*old(stream), user, stream_id, team_id, shares_amount)
            },
            Err(e) => {
                &&& Some(e) == sale_error(
                    *old(stream),
                    *old(user_position),
                    user,
                    team_id,
                    shares_amount,
                    now,
                )
                &&& *final(stream) == *old(stream)
                &&& *final(user_position) == *old(user_position)
            },
        },
{
    if !stream.is_active {
        return Err(ErrorCode::StreamNotActive);
    }
    if now >= stream.end_time {
        return Err(ErrorCode::StreamEnded);
    }
    if !(team_id == 1 || team_id == 2) {
        return Err(ErrorCode::InvalidTeam);
    }
    if shares_amount == 0 {
        return Err(ErrorCode::InvalidAmount);
    }
    if user != user_position.user {
        return Err(ErrorCode::Unauthorized);
    }
    let held = if team_id == 1 {
        user_position.team_a_shares
    } else {
        user_position.team_b_shares
    };
    if held < shares_amount {
        return Err(ErrorCode::InsufficientShares);
    }

    let (reserve_team, reserve_opposite) = if team_id == 1 {
        (stream.team_a_reserve, stream.team_b_reserve)
    } else {
        (stream.team_b_reserve, stream.team_a_reserve)
    };

    let price_before = match calculate_price(reserve_team, reserve_opposite) {
        Ok(p) => p,
        Err(e) => return Err(e),
    };

    let sol_out = match calculate_sol_out(shares_amount, reserve_team, reserve_opposite) {
        Ok(s) => s,
        Err(e) => return Err(e),
    };

    if shares_amount > u64::MAX - reserve_team {
        return Err(ErrorCode::MathOverflow);
    }
    let shares_sold = if team_id == 1 {
        stream.team_a_shares_sold
    } else {
        stream.team_b_shares_sold
    };
    if shares_sold < shares_amount {
        return Err(ErrorCode::MathOverflow);
    }
    if stream.total_pool < sol_out {
        return Err(ErrorCode::MathOverflow);
    }

    let reserve_team_after = reserve_team + shares_amount;
    let reserve_opposite_after = reserve_opposite - sol_out;
    let price_after = match calculate_price(reserve_team_after, reserve_opposite_after) {
        Ok(p) => p,
        Err(e) => return Err(e),
    };

    if user_position.total_invested < sol_out {
        return Err(ErrorCode::MathOverflow);
    }

    if team_id == 1 {
        stream.team_a_reserve = reserve_team_after;
        stream.team_b_reserve = reserve_opposite_after;
        stream.team_a_shares_sold = stream.team_a_shares_sold - shares_amount;
    } else {
        stream.team_b_reserve = reserve_team_after;
        stream.team_a_reserve = reserve_opposite_after;
        stream.team_b_shares_sold = stream.team_b_shares_sold - shares_amount;
    }
    stream.total_pool = stream.total_pool - sol_out;

    if team_id == 1 {
        user_position.team_a_shares = user_position.team_a_shares - shares_amount;
    } else {
        user_position.team_b_shares = user_position.team_b_shares - shares_amount;
    }
    user_position.total_invested = user_position.total_invested - sol_out;

    Ok(
        SharesSold {
            stream_id,
            user,
            team_id,
            shares_sold: shares_amount,
            sol_received: sol_out,
            price_before,
            price_after,
            reserve_team_before: reserve_team,
            reserve_team_after,
        },
    )
}

/// Which failure, if any, ending a market reports for these inputs.
///
/// Checks run in this order: the market is still active, the caller is its
/// authority, its trading window has closed, the proposed winner is a
/// valid side, and both final price snapshots fit in 64 bits.
pub open spec fn end_error(s: Stream, authority: u64, winning_team: u8, now: i64) -> Option<
    ErrorCode,
> {
    if !s.is_active {
        Some(ErrorCode::StreamNotActive)
    } else if authority != s.authority {
        Some(ErrorCode::Unauthorized)
    } else if now < s.end_time {
        Some(ErrorCode::StreamNotEnded)
    } else if !(winning_team == 1 || winning_team == 2) {
        Some(ErrorCode::InvalidTeam)
    } else if spec_price_wide(s.team_a_reserve, s.team_b_reserve) > u64::MAX {
        Some(ErrorCode::MathOverflow)
    } else if spec_price_wide(s.team_b_reserve, s.team_a_reserve) > u64::MAX {
        Some(ErrorCode::MathOverflow)
    } else {
        None
    }
}

/// The market after a successful end: trading is closed and the winner is
/// recorded; reserves, issues and the pool are frozen as they stand.
pub open spec fn stream_after_end(s: Stream, winning_team: u8) -> Stream {
    Stream { is_active: false, winning_team, ..s }
}

/// The resolution record: the frozen totals and the final spot prices of
/// both sides, for analytics.
pub open spec fn end_event(s: Stream, winning_team: u8) -> StreamEnded {
    StreamEnded {
        stream_id: s.stream_id,
        winning_team,
        total_pool: s.total_pool,
        team_a_shares: s.team_a_shares_sold,
        team_b_shares: s.team_b_shares_sold,
        final_team_a_price: spec_price_wide(s.team_a_reserve, s.team_b_reserve) as u64,
        final_team_b_price: spec_price_wide(s.team_b_reserve, s.team_a_reserve) as u64,
    }
}

/// End the market and declare `winning_team` the winner: the one-way
/// transition out of the active state, allowed only to the market's
/// authority and only once the trading window has closed.
///
/// On success the market changes exactly as [`stream_after_end`] says and
/// stays well-formed; on failure it is untouched and the error is exactly
/// what [`end_error`] says.
pub fn end_stream_handler(stream: &mut Stream, authority: u64, winning_team: u8, now: i64) -> (r:
    Result<StreamEnded, ErrorCode>)
    requires
        old(stream).wf(),
    ensures
        final(stream).wf(),
        match r {
            Ok(ev) => {
                &&& end_error(*old(stream), authority, winning_team, now) is None
                &&& *final(stream) == stream_after_end(*old(stream), winning_team)
                &&& ev == end_event(*old(stream), winning_team)
            },
            Err(e) => {
                &&& Some(e) == end_error(*old(stream), authority, winning_team, now)
                &&& *final(stream) == *old(stream)
            },
        },
{
    if !stream.is_active {
        return Err(ErrorCode::StreamNotActive);
    }
    if authority != stream.authority {
        return Err(ErrorCode::Unauthorized);
    }
    if now < stream.end_time {
        return Err(ErrorCode::StreamNotEnded);
    }
    if !(winning_team == 1 || winning_team == 2) {
        return Err(ErrorCode::InvalidTeam);
    }

    let final_team_a_price = match calculate_price(stream.team_a_reserve, stream.team_b_reserve) {
        Ok(p) => p,
        Err(e) => return Err(e),
    };
    let final_team_b_price = match calculate_price(stream.team_b_reserve, stream.team_a_reserve) {
        Ok(p) => p,
        Err(e) => return Err(e),
    };

    stream.is_active = false;
    stream.winning_team = winning_team;

    Ok(
        StreamEnded {
            stream_id: stream.stream_id,
            winning_team,
            total_pool: stream.total_pool,
            team_a_shares: stream.team_a_shares_sold,
            team_b_shares: stream.team_b_shares_sold,
            final_team_a_price,
            final_team_b_price,
        },
    )
}

/// The payout a claim computes, before the final narrowing to 64 bits:
/// the frozen pool, split pro rata by the claimant's share of the winning
/// side's total issue, floored.
pub open spec fn spec_payout_wide(s: Stream, p: UserPosition) -> int
    recommends
        s.shares_sold_of(s.winning_team) > 0,
{
    (s.total_pool * p.shares_of(s.winning_team)) / (s.shares_sold_of(s.winning_team) as int)
}

/// The payout as the engine pays it. The engine only pays when the wide
/// quotient fits in 64 bits — it fails with `MathOverflow` otherwise — so
/// the narrowing here is always exact where it is applied. On any
/// consistent ledger, where the claimant's shares do not exceed the
/// side's total issue, the quotient fits anyway (see the settlement
/// laws).
pub open spec fn spec_payout(s: Stream, p: UserPosition) -> u64
    recommends
        s.shares_sold_of(s.winning_team) > 0,
        spec_payout_wide(s, p) <= u64::MAX,
{
    spec_payout_wide(s, p) as u64
}

/// Which failure, if any, a claim reports for these inputs.
///
/// Checks run in this order: the market has ended with a declared winner,
/// the position has not claimed yet and belongs to the caller, the caller
/// holds winning-side shares, the winning side's total issue is not zero,
/// the payout fits in 64 bits, and the floored payout is not zero.
pub open spec fn claim_error(s: Stream, p: UserPosition, user: u64) -> Option<ErrorCode> {
    if s.is_active {
        Some(ErrorCode::StreamStillActive)
    } else if s.winning_team == 0 {
        Some(ErrorCode::NoWinnerDeclared)
    } else if p.has_claimed {
        Some(ErrorCode::AlreadyClaimed)
    } else if p.user != user {
        Some(ErrorCode::Unauthorized)
    } else if p.shares_of(s.winning_team) == 0 {
        Some(ErrorCode::NoWinningShares)
    } else if s.shares_sold_of(s.winning_team) == 0 {
        Some(ErrorCode::MathOverflow)
    } else if spec_payout_wide(s, p) > u64::MAX {
        Some(ErrorCode::MathOverflow)
    } else if spec_payout_wide(s, p) == 0 {
        Some(ErrorCode::NoPayout)
    } else {
        None
    }
}

/// The position after a successful claim: marked as paid, holdings kept
/// for the audit trail.
pub open spec fn position_after_claim(p: UserPosition) -> UserPosition {
    UserPosition { has_claimed: true, ..p }
}

/// The settlement record of a successful claim.
pub open spec fn claim_event(s: Stream, p: UserPosition, user: u64, stream_id: u64) -> WinningsClaimed {
    WinningsClaimed {
        stream_id,
        user,
        winning_team: s.winning_team,
        shares: p.shares_of(s.winning_team),
        payout: spec_payout(s, p),
    }
}

/// Redeem the caller's winning-side shares for their pro-rata slice of the
/// pool. Losing-side shares are worth nothing; the whole frozen pool is
/// divided solely among winning-side holders, floored in the pool's
/// favour, one payout per position.
///
/// On success the host owes the caller a payment of exactly the event's
/// `payout` out of the market's escrow; the market itself is read-only
/// here and never changes. On failure the position is untouched and the
/// error is exactly what [`claim_error`] says.
pub fn claim_winnings_handler(
    stream: &Stream,
    user_position: &mut UserPosition,
    user: u64,
    stream_id: u64,
) -> (r: Result<WinningsClaimed, ErrorCode>)
    requires
        stream.wf(),
        stream.stream_id == stream_id,
        old(user_position).user != 0 ==> old(user_position).stream_id == stream_id,
    ensures
        match r {
            Ok(ev) => {
                &&& claim_error(*stream, *old(user_position), user) is None
                &&& *final(user_position) == position_after_claim(*old(user_position))
                &&& ev == claim_event(*stream, *old(user_position), user, stream_id)
            },
            Err(e) => {
                &&& Some(e) == claim_error(*stream, *old(user_position), user)
                &&& *final(user_position) == *old(user_position)
            },
        },
{
    if stream.is_active {
        return Err(ErrorCode::StreamStillActive);
    }
    if stream.winning_team == 0 {
        return Err(ErrorCode::NoWinnerDeclared);
    }
    if user_position.has_claimed {
        return Err(ErrorCode::AlreadyClaimed);
    }
    if user_position.user != user {
        return Err(ErrorCode::Unauthorized);
    }

    let user_winning_shares = if stream.winning_team == 1 {
        user_position.team_a_shares
    } else {
        user_position.team_b_shares
    };
    if user_winning_shares == 0 {
        return Err(ErrorCode::NoWinningShares);
    }

    let total_winning_shares = if stream.winning_team == 1 {
        stream.team_a_shares_sold
    } else {
        stream.team_b_shares_sold
    };
    if total_winning_shares == 0 {
        return Err(ErrorCode::MathOverflow);
    }

    proof {
        crate::helpers::lemma_u64_mul_fits_u128(stream.total_pool, user_winning_shares);
    }
    let numerator: u128 = (stream.total_pool as u128) * (user_winning_shares as u128);
    let payout_wide: u128 = numerator / (total_winning_shares as u128);
    if payout_wide > u64::MAX as u128 {
        return Err(ErrorCode::MathOverflow);
    }
    let payout: u64 = payout_wide as u64;
    if payout == 0 {
        return Err(ErrorCode::NoPayout);
    }

    user_position.has_claimed = true;

    Ok(
        WinningsClaimed {
            stream_id,
            user,
            winning_team: stream.winning_team,
            shares: user_winning_shares,
            payout,
        },
    )
}

/// Which failure, if any, an emergency withdrawal reports.
///
/// Checks run in this order: the caller is the market's authority, and the
/// market is no longer active.
pub open spec fn emergency_withdraw_error(s: Stream, authority: u64) -> Option<ErrorCode> {
    if authority != s.authority {
        Some(ErrorCode::Unauthorized)
    } else if s.is_active {
        Some(ErrorCode::StreamStillActive)
    } else {
        None
    }
}

/// Authorize draining the market's whole escrow balance to its authority.
///
/// The host reads the escrow balance, and on success transfers exactly the
/// returned amount — everything — to the authority, with no further
/// bookkeeping. This is a deliberate escape hatch: it can empty a resolved
/// market before every winner has claimed, leaving later claimants with a
/// depleted vault.
pub fn emergency_withdraw_handler(stream: &Stream, authority: u64, vault_balance: u64) -> (r:
    Result<u64, ErrorCode>)
    ensures
        match r {
            Ok(amount) => {
                &&& emergency_withdraw_error(*stream, authority) is None
                &&& amount == vault_balance
            },
            Err(e) => Some(e) == emergency_withdraw_error(*stream, authority),
        },
{
    if authority != stream.authority {
        return Err(ErrorCode::Unauthorized);
    }
    if stream.is_active {
        return Err(ErrorCode::StreamStillActive);
    }
    Ok(vault_balance)
}

} // verus!
