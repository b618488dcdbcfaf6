//! The pricing engine: spot price, shares bought for a lamport amount, and
//! lamports redeemed for a share amount, all by the constant-product rule
//! over the two virtual reserves.
//!
//! Every formula floors its division, which always rounds in the pool's
//! favour; every intermediate step is carried in 128 bits, wide enough for
//! the full 64-bit input range.

use vstd::arithmetic::div_mod::{
    lemma_div_multiples_vanish, lemma_div_pos_is_pos, lemma_multiply_divide_lt,
};
use vstd::arithmetic::mul::lemma_mul_strict_inequality;
use vstd::prelude::*;

use crate::errors::ErrorCode;

verus! {

/// Fixed-point scale of spot prices: one whole unit, in lamports.
pub const PRECISION: u64 = 1_000_000_000;

/// Spot price of a side: opposite reserve per unit of own reserve, scaled
/// by [`PRECISION`] and floored. The engine reports it only when it fits
/// in 64 bits, and fails with `MathOverflow` when it does not — nothing is
/// ever silently narrowed.
pub open spec fn spec_price_wide(reserve_team: u64, reserve_opposite: u64) -> int
    recommends
        reserve_team > 0,
{
    (reserve_opposite * PRECISION) / (reserve_team as int)
}

/// Shares granted for spending `amount_in` lamports against the reserve
/// pair: `floor(amount_in * reserve_team / (reserve_opposite + amount_in))`.
pub open spec fn spec_shares_out(amount_in: u64, reserve_team: u64, reserve_opposite: u64) -> int
    recommends
        amount_in > 0 || reserve_opposite > 0,
{
    (amount_in * reserve_team) / (reserve_opposite + amount_in)
}

/// Lamports granted for redeeming `shares_in` shares against the reserve
/// pair: `floor(shares_in * reserve_opposite / (reserve_team + shares_in))`.
pub open spec fn spec_sol_out(shares_in: u64, reserve_team: u64, reserve_opposite: u64) -> int
    recommends
        shares_in > 0 || reserve_team > 0,
{
    (shares_in * reserve_opposite) / (reserve_team + shares_in)
}

/// The product of two 64-bit quantities always fits in 128 bits, which is
/// why every intermediate step of the engine is carried at that width.
pub proof fn lemma_u64_mul_fits_u128(x: u64, y: u64)
    by (nonlinear_arith)
    ensures
        x * y <= u64::MAX * u64::MAX < u128::MAX,
{
}

/// The floored swap output is at least 0 and strictly below the reserve it
/// draws from, so a trade can neither mint from nothing nor drain a side.
pub proof fn lemma_swap_output_bounds(amt: int, drawn: int, grown: int)
    requires
        amt > 0,
        drawn > 0,
        grown > 0,
    ensures
        0 <= (amt * drawn) / (grown + amt) < drawn,
{
    lemma_div_pos_is_pos(amt * drawn, grown + amt);
    lemma_mul_strict_inequality(amt, grown + amt, drawn);
    lemma_multiply_divide_lt(amt * drawn, grown + amt, drawn);
}

/// Current spot price of the side whose reserve is `reserve_team`.
///
/// Lower own reserve (more demand) yields a higher price. Fails with
/// `InvalidPrice` on an empty own reserve and with `MathOverflow` when the
/// scaled quotient does not fit in 64 bits; otherwise returns exactly the
/// floored quotient.
pub fn calculate_price(reserve_team: u64, reserve_opposite: u64) -> (r: Result<u64, ErrorCode>)
    ensures
        reserve_team == 0 ==> r == Err::<u64, ErrorCode>(ErrorCode::InvalidPrice),
        reserve_team > 0 && spec_price_wide(reserve_team, reserve_opposite) > u64::MAX ==> r
            == Err::<u64, ErrorCode>(ErrorCode::MathOverflow),
        reserve_team > 0 && spec_price_wide(reserve_team, reserve_opposite) <= u64::MAX ==> r
            == Ok::<u64, ErrorCode>(spec_price_wide(reserve_team, reserve_opposite) as u64),
{
    if reserve_team == 0 {
        return Err(ErrorCode::InvalidPrice);
    }
    proof {
        lemma_u64_mul_fits_u128(reserve_opposite, PRECISION);
    }
    let numerator: u128 = (reserve_opposite as u128) * (PRECISION as u128);
    let wide: u128 = numerator / (reserve_team as u128);
    if wide > u64::MAX as u128 {
        return Err(ErrorCode::MathOverflow);
    }
    Ok(wide as u64)
}

/// Shares received for `amount_in_lamports` spent on the side whose own
/// reserve is `reserve_team`.
///
/// Fails with `InvalidAmount` on a zero amount or a zero floored result,
/// and with `InvalidPrice` on an empty reserve. A successful result is
/// always strictly below `reserve_team`, so the buy never drains the side.
pub fn calculate_shares_out(
    amount_in_lamports: u64,
    reserve_team: u64,
    reserve_opposite: u64,
) -> (r: Result<u64, ErrorCode>)
    ensures
        amount_in_lamports == 0 ==> r == Err::<u64, ErrorCode>(ErrorCode::InvalidAmount),
        amount_in_lamports > 0 && (reserve_team == 0 || reserve_opposite == 0) ==> r == Err::<
            u64,
            ErrorCode,
        >(ErrorCode::InvalidPrice),
        amount_in_lamports > 0 && reserve_team > 0 && reserve_opposite > 0 ==> {
            let shares = spec_shares_out(amount_in_lamports, reserve_team, reserve_opposite);
            if shares == 0 {
                r == Err::<u64, ErrorCode>(ErrorCode::InvalidAmount)
            } else {
                r == Ok::<u64, ErrorCode>(shares as u64) && 0 < shares < reserve_team
            }
        },
{
    if amount_in_lamports == 0 {
        return Err(ErrorCode::InvalidAmount);
    }
    if reserve_team == 0 || reserve_opposite == 0 {
        return Err(ErrorCode::InvalidPrice);
    }
    proof {
        lemma_swap_output_bounds(
            amount_in_lamports as int,
            reserve_team as int,
            reserve_opposite as int,
        );
        lemma_u64_mul_fits_u128(amount_in_lamports, reserve_team);
    }
    let numerator: u128 = (amount_in_lamports as u128) * (reserve_team as u128);
    let denominator: u128 = (reserve_opposite as u128) + (amount_in_lamports as u128);
    let shares_out: u64 = (numerator / denominator) as u64;
    if shares_out == 0 {
        return Err(ErrorCode::InvalidAmount);
    }
    Ok(shares_out)
}

/// Lamports received for redeeming `shares_in` shares of the side whose
/// own reserve is `reserve_team`.
///
/// The exact inverse of [`calculate_shares_out`]: the share amount grows
/// the own reserve and the payout is drawn from the opposite reserve, so a
/// successful result is always strictly below `reserve_opposite`.
pub fn calculate_sol_out(shares_in: u64, reserve_team: u64, reserve_opposite: u64) -> (r: Result<
    u64,
    ErrorCode,
>)
    ensures
        shares_in == 0 ==> r == Err::<u64, ErrorCode>(ErrorCode::InvalidAmount),
        shares_in > 0 && (reserve_team == 0 || reserve_opposite == 0) ==> r == Err::<
            u64,
            ErrorCode,
        >(ErrorCode::InvalidPrice),
        shares_in > 0 && reserve_team > 0 && reserve_opposite > 0 ==> {
            let sol = spec_sol_out(shares_in, reserve_team, reserve_opposite);
            if sol == 0 {
                r == Err::<u64, ErrorCode>(ErrorCode::InvalidAmount)
            } else {
                r == Ok::<u64, ErrorCode>(sol as u64) && 0 < sol < reserve_opposite
            }
        },
{
    if shares_in == 0 {
        return Err(ErrorCode::InvalidAmount);
    }
    if reserve_team == 0 || reserve_opposite == 0 {
        return Err(ErrorCode::InvalidPrice);
    }
    proof {
        lemma_swap_output_bounds(shares_in as int, reserve_opposite as int, reserve_team as int);
        lemma_u64_mul_fits_u128(shares_in, reserve_opposite);
    }
    let numerator: u128 = (shares_in as u128) * (reserve_opposite as u128);
    let denominator: u128 = (reserve_team as u128) + (shares_in as u128);
    let sol_out: u64 = (numerator / denominator) as u64;
    if sol_out == 0 {
        return Err(ErrorCode::InvalidAmount);
    }
    Ok(sol_out)
}

/// The constant-product invariant `reserve_a * reserve_b`, carried in 128
/// bits where it always fits; used for auditing, never for control flow.
pub fn calculate_invariant(reserve_a: u64, reserve_b: u64) -> (r: Result<u128, ErrorCode>)
    ensures
        r == Ok::<u128, ErrorCode>((reserve_a * reserve_b) as u128),
{
    proof {
        lemma_u64_mul_fits_u128(reserve_a, reserve_b);
    }
    Ok((reserve_a as u128) * (reserve_b as u128))
}

/// The spot price of a balanced market is exactly one scale unit: equal
/// reserves price both sides at [`PRECISION`].
pub proof fn lemma_balanced_price(reserve: u64)
    requires
        reserve > 0,
    ensures
        spec_price_wide(reserve, reserve) == PRECISION,
{
    lemma_div_multiples_vanish(PRECISION as int, reserve as int);
    assert(reserve * PRECISION == (reserve as int) * (PRECISION as int));
}

} // verus!
