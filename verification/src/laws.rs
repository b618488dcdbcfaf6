//! The engine's trade laws, stated and proved once and for all inputs:
//! how a swap moves the reserve product, what a buy-then-sell round trip
//! returns, and why a position can never be paid twice.

use vstd::arithmetic::div_mod::{
    lemma_div_is_ordered, lemma_div_is_ordered_by_denominator, lemma_div_multiples_vanish,
    lemma_div_pos_is_pos, lemma_fundamental_div_mod, lemma_mod_division_less_than_divisor,
    lemma_remainder_upper,
};
use vstd::arithmetic::mul::lemma_mul_is_commutative;
use vstd::prelude::*;

use crate::errors::ErrorCode;
use crate::handlers::{
    claim_error, position_after_claim, position_after_purchase, position_after_sale, spec_payout,
    spec_payout_wide, stream_after_purchase, stream_after_sale,
};
use crate::helpers::{spec_price_wide, spec_shares_out, spec_sol_out, PRECISION};
use crate::state::{Stream, UserPosition};

verus! {

/// Ring identity behind the swap law: if `s` and `m` split `amt * p` over
/// the divisor `q + amt`, then moving `amt` onto one reserve and the
/// floored output off the other changes the product by exactly `m`.
proof fn lemma_swap_product_ring(p: int, q: int, amt: int, s: int, m: int)
    by (nonlinear_arith)
    requires
        amt * p == (q + amt) * s + m,
    ensures
        (p - s) * (q + amt) == p * q + m,
{
}

/// The swap law of the constant-product rule, exactly: a trade that adds
/// `amt` to one reserve (`q`) and removes the floored output
/// `amt * p / (q + amt)` from the other (`p`) grows the reserve product by
/// exactly the division remainder `(amt * p) % (q + amt)`.
///
/// So the product never shrinks — rounding always favours the pool — and
/// never grows by as much as the new divisor: the product is preserved up
/// to the floor-rounding tolerance.
///
/// A buy instantiates `p, q, amt` as the bought side's reserve, the
/// opposite reserve and the lamports spent; a sell as the opposite
/// reserve, the sold side's reserve and the shares returned.
pub proof fn lemma_cpmm_swap_exact(p: int, q: int, amt: int)
    requires
        p > 0,
        q > 0,
        amt > 0,
    ensures
        (p - (amt * p) / (q + amt)) * (q + amt) == p * q + (amt * p) % (q + amt),
        0 <= (amt * p) % (q + amt) < q + amt,
        0 <= (amt * p) / (q + amt) < p,
{
    lemma_fundamental_div_mod(amt * p, q + amt);
    lemma_mod_division_less_than_divisor(amt * p, q + amt);
    crate::helpers::lemma_swap_output_bounds(amt, p, q);
    lemma_swap_product_ring(p, q, amt, (amt * p) / (q + amt), (amt * p) % (q + amt));
}

/// The swap law applied to a purchase: the market's reserve product after
/// a buy is at least what it was, and exceeds it by less than the updated
/// opposite reserve.
pub proof fn lemma_purchase_preserves_invariant(s: Stream, team_id: u8, sol_amount: u64)
    requires
        s.wf(),
        s.is_active,
        team_id == 1 || team_id == 2,
        sol_amount > 0,
        s.reserves_of(team_id).1 + sol_amount <= u64::MAX,
    ensures
        stream_after_purchase(s, team_id, sol_amount).reserve_product() >= s.reserve_product(),
        stream_after_purchase(s, team_id, sol_amount).reserve_product() < s.reserve_product() + (
        s.reserves_of(team_id).1 + sol_amount),
{
    let (rt, ro) = s.reserves_of(team_id);
    let shares = spec_shares_out(sol_amount, rt, ro);
    lemma_cpmm_swap_exact(rt as int, ro as int, sol_amount as int);
    let s2 = stream_after_purchase(s, team_id, sol_amount);
    assert(s2.reserve_product() == (rt - shares) * (ro + sol_amount)) by {
        if team_id != 1 {
            lemma_mul_is_commutative(ro + sol_amount, rt - shares);
        }
    }
    assert(s.reserve_product() == rt * ro) by {
        if team_id != 1 {
            lemma_mul_is_commutative(ro as int, rt as int);
        }
    }
}

/// The swap law applied to a sale: the market's reserve product after a
/// sell is at least what it was, and exceeds it by less than the updated
/// reserve of the sold side.
pub proof fn lemma_sale_preserves_invariant(s: Stream, team_id: u8, shares_amount: u64)
    requires
        s.wf(),
        s.is_active,
        team_id == 1 || team_id == 2,
        shares_amount > 0,
        s.reserves_of(team_id).0 + shares_amount <= u64::MAX,
    ensures
        stream_after_sale(s, team_id, shares_amount).reserve_product() >= s.reserve_product(),
        stream_after_sale(s, team_id, shares_amount).reserve_product() < s.reserve_product() + (
        s.reserves_of(team_id).0 + shares_amount),
{
    let (rt, ro) = s.reserves_of(team_id);
    let sol = spec_sol_out(shares_amount, rt, ro);
    lemma_cpmm_swap_exact(ro as int, rt as int, shares_amount as int);
    let s2 = stream_after_sale(s, team_id, shares_amount);
    assert(s2.reserve_product() == (ro - sol) * (rt + shares_amount)) by {
        if team_id == 1 {
            lemma_mul_is_commutative(rt + shares_amount, ro - sol);
        }
    }
    assert(s.reserve_product() == ro * rt) by {
        if team_id == 1 {
            lemma_mul_is_commutative(rt as int, ro as int);
        }
    }
}

/// Round-trip law, over the raw quantities: buying with `a` lamports on
/// reserves `(t, o)` grants `s = a*t/(o+a)` shares, and selling those `s`
/// shares straight back returns `sol = s*(o+a)/t` lamports. The seller
/// never profits (`sol <= a`), and the shortfall is bounded by the two
/// floors: `t * (a - sol) < (o + a) + t`.
pub proof fn lemma_round_trip_bounds(t: int, o: int, a: int)
    requires
        t > 0,
        o > 0,
        a > 0,
        (a * t) / (o + a) >= 1,
    ensures
        (((a * t) / (o + a)) * (o + a)) / t <= a,
        t * (a - (((a * t) / (o + a)) * (o + a)) / t) < (o + a) + t,
{
    let d = o + a;
    let n = a * t;
    let s = n / d;
    let back = s * d;
    let sol = back / t;

    lemma_fundamental_div_mod(n, d);
    lemma_mod_division_less_than_divisor(n, d);
    assert(back == d * s);
    assert(back <= n && back > n - d);

    // Never profit: s*d <= a*t, so floor(s*d / t) <= floor(a*t / t) == a.
    lemma_div_is_ordered(back, n, t);
    lemma_div_multiples_vanish(a, t);
    lemma_mul_is_commutative(a, t);
    assert(sol <= a);

    // Bounded shortfall: t*sol > s*d - t > a*t - d - t.
    lemma_remainder_upper(back, t);
    assert(back - t < sol * t);
    assert(t * (a - sol) < d + t) by (nonlinear_arith)
        requires
            back > n - d,
            back - t < sol * t,
            n == t * a,
    ;
}

/// Round-trip law in its sharp form: when the opposite reserve plus the
/// spent amount does not exceed the bought side's reserve, an immediate
/// equal sale returns the seller to within one lamport of where they
/// started.
///
/// The margin condition is needed: with `t = 100`, `o = 250`, `a = 50`
/// the buy grants 16 shares and the immediate sale returns 48 lamports,
/// two short of the 50 spent.
pub proof fn lemma_round_trip_within_one(t: int, o: int, a: int)
    requires
        t > 0,
        o > 0,
        a > 0,
        (a * t) / (o + a) >= 1,
        o + a <= t,
    ensures
        a - 1 <= (((a * t) / (o + a)) * (o + a)) / t <= a,
{
    lemma_round_trip_bounds(t, o, a);
    let sol = (((a * t) / (o + a)) * (o + a)) / t;
    assert(t * (a - sol) < t + t);
    assert(a - sol < 2) by (nonlinear_arith)
        requires
            t > 0,
            t * (a - sol) < t + t,
    ;
}

/// Round-trip law read through the market transitions: buy shares with
/// `sol_amount`, sell exactly those shares straight back, and the lamports
/// returned never exceed the lamports spent; when the opposite reserve
/// plus the amount stays within the bought side's reserve, they come back
/// to within one lamport.
pub proof fn lemma_market_round_trip(s: Stream, team_id: u8, sol_amount: u64)
    requires
        s.wf(),
        s.is_active,
        team_id == 1 || team_id == 2,
        sol_amount > 0,
        s.reserves_of(team_id).1 + sol_amount <= u64::MAX,
        spec_shares_out(sol_amount, s.reserves_of(team_id).0, s.reserves_of(team_id).1) >= 1,
    ensures
        ({
            let (rt, ro) = s.reserves_of(team_id);
            let shares = spec_shares_out(sol_amount, rt, ro);
            let s2 = stream_after_purchase(s, team_id, sol_amount);
            let sol = spec_sol_out(shares as u64, s2.reserves_of(team_id).0, s2.reserves_of(team_id).1);
            &&& sol <= sol_amount
            &&& ro + sol_amount <= rt ==> sol >= sol_amount - 1
        }),
{
    let (rt, ro) = s.reserves_of(team_id);
    let shares = spec_shares_out(sol_amount, rt, ro);
    let s2 = stream_after_purchase(s, team_id, sol_amount);
    crate::helpers::lemma_swap_output_bounds(sol_amount as int, rt as int, ro as int);
    assert(s2.reserves_of(team_id).0 == rt - shares);
    assert(s2.reserves_of(team_id).1 == ro + sol_amount);
    let sol = spec_sol_out(shares as u64, s2.reserves_of(team_id).0, s2.reserves_of(team_id).1);
    assert((rt - shares) + (shares as u64) == rt as int);
    assert(sol == ((shares as u64) * ((ro + sol_amount) as u64)) / (rt as int));
    lemma_round_trip_bounds(rt as int, ro as int, sol_amount as int);
    if ro + sol_amount <= rt {
        lemma_round_trip_within_one(rt as int, ro as int, sol_amount as int);
    }
}

/// The price rule is monotone in demand: a side with a smaller own
/// reserve and a larger opposite reserve is priced at least as high.
pub proof fn lemma_price_monotone(rt1: u64, ro1: u64, rt2: u64, ro2: u64)
    requires
        0 < rt1 <= rt2,
        ro1 >= ro2,
    ensures
        spec_price_wide(rt1, ro1) >= spec_price_wide(rt2, ro2),
{
    lemma_div_is_ordered(ro2 * PRECISION, ro1 * PRECISION, rt1 as int);
    lemma_div_is_ordered_by_denominator(ro2 * PRECISION, rt1 as int, rt2 as int);
}

/// A purchase never lowers the bought side's wide price: the buy shrinks
/// that side's reserve and grows the opposite one, and the price rule is
/// monotone in both.
pub proof fn lemma_purchase_raises_own_price(s: Stream, team_id: u8, sol_amount: u64)
    requires
        s.wf(),
        s.is_active,
        team_id == 1 || team_id == 2,
        sol_amount > 0,
        s.reserves_of(team_id).1 + sol_amount <= u64::MAX,
    ensures
        ({
            let s2 = stream_after_purchase(s, team_id, sol_amount);
            spec_price_wide(s2.reserves_of(team_id).0, s2.reserves_of(team_id).1)
                >= spec_price_wide(s.reserves_of(team_id).0, s.reserves_of(team_id).1)
        }),
{
    let (rt, ro) = s.reserves_of(team_id);
    crate::helpers::lemma_swap_output_bounds(sol_amount as int, rt as int, ro as int);
    let s2 = stream_after_purchase(s, team_id, sol_amount);
    lemma_price_monotone(s2.reserves_of(team_id).0, s2.reserves_of(team_id).1, rt, ro);
}

/// A sale never raises the sold side's wide price, symmetrically: the
/// sell grows that side's reserve and shrinks the opposite one.
pub proof fn lemma_sale_lowers_own_price(s: Stream, team_id: u8, shares_amount: u64)
    requires
        s.wf(),
        s.is_active,
        team_id == 1 || team_id == 2,
        shares_amount > 0,
        s.reserves_of(team_id).0 + shares_amount <= u64::MAX,
    ensures
        ({
            let s2 = stream_after_sale(s, team_id, shares_amount);
            spec_price_wide(s2.reserves_of(team_id).0, s2.reserves_of(team_id).1)
                <= spec_price_wide(s.reserves_of(team_id).0, s.reserves_of(team_id).1)
        }),
{
    let (rt, ro) = s.reserves_of(team_id);
    crate::helpers::lemma_swap_output_bounds(shares_amount as int, ro as int, rt as int);
    let s2 = stream_after_sale(s, team_id, shares_amount);
    lemma_price_monotone(rt, ro, s2.reserves_of(team_id).0, s2.reserves_of(team_id).1);
}

/// Shares are conserved by a purchase: the market's cumulative issue on
/// the traded side and the buyer's holding on it grow by exactly the same
/// share output, and the untraded side of both records is untouched — so
/// the sum of holdings over all positions keeps tracking the market's
/// issue counters.
pub proof fn lemma_purchase_conserves_shares(
    s: Stream,
    p: UserPosition,
    user: u64,
    stream_id: u64,
    team_id: u8,
    sol_amount: u64,
)
    requires
        team_id == 1 || team_id == 2,
        s.shares_sold_of(team_id) + spec_shares_out(
            sol_amount,
            s.reserves_of(team_id).0,
            s.reserves_of(team_id).1,
        ) <= u64::MAX,
        (if p.user == 0 {
            0int
        } else {
            p.shares_of(team_id) as int
        }) + spec_shares_out(sol_amount, s.reserves_of(team_id).0, s.reserves_of(team_id).1)
            <= u64::MAX,
        spec_shares_out(sol_amount, s.reserves_of(team_id).0, s.reserves_of(team_id).1) >= 0,
    ensures
        ({
            let s2 = stream_after_purchase(s, team_id, sol_amount);
            let p1 = crate::handlers::position_for(p, user, stream_id);
            let p2 = position_after_purchase(s, p, user, stream_id, team_id, sol_amount);
            &&& s2.shares_sold_of(team_id) - s.shares_sold_of(team_id) == p2.shares_of(team_id)
                - p1.shares_of(team_id)
            &&& s2.shares_sold_of((3 - team_id) as u8) == s.shares_sold_of((3 - team_id) as u8)
            &&& p2.shares_of((3 - team_id) as u8) == p1.shares_of((3 - team_id) as u8)
        }),
{
}

/// Shares are conserved by a sale, symmetrically: issue counter and
/// holding shrink by the same amount and the untraded side is untouched.
pub proof fn lemma_sale_conserves_shares(s: Stream, p: UserPosition, team_id: u8, shares_amount: u64)
    requires
        team_id == 1 || team_id == 2,
        shares_amount <= p.shares_of(team_id),
        shares_amount <= s.shares_sold_of(team_id),
        0 <= spec_sol_out(shares_amount, s.reserves_of(team_id).0, s.reserves_of(team_id).1)
            <= s.total_pool,
        spec_sol_out(shares_amount, s.reserves_of(team_id).0, s.reserves_of(team_id).1)
            <= p.total_invested,
    ensures
        ({
            let s2 = stream_after_sale(s, team_id, shares_amount);
            let p2 = position_after_sale(s, p, team_id, shares_amount);
            &&& s.shares_sold_of(team_id) - s2.shares_sold_of(team_id) == p.shares_of(team_id)
                - p2.shares_of(team_id)
            &&& s2.shares_sold_of((3 - team_id) as u8) == s.shares_sold_of((3 - team_id) as u8)
            &&& p2.shares_of((3 - team_id) as u8) == p.shares_of((3 - team_id) as u8)
        }),
{
}

/// A position pays out at most once: after any successful claim, every
/// further claim against the same position fails with `AlreadyClaimed`,
/// whoever calls.
pub proof fn lemma_claim_pays_once(s: Stream, p: UserPosition, user: u64, later_caller: u64)
    requires
        claim_error(s, p, user) is None,
    ensures
        claim_error(s, position_after_claim(p), later_caller) == Some(ErrorCode::AlreadyClaimed),
{
}

/// Two floored pro-rata slices of a pool never exceed the pool, as long
/// as the shares they are computed from do not exceed the side's total
/// issue.
pub proof fn lemma_slices_never_overdraw(pool: int, s1: int, s2: int, total: int)
    requires
        pool >= 0,
        s1 >= 0,
        s2 >= 0,
        total > 0,
        s1 + s2 <= total,
    ensures
        (pool * s1) / total + (pool * s2) / total <= pool,
{
    let q1 = (pool * s1) / total;
    let r1 = (pool * s1) % total;
    let q2 = (pool * s2) / total;
    let r2 = (pool * s2) % total;
    lemma_fundamental_div_mod(pool * s1, total);
    lemma_fundamental_div_mod(pool * s2, total);
    lemma_mod_division_less_than_divisor(pool * s1, total);
    lemma_mod_division_less_than_divisor(pool * s2, total);
    assert((q1 + q2) * total <= pool * total) by (nonlinear_arith)
        requires
            pool * s1 == total * q1 + r1,
            pool * s2 == total * q2 + r2,
            r1 >= 0,
            r2 >= 0,
            s1 + s2 <= total,
            pool >= 0,
            total > 0,
    ;
    assert(q1 + q2 <= pool) by (nonlinear_arith)
        requires
            (q1 + q2) * total <= pool * total,
            total > 0,
    ;
}

/// A claim against a consistent ledger — the claimant's winning shares do
/// not exceed the side's total issue — computes a payout that already fits
/// in 64 bits and never exceeds the pool, so the engine's overflow guard
/// on the payout never fires on any reachable history.
pub proof fn lemma_payout_exact_when_consistent(s: Stream, p: UserPosition)
    requires
        s.shares_sold_of(s.winning_team) > 0,
        p.shares_of(s.winning_team) <= s.shares_sold_of(s.winning_team),
    ensures
        0 <= spec_payout_wide(s, p) <= s.total_pool,
        spec_payout(s, p) == spec_payout_wide(s, p),
{
    let pool = s.total_pool as int;
    let shares = p.shares_of(s.winning_team) as int;
    let total = s.shares_sold_of(s.winning_team) as int;
    lemma_div_pos_is_pos(pool * shares, total);
    assert(pool * shares <= pool * total) by (nonlinear_arith)
        requires
            0 <= shares <= total,
            pool >= 0,
    ;
    lemma_div_is_ordered(pool * shares, pool * total, total);
    lemma_div_multiples_vanish(pool, total);
    lemma_mul_is_commutative(pool, total);
}

/// Settlement solvency for any two distinct claimants: whenever their
/// winning-side holdings together stay within the side's total issue, the
/// sum of their payouts stays within the frozen pool — rounding in the
/// pool's favour keeps claims from overdrawing it.
pub proof fn lemma_settlement_never_overdraws(s: Stream, p1: UserPosition, p2: UserPosition)
    requires
        s.shares_sold_of(s.winning_team) > 0,
        p1.shares_of(s.winning_team) + p2.shares_of(s.winning_team) <= s.shares_sold_of(
            s.winning_team,
        ),
    ensures
        spec_payout(s, p1) + spec_payout(s, p2) <= s.total_pool,
{
    lemma_payout_exact_when_consistent(s, p1);
    lemma_payout_exact_when_consistent(s, p2);
    lemma_slices_never_overdraw(
        s.total_pool as int,
        p1.shares_of(s.winning_team) as int,
        p2.shares_of(s.winning_team) as int,
        s.shares_sold_of(s.winning_team) as int,
    );
}

/// Trading never touches the claim flag: a purchase leaves it exactly as
/// it was (false on a freshly created position), and a sale leaves it
/// unchanged, so `has_claimed` is false until the first successful claim.
pub proof fn lemma_trades_never_claim(
    s: Stream,
    p: UserPosition,
    user: u64,
    stream_id: u64,
    team_id: u8,
    amount: u64,
)
    ensures
        position_after_purchase(s, p, user, stream_id, team_id, amount).has_claimed == (p.user != 0
            && p.has_claimed),
        position_after_sale(s, p, team_id, amount).has_claimed == p.has_claimed,
{
}

} // verus!
