//! Pool accounting across a market's lifetime.
//!
//! Every successful operation moves lamports between the caller and the
//! market's escrow in exactly one of three shapes: a buy deposits its
//! amount, a sell withdraws its floored output, and a claim pays out a
//! winner's slice. The handlers' contracts fix each operation's effect on
//! `total_pool` — a buy adds its deposit, a sell subtracts its withdrawal,
//! a claim leaves the pool untouched — and the host moves the same amount
//! through escrow. Replaying any history of such movements therefore
//! reconciles exactly: at every observation point the pool equals all
//! lamports deposited minus all withdrawn, and the escrow balance equals
//! the pool minus all payouts.

use vstd::prelude::*;

use crate::helpers::spec_sol_out;
use crate::state::Stream;

verus! {

/// One escrow movement of a successful operation.
pub enum LedgerEntry {
    /// A buy: the caller deposits `amount` lamports into escrow.
    Deposit { amount: u64 },
    /// A sell: the caller withdraws `amount` lamports from escrow.
    Withdrawal { amount: u64 },
    /// A claim: a winner is paid `amount` lamports from escrow.
    Payout { amount: u64 },
}

/// How one movement changes the market's `total_pool`: claims never touch
/// it — the pool is frozen at resolution and every payout is computed
/// against that frozen value.
pub open spec fn pool_delta(e: LedgerEntry) -> int {
    match e {
        LedgerEntry::Deposit { amount } => amount as int,
        LedgerEntry::Withdrawal { amount } => -(amount as int),
        LedgerEntry::Payout { amount: _ } => 0,
    }
}

/// How one movement changes the escrow balance.
pub open spec fn vault_delta(e: LedgerEntry) -> int {
    match e {
        LedgerEntry::Deposit { amount } => amount as int,
        LedgerEntry::Withdrawal { amount } => -(amount as int),
        LedgerEntry::Payout { amount } => -(amount as int),
    }
}

/// The pool after replaying a history of movements over an empty market.
pub open spec fn replayed_pool(history: Seq<LedgerEntry>) -> int
    decreases history.len(),
{
    if history.len() == 0 {
        0
    } else {
        replayed_pool(history.drop_last()) + pool_delta(history.last())
    }
}

/// The escrow balance after replaying a history of movements over an
/// empty vault.
pub open spec fn replayed_vault(history: Seq<LedgerEntry>) -> int
    decreases history.len(),
{
    if history.len() == 0 {
        0
    } else {
        replayed_vault(history.drop_last()) + vault_delta(history.last())
    }
}

/// All lamports ever deposited by buys in a history.
pub open spec fn total_deposited(history: Seq<LedgerEntry>) -> int
    decreases history.len(),
{
    if history.len() == 0 {
        0
    } else {
        total_deposited(history.drop_last()) + match history.last() {
            LedgerEntry::Deposit { amount } => amount as int,
            _ => 0,
        }
    }
}

/// All lamports ever withdrawn by sells in a history.
pub open spec fn total_withdrawn(history: Seq<LedgerEntry>) -> int
    decreases history.len(),
{
    if history.len() == 0 {
        0
    } else {
        total_withdrawn(history.drop_last()) + match history.last() {
            LedgerEntry::Withdrawal { amount } => amount as int,
            _ => 0,
        }
    }
}

/// All lamports ever paid out by claims in a history.
pub open spec fn total_paid_out(history: Seq<LedgerEntry>) -> int
    decreases history.len(),
{
    if history.len() == 0 {
        0
    } else {
        total_paid_out(history.drop_last()) + match history.last() {
            LedgerEntry::Payout { amount } => amount as int,
            _ => 0,
        }
    }
}

/// The accounting law: after any history of movements, the pool equals
/// everything buys deposited minus everything sells withdrew, and the
/// escrow balance equals that same figure minus everything claims paid
/// out — so vault and pool differ by exactly the payouts, at every
/// observation point.
pub proof fn lemma_pool_accounting(history: Seq<LedgerEntry>)
    ensures
        replayed_pool(history) == total_deposited(history) - total_withdrawn(history),
        replayed_vault(history) == total_deposited(history) - total_withdrawn(history)
            - total_paid_out(history),
        replayed_vault(history) == replayed_pool(history) - total_paid_out(history),
    decreases history.len(),
{
    if history.len() > 0 {
        lemma_pool_accounting(history.drop_last());
    }
}

/// A successful purchase moves the pool by exactly its deposit.
pub proof fn lemma_purchase_pool_flow(s: Stream, team_id: u8, sol_amount: u64)
    requires
        team_id == 1 || team_id == 2,
        s.total_pool + sol_amount <= u64::MAX,
    ensures
        crate::handlers::stream_after_purchase(s, team_id, sol_amount).total_pool == s.total_pool
            + pool_delta(LedgerEntry::Deposit { amount: sol_amount }),
{
}

/// A successful sale moves the pool by exactly its floored withdrawal.
pub proof fn lemma_sale_pool_flow(s: Stream, team_id: u8, shares_amount: u64)
    requires
        team_id == 1 || team_id == 2,
        s.wf(),
        s.is_active,
        shares_amount > 0,
        spec_sol_out(shares_amount, s.reserves_of(team_id).0, s.reserves_of(team_id).1)
            <= s.total_pool,
    ensures
        ({
            let sol = spec_sol_out(shares_amount, s.reserves_of(team_id).0, s.reserves_of(team_id).1);
            crate::handlers::stream_after_sale(s, team_id, shares_amount).total_pool == s.total_pool
                + pool_delta(LedgerEntry::Withdrawal { amount: sol as u64 })
        }),
{
    let (rt, ro) = s.reserves_of(team_id);
    crate::helpers::lemma_swap_output_bounds(shares_amount as int, ro as int, rt as int);
}

} // verus!
