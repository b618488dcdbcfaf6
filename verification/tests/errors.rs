use prophecy::errors::ErrorCode;
use prophecy::handlers::{
    claim_winnings_handler, end_stream_handler, initialize_stream_handler,
    purchase_shares_handler, sell_shares_handler,
};
use prophecy::helpers::{
    calculate_invariant, calculate_price, calculate_shares_out, calculate_sol_out,
};
use prophecy::state::{Stream, UserPosition};

const AUTHORITY: u64 = 11;
const ALICE: u64 = 21;
const BOB: u64 = 22;

fn new_market(initial_liquidity: u64, duration: i64, now: i64) -> Stream {
    let (stream, _ev) = initialize_stream_handler(
        AUTHORITY,
        1,
        b"Team A".to_vec(),
        b"Team B".to_vec(),
        initial_liquidity,
        duration,
        Vec::new(),
        now,
    )
    .expect("market creation must succeed");
    stream
}

#[test]
fn pricing_rejects_an_empty_reserve() {
    assert_eq!(calculate_price(0, 500).unwrap_err(), ErrorCode::InvalidPrice);
    assert_eq!(calculate_price(500, 600).unwrap(), 1_200_000_000);
    // A drained opposite side prices at zero rather than failing.
    assert_eq!(calculate_price(500, 0).unwrap(), 0);
}

#[test]
fn pricing_fails_rather_than_narrow_silently() {
    // A scaled quotient beyond 64 bits is an arithmetic fault, never a
    // truncated number.
    assert_eq!(calculate_price(1, u64::MAX).unwrap_err(), ErrorCode::MathOverflow);
    // The boundary: 18_446_744_073 * 10^9 still fits, one more does not.
    assert_eq!(calculate_price(1, 18_446_744_073).unwrap(), 18_446_744_073_000_000_000);
    assert_eq!(calculate_price(1, 18_446_744_074).unwrap_err(), ErrorCode::MathOverflow);
}

#[test]
fn share_pricing_rejects_bad_inputs() {
    assert_eq!(calculate_shares_out(0, 500, 500).unwrap_err(), ErrorCode::InvalidAmount);
    assert_eq!(calculate_shares_out(100, 0, 500).unwrap_err(), ErrorCode::InvalidPrice);
    assert_eq!(calculate_shares_out(100, 500, 0).unwrap_err(), ErrorCode::InvalidPrice);
    // An amount too small for one whole share floors to zero and is refused.
    assert_eq!(calculate_shares_out(1, 2, 1000).unwrap_err(), ErrorCode::InvalidAmount);
    assert_eq!(calculate_shares_out(100, 500, 500).unwrap(), 83);
}

#[test]
fn redemption_pricing_rejects_bad_inputs() {
    assert_eq!(calculate_sol_out(0, 500, 500).unwrap_err(), ErrorCode::InvalidAmount);
    assert_eq!(calculate_sol_out(100, 0, 500).unwrap_err(), ErrorCode::InvalidPrice);
    assert_eq!(calculate_sol_out(100, 500, 0).unwrap_err(), ErrorCode::InvalidPrice);
    assert_eq!(calculate_sol_out(1, 2, 1000).unwrap(), 333);
    assert_eq!(calculate_sol_out(83, 417, 600).unwrap(), 99);
}

#[test]
fn invariant_is_the_reserve_product() {
    assert_eq!(calculate_invariant(500, 500).unwrap(), 250_000);
    assert_eq!(calculate_invariant(u64::MAX, u64::MAX).unwrap(), (u64::MAX as u128) * (u64::MAX as u128));
}

#[test]
fn initialization_validates_its_inputs() {
    let long_name = vec![b'x'; 33];
    let r = initialize_stream_handler(
        AUTHORITY,
        1,
        long_name.clone(),
        b"B".to_vec(),
        1000,
        3600,
        Vec::new(),
        0,
    );
    assert_eq!(r.unwrap_err(), ErrorCode::NameTooLong);

    let r = initialize_stream_handler(
        AUTHORITY,
        1,
        b"A".to_vec(),
        long_name,
        1000,
        3600,
        Vec::new(),
        0,
    );
    assert_eq!(r.unwrap_err(), ErrorCode::NameTooLong);

    let r = initialize_stream_handler(
        AUTHORITY,
        1,
        b"A".to_vec(),
        b"B".to_vec(),
        0,
        3600,
        Vec::new(),
        0,
    );
    assert_eq!(r.unwrap_err(), ErrorCode::InvalidPrice);

    // Odd liquidity cannot be split evenly.
    let r = initialize_stream_handler(
        AUTHORITY,
        1,
        b"A".to_vec(),
        b"B".to_vec(),
        1001,
        3600,
        Vec::new(),
        0,
    );
    assert_eq!(r.unwrap_err(), ErrorCode::InvalidPrice);

    let r = initialize_stream_handler(
        AUTHORITY,
        1,
        b"A".to_vec(),
        b"B".to_vec(),
        1000,
        0,
        Vec::new(),
        0,
    );
    assert_eq!(r.unwrap_err(), ErrorCode::InvalidDuration);

    // A scheduled end beyond the 64-bit timestamp range is refused.
    let r = initialize_stream_handler(
        AUTHORITY,
        1,
        b"A".to_vec(),
        b"B".to_vec(),
        1000,
        3600,
        Vec::new(),
        i64::MAX - 10,
    );
    assert_eq!(r.unwrap_err(), ErrorCode::MathOverflow);
}

#[test]
fn an_overflowing_price_snapshot_aborts_the_operation() {
    // Reserves lopsided past the 64-bit price range: every operation that
    // would report a price refuses instead of narrowing it.
    let mut stream = Stream {
        authority: AUTHORITY,
        stream_id: 1,
        team_a_name: Vec::new(),
        team_b_name: Vec::new(),
        team_a_reserve: 1,
        team_b_reserve: u64::MAX,
        team_a_shares_sold: 40,
        team_b_shares_sold: 0,
        total_pool: 100,
        start_time: 0,
        end_time: 3600,
        is_active: true,
        winning_team: 0,
        stream_link: Vec::new(),
    };
    let mut position = UserPosition {
        user: ALICE,
        stream_id: 1,
        team_a_shares: 40,
        team_b_shares: 0,
        total_invested: 100,
        has_claimed: false,
    };

    let r = purchase_shares_handler(&mut stream, &mut position, ALICE, 1, 1, 100, 10);
    assert_eq!(r.unwrap_err(), ErrorCode::MathOverflow);
    assert_eq!(stream.team_a_reserve, 1);
    assert_eq!(stream.total_pool, 100);

    let r = sell_shares_handler(&mut stream, &mut position, ALICE, 1, 1, 10, 10);
    assert_eq!(r.unwrap_err(), ErrorCode::MathOverflow);
    assert_eq!(position.team_a_shares, 40);

    let r = end_stream_handler(&mut stream, AUTHORITY, 1, 3600);
    assert_eq!(r.unwrap_err(), ErrorCode::MathOverflow);
    assert!(stream.is_active);
    assert_eq!(stream.winning_team, 0);
}

#[test]
fn an_overflowing_payout_is_an_arithmetic_fault() {
    // An inconsistent ledger where the claimant holds more than the side
    // ever issued can push the pro-rata quotient past 64 bits: refused,
    // never narrowed.
    let stream = Stream {
        authority: AUTHORITY,
        stream_id: 1,
        team_a_name: Vec::new(),
        team_b_name: Vec::new(),
        team_a_reserve: 500,
        team_b_reserve: 500,
        team_a_shares_sold: 2,
        team_b_shares_sold: 0,
        total_pool: u64::MAX,
        start_time: 0,
        end_time: 3600,
        is_active: false,
        winning_team: 1,
        stream_link: Vec::new(),
    };
    let mut position = UserPosition {
        user: ALICE,
        stream_id: 1,
        team_a_shares: 3,
        team_b_shares: 0,
        total_invested: 100,
        has_claimed: false,
    };
    let r = claim_winnings_handler(&stream, &mut position, ALICE, 1);
    assert_eq!(r.unwrap_err(), ErrorCode::MathOverflow);
    assert!(!position.has_claimed);
}

#[test]
fn trading_is_gated_by_the_lifecycle() {
    let mut stream = new_market(1000, 3600, 0);
    let mut position = UserPosition::blank();

    // At or past end_time the window is closed.
    let r = purchase_shares_handler(&mut stream, &mut position, ALICE, 1, 1, 100, 3600);
    assert_eq!(r.unwrap_err(), ErrorCode::StreamEnded);
    let r = sell_shares_handler(&mut stream, &mut position, ALICE, 1, 1, 10, 3600);
    assert_eq!(r.unwrap_err(), ErrorCode::StreamEnded);

    end_stream_handler(&mut stream, AUTHORITY, 1, 3600).expect("end must succeed");

    let r = purchase_shares_handler(&mut stream, &mut position, ALICE, 1, 1, 100, 3700);
    assert_eq!(r.unwrap_err(), ErrorCode::StreamNotActive);
    let r = sell_shares_handler(&mut stream, &mut position, ALICE, 1, 1, 10, 3700);
    assert_eq!(r.unwrap_err(), ErrorCode::StreamNotActive);
}

#[test]
fn trades_validate_side_and_amount() {
    let mut stream = new_market(1000, 3600, 0);
    let mut position = UserPosition::blank();

    let r = purchase_shares_handler(&mut stream, &mut position, ALICE, 1, 0, 100, 10);
    assert_eq!(r.unwrap_err(), ErrorCode::InvalidTeam);
    let r = purchase_shares_handler(&mut stream, &mut position, ALICE, 1, 3, 100, 10);
    assert_eq!(r.unwrap_err(), ErrorCode::InvalidTeam);
    let r = purchase_shares_handler(&mut stream, &mut position, ALICE, 1, 1, 0, 10);
    assert_eq!(r.unwrap_err(), ErrorCode::InvalidAmount);

    let r = sell_shares_handler(&mut stream, &mut position, ALICE, 1, 7, 10, 10);
    assert_eq!(r.unwrap_err(), ErrorCode::InvalidTeam);
    let r = sell_shares_handler(&mut stream, &mut position, ALICE, 1, 1, 0, 10);
    assert_eq!(r.unwrap_err(), ErrorCode::InvalidAmount);

    assert_eq!(stream.total_pool, 0);
}

#[test]
fn selling_needs_an_owned_position_with_enough_shares() {
    let mut stream = new_market(1000, 3600, 0);
    let mut position = UserPosition::blank();
    purchase_shares_handler(&mut stream, &mut position, ALICE, 1, 1, 100, 10)
        .expect("purchase must succeed");

    let r = sell_shares_handler(&mut stream, &mut position, BOB, 1, 1, 10, 20);
    assert_eq!(r.unwrap_err(), ErrorCode::Unauthorized);

    let r = sell_shares_handler(&mut stream, &mut position, ALICE, 1, 1, 84, 20);
    assert_eq!(r.unwrap_err(), ErrorCode::InsufficientShares);

    let r = sell_shares_handler(&mut stream, &mut position, ALICE, 1, 2, 1, 20);
    assert_eq!(r.unwrap_err(), ErrorCode::InsufficientShares);
}

#[test]
fn a_buy_overflowing_the_opposite_reserve_is_refused_whole() {
    let mut stream = new_market(1000, 3600, 0);
    let mut position = UserPosition::blank();

    let r = purchase_shares_handler(&mut stream, &mut position, ALICE, 1, 1, u64::MAX - 400, 10);
    assert_eq!(r.unwrap_err(), ErrorCode::MathOverflow);
    // Nothing moved.
    assert_eq!(stream.team_a_reserve, 500);
    assert_eq!(stream.team_b_reserve, 500);
    assert_eq!(stream.total_pool, 0);
    assert_eq!(position.user, 0);
}

#[test]
fn ending_checks_authority_and_winner() {
    let mut stream = new_market(1000, 3600, 0);

    let r = end_stream_handler(&mut stream, BOB, 1, 3600);
    assert_eq!(r.unwrap_err(), ErrorCode::Unauthorized);

    let r = end_stream_handler(&mut stream, AUTHORITY, 0, 3600);
    assert_eq!(r.unwrap_err(), ErrorCode::InvalidTeam);
    let r = end_stream_handler(&mut stream, AUTHORITY, 3, 3600);
    assert_eq!(r.unwrap_err(), ErrorCode::InvalidTeam);
    assert!(stream.is_active);
}

#[test]
fn claiming_is_gated_by_resolution_and_ownership() {
    let mut stream = new_market(1000, 3600, 0);
    let mut position = UserPosition::blank();
    purchase_shares_handler(&mut stream, &mut position, ALICE, 1, 1, 100, 10)
        .expect("purchase must succeed");

    let r = claim_winnings_handler(&stream, &mut position, ALICE, 1);
    assert_eq!(r.unwrap_err(), ErrorCode::StreamStillActive);

    end_stream_handler(&mut stream, AUTHORITY, 1, 3600).expect("end must succeed");

    let r = claim_winnings_handler(&stream, &mut position, BOB, 1);
    assert_eq!(r.unwrap_err(), ErrorCode::Unauthorized);

    let ev = claim_winnings_handler(&stream, &mut position, ALICE, 1).expect("claim must succeed");
    assert_eq!(ev.payout, 100);
}

#[test]
fn claiming_without_a_declared_winner_is_refused() {
    // Checked defensively: an ended market always names a winner, but a
    // hand-built record without one must still be refused.
    let stream = Stream {
        authority: AUTHORITY,
        stream_id: 1,
        team_a_name: Vec::new(),
        team_b_name: Vec::new(),
        team_a_reserve: 500,
        team_b_reserve: 500,
        team_a_shares_sold: 50,
        team_b_shares_sold: 0,
        total_pool: 100,
        start_time: 0,
        end_time: 3600,
        is_active: false,
        winning_team: 0,
        stream_link: Vec::new(),
    };
    let mut position = UserPosition {
        user: ALICE,
        stream_id: 1,
        team_a_shares: 50,
        team_b_shares: 0,
        total_invested: 100,
        has_claimed: false,
    };
    let r = claim_winnings_handler(&stream, &mut position, ALICE, 1);
    assert_eq!(r.unwrap_err(), ErrorCode::NoWinnerDeclared);
}

#[test]
fn an_inconsistent_winning_total_is_an_arithmetic_fault() {
    // The winning side's cumulative issue is zero while the claimant holds
    // shares: dividing by it must be refused as overflow, not guessed at.
    let stream = Stream {
        authority: AUTHORITY,
        stream_id: 1,
        team_a_name: Vec::new(),
        team_b_name: Vec::new(),
        team_a_reserve: 500,
        team_b_reserve: 500,
        team_a_shares_sold: 0,
        team_b_shares_sold: 0,
        total_pool: 100,
        start_time: 0,
        end_time: 3600,
        is_active: false,
        winning_team: 1,
        stream_link: Vec::new(),
    };
    let mut position = UserPosition {
        user: ALICE,
        stream_id: 1,
        team_a_shares: 50,
        team_b_shares: 0,
        total_invested: 100,
        has_claimed: false,
    };
    let r = claim_winnings_handler(&stream, &mut position, ALICE, 1);
    assert_eq!(r.unwrap_err(), ErrorCode::MathOverflow);
}

#[test]
fn a_zero_payout_is_refused() {
    // An empty pool floors every payout to zero.
    let stream = Stream {
        authority: AUTHORITY,
        stream_id: 1,
        team_a_name: Vec::new(),
        team_b_name: Vec::new(),
        team_a_reserve: 500,
        team_b_reserve: 500,
        team_a_shares_sold: 50,
        team_b_shares_sold: 0,
        total_pool: 0,
        start_time: 0,
        end_time: 3600,
        is_active: false,
        winning_team: 1,
        stream_link: Vec::new(),
    };
    let mut position = UserPosition {
        user: ALICE,
        stream_id: 1,
        team_a_shares: 50,
        team_b_shares: 0,
        total_invested: 100,
        has_claimed: false,
    };
    let r = claim_winnings_handler(&stream, &mut position, ALICE, 1);
    assert_eq!(r.unwrap_err(), ErrorCode::NoPayout);
    assert!(!position.has_claimed);
}
