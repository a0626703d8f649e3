use ydelta::error::{Error, YdeltaError};
use ydelta::math::SCALE;
use ydelta::processor::liquidate_loan::{
    check_keeper_payment, collateral_after_seize, forced_pool_repay_call, pool_loan_after_repay,
    staging_refund_atoms, CollateralAfterSeize, PoolRepayCall, PoolRepayOutcome,
};
use ydelta::processor::match_crank::{start_crank, CrankBudget, CrankStep};
use ydelta::processor::params::MatchCrankParams;
use ydelta::processor::matching::{effective_ltv_cap, offer_crosses_bid, price_cross, MatchPricing};
use ydelta::processor::repay::{
    check_collateral_covers, check_conversion_fill, check_conversion_request,
};

#[test]
fn offers_cross_bids_at_or_below_the_bid_rate_and_covering_the_term() {
    // bid 8% for 30 days; offer 7% up to 60 days; market at 5%.
    assert!(offer_crosses_bid(800, 2_592_000, 700, 5_184_000, 500));
    assert!(offer_crosses_bid(800, 2_592_000, 800, 2_592_000, 500));
    assert!(!offer_crosses_bid(800, 2_592_000, 801, 5_184_000, 500));
    assert!(!offer_crosses_bid(800, 2_592_000, 700, 2_591_999, 500));
    // A stale offer below the live market rate is skipped.
    assert!(!offer_crosses_bid(800, 2_592_000, 450, 5_184_000, 500));
}

#[test]
fn crosses_are_priced_with_the_fee_floor_on_top() {
    assert_eq!(
        price_cross(800, 700, 25),
        Ok(MatchPricing { lender_rate_bps: 700, borrower_rate_bps: 800 })
    );
    assert_eq!(
        price_cross(710, 700, 25),
        Ok(MatchPricing { lender_rate_bps: 700, borrower_rate_bps: 725 })
    );
    assert_eq!(price_cross(800, u16::MAX, 1), Err(Error::Ydelta(YdeltaError::MathOverflow)));
}

#[test]
fn ltv_buffer_lowers_the_origination_cap() {
    assert_eq!(effective_ltv_cap(7_500, 0), 7_500);
    assert_eq!(effective_ltv_cap(7_500, 500), 7_000);
    assert_eq!(effective_ltv_cap(7_500, 9_000), 0);
}

#[test]
fn keeper_must_cover_the_payment() {
    assert_eq!(check_keeper_payment(100, 100), Ok(()));
    assert_eq!(
        check_keeper_payment(99, 100),
        Err(Error::Ydelta(YdeltaError::LiquidatorPaymentInsufficient))
    );
}

#[test]
fn conversion_request_checks() {
    let me = [1u8; 32];
    let other = [2u8; 32];
    assert_eq!(check_conversion_request(10, &me, &me, 1_100, 1_000), Ok(100));
    assert_eq!(check_conversion_request(10, &me, &me, i64::MAX, 0), Ok(u32::MAX));
    assert_eq!(
        check_conversion_request(0, &me, &me, 1_100, 1_000),
        Err(Error::Ydelta(YdeltaError::InvalidArgument))
    );
    assert_eq!(
        check_conversion_request(10, &me, &other, 1_100, 1_000),
        Err(Error::Ydelta(YdeltaError::OrderNotOwnedBySigner))
    );
    assert_eq!(
        check_conversion_request(10, &me, &me, 1_000, 1_000),
        Err(Error::Ydelta(YdeltaError::TermNotCompatible))
    );
    assert_eq!(check_collateral_covers(10, 10), Ok(()));
    assert_eq!(
        check_collateral_covers(9, 10),
        Err(Error::Ydelta(YdeltaError::CollateralBelowMatchLTV))
    );
    assert_eq!(check_conversion_fill(500, 500), Ok(()));
    assert_eq!(check_conversion_fill(0, 0), Err(Error::Ydelta(YdeltaError::InvalidArgument)));
    assert_eq!(check_conversion_fill(499, 500), Err(Error::Ydelta(YdeltaError::InvalidArgument)));
}

#[test]
fn collateral_after_a_seize() {
    assert_eq!(
        collateral_after_seize(1_000, 700, true),
        CollateralAfterSeize { borrower_surplus_atoms: 300, loan_collateral_atoms: 0 }
    );
    assert_eq!(
        collateral_after_seize(1_000, 700, false),
        CollateralAfterSeize { borrower_surplus_atoms: 0, loan_collateral_atoms: 300 }
    );
    assert_eq!(
        collateral_after_seize(1_000, 1_200, true),
        CollateralAfterSeize { borrower_surplus_atoms: 0, loan_collateral_atoms: 0 }
    );
}

#[test]
fn pool_loan_after_a_forced_repay() {
    assert_eq!(
        pool_loan_after_repay(10 * SCALE, 10 * SCALE, 5 * SCALE, SCALE),
        Ok(PoolRepayOutcome { post_loan_shares: 5 * SCALE, did_full_repay: false, outstanding_after_atoms: 5 })
    );
    // A residual of at most one atom is rounding dust.
    assert_eq!(
        pool_loan_after_repay(10 * SCALE, 10 * SCALE, SCALE + SCALE / 2, SCALE),
        Ok(PoolRepayOutcome {
            post_loan_shares: SCALE + SCALE / 2,
            did_full_repay: true,
            outstanding_after_atoms: 0
        })
    );
    // Sibling loans on the account: only the burned shares leave this loan.
    assert_eq!(
        pool_loan_after_repay(4 * SCALE, 10 * SCALE, 7 * SCALE, SCALE),
        Ok(PoolRepayOutcome { post_loan_shares: SCALE, did_full_repay: true, outstanding_after_atoms: 0 })
    );
    assert_eq!(
        pool_loan_after_repay(4 * SCALE + 1, 10 * SCALE, 6 * SCALE, SCALE + 1),
        Ok(PoolRepayOutcome { post_loan_shares: 1, did_full_repay: true, outstanding_after_atoms: 0 })
    );
}

#[test]
fn forced_pool_repay_uses_repay_all_only_for_a_sole_loan() {
    assert_eq!(
        forced_pool_repay_call(true, 50, 50, 1_000, 1_084),
        PoolRepayCall { repay_all: true, amount_atoms: 1_084 }
    );
    assert_eq!(
        forced_pool_repay_call(true, 40, 50, 1_000, 1_084),
        PoolRepayCall { repay_all: false, amount_atoms: 1_000 }
    );
    assert_eq!(
        forced_pool_repay_call(false, 50, 50, 1_000, 1_084),
        PoolRepayCall { repay_all: false, amount_atoms: 1_000 }
    );
    assert_eq!(staging_refund_atoms(1_084, 1_000), 84);
    assert_eq!(staging_refund_atoms(900, 1_000), 0);
}

#[test]
fn crank_budget_is_at_least_one_fill() {
    assert_eq!(
        start_crank(&MatchCrankParams { max_fills: 0 }),
        CrankBudget { remaining: 1, total_fills: 0 }
    );
    assert_eq!(
        start_crank(&MatchCrankParams { max_fills: 5 }),
        CrankBudget { remaining: 5, total_fills: 0 }
    );
}

#[test]
fn crank_skips_asks_under_the_floor_and_stops_when_spent() {
    let mut b = start_crank(&MatchCrankParams { max_fills: 3 });
    assert_eq!(b.step(450, 500), CrankStep::SkipBelowFloor);
    assert_eq!(b.step(500, 500), CrankStep::Take);
    b.record_fills(2);
    assert_eq!(b, CrankBudget { remaining: 1, total_fills: 2 });
    // Fills made plus budget left still add up to the budget.
    assert_eq!(b.remaining + b.total_fills, 3);
    b.record_fills(1);
    assert_eq!(b, CrankBudget { remaining: 0, total_fills: 3 });
    assert_eq!(b.step(900, 500), CrankStep::Stop);
    // Over-reported fills saturate rather than wrap.
    b.record_fills(7);
    assert_eq!(b, CrankBudget { remaining: 0, total_fills: 10 });
    let mut full = CrankBudget { remaining: 4, total_fills: u32::MAX - 1 };
    full.record_fills(3);
    assert_eq!(full, CrankBudget { remaining: 1, total_fills: u32::MAX });
}
