use ydelta::error::{Error, YdeltaError};
use ydelta::processor::liquidate_loan::{LoanFeeLedger, PoolRepayOutcome};
use ydelta::processor::loan::{
    apply_conversion, apply_fixed_repay, apply_pool_repay, check_liquidatable,
    check_repay_allowed, check_settlement_due, credit_lender_seat, credit_pool_tail_deposit,
    release_borrower_collateral, resolve_loan, BorrowerSeat, ConversionAction, ConversionFill,
    ForcedResolution, LenderSeat, LoanKind, LoanState, LoanStatus, ResolutionAction,
};

fn fixed_loan(outstanding: u64, collateral: u64) -> LoanState {
    LoanState {
        status: LoanStatus::Active,
        kind: LoanKind::Fixed,
        principal_debt_atoms: outstanding,
        outstanding_debt_atoms: outstanding,
        collateral_atoms: collateral,
        borrower_marginfi_borrow_shares: 0,
        matures_at_unix: 1_000,
        liquidation_ltv_bps: 8_000,
        fees: LoanFeeLedger {
            lender_claimable_atoms: 100,
            accumulated_protocol_fee_atoms: 0,
            accumulated_curator_fee_atoms: 10,
        },
    }
}

fn pool_loan(outstanding: u64, collateral: u64, shares: u128) -> LoanState {
    LoanState { kind: LoanKind::P2Pool, borrower_marginfi_borrow_shares: shares, ..fixed_loan(outstanding, collateral) }
}

fn pool(post: u128, full: bool, after: u64) -> PoolRepayOutcome {
    PoolRepayOutcome { post_loan_shares: post, did_full_repay: full, outstanding_after_atoms: after }
}

fn resolution(repaid: u64, withdrawn: u64, fee: u64, gap: u64) -> ForcedResolution {
    ForcedResolution {
        repaid_atoms: repaid,
        withdrawn_atoms: withdrawn,
        pool: pool(0, false, 0),
        protocol_fee_atoms: fee,
        bad_debt_gap_atoms: gap,
    }
}

#[test]
fn settlement_is_due_only_after_maturity_plus_grace() {
    assert_eq!(check_settlement_due(LoanStatus::Active, 1_101, 1_000, 100, 5), Ok(()));
    assert_eq!(
        check_settlement_due(LoanStatus::Active, 1_100, 1_000, 100, 5),
        Err(Error::Ydelta(YdeltaError::LoanNotMatured))
    );
    assert_eq!(
        check_settlement_due(LoanStatus::Repaid, 5_000, 1_000, 100, 5),
        Err(Error::Ydelta(YdeltaError::InvalidArgument))
    );
    assert_eq!(
        check_settlement_due(LoanStatus::Active, 5_000, 1_000, 100, 0),
        Err(Error::Ydelta(YdeltaError::InvalidArgument))
    );
    assert_eq!(
        check_settlement_due(LoanStatus::Active, i64::MAX, i64::MAX, u32::MAX, 5),
        Err(Error::Ydelta(YdeltaError::LoanNotMatured))
    );
}

#[test]
fn liquidation_needs_ltv_above_the_stamped_threshold() {
    let l = fixed_loan(80, 100);
    // 80% threshold: debt 81 against collateral 100 is past it, 80 is not.
    assert_eq!(check_liquidatable(&l, 81, 100), Ok(()));
    assert_eq!(
        check_liquidatable(&l, 80, 100),
        Err(Error::Ydelta(YdeltaError::LoanStillSolvent))
    );
    assert_eq!(check_liquidatable(&l, 1, 0), Ok(()));
    let repaid = LoanState { status: LoanStatus::Repaid, ..l };
    assert_eq!(check_liquidatable(&repaid, 1_000, 1), Err(Error::Ydelta(YdeltaError::InvalidArgument)));
    assert_eq!(check_liquidatable(&l, u128::MAX, u128::MAX), Ok(()));
    let wide = LoanState { liquidation_ltv_bps: 20_000, ..l };
    assert_eq!(
        check_liquidatable(&wide, u128::MAX, u128::MAX),
        Err(Error::Ydelta(YdeltaError::LoanStillSolvent))
    );
}

#[test]
fn fixed_resolution_pays_down_and_closes_at_zero() {
    let mut l = fixed_loan(500, 1_000);
    assert_eq!(
        resolve_loan(&mut l, resolution(200, 300, 20, 0)),
        Ok(ResolutionAction { did_full_repay: false, bad_debt_atoms: 0 })
    );
    assert_eq!(l.outstanding_debt_atoms, 300);
    assert_eq!(l.collateral_atoms, 700);
    assert_eq!(l.status, LoanStatus::Active);
    assert_eq!(l.fees.lender_claimable_atoms, 80);
    assert_eq!(l.fees.accumulated_protocol_fee_atoms, 20);
    // Full resolution with bad debt: the curator's fees go back to the lender.
    assert_eq!(
        resolve_loan(&mut l, resolution(300, 700, 0, 50)),
        Ok(ResolutionAction { did_full_repay: true, bad_debt_atoms: 50 })
    );
    assert_eq!(l.outstanding_debt_atoms, 0);
    assert_eq!(l.collateral_atoms, 0);
    assert_eq!(l.status, LoanStatus::Repaid);
    assert_eq!(l.fees.lender_claimable_atoms, 90);
    assert_eq!(l.fees.accumulated_curator_fee_atoms, 0);
    // Repaying past the debt is refused.
    let mut l = fixed_loan(5, 10);
    assert_eq!(resolve_loan(&mut l, resolution(6, 0, 0, 0)), Err(Error::ArithmeticOverflow));
    assert_eq!(l, fixed_loan(5, 10));
}

#[test]
fn pool_resolution_takes_marginfis_outcome() {
    let mut l = pool_loan(500, 1_000, 400);
    let r = ForcedResolution { pool: pool(100, false, 125), ..resolution(375, 600, 0, 0) };
    assert_eq!(resolve_loan(&mut l, r), Ok(ResolutionAction { did_full_repay: false, bad_debt_atoms: 0 }));
    assert_eq!(l.borrower_marginfi_borrow_shares, 100);
    assert_eq!(l.outstanding_debt_atoms, 125);
    assert_eq!(l.collateral_atoms, 400);
    let r = ForcedResolution { pool: pool(1, true, 0), ..resolution(125, 400, 0, 0) };
    assert_eq!(resolve_loan(&mut l, r), Ok(ResolutionAction { did_full_repay: true, bad_debt_atoms: 0 }));
    assert_eq!(l.status, LoanStatus::Repaid);
    assert_eq!(l.collateral_atoms, 0);
    assert_eq!(l.outstanding_debt_atoms, 0);
}

#[test]
fn borrower_gets_surplus_collateral_back() {
    let mut s = BorrowerSeat {
        collateral_encumbered_shares: 1_000,
        collateral_withdrawable_shares: 5,
        debt_withdrawable_shares: 0,
        open_borrow_count: 2,
    };
    assert_eq!(release_borrower_collateral(&mut s, 1_000, 200, true), Ok(()));
    assert_eq!(s.collateral_encumbered_shares, 0);
    assert_eq!(s.collateral_withdrawable_shares, 205);
    assert_eq!(s.open_borrow_count, 1);
    assert_eq!(release_borrower_collateral(&mut s, 10, 0, false), Ok(()));
    assert_eq!(s.open_borrow_count, 1);
    let before = s;
    assert_eq!(
        release_borrower_collateral(&mut s, 0, u128::MAX, true),
        Err(Error::ArithmeticOverflow)
    );
    assert_eq!(s, before);
}

#[test]
fn lender_is_credited_repaid_shares_less_protocol_fee() {
    let mut s = LenderSeat { debt_withdrawable_shares: 10, open_lend_count: 1 };
    assert_eq!(credit_lender_seat(&mut s, 500, 20, false), Ok(480));
    assert_eq!(s, LenderSeat { debt_withdrawable_shares: 490, open_lend_count: 1 });
    assert_eq!(credit_lender_seat(&mut s, 10, 20, true), Ok(0));
    assert_eq!(s, LenderSeat { debt_withdrawable_shares: 490, open_lend_count: 0 });
    assert_eq!(credit_lender_seat(&mut s, 1, 0, true), Err(Error::ArithmeticOverflow));
}

#[test]
fn repay_requires_owner_of_an_open_loan() {
    assert_eq!(check_repay_allowed(LoanStatus::Active, true), Ok(()));
    assert_eq!(
        check_repay_allowed(LoanStatus::Active, false),
        Err(Error::Ydelta(YdeltaError::OrderNotOwnedBySigner))
    );
    assert_eq!(
        check_repay_allowed(LoanStatus::Repaid, true),
        Err(Error::Ydelta(YdeltaError::InvalidArgument))
    );
}

#[test]
fn repays_reduce_debt_and_close_at_zero() {
    let mut l = fixed_loan(300, 50);
    assert_eq!(apply_fixed_repay(&mut l, 100), Ok(false));
    assert_eq!(l.outstanding_debt_atoms, 200);
    assert_eq!(apply_fixed_repay(&mut l, 201), Err(Error::Ydelta(YdeltaError::InvalidArgument)));
    assert_eq!(apply_fixed_repay(&mut l, 200), Ok(true));
    assert_eq!(l.status, LoanStatus::Repaid);
    let mut p = pool_loan(300, 50, 300);
    assert!(!apply_pool_repay(&mut p, pool(120, false, 121)));
    assert_eq!(p.borrower_marginfi_borrow_shares, 120);
    assert_eq!(p.outstanding_debt_atoms, 121);
    assert!(apply_pool_repay(&mut p, pool(1, true, 0)));
    assert_eq!(p.borrower_marginfi_borrow_shares, 0);
    assert_eq!(p.status, LoanStatus::Repaid);
}

#[test]
fn conversion_moves_the_loan_to_its_fills() {
    let fill = ConversionFill { num_fills: 2, total_filled_principal: 400, total_filled_collateral: 790 };
    let mut l = pool_loan(400, 800, 400);
    let mut count: u32 = 1;
    assert_eq!(
        apply_conversion(&mut l, &mut count, fill, pool(0, true, 0)),
        Ok(ConversionAction { close_pool_loan: true, release_collateral_atoms: 10 })
    );
    assert_eq!(count, 2);
    let mut l = pool_loan(400, 800, 400);
    let mut count: u32 = 1;
    assert_eq!(
        apply_conversion(&mut l, &mut count, fill, pool(5, false, 3)),
        Ok(ConversionAction { close_pool_loan: false, release_collateral_atoms: 0 })
    );
    assert_eq!(count, 3);
    assert_eq!(l.principal_debt_atoms, 0);
    assert_eq!(l.outstanding_debt_atoms, 3);
    assert_eq!(l.collateral_atoms, 10);
    assert_eq!(l.borrower_marginfi_borrow_shares, 5);
    let mut count: u32 = u32::MAX;
    assert_eq!(
        apply_conversion(&mut l, &mut count, fill, pool(0, true, 0)),
        Err(Error::ArithmeticOverflow)
    );
}

#[test]
fn pool_tail_deposit_is_credited_to_the_seat() {
    let mut s = BorrowerSeat {
        collateral_encumbered_shares: 0,
        collateral_withdrawable_shares: 0,
        debt_withdrawable_shares: 7,
        open_borrow_count: 0,
    };
    assert_eq!(credit_pool_tail_deposit(&mut s, 100, 150), Ok(50));
    assert_eq!(s.debt_withdrawable_shares, 57);
    assert_eq!(
        credit_pool_tail_deposit(&mut s, 150, 100),
        Err(Error::Ydelta(YdeltaError::IncorrectAccount))
    );
    assert_eq!(s.debt_withdrawable_shares, 57);
}
