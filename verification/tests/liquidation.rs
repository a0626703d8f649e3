use ydelta::error::{Error, YdeltaError};
use ydelta::processor::fee_config_helpers::MAX_LIQUIDATION_KEEPER_BPS;
use ydelta::processor::liquidate_loan::{
    apply_forced_resolution_fees, compute_collateral_split, liquidation_protocol_fee_atoms,
    p2pool_post_repay_loan_shares, p2pool_residual_is_dust, parse_repay_atoms_max,
    plan_forced_repay, settlement_seized_collateral, settlement_staged_atoms, LoanFeeLedger,
};

#[test]
fn over_collateralized_with_zero_bonus() {
    let s = compute_collateral_split(80, 100, 0).unwrap();
    assert_eq!(s.liquidator_seizes_atoms, 80);
    assert_eq!(s.surplus_atoms, 20);
    assert_eq!(s.bad_debt_gap_atoms, 0);
    assert_eq!(s.bonus_atoms, 0);
}

#[test]
fn over_collateralized_with_bonus() {
    let s = compute_collateral_split(80, 100, 750).unwrap();
    assert_eq!(s.bonus_atoms, 6);
    assert_eq!(s.liquidator_seizes_atoms, 86);
    assert_eq!(s.surplus_atoms, 14);
    assert_eq!(s.bad_debt_gap_atoms, 0);
}

#[test]
fn exactly_collateralized_no_surplus() {
    let s = compute_collateral_split(100, 100, 0).unwrap();
    assert_eq!(s.liquidator_seizes_atoms, 100);
    assert_eq!(s.surplus_atoms, 0);
    assert_eq!(s.bad_debt_gap_atoms, 0);
}

#[test]
fn under_collateralized_bad_debt() {
    let s = compute_collateral_split(100, 80, 0).unwrap();
    assert_eq!(s.liquidator_seizes_atoms, 80);
    assert_eq!(s.surplus_atoms, 0);
    assert_eq!(s.bad_debt_gap_atoms, 20);
}

#[test]
fn under_collateralized_with_bonus_increases_gap() {
    let s = compute_collateral_split(100, 90, 1_000).unwrap();
    assert_eq!(s.bonus_atoms, 10);
    assert_eq!(s.liquidator_seizes_atoms, 90);
    assert_eq!(s.surplus_atoms, 0);
    assert_eq!(s.bad_debt_gap_atoms, 20);
}

#[test]
fn rejects_bonus_bps_above_full_scale() {
    assert!(compute_collateral_split(100, 100, 10_001).is_err());
    assert!(compute_collateral_split(100, 100, u16::MAX).is_err());
}

#[test]
fn rejects_bonus_bps_above_max_liquidation_keeper_cap() {
    assert!(compute_collateral_split(50, 200, MAX_LIQUIDATION_KEEPER_BPS + 1).is_err());
    assert!(compute_collateral_split(50, 200, 10_000).is_err());
}

#[test]
fn accepts_bonus_bps_at_keeper_cap() {
    let s = compute_collateral_split(50, 200, MAX_LIQUIDATION_KEEPER_BPS).unwrap();
    assert_eq!(s.bonus_atoms, 25);
    assert_eq!(s.liquidator_seizes_atoms, 75);
}

#[test]
fn split_conserves_collateral_and_target() {
    for (debt, coll, bps) in [(80u64, 100u64, 750u16), (100, 90, 1_000), (0, 5, 0), (u64::MAX, 7, 5_000)] {
        let s = compute_collateral_split(debt, coll, bps).unwrap();
        assert_eq!(s.liquidator_seizes_atoms + s.surplus_atoms, coll);
        let target = debt.saturating_add(s.bonus_atoms);
        assert_eq!(s.liquidator_seizes_atoms as u128 + s.bad_debt_gap_atoms as u128, target as u128);
        assert!(s.surplus_atoms == 0 || s.bad_debt_gap_atoms == 0);
    }
}

#[test]
fn split_rejection_is_invalid_argument() {
    assert_eq!(
        compute_collateral_split(1, 1, 5_001).unwrap_err(),
        Error::Ydelta(YdeltaError::InvalidArgument)
    );
}

#[test]
fn repay_atoms_max_payload_forms() {
    assert_eq!(parse_repay_atoms_max(&[]).unwrap(), 0);
    assert_eq!(parse_repay_atoms_max(&500u64.to_le_bytes()).unwrap(), 500);
    let mut long = 0x0102_0304_0506_0708u64.to_le_bytes().to_vec();
    long.extend_from_slice(&[9, 9, 9]);
    assert_eq!(
        parse_repay_atoms_max(&long).unwrap_err(),
        Error::Ydelta(YdeltaError::InvalidArgument)
    );
    assert_eq!(
        parse_repay_atoms_max(&[1, 2, 3]).unwrap_err(),
        Error::Ydelta(YdeltaError::InvalidArgument)
    );
}

#[test]
fn forced_repay_full_when_max_is_zero_or_too_large() {
    let p = plan_forced_repay(0, 5_000).unwrap();
    assert_eq!(p.actual_repay_atoms, 5_000);
    assert!(p.is_full_repay);
    let p = plan_forced_repay(9_999, 5_000).unwrap();
    assert_eq!(p.actual_repay_atoms, 5_000);
    assert!(p.is_full_repay);
    let p = plan_forced_repay(0, 10).unwrap();
    assert!(p.is_full_repay);
}

#[test]
fn forced_repay_partial_floors() {
    // 1% of 1_000_000 is 10_000.
    let p = plan_forced_repay(10_000, 1_000_000).unwrap();
    assert_eq!(p.actual_repay_atoms, 10_000);
    assert!(!p.is_full_repay);
    assert!(plan_forced_repay(9_999, 1_000_000).is_err());
    // Below the 1_000-atom floor of the outstanding debt, only full repayment.
    assert!(plan_forced_repay(500, 999).is_err());
    // The 1_000-atom minimum repayment dominates 1% of small debts.
    assert!(plan_forced_repay(999, 50_000).is_err());
    assert!(plan_forced_repay(1_000, 50_000).is_ok());
    // Nothing outstanding.
    assert!(plan_forced_repay(0, 0).is_err());
}

#[test]
fn settlement_collateral_is_pro_rata() {
    assert_eq!(settlement_seized_collateral(300, 5, 10, true).unwrap(), 300);
    assert_eq!(settlement_seized_collateral(300, 5, 10, false).unwrap(), 150);
    assert_eq!(settlement_seized_collateral(100, 1, 3, false).unwrap(), 33);
    assert_eq!(
        settlement_seized_collateral(100, 1, 0, false).unwrap_err(),
        Error::ArithmeticOverflow
    );
}

#[test]
fn settlement_stages_cushion_for_pool_close() {
    assert_eq!(settlement_staged_atoms(1_000, true), 1_000 + 20 + 64);
    assert_eq!(settlement_staged_atoms(1_000, false), 1_000);
    assert_eq!(settlement_staged_atoms(u64::MAX, true), u64::MAX);
}

#[test]
fn protocol_fee_only_for_fixed_loans() {
    assert_eq!(liquidation_protocol_fee_atoms(true, 10_000, 250).unwrap(), 250);
    assert_eq!(liquidation_protocol_fee_atoms(false, 10_000, 250).unwrap(), 0);
    assert_eq!(liquidation_protocol_fee_atoms(true, 10_000, 0).unwrap(), 0);
    assert!(liquidation_protocol_fee_atoms(true, u64::MAX, 20_000).is_err());
}

#[test]
fn forced_resolution_moves_fees_and_claws_back() {
    let mut l = LoanFeeLedger {
        lender_claimable_atoms: 1_000,
        accumulated_protocol_fee_atoms: 10,
        accumulated_curator_fee_atoms: 40,
    };
    apply_forced_resolution_fees(&mut l, 100, 5).unwrap();
    assert_eq!(l.lender_claimable_atoms, 940);
    assert_eq!(l.accumulated_protocol_fee_atoms, 110);
    assert_eq!(l.accumulated_curator_fee_atoms, 0);

    let mut l = LoanFeeLedger {
        lender_claimable_atoms: 30,
        accumulated_protocol_fee_atoms: 0,
        accumulated_curator_fee_atoms: 7,
    };
    apply_forced_resolution_fees(&mut l, 100, 0).unwrap();
    assert_eq!(l.lender_claimable_atoms, 0);
    assert_eq!(l.accumulated_protocol_fee_atoms, 30);
    assert_eq!(l.accumulated_curator_fee_atoms, 7);

    let before = LoanFeeLedger {
        lender_claimable_atoms: 5,
        accumulated_protocol_fee_atoms: u64::MAX,
        accumulated_curator_fee_atoms: 0,
    };
    let mut l = before;
    assert_eq!(apply_forced_resolution_fees(&mut l, 1, 0).unwrap_err(), Error::ArithmeticOverflow);
    assert_eq!(l, before);
}

#[test]
fn pool_loan_shares_after_repay() {
    assert_eq!(p2pool_post_repay_loan_shares(100, 300, 250), 50);
    assert_eq!(p2pool_post_repay_loan_shares(100, 300, 100), 0);
    assert_eq!(p2pool_post_repay_loan_shares(100, 300, 400), 100);
    assert!(p2pool_residual_is_dust(0));
    assert!(p2pool_residual_is_dust(1));
    assert!(!p2pool_residual_is_dust(2));
}
