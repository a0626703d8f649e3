use ydelta::error::{Error, YdeltaError};
use ydelta::math::SCALE;
use ydelta::processor::claim::{
    check_claim_repayment, plan_curator_fee_claim, release_claim_to_seat, settle_claim_sweep,
    settle_fee_payout, take_protocol_fee, LenderSeatShares,
};
use ydelta::processor::create_sub_vault::{
    SubVaultRiskParams, UpdateRiskProfileParams, UpdateSubVaultParams,
};
use ydelta::processor::matched_loan::{
    plan_primary_promotion, plan_vault_settle_withdrawal, vault_settle_surplus, MatchedLoanFacts,
    VaultSettleWithdrawal,
};
use ydelta::processor::params::{
    CreatePoolSubVaultParams, CreateRiskProfileParams, DepositParams, WithdrawParams,
};
use ydelta::processor::place_order::{bid_follow_up, shares_gained};
use ydelta::processor::risk_profile::{
    check_claim_seat_for_risk_profile, check_risk_profile_order, check_risk_profile_removable,
    check_seat_max_exposure, check_seat_releasable, check_sub_vault_sunset, market_is_active,
    sub_vault_ask_rate, update_risk_profile, update_sub_vault, validate_create_pool_sub_vault,
    validate_create_risk_profile, RiskProfileBalances, RiskProfileLimits, SeatObligations,
};
use ydelta::processor::vault::{
    check_vault_burn, check_vault_deposit, open_loan_in_lender_book,
    reconcile_lender_book_on_close, split_withdraw_proceeds, write_off_emptied_vault,
    ClosedLoanFacts, LenderBook, VaultShareBook,
};
use ydelta::processor::withdraw::{
    check_seat_deposit, order_active_banks, plan_seat_withdraw, BalanceSlot, BankSide,
};

const ALICE: [u8; 32] = [1u8; 32];
const BOB: [u8; 32] = [2u8; 32];
const ZERO: [u8; 32] = [0u8; 32];

fn node() -> MatchedLoanFacts {
    MatchedLoanFacts {
        principal_atoms: 1_000,
        origination_atoms: 10,
        is_p2pool: false,
        presettled: false,
        vault_lender_flag: true,
        has_lender_seat: true,
        curator_fee_bps_snapshot: 500,
        matched_at_unix: 100,
    }
}

#[test]
fn promotion_of_a_vault_lent_fixed_loan() {
    let p = plan_primary_promotion(&node(), 200, SCALE).unwrap();
    assert_eq!(p.net_principal_atoms, 990);
    assert!(p.lender_is_risk_profile);
    assert_eq!(p.curator_fee_bps, 500);
    assert_eq!(p.started_at_unix, 200);
    assert_eq!(p.credited_shares, 990 * SCALE);
    assert_eq!(p.origination_shares, 10 * SCALE);
    assert!(p.needs_vault_settlement);
}

#[test]
fn promotion_of_presettled_and_pool_loans() {
    let pre = plan_primary_promotion(&MatchedLoanFacts { presettled: true, ..node() }, 200, SCALE)
        .unwrap();
    assert_eq!(pre.started_at_unix, 100);
    assert_eq!(pre.credited_shares, 0);
    assert_eq!(pre.origination_shares, 10 * SCALE);
    assert!(!pre.needs_vault_settlement);
    let pool = MatchedLoanFacts {
        is_p2pool: true,
        vault_lender_flag: false,
        has_lender_seat: false,
        ..node()
    };
    let p = plan_primary_promotion(&pool, 200, SCALE).unwrap();
    assert_eq!(p.credited_shares, 0);
    assert_eq!(p.origination_shares, 0);
    assert_eq!(p.curator_fee_bps, 0);
    assert!(!p.lender_is_risk_profile);
    assert!(!p.needs_vault_settlement);
}

#[test]
fn promotion_refusals() {
    let bad = Err(Error::Ydelta(YdeltaError::InvalidArgument));
    let n = MatchedLoanFacts { origination_atoms: 1_000, ..node() };
    assert_eq!(plan_primary_promotion(&n, 0, SCALE), bad);
    let n = MatchedLoanFacts { origination_atoms: 1_001, ..node() };
    assert_eq!(plan_primary_promotion(&n, 0, SCALE), bad);
    let inconsistent = Err(Error::Ydelta(YdeltaError::IncorrectAccount));
    let n = MatchedLoanFacts { vault_lender_flag: false, ..node() };
    assert_eq!(plan_primary_promotion(&n, 0, SCALE), inconsistent);
    let n = MatchedLoanFacts { has_lender_seat: false, ..node() };
    assert_eq!(plan_primary_promotion(&n, 0, SCALE), inconsistent);
    assert_eq!(plan_primary_promotion(&node(), 0, 0), Err(Error::ArithmeticOverflow));
}

#[test]
fn vault_settle_withdrawal_sizing() {
    assert_eq!(plan_vault_settle_withdrawal(0, 5, SCALE), Ok(None));
    assert_eq!(plan_vault_settle_withdrawal(u64::MAX, u64::MAX, SCALE), Err(Error::ArithmeticOverflow));
    assert_eq!(
        plan_vault_settle_withdrawal(100, 99, SCALE),
        Err(Error::Ydelta(YdeltaError::InvalidArgument))
    );
    let drain = VaultSettleWithdrawal { cover_atoms: 101, withdraw_all: true, expected_shares: 0 };
    assert_eq!(plan_vault_settle_withdrawal(100, 100, SCALE), Ok(Some(drain)));
    assert_eq!(plan_vault_settle_withdrawal(100, 101, SCALE), Ok(Some(drain)));
    assert_eq!(
        plan_vault_settle_withdrawal(100, 1_000, SCALE),
        Ok(Some(VaultSettleWithdrawal {
            cover_atoms: 101,
            withdraw_all: false,
            expected_shares: 101 * SCALE
        }))
    );
    assert_eq!(vault_settle_surplus(100, 103), Ok(3));
    assert_eq!(vault_settle_surplus(100, 100), Ok(0));
    assert_eq!(vault_settle_surplus(100, 99), Err(Error::ArithmeticOverflow));
}

fn empty_lender_book() -> LenderBook {
    LenderBook {
        total_weighted_rate_bps: 0,
        total_weighted_net_rate_bps: 0,
        deployed_principal_atoms: 0,
        total_principal_atoms: 1_000,
        total_assets_atoms: 1_000,
        pending_claim_atoms: 0,
        accumulated_curator_fee_atoms: 0,
        encumbered_in_orders_atoms: 1_500,
    }
}

#[test]
fn opening_and_closing_a_loan_restores_the_rate_book() {
    let mut b = empty_lender_book();
    assert_eq!(open_loan_in_lender_book(&mut b, 1_000, 500, 1_000), Ok(()));
    assert_eq!(b.deployed_principal_atoms, 1_000);
    assert_eq!(b.total_weighted_rate_bps, 500_000);
    assert_eq!(b.total_weighted_net_rate_bps, 450_000);
    assert_eq!(b.encumbered_in_orders_atoms, 500);
    let loan = ClosedLoanFacts {
        principal_debt_atoms: 1_000,
        lender_rate_bps: 500,
        curator_fee_bps: 1_000,
        started_at_unix: 0,
        lender_claimable_atoms: 1_000,
        accumulated_curator_fee_atoms: 0,
    };
    assert_eq!(reconcile_lender_book_on_close(&mut b, &loan, 0, 31_536_000), Ok(()));
    assert_eq!(b.total_weighted_rate_bps, 0);
    assert_eq!(b.total_weighted_net_rate_bps, 0);
    assert_eq!(b.deployed_principal_atoms, 0);
    assert_eq!(b.encumbered_in_orders_atoms, 500);
}

#[test]
fn opening_a_loan_that_overflows_leaves_the_book() {
    let mut b = LenderBook { deployed_principal_atoms: u64::MAX, ..empty_lender_book() };
    let before = b;
    assert_eq!(open_loan_in_lender_book(&mut b, 1, 500, 0), Err(Error::ArithmeticOverflow));
    assert_eq!(b, before);
    let mut b = LenderBook { encumbered_in_orders_atoms: 10, ..empty_lender_book() };
    assert_eq!(open_loan_in_lender_book(&mut b, 100, 0, 0), Ok(()));
    assert_eq!(b.encumbered_in_orders_atoms, 0);
}

fn withdraw(amount_atoms: u64, withdraw_all: bool) -> WithdrawParams {
    WithdrawParams { amount_atoms, trader_index_hint: None, withdraw_all }
}

#[test]
fn seat_withdraw_by_amount() {
    let p = plan_seat_withdraw(&withdraw(100, false), 200 * SCALE, 150 * SCALE, SCALE).unwrap();
    assert_eq!(p.expected_shares, 100 * SCALE);
    assert_eq!(p.expected_atoms, 100);
    assert_eq!(p.seat_burn_shares, 100 * SCALE);
    // Capped at what marginfi holds.
    let p = plan_seat_withdraw(&withdraw(180, false), 200 * SCALE, 150 * SCALE, SCALE).unwrap();
    assert_eq!(p.expected_shares, 150 * SCALE);
    assert_eq!(p.seat_burn_shares, 150 * SCALE);
}

#[test]
fn seat_drain_burns_the_whole_seat() {
    let p = plan_seat_withdraw(&withdraw(0, true), 200 * SCALE, 150 * SCALE, SCALE).unwrap();
    assert_eq!(p.expected_shares, 150 * SCALE);
    assert_eq!(p.expected_atoms, 150);
    assert_eq!(p.seat_burn_shares, 200 * SCALE);
    // The payout never exceeds the planned atoms.
    assert_eq!(p.payout(149), 149);
    assert_eq!(p.payout(151), 150);
}

#[test]
fn seat_withdraw_refusals() {
    assert_eq!(
        plan_seat_withdraw(&withdraw(0, false), SCALE, SCALE, SCALE),
        Err(Error::Ydelta(YdeltaError::InvalidWithdrawAccounts))
    );
    let short = Err(Error::Ydelta(YdeltaError::InsufficientWithdrawableBalance));
    assert_eq!(plan_seat_withdraw(&withdraw(300, false), 200 * SCALE, 500 * SCALE, SCALE), short);
    assert_eq!(plan_seat_withdraw(&withdraw(0, true), 0, 500 * SCALE, SCALE), short);
    assert_eq!(plan_seat_withdraw(&withdraw(0, true), 500 * SCALE, 0, SCALE), short);
    assert_eq!(
        plan_seat_withdraw(&withdraw(1, false), 500 * SCALE, 500 * SCALE, 0),
        Err(Error::ArithmeticOverflow)
    );
}

#[test]
fn seat_deposit_checks() {
    let d = |amount_atoms| DepositParams { amount_atoms, trader_index_hint: None };
    let bad = Err(Error::Ydelta(YdeltaError::InvalidDepositAccounts));
    assert_eq!(check_seat_deposit(&d(10), false, 10), Ok(()));
    assert_eq!(check_seat_deposit(&d(0), false, 10), bad);
    assert_eq!(check_seat_deposit(&d(10), true, 10), bad);
    assert_eq!(check_seat_deposit(&d(10), false, 0), bad);
}

#[test]
fn active_banks_are_listed_in_slot_order() {
    let debt = [7u8; 32];
    let coll = [8u8; 32];
    let slots = [
        BalanceSlot { active: false, bank: [9u8; 32] },
        BalanceSlot { active: true, bank: coll },
        BalanceSlot { active: true, bank: debt },
        BalanceSlot { active: false, bank: debt },
    ];
    assert_eq!(
        order_active_banks(&slots, &debt, &coll),
        Ok(vec![BankSide::Collateral, BankSide::Debt])
    );
    assert_eq!(order_active_banks(&[], &debt, &coll), Ok(vec![]));
    let stray = [BalanceSlot { active: true, bank: debt }, BalanceSlot { active: true, bank: [9u8; 32] }];
    assert_eq!(
        order_active_banks(&stray, &debt, &coll),
        Err(Error::Ydelta(YdeltaError::IncorrectAccount))
    );
}

#[test]
fn vault_deposit_and_burn_checks() {
    let bad = Err(Error::Ydelta(YdeltaError::InvalidArgument));
    assert_eq!(check_vault_deposit(1, 1, 1, false), Ok(()));
    assert_eq!(check_vault_deposit(0, 1, 1, false), bad);
    assert_eq!(check_vault_deposit(1, 0, 1, true), bad);
    assert_eq!(check_vault_deposit(1, 1, 0, false), bad);
    assert_eq!(check_vault_deposit(1, 1, 1, true), Err(Error::Ydelta(YdeltaError::SubVaultSunset)));
    assert_eq!(check_vault_burn(5, 10, false, &ALICE, &BOB), Ok(()));
    assert_eq!(check_vault_burn(0, 10, false, &ALICE, &BOB), bad);
    assert_eq!(check_vault_burn(11, 10, true, &ALICE, &ALICE), bad);
    assert_eq!(
        check_vault_burn(5, 10, true, &ALICE, &BOB),
        Err(Error::Ydelta(YdeltaError::VaultCuratorRequired))
    );
    assert_eq!(check_vault_burn(10, 10, true, &ALICE, &ALICE), Ok(()));
}

#[test]
fn withdraw_proceeds_are_split_without_loss() {
    let p = split_withdraw_proceeds(105, 100);
    assert_eq!((p.payout_atoms, p.surplus_atoms), (100, 5));
    let p = split_withdraw_proceeds(99, 100);
    assert_eq!((p.payout_atoms, p.surplus_atoms), (99, 0));
}

#[test]
fn emptied_vault_is_written_off() {
    let mut b = VaultShareBook {
        total_shares: 0,
        total_assets_atoms: 7,
        total_principal_atoms: 9,
        deployed_principal_atoms: 0,
        encumbered_in_orders_atoms: 0,
    };
    write_off_emptied_vault(&mut b);
    assert_eq!((b.total_assets_atoms, b.total_principal_atoms), (0, 0));
    let mut b = VaultShareBook { total_shares: 1, ..b };
    b.total_assets_atoms = 7;
    write_off_emptied_vault(&mut b);
    assert_eq!(b.total_assets_atoms, 7);
}

#[test]
fn claim_repayment_checks() {
    assert_eq!(check_claim_repayment(0, 100, 100, &ALICE, &ALICE), Ok(()));
    assert_eq!(
        check_claim_repayment(1, 100, 100, &ALICE, &ALICE),
        Err(Error::Ydelta(YdeltaError::InvalidArgument))
    );
    assert_eq!(
        check_claim_repayment(0, 99, 100, &ALICE, &ALICE),
        Err(Error::Ydelta(YdeltaError::LoanNotMatured))
    );
    assert_eq!(
        check_claim_repayment(0, 100, 100, &ALICE, &BOB),
        Err(Error::Ydelta(YdeltaError::OrderNotOwnedBySigner))
    );
}

#[test]
fn claim_moves_shares_from_encumbered_to_withdrawable() {
    let mut s = LenderSeatShares {
        debt_encumbered_shares: 100,
        debt_withdrawable_shares: 5,
        open_lend_count: 2,
    };
    assert_eq!(release_claim_to_seat(&mut s, 40), Ok(()));
    assert_eq!(
        s,
        LenderSeatShares { debt_encumbered_shares: 60, debt_withdrawable_shares: 45, open_lend_count: 1 }
    );
    // Accrued interest beyond the encumbered principal floors at zero.
    assert_eq!(release_claim_to_seat(&mut s, 70), Ok(()));
    assert_eq!(
        s,
        LenderSeatShares { debt_encumbered_shares: 0, debt_withdrawable_shares: 115, open_lend_count: 0 }
    );
    let mut full = LenderSeatShares {
        debt_encumbered_shares: 0,
        debt_withdrawable_shares: u128::MAX,
        open_lend_count: 0,
    };
    let before = full;
    assert_eq!(release_claim_to_seat(&mut full, 1), Err(Error::ArithmeticOverflow));
    assert_eq!(full, before);
}

#[test]
fn claim_sweep_uses_the_shares_actually_burned() {
    let s = settle_claim_sweep(1_000, 500, 300, 290);
    assert_eq!((s.seat_shares_after, s.pending_claim_after, s.forward_atoms), (710, 200, 300));
    let dust = settle_claim_sweep(3, 500, 0, 3);
    assert_eq!((dust.seat_shares_after, dust.pending_claim_after, dust.forward_atoms), (0, 500, 0));
    let over = settle_claim_sweep(10, 100, 250, 20);
    assert_eq!((over.seat_shares_after, over.pending_claim_after), (0, 0));
}

#[test]
fn curator_fee_claim() {
    assert_eq!(plan_curator_fee_claim(&ALICE, &ALICE, 0, SCALE), Ok(None));
    assert_eq!(plan_curator_fee_claim(&ALICE, &ALICE, 25, 2 * SCALE), Ok(Some(25 * SCALE / 2)));
    assert_eq!(
        plan_curator_fee_claim(&BOB, &ALICE, 25, SCALE),
        Err(Error::Ydelta(YdeltaError::VaultCuratorRequired))
    );
    let (p, left) = settle_fee_payout(25, 25, 24);
    assert_eq!((p.payout_atoms, p.surplus_atoms, left), (24, 0, 1));
    let (p, left) = settle_fee_payout(25, 25, 27);
    assert_eq!((p.payout_atoms, p.surplus_atoms, left), (25, 2, 0));
}

#[test]
fn protocol_fee_is_taken_whole() {
    let mut acc: u128 = 0;
    assert_eq!(take_protocol_fee(&mut acc, SCALE), Ok(None));
    let mut acc: u128 = 40 * SCALE;
    assert_eq!(take_protocol_fee(&mut acc, SCALE), Ok(Some((40 * SCALE, 40))));
    assert_eq!(acc, 0);
    let mut acc: u128 = u128::MAX;
    assert_eq!(take_protocol_fee(&mut acc, SCALE), Err(Error::ArithmeticOverflow));
    assert_eq!(acc, u128::MAX);
}

#[test]
fn risk_profile_creation_checks() {
    let p = CreateRiskProfileParams {
        profile_id: 1,
        curator: ALICE,
        max_ltv_bps: 7_000,
        max_term_seconds: 86_400,
        allowed_market_max: 3,
    };
    assert_eq!(validate_create_risk_profile(&p, 8), Ok(()));
    assert_eq!(
        validate_create_risk_profile(&CreateRiskProfileParams { allowed_market_max: 0, ..p }, 8),
        Err(Error::Ydelta(YdeltaError::VaultProfileAllowedMarketsExceeded))
    );
    assert_eq!(
        validate_create_risk_profile(&p, 2),
        Err(Error::Ydelta(YdeltaError::VaultProfileAllowedMarketsExceeded))
    );
    assert_eq!(
        validate_create_risk_profile(&CreateRiskProfileParams { max_ltv_bps: 10_000, ..p }, 8),
        Err(Error::Ydelta(YdeltaError::VaultProfileLtvOutOfRange))
    );
    assert_eq!(
        validate_create_risk_profile(&CreateRiskProfileParams { max_term_seconds: 0, ..p }, 8),
        Err(Error::Ydelta(YdeltaError::VaultProfileTermInvalid))
    );
    assert_eq!(
        validate_create_risk_profile(&CreateRiskProfileParams { curator: ZERO, ..p }, 8),
        Err(Error::Ydelta(YdeltaError::InvalidArgument))
    );
}

#[test]
fn pool_sub_vault_creation_checks() {
    let p = CreatePoolSubVaultParams {
        curator: ALICE,
        spread_bps: 50,
        max_ltv_bps: 7_000,
        liquidation_ltv_bps: 8_000,
        max_term_seconds: 86_400,
        curator_fee_bps: 1_000,
    };
    assert_eq!(validate_create_pool_sub_vault(&p, 500, 2_000), Ok(()));
    assert_eq!(
        validate_create_pool_sub_vault(&p, 500, 999),
        Err(Error::Ydelta(YdeltaError::InvalidArgument))
    );
    assert_eq!(
        validate_create_pool_sub_vault(&CreatePoolSubVaultParams { curator: ZERO, ..p }, 500, 2_000),
        Err(Error::Ydelta(YdeltaError::InvalidArgument))
    );
    assert_eq!(
        validate_create_pool_sub_vault(&p, 1_500, 2_000),
        Err(Error::Ydelta(YdeltaError::SubVaultLtvOutOfRange))
    );
}

#[test]
fn risk_profile_seat_checks() {
    assert_eq!(check_claim_seat_for_risk_profile(1, &ALICE, &ALICE, 0, 1), Ok(()));
    assert_eq!(
        check_claim_seat_for_risk_profile(0, &ALICE, &ALICE, 0, 1),
        Err(Error::Ydelta(YdeltaError::InvalidArgument))
    );
    assert_eq!(
        check_claim_seat_for_risk_profile(1, &BOB, &ALICE, 0, 1),
        Err(Error::Ydelta(YdeltaError::VaultCuratorRequired))
    );
    assert_eq!(
        check_claim_seat_for_risk_profile(1, &ALICE, &ALICE, 1, 1),
        Err(Error::Ydelta(YdeltaError::VaultProfileAllowedMarketsExceeded))
    );
    assert_eq!(check_seat_max_exposure(100, &ALICE, &ALICE, 100), Ok(()));
    assert_eq!(
        check_seat_max_exposure(99, &ALICE, &ALICE, 100),
        Err(Error::Ydelta(YdeltaError::InvalidArgument))
    );
    assert_eq!(
        check_seat_max_exposure(100, &BOB, &ALICE, 0),
        Err(Error::Ydelta(YdeltaError::VaultCuratorRequired))
    );
    assert_eq!(check_risk_profile_order(&ALICE, &ALICE, 10, 10), Ok(()));
    assert_eq!(
        check_risk_profile_order(&ALICE, &ALICE, 11, 10),
        Err(Error::Ydelta(YdeltaError::VaultOrderTermExceedsProfileMax))
    );
    assert_eq!(
        check_risk_profile_order(&BOB, &ALICE, 1, 10),
        Err(Error::Ydelta(YdeltaError::VaultCuratorRequired))
    );
}

#[test]
fn seat_release_and_removal_checks() {
    let clear = SeatObligations {
        deployed_atoms: 0,
        open_lend_count: 0,
        open_borrow_count: 0,
        debt_withdrawable_shares: 0,
        debt_encumbered_shares: 0,
    };
    assert_eq!(check_seat_releasable(&clear), Ok(()));
    let busy = Err(Error::Ydelta(YdeltaError::SeatHasOpenObligations));
    assert_eq!(check_seat_releasable(&SeatObligations { open_lend_count: 1, ..clear }), busy);
    assert_eq!(check_seat_releasable(&SeatObligations { debt_withdrawable_shares: 1, ..clear }), busy);
    let empty = RiskProfileBalances {
        total_shares: 0,
        total_assets_atoms: 0,
        total_principal_atoms: 0,
        deployed_principal_atoms: 0,
        encumbered_in_orders_atoms: 0,
        accumulated_curator_fee_atoms: 0,
    };
    assert_eq!(check_risk_profile_removable(&empty), Ok(()));
    assert_eq!(
        check_risk_profile_removable(&RiskProfileBalances { accumulated_curator_fee_atoms: 1, ..empty }),
        Err(Error::Ydelta(YdeltaError::VaultProfileNotEmpty))
    );
    assert_eq!(check_sub_vault_sunset(true), Ok(()));
    assert_eq!(check_sub_vault_sunset(false), Err(Error::Ydelta(YdeltaError::SubVaultNotSunset)));
}

#[test]
fn risk_profile_and_sub_vault_updates() {
    let mut l = RiskProfileLimits { max_ltv_bps: 7_000, max_term_seconds: 100 };
    let p = UpdateRiskProfileParams {
        profile_id: 1,
        new_max_ltv_bps: Some(6_000),
        new_max_term_seconds: None,
    };
    assert_eq!(update_risk_profile(&mut l, true, &p), Err(Error::Ydelta(YdeltaError::VaultProfileSunset)));
    assert_eq!(l, RiskProfileLimits { max_ltv_bps: 7_000, max_term_seconds: 100 });
    assert_eq!(update_risk_profile(&mut l, false, &p), Ok(()));
    assert_eq!(l, RiskProfileLimits { max_ltv_bps: 6_000, max_term_seconds: 100 });
    let bad = UpdateRiskProfileParams { new_max_term_seconds: Some(0), ..p };
    assert_eq!(
        update_risk_profile(&mut l, true, &bad),
        Err(Error::Ydelta(YdeltaError::VaultProfileTermInvalid))
    );

    let current = SubVaultRiskParams { max_ltv_bps: 7_000, liquidation_ltv_bps: 8_000, max_term_seconds: 100 };
    let up = UpdateSubVaultParams {
        sub_vault_id: 1,
        new_max_ltv_bps: Some(7_200),
        new_liquidation_ltv_bps: None,
        new_max_term_seconds: None,
        new_spread_bps: None,
    };
    let mut spread: u16 = 30;
    assert_eq!(
        update_sub_vault(current, &ALICE, false, &BOB, &up, 500, &mut spread),
        Err(Error::Ydelta(YdeltaError::VaultCuratorRequired))
    );
    assert_eq!(
        update_sub_vault(current, &ALICE, true, &ALICE, &up, 500, &mut spread),
        Err(Error::Ydelta(YdeltaError::SubVaultSunset))
    );
    assert_eq!(
        update_sub_vault(current, &ALICE, false, &ALICE, &up, 500, &mut spread),
        Ok(SubVaultRiskParams { max_ltv_bps: 7_200, ..current })
    );
    assert_eq!(spread, 30);
    // The spread override is written on success only.
    let respread = UpdateSubVaultParams { new_spread_bps: Some(45), ..up };
    assert_eq!(
        update_sub_vault(current, &ALICE, false, &ALICE, &respread, 500, &mut spread),
        Ok(SubVaultRiskParams { max_ltv_bps: 7_200, ..current })
    );
    assert_eq!(spread, 45);
    let bad = UpdateSubVaultParams { new_liquidation_ltv_bps: Some(7_500), new_spread_bps: Some(99), ..up };
    assert_eq!(
        update_sub_vault(current, &ALICE, false, &ALICE, &bad, 500, &mut spread),
        Err(Error::Ydelta(YdeltaError::SubVaultLtvOutOfRange))
    );
    assert_eq!(spread, 45);
    let no_term = UpdateSubVaultParams { new_max_term_seconds: Some(0), ..up };
    assert_eq!(
        update_sub_vault(current, &ALICE, false, &ALICE, &no_term, 500, &mut spread),
        Err(Error::Ydelta(YdeltaError::SubVaultTermInvalid))
    );
}

#[test]
fn sub_vault_ask_rate_adds_spread() {
    assert_eq!(sub_vault_ask_rate(&ALICE, &ALICE, false, 420, 80), Ok(500));
    assert_eq!(
        sub_vault_ask_rate(&ALICE, &ALICE, false, u16::MAX, 1),
        Err(Error::Ydelta(YdeltaError::MathOverflow))
    );
    assert_eq!(
        sub_vault_ask_rate(&BOB, &ALICE, false, 1, 1),
        Err(Error::Ydelta(YdeltaError::VaultCuratorRequired))
    );
    assert_eq!(
        sub_vault_ask_rate(&BOB, &ALICE, true, 1, 1),
        Err(Error::Ydelta(YdeltaError::SubVaultSunset))
    );
}

#[test]
fn bid_follow_ups() {
    let f = bid_follow_up(true, false, 10);
    assert!(f.open_pool_tail && !f.record_resting_bid && !f.log_dropped_residual);
    let f = bid_follow_up(false, true, 10);
    assert!(!f.open_pool_tail && f.record_resting_bid && !f.log_dropped_residual);
    let f = bid_follow_up(false, false, 10);
    assert!(!f.open_pool_tail && !f.record_resting_bid && f.log_dropped_residual);
    let f = bid_follow_up(true, false, 0);
    assert!(!f.open_pool_tail && !f.log_dropped_residual);
    assert_eq!(shares_gained(10, 25), Ok(15));
    assert_eq!(shares_gained(25, 10), Err(Error::Ydelta(YdeltaError::IncorrectAccount)));
}

#[test]
fn only_the_profile_active_markets_are_accepted() {
    let mut active = [[0u8; 32]; 8];
    active[0] = [10u8; 32];
    active[1] = [11u8; 32];
    active[2] = [12u8; 32];
    assert!(market_is_active(&active, 3, &[12u8; 32]));
    assert!(!market_is_active(&active, 2, &[12u8; 32]));
    assert!(!market_is_active(&active, 3, &[13u8; 32]));
    assert!(!market_is_active(&active, 0, &[10u8; 32]));
}
