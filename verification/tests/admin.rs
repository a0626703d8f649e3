use ydelta::error::{Error, YdeltaError};
use ydelta::processor::admin::{
    accept_role_transfer, is_zero_key, propose_role_transfer, set_pause_flag, Role, RoleHandoff,
};
use ydelta::processor::fee_config_helpers::{update_fee_config, FeeConfig, SetFeeConfigParams};

const ALICE: [u8; 32] = [1u8; 32];
const BOB: [u8; 32] = [2u8; 32];
const CAROL: [u8; 32] = [3u8; 32];
const ZERO: [u8; 32] = [0u8; 32];

fn fresh() -> RoleHandoff {
    RoleHandoff { holder: ALICE, pending: ZERO }
}

#[test]
fn zero_key_detection() {
    assert!(is_zero_key(&ZERO));
    assert!(!is_zero_key(&ALICE));
    let mut k = ZERO;
    k[31] = 1;
    assert!(!is_zero_key(&k));
}

#[test]
fn holder_proposes_and_successor_accepts() {
    let mut h = fresh();
    assert_eq!(propose_role_transfer(&mut h, Role::MarketAdmin, &ALICE, &BOB), Ok(()));
    assert_eq!(h, RoleHandoff { holder: ALICE, pending: BOB });
    assert_eq!(accept_role_transfer(&mut h, &BOB), Ok(()));
    assert_eq!(h, RoleHandoff { holder: BOB, pending: ZERO });
    // Nothing is pending any more, so a second acceptance is refused.
    assert_eq!(
        accept_role_transfer(&mut h, &BOB),
        Err(Error::Ydelta(YdeltaError::PendingAdminMismatch))
    );
}

#[test]
fn non_holder_cannot_propose() {
    let mut h = fresh();
    let cases = [
        (Role::MarketAdmin, YdeltaError::MarketAdminRequired),
        (Role::GlobalVaultAdmin, YdeltaError::VaultAdminRequired),
        (Role::Curator, YdeltaError::VaultCuratorRequired),
        (Role::ProtocolAdmin, YdeltaError::ProtocolAdminRequired),
    ];
    for (role, err) in cases {
        assert_eq!(propose_role_transfer(&mut h, role, &BOB, &BOB), Err(Error::Ydelta(err)));
        assert_eq!(h, fresh());
    }
}

#[test]
fn only_the_pending_key_can_accept() {
    let mut h = fresh();
    propose_role_transfer(&mut h, Role::Curator, &ALICE, &BOB).unwrap();
    let before = h;
    assert_eq!(
        accept_role_transfer(&mut h, &CAROL),
        Err(Error::Ydelta(YdeltaError::PendingAdminMismatch))
    );
    assert_eq!(h, before);
    assert_eq!(
        accept_role_transfer(&mut h, &ALICE),
        Err(Error::Ydelta(YdeltaError::PendingAdminMismatch))
    );
    assert_eq!(h, before);
}

#[test]
fn zero_key_never_accepts() {
    let mut h = fresh();
    assert_eq!(
        accept_role_transfer(&mut h, &ZERO),
        Err(Error::Ydelta(YdeltaError::PendingAdminMismatch))
    );
    propose_role_transfer(&mut h, Role::ProtocolAdmin, &ALICE, &ZERO).unwrap();
    assert_eq!(
        accept_role_transfer(&mut h, &ZERO),
        Err(Error::Ydelta(YdeltaError::PendingAdminMismatch))
    );
    assert_eq!(h.holder, ALICE);
}

#[test]
fn a_new_proposal_replaces_the_pending_one() {
    let mut h = fresh();
    propose_role_transfer(&mut h, Role::GlobalVaultAdmin, &ALICE, &BOB).unwrap();
    propose_role_transfer(&mut h, Role::GlobalVaultAdmin, &ALICE, &CAROL).unwrap();
    assert_eq!(
        accept_role_transfer(&mut h, &BOB),
        Err(Error::Ydelta(YdeltaError::PendingAdminMismatch))
    );
    assert_eq!(accept_role_transfer(&mut h, &CAROL), Ok(()));
    assert_eq!(h.holder, CAROL);
}

#[test]
fn pause_flag_is_normalized_and_gated() {
    assert_eq!(set_pause_flag(&ALICE, Role::MarketAdmin, &ALICE, 7), Ok(1));
    assert_eq!(set_pause_flag(&ALICE, Role::GlobalVaultAdmin, &ALICE, 0), Ok(0));
    assert_eq!(
        set_pause_flag(&ALICE, Role::ProtocolAdmin, &BOB, 1),
        Err(Error::Ydelta(YdeltaError::ProtocolAdminRequired))
    );
    assert_eq!(
        set_pause_flag(&ALICE, Role::GlobalVaultAdmin, &BOB, 1),
        Err(Error::Ydelta(YdeltaError::VaultAdminRequired))
    );
}

#[test]
fn fee_update_requires_market_admin_and_valid_overrides() {
    let base = FeeConfig {
        protocol_fee_bps_floor: 10,
        origination_bps: 20,
        curator_split_bps: 30,
        curator_fee_bps: 35,
        liquidation_keeper_bps: 40,
        liquidation_protocol_bps: 50,
        ltv_buffer_bps: 55,
        grace_period_seconds: 60,
    };
    let p = SetFeeConfigParams { origination_bps: Some(99), ..SetFeeConfigParams::default() };
    let mut c = base;
    assert_eq!(
        update_fee_config(&mut c, &ALICE, &BOB, &p),
        Err(Error::Ydelta(YdeltaError::MarketAdminRequired))
    );
    assert_eq!(c, base);
    let bad = SetFeeConfigParams { curator_split_bps: Some(10_001), ..p };
    assert_eq!(
        update_fee_config(&mut c, &ALICE, &ALICE, &bad),
        Err(Error::Ydelta(YdeltaError::InvalidFeeConfig))
    );
    assert_eq!(c, base);
    assert_eq!(update_fee_config(&mut c, &ALICE, &ALICE, &p), Ok(()));
    assert_eq!(c, FeeConfig { origination_bps: 99, ..base });
}
