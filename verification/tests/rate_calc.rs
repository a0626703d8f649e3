use ydelta::error::{AdapterError, Error, YdeltaError};
use ydelta::math::SCALE;
use ydelta::protocol::marginfi::MarginfiV18Adapter;
use ydelta::protocol::marginfi_rate_calc::{
    calc_accrued_share_value_fp48, calc_interest_rate_fp48, calc_projected_asset_share_value_fp48,
    calc_projected_liability_share_value_fp48, interest_rate_curve_legacy,
    interest_rate_curve_seven_point, lerp_fp48, rate_milli_u32_to_fp48,
    read_bank_interest_rate_config, read_bank_last_update, read_group_program_fees, read_i64,
    read_u32, read_u64, read_u8, read_wrapped_i80f48_fp48, util_centi_u32_to_fp48,
    GroupProgramFees, InterestRateConfigDecoded, INTEREST_CURVE_LEGACY, INTEREST_CURVE_SEVEN_POINT,
    IRC_POINTS_COUNT, MARGINFI_SECONDS_PER_YEAR,
};

fn legacy_cfg() -> InterestRateConfigDecoded {
    InterestRateConfigDecoded {
        optimal_utilization_rate_fp48: SCALE / 2,
        plateau_interest_rate_fp48: SCALE / 10,
        max_interest_rate_fp48: SCALE,
        insurance_fee_fixed_apr_fp48: 0,
        insurance_ir_fee_fp48: 0,
        protocol_fixed_fee_apr_fp48: 0,
        protocol_ir_fee_fp48: 0,
        zero_util_rate_milli_u32: 0,
        hundred_util_rate_milli_u32: 0,
        points: [(0, 0); IRC_POINTS_COUNT],
        curve_type: INTEREST_CURVE_LEGACY,
    }
}

#[test]
fn legacy_curve_at_optimal_yields_plateau() {
    let cfg = legacy_cfg();
    let base = interest_rate_curve_legacy(SCALE / 2, &cfg).unwrap();
    assert_eq!(base, SCALE / 10);
}

#[test]
fn legacy_curve_at_zero_yields_zero() {
    let cfg = legacy_cfg();
    let base = interest_rate_curve_legacy(0, &cfg).unwrap();
    assert_eq!(base, 0);
}

#[test]
fn legacy_curve_at_full_util_yields_max() {
    let cfg = legacy_cfg();
    let base = interest_rate_curve_legacy(SCALE, &cfg).unwrap();
    assert_eq!(base, SCALE);
}

#[test]
fn calc_interest_rate_adds_borrowing_fees() {
    let mut cfg = legacy_cfg();
    cfg.insurance_fee_fixed_apr_fp48 = SCALE / 1000;
    cfg.insurance_ir_fee_fp48 = SCALE / 100;
    let group_fees = GroupProgramFees {
        enabled: false,
        program_fee_fixed_fp48: 0,
        program_fee_rate_fp48: 0,
    };
    let (lending, borrowing) = calc_interest_rate_fp48(SCALE / 2, &cfg, &group_fees).unwrap();
    let expect_lending = SCALE / 20;
    let expect_borrowing = SCALE / 10 + SCALE / 1000 + SCALE / 1000;
    assert!(
        (lending as i128 - expect_lending as i128).unsigned_abs() < 10,
        "lending {} ≉ {}",
        lending,
        expect_lending
    );
    assert!(
        (borrowing as i128 - expect_borrowing as i128).unsigned_abs() < 100,
        "borrowing {} ≉ {}",
        borrowing,
        expect_borrowing
    );
}

#[test]
fn accrued_share_value_zero_dt_unchanged() {
    let lsv = SCALE;
    let apr = SCALE / 10;
    let new_lsv = calc_accrued_share_value_fp48(apr, 0, lsv).unwrap();
    assert_eq!(new_lsv, lsv);
}

#[test]
fn accrued_share_value_one_year_doubles_at_100pct_apr() {
    let lsv = SCALE;
    let apr = SCALE;
    let new_lsv = calc_accrued_share_value_fp48(apr, MARGINFI_SECONDS_PER_YEAR, lsv).unwrap();
    let drift = (new_lsv as i128 - (2 * SCALE) as i128).unsigned_abs();
    assert!(drift < 10, "new_lsv {} ≉ 2.0 fp48", new_lsv);
}

#[test]
fn lerp_fp48_rejects_marginfi_invariant_violations() {
    assert!(lerp_fp48(100, 0, 100, 50, 100).is_err(), "end_x == start_x");
    assert!(lerp_fp48(100, 0, 50, 50, 75).is_err(), "end_x < start_x");
    assert!(lerp_fp48(100, 0, 200, 50, 50).is_err(), "target_x < start_x");
    assert!(lerp_fp48(100, 0, 200, 50, 300).is_err(), "target_x > end_x");
    assert!(lerp_fp48(0, 100, 200, 50, 100).is_err(), "negative slope");
    let mid = lerp_fp48(0, 0, 200, 100, 100).unwrap();
    assert_eq!(mid, 50);
}

#[test]
fn lerp_endpoints_are_exact() {
    assert_eq!(lerp_fp48(10, 7, 20, 19, 10).unwrap(), 7);
    assert_eq!(lerp_fp48(10, 7, 20, 19, 20).unwrap(), 19);
    assert_eq!(
        lerp_fp48(10, 7, 20, 19, 21).unwrap_err(),
        Error::Ydelta(YdeltaError::InvalidArgument)
    );
}

#[test]
fn legacy_curve_rejects_degenerate_configs() {
    let mut cfg = legacy_cfg();
    cfg.optimal_utilization_rate_fp48 = 0;
    assert_eq!(
        interest_rate_curve_legacy(1, &cfg).unwrap_err(),
        Error::Ydelta(YdeltaError::InvalidArgument)
    );
    let mut cfg = legacy_cfg();
    cfg.optimal_utilization_rate_fp48 = SCALE;
    assert_eq!(interest_rate_curve_legacy(SCALE, &cfg).unwrap(), SCALE / 10);
    assert!(interest_rate_curve_legacy(SCALE + 1, &cfg).is_err());
}

#[test]
fn legacy_curve_above_optimal_is_linear() {
    let cfg = legacy_cfg();
    // Halfway between optimal (0.5) and full (1.0): plateau + half the spread.
    let r = interest_rate_curve_legacy(SCALE * 3 / 4, &cfg).unwrap();
    assert_eq!(r, SCALE / 10 + (SCALE - SCALE / 10) / 2);
}

#[test]
fn rate_conversions() {
    assert_eq!(rate_milli_u32_to_fp48(u32::MAX).unwrap(), 10 * SCALE);
    assert_eq!(rate_milli_u32_to_fp48(0).unwrap(), 0);
    assert_eq!(util_centi_u32_to_fp48(u32::MAX).unwrap(), SCALE);
}

fn seven_point_cfg() -> InterestRateConfigDecoded {
    let mut cfg = legacy_cfg();
    cfg.curve_type = INTEREST_CURVE_SEVEN_POINT;
    cfg.zero_util_rate_milli_u32 = 0;
    cfg.hundred_util_rate_milli_u32 = u32::MAX; // 1000%
    cfg.points = [(u32::MAX / 2, u32::MAX / 100), (0, 0), (0, 0), (0, 0), (0, 0)];
    cfg
}

#[test]
fn seven_point_curve_interpolates_through_points() {
    let cfg = seven_point_cfg();
    assert_eq!(interest_rate_curve_seven_point(0, &cfg).unwrap(), 0);
    let mid_util = util_centi_u32_to_fp48(u32::MAX / 2).unwrap();
    let mid_rate = rate_milli_u32_to_fp48(u32::MAX / 100).unwrap();
    assert_eq!(interest_rate_curve_seven_point(mid_util, &cfg).unwrap(), mid_rate);
    assert_eq!(interest_rate_curve_seven_point(SCALE, &cfg).unwrap(), 10 * SCALE);
    // Utilization above 1.0 is capped.
    assert_eq!(interest_rate_curve_seven_point(5 * SCALE, &cfg).unwrap(), 10 * SCALE);
}

#[test]
fn seven_point_curve_rejects_out_of_order_points() {
    let mut cfg = seven_point_cfg();
    cfg.points = [(1000, 5), (500, 6), (0, 0), (0, 0), (0, 0)];
    assert_eq!(
        interest_rate_curve_seven_point(SCALE, &cfg).unwrap_err(),
        Error::Ydelta(YdeltaError::InvalidArgument)
    );
}

#[test]
fn unknown_curve_type_is_refused() {
    let mut cfg = legacy_cfg();
    cfg.curve_type = 7;
    let fees = GroupProgramFees { enabled: true, program_fee_fixed_fp48: 1, program_fee_rate_fp48: 1 };
    assert_eq!(
        calc_interest_rate_fp48(SCALE / 2, &cfg, &fees).unwrap_err(),
        Error::Adapter(AdapterError::InvalidIntegrationAccount)
    );
}

#[test]
fn program_fees_count_only_when_enabled() {
    let cfg = legacy_cfg();
    let off = GroupProgramFees { enabled: false, program_fee_fixed_fp48: SCALE, program_fee_rate_fp48: SCALE };
    let on = GroupProgramFees { enabled: true, program_fee_fixed_fp48: SCALE, program_fee_rate_fp48: SCALE };
    let (_, b_off) = calc_interest_rate_fp48(SCALE / 2, &cfg, &off).unwrap();
    let (_, b_on) = calc_interest_rate_fp48(SCALE / 2, &cfg, &on).unwrap();
    assert_eq!(b_off, SCALE / 10);
    // base × (1 + 1.0) + 1.0
    assert_eq!(b_on, 2 * (SCALE / 10) + SCALE);
}

#[test]
fn raw_readers_check_lengths() {
    let mut data = vec![0u8; 8 + 16];
    data[8] = 0xAB;
    data[8..12].copy_from_slice(&0xDEAD_BEEFu32.to_le_bytes());
    assert_eq!(read_u8(&data, 0).unwrap(), 0xEF);
    assert_eq!(read_u32(&data, 0).unwrap(), 0xDEAD_BEEF);
    assert!(read_u32(&data, 13).is_err());
    data[8..16].copy_from_slice(&(-5i64).to_le_bytes());
    assert_eq!(read_i64(&data, 0).unwrap(), -5);
    assert_eq!(read_u64(&data, 0).unwrap(), (-5i64) as u64);
    assert!(read_u8(&data, 16).is_err());
    data[8..24].copy_from_slice(&(7i128 << 48).to_le_bytes());
    assert_eq!(read_wrapped_i80f48_fp48(&data, 0).unwrap(), 7u128 << 48);
    data[8..24].copy_from_slice(&(-1i128).to_le_bytes());
    assert_eq!(
        read_wrapped_i80f48_fp48(&data, 0).unwrap_err(),
        Error::Adapter(AdapterError::InvalidIntegrationAccount)
    );
}

const BANK_LEN: usize = 8 + 360 + 177;

fn put_fp(buf: &mut [u8], body_off: usize, v: u128) {
    buf[8 + body_off..8 + body_off + 16].copy_from_slice(&v.to_le_bytes());
}

fn bank_bytes(last_update: i64, asv: u128, lsv: u128, tas: u128, tls: u128) -> Vec<u8> {
    let mut b = vec![0u8; BANK_LEN];
    put_fp(&mut b, 72, asv);
    put_fp(&mut b, 88, lsv);
    put_fp(&mut b, 248, tls);
    put_fp(&mut b, 264, tas);
    b[8 + 280..8 + 288].copy_from_slice(&last_update.to_le_bytes());
    // Legacy curve: optimal 0.5, plateau 0.1, max 1.0.
    put_fp(&mut b, 360, SCALE / 2);
    put_fp(&mut b, 360 + 16, SCALE / 10);
    put_fp(&mut b, 360 + 32, SCALE);
    b[8 + 360 + 176] = INTEREST_CURVE_LEGACY;
    b
}

fn group_bytes(enabled: bool) -> Vec<u8> {
    let mut g = vec![0u8; 8 + 104];
    g[8 + 32..8 + 40].copy_from_slice(&(if enabled { 1u64 } else { 2u64 }).to_le_bytes());
    put_fp(&mut g, 72, SCALE / 100);
    put_fp(&mut g, 88, SCALE / 50);
    g
}

#[test]
fn bank_config_decodes_from_bytes() {
    let mut b = bank_bytes(1_000, SCALE, SCALE, SCALE, SCALE);
    b[8 + 360 + 128..8 + 360 + 132].copy_from_slice(&11u32.to_le_bytes());
    b[8 + 360 + 136 + 8..8 + 360 + 136 + 12].copy_from_slice(&22u32.to_le_bytes());
    b[8 + 360 + 136 + 12..8 + 360 + 136 + 16].copy_from_slice(&33u32.to_le_bytes());
    let cfg = read_bank_interest_rate_config(&b).unwrap();
    assert_eq!(cfg.optimal_utilization_rate_fp48, SCALE / 2);
    assert_eq!(cfg.plateau_interest_rate_fp48, SCALE / 10);
    assert_eq!(cfg.max_interest_rate_fp48, SCALE);
    assert_eq!(cfg.zero_util_rate_milli_u32, 11);
    assert_eq!(cfg.points[1], (22, 33));
    assert_eq!(cfg.curve_type, INTEREST_CURVE_LEGACY);
    assert!(read_bank_interest_rate_config(&b[..BANK_LEN - 1]).is_err());
    assert_eq!(read_bank_last_update(&b).unwrap(), 1_000);

    let fees = read_group_program_fees(&group_bytes(true)).unwrap();
    assert!(fees.enabled);
    assert_eq!(fees.program_fee_fixed_fp48, SCALE / 100);
    assert_eq!(fees.program_fee_rate_fp48, SCALE / 50);
    assert!(!read_group_program_fees(&group_bytes(false)).unwrap().enabled);
    assert!(read_group_program_fees(&group_bytes(true)[..111]).is_err());
}

#[test]
fn projection_is_identity_without_elapsed_time() {
    let b = bank_bytes(1_000, SCALE + 5, SCALE + 9, SCALE, SCALE);
    let g = group_bytes(false);
    assert_eq!(calc_projected_liability_share_value_fp48(&b, &g, 1_000).unwrap(), SCALE + 9);
    assert_eq!(calc_projected_asset_share_value_fp48(&b, &g, 900).unwrap(), SCALE + 5);
}

#[test]
fn projection_accrues_borrowing_and_lending_rates() {
    // Half the assets are lent out: utilization 0.5, base rate 0.1 (plateau).
    let b = bank_bytes(0, SCALE, SCALE, 2 * SCALE, SCALE);
    let g = group_bytes(false);
    let year = MARGINFI_SECONDS_PER_YEAR as i64;
    let lsv = calc_projected_liability_share_value_fp48(&b, &g, year).unwrap();
    let asv = calc_projected_asset_share_value_fp48(&b, &g, year).unwrap();
    // Borrowers pay 10% a year, lenders earn 10% × 0.5.
    assert_eq!(lsv, SCALE + SCALE / 10);
    assert_eq!(asv, SCALE + SCALE / 20);
    assert!(lsv > SCALE && asv > SCALE);
}

#[test]
fn projected_liability_atoms_ceil() {
    let b = bank_bytes(0, SCALE, SCALE, 2 * SCALE, SCALE);
    let g = group_bytes(false);
    let a = MarginfiV18Adapter;
    let year = MARGINFI_SECONDS_PER_YEAR as i64;
    assert_eq!(a.get_projected_liability_atoms_ceil(&b, &g, 0, year).unwrap(), 0);
    assert_eq!(a.get_projected_liability_atoms_ceil(&b, &g, 100 * SCALE, year).unwrap(), 110);
    assert!(a.get_projected_liability_atoms_ceil(&b[..100], &g, SCALE, year).is_err());
}

#[test]
fn lerp_is_monotone_along_the_segment() {
    let mut prev = 0u128;
    for t in [0u128, 10, 33, 50, 77, 100] {
        let v = lerp_fp48(0, 5 * SCALE, 100, 9 * SCALE, t).unwrap();
        assert!(v >= prev);
        prev = v;
    }
    assert_eq!(lerp_fp48(0, 5 * SCALE, 100, 9 * SCALE, 0).unwrap(), 5 * SCALE);
    assert_eq!(lerp_fp48(0, 5 * SCALE, 100, 9 * SCALE, 100).unwrap(), 9 * SCALE);
}
