use ydelta::error::{AdapterError, Error};
use ydelta::math::{div_scale, from_scaled_floor, mul_scale, to_scaled, SCALE};
use ydelta::protocol::marginfi::{
    check_atom_delta, realized_liability_shares_burned, token_balance_of, u128_to_wrapped_i80f48,
    wrapped_i80f48_to_u128, MarginfiV18Adapter, SPL_TOKEN_2022_PROGRAM_ID, SPL_TOKEN_PROGRAM_ID,
};
use ydelta::protocol::ProtocolId;

#[test]
fn one_point_zero_round_trips() {
    let one_bits = 1i128 << 48;
    let scaled = wrapped_i80f48_to_u128(one_bits).unwrap();
    assert_eq!(scaled, SCALE);
    assert_eq!(scaled, 1u128 << 48);
    let back = u128_to_wrapped_i80f48(SCALE);
    assert_eq!(back, 1i128 << 48);
}

#[test]
fn share_price_above_one_round_trips() {
    let bits = (21i128 << 48) / 20;
    let scaled = wrapped_i80f48_to_u128(bits).unwrap();
    assert_eq!(scaled, bits as u128);
    assert_eq!(u128_to_wrapped_i80f48(scaled), bits);
}

#[test]
fn zero_round_trips() {
    let scaled = wrapped_i80f48_to_u128(0).unwrap();
    assert_eq!(scaled, 0);
}

#[test]
fn negative_i80f48_errors() {
    let neg = -1i128 << 48;
    assert!(
        wrapped_i80f48_to_u128(neg).is_err(),
        "wrapped_i80f48_to_u128 must reject negative input"
    );
    assert!(wrapped_i80f48_to_u128(-1).is_err());
    assert!(wrapped_i80f48_to_u128(i128::MIN).is_err());
}

#[test]
fn arbitrary_bits_preserve_round_trip() {
    for raw in [
        0i128,
        1,
        (1 << 48) - 1,
        (3 << 48) / 2,
        (10_000i128 << 48) + (1 << 24),
        i128::MAX / 2,
    ] {
        let scaled = wrapped_i80f48_to_u128(raw).unwrap();
        let back = u128_to_wrapped_i80f48(scaled);
        assert_eq!(back, raw, "round trip broken for {}", raw);
    }
}

#[test]
fn shares_to_amount_at_unit_price_is_atoms_floor() {
    let atoms_in: u64 = 1_000_000;
    let shares = to_scaled(atoms_in as u128).unwrap();
    let atoms_fp48 = mul_scale(shares, SCALE).unwrap();
    assert_eq!(from_scaled_floor(atoms_fp48), atoms_in as u128);
}

#[test]
fn amount_to_shares_at_unit_price_round_trips() {
    let atoms: u64 = 5_000;
    let amount = to_scaled(atoms as u128).unwrap();
    let shares = div_scale(amount, SCALE).unwrap();
    assert_eq!(shares, amount);
    let atoms_back = from_scaled_floor(mul_scale(shares, SCALE).unwrap());
    assert_eq!(atoms_back, atoms as u128);
}

#[test]
fn shares_to_amount_at_high_price_truncates() {
    let asv_u128 = (3u128 << 48) / 2;
    let shares = SCALE;
    let atoms_fp48 = mul_scale(shares, asv_u128).unwrap();
    assert_eq!(from_scaled_floor(atoms_fp48), 1);
}

#[test]
fn liability_shares_to_atoms_ceil_at_lsv_unit_price() {
    let adapter = MarginfiV18Adapter::default();
    let atoms_in: u64 = 1_000_000;
    let shares_fp48 = (atoms_in as u128) << 48;
    let lsv_fp48 = SCALE;
    let out = adapter.liability_shares_to_atoms_ceil_at_lsv(shares_fp48, lsv_fp48).unwrap();
    assert_eq!(out, atoms_in);
}

#[test]
fn liability_shares_to_atoms_ceil_at_lsv_ceils_fractional() {
    let adapter = MarginfiV18Adapter::default();
    let shares_fp48 = 1u128 << 48;
    let lsv_fp48 = SCALE + 1;
    let out = adapter.liability_shares_to_atoms_ceil_at_lsv(shares_fp48, lsv_fp48).unwrap();
    assert_eq!(out, 2, "any non-zero fractional atom must ceil to next atom");
}

#[test]
fn liability_shares_to_atoms_ceil_at_lsv_survives_hundred_k_usdc() {
    let adapter = MarginfiV18Adapter::default();
    let atoms: u64 = 100_000 * 1_000_000;
    let shares_fp48 = (atoms as u128) << 48;
    let lsv_fp48 = SCALE + (SCALE / 2);
    let out = adapter
        .liability_shares_to_atoms_ceil_at_lsv(shares_fp48, lsv_fp48)
        .expect("must not overflow at 100k-USDC scale (this is the C-1 regression)");
    let expected = atoms as u128 + (atoms as u128) / 2;
    assert_eq!(out as u128, expected);
}

#[test]
fn liability_shares_to_atoms_ceil_at_lsv_survives_hundred_million_usdc() {
    let adapter = MarginfiV18Adapter::default();
    let atoms: u64 = 100_000_000 * 1_000_000;
    let shares_fp48 = (atoms as u128) << 48;
    let lsv_fp48 = SCALE;
    let out = adapter
        .liability_shares_to_atoms_ceil_at_lsv(shares_fp48, lsv_fp48)
        .expect("must not overflow at $100M scale");
    assert_eq!(out, atoms);
}

#[test]
fn liability_shares_to_atoms_ceil_at_lsv_zero_inputs_are_zero() {
    let adapter = MarginfiV18Adapter::default();
    assert_eq!(adapter.liability_shares_to_atoms_ceil_at_lsv(0, SCALE).unwrap(), 0);
    assert_eq!(adapter.liability_shares_to_atoms_ceil_at_lsv(SCALE, 0).unwrap(), 0);
}

#[test]
fn adapter_reports_marginfi() {
    assert_eq!(MarginfiV18Adapter.id(), ProtocolId::Marginfi);
}

#[test]
fn conversions_at_non_unit_share_value() {
    let a = MarginfiV18Adapter;
    let asv = (3u128 << 48) / 2; // 1.5
    // 3 atoms are 2 shares at 1.5 atoms per share.
    assert_eq!(a.amount_to_asset_shares(asv, 3).unwrap(), 2 * SCALE);
    assert_eq!(a.shares_to_amount(asv, 2 * SCALE).unwrap(), 3);
    assert_eq!(a.amount_to_liability_shares(2 * SCALE, 10).unwrap(), 5 * SCALE);
    assert_eq!(a.liability_shares_to_atoms_floor((3u128 << 48) / 2, SCALE).unwrap(), 1);
    assert_eq!(a.expected_withdraw_atoms(asv, SCALE).unwrap(), 1);
    assert_eq!(a.expected_repay_atoms(asv, SCALE).unwrap(), 2);
    assert_eq!(a.amount_to_asset_shares(0, 1).unwrap_err(), Error::ArithmeticOverflow);
}

#[test]
fn ceil_shares_cover_the_amount() {
    let a = MarginfiV18Adapter;
    for asv in [SCALE, SCALE + 1, (3u128 << 48) / 2, 3 * SCALE - 7, SCALE / 3] {
        for amount in [1u64, 2, 3, 999, 1_000_003] {
            let s = a.amount_to_asset_shares_ceil(asv, amount).unwrap();
            let back = from_scaled_floor(mul_scale(s, asv).unwrap());
            assert!(back >= amount as u128, "asv {} amount {}", asv, amount);
            let floor = a.amount_to_asset_shares(asv, amount).unwrap();
            assert!(s == floor || s == floor + 1);
        }
    }
}

#[test]
fn shares_to_amount_overflow_is_reported() {
    let a = MarginfiV18Adapter;
    assert_eq!(a.shares_to_amount(u128::MAX, u128::MAX).unwrap_err(), Error::ArithmeticOverflow);
    assert_eq!(a.shares_to_amount(SCALE, u128::MAX / 2).unwrap_err(), Error::ArithmeticOverflow);
}

#[test]
fn atom_delta_tolerates_one_atom() {
    assert!(check_atom_delta(100, 101).is_ok());
    assert!(check_atom_delta(101, 100).is_ok());
    assert_eq!(
        check_atom_delta(98, 100).unwrap_err(),
        Error::Adapter(AdapterError::UnexpectedAtomDelta)
    );
}

#[test]
fn burned_liability_must_not_grow() {
    assert_eq!(realized_liability_shares_burned(10, 4).unwrap(), 6);
    assert_eq!(
        realized_liability_shares_burned(4, 10).unwrap_err(),
        Error::Adapter(AdapterError::InvalidIntegrationAccount)
    );
}

#[test]
fn token_balance_reads_amount_field() {
    let mut data = vec![0u8; 165];
    data[64..72].copy_from_slice(&123_456u64.to_le_bytes());
    assert_eq!(token_balance_of(&SPL_TOKEN_PROGRAM_ID, &data).unwrap(), 123_456);
    assert_eq!(token_balance_of(&SPL_TOKEN_2022_PROGRAM_ID, &data).unwrap(), 123_456);
    assert!(token_balance_of(&[7u8; 32], &data).is_err());
    assert!(token_balance_of(&SPL_TOKEN_PROGRAM_ID, &data[..71]).is_err());
}
