//! Oracle price reading: which oracle setups are supported, the byte-level
//! decoders of Pyth push and Switchboard pull feeds, confidence and
//! freshness gating, and the staked-LST price adjustment.

use vstd::prelude::*;

use crate::bytes::{le_value, read_le};
use crate::error::{AdapterError, Error, YdeltaError};
use crate::math::{mul_div, mul_div_result, mul_div_spec, scale, to_scaled};
use crate::protocol::marginfi::{SPL_TOKEN_2022_PROGRAM_ID, SPL_TOKEN_PROGRAM_ID};
use crate::pubkey::keys_equal;

verus! {

/// The Pyth push-oracle program id.
pub const PYTH_PUSH_PROGRAM_ID: [u8; 32] = [
    12, 183, 250, 187, 82, 247, 166, 72, 187, 91, 49, 125, 154, 1, 139, 144, 87, 203, 2, 71, 116,
    250, 254, 1, 230, 196, 223, 152, 204, 56, 88, 129,
];

/// The Switchboard on-demand program id.
pub const SWITCHBOARD_ON_DEMAND_PROGRAM_ID: [u8; 32] = [
    6, 115, 189, 70, 242, 228, 126, 4, 241, 43, 217, 47, 183, 49, 150, 142, 205, 157, 151, 87, 194,
    116, 218, 135, 71, 111, 70, 92, 4, 12, 101, 115,
];

/// The native stake program id.
pub const STAKE_PROGRAM_ID: [u8; 32] = [
    6, 161, 216, 23, 145, 55, 84, 42, 152, 52, 55, 189, 254, 42, 122, 178, 85, 127, 83, 92, 138,
    120, 114, 43, 104, 164, 157, 192, 0, 0, 0, 0,
];

/// Staleness window used when the bank configures none (seconds).
pub const DEFAULT_ORACLE_MAX_AGE_SECS: i64 = 300;

/// How far in the future a publish time may lie (seconds).
pub const MAX_FUTURE_SKEW_SECS: i64 = 900;

/// Byte offset of the Pyth verification-level tag.
pub const PYTH_VERIFICATION_LEVEL_OFFSET: usize = 40;

/// Smallest accepted Pyth exponent.
pub const PYTH_MIN_EXPONENT: i32 = -12;

/// Largest accepted Pyth exponent.
pub const PYTH_MAX_EXPONENT: i32 = 2;

/// Verification-level tag of a fully verified Pyth update.
pub const PYTH_VERIFY_TAG_FULL: u8 = 1;

pub const PYTH_PRICE_OFFSET: usize = 73;
pub const PYTH_CONF_OFFSET: usize = 81;
pub const PYTH_EXPONENT_OFFSET: usize = 89;
pub const PYTH_PUBLISH_TIME_OFFSET: usize = 93;

/// Confidence inflation applied to Pyth intervals (bps).
pub const CONF_INTERVAL_MULTIPLE_BPS: u128 = 21_200;

/// Confidence inflation applied to Switchboard standard deviations (bps).
pub const STD_DEV_MULTIPLE_BPS: u128 = 19_600;

/// One whole, in basis points.
pub const BPS_DIVISOR: u128 = 10_000;

/// Maximum confidence, as a share of price in bps, when the bank sets none.
pub const DEFAULT_MAX_CONF_PCT_BPS: u128 = 1_000;

pub const SWB_LAST_UPDATE_TS_OFFSET: usize = 2216;
pub const SWB_RESULT_VALUE_OFFSET: usize = 2264;
pub const SWB_RESULT_STD_DEV_OFFSET: usize = 2280;
pub const SWB_MIN_SAMPLE_SIZE_OFFSET: usize = 2215;
pub const SWB_RESULT_NUM_SAMPLES_OFFSET: usize = 2360;

/// Decimal precision of Switchboard results.
pub const SWB_PRECISION: u32 = 18;

pub const SPL_MINT_SUPPLY_OFFSET: usize = 36;
pub const SPL_MINT_DECIMALS_OFFSET: usize = 44;

/// Decimals of native SOL.
pub const SOL_DECIMALS: u8 = 9;

/// Lamports in one SOL.
pub const LAMPORTS_PER_SOL: u64 = 1_000_000_000;

/// Oracle setups a bank can be configured with.
#[derive(Debug, Clone, Copy, PartialEq, Eq, Structural)]
pub enum OracleSetup {
    NoOracle,
    PythLegacy,
    SwitchboardV2,
    PythPushOracle,
    SwitchboardPull,
    StakedWithPythPush,
    KaminoPythPush,
    KaminoSwitchboardPull,
    DriftPythPull,
    DriftSwitchboardPull,
    SolendPythPull,
    SolendSwitchboardPull,
    JuplendPythPull,
    JuplendSwitchboardPull,
    Fixed,
    FixedKamino,
    FixedDrift,
    FixedJuplend,
}

/// Number of oracle accounts a supported setup reads; `None` for unsupported setups.
pub open spec fn oracle_account_count(setup: OracleSetup) -> Option<usize> {
    match setup {
        OracleSetup::PythPushOracle | OracleSetup::SwitchboardPull => Some(1),
        OracleSetup::StakedWithPythPush => Some(3),
        _ => None,
    }
}

/// Oracle accounts the setup reads: one for Pyth push and Switchboard pull,
/// three for staked-LST over Pyth push, none (unsupported) otherwise.
pub fn expected_oracle_account_count(setup: OracleSetup) -> (res: Option<usize>)
    ensures
        res == oracle_account_count(setup),
{
    match setup {
        OracleSetup::PythPushOracle | OracleSetup::SwitchboardPull => Some(1),
        OracleSetup::StakedWithPythPush => Some(3),
        _ => None,
    }
}

/// Freshness gate: the publish time may be up to `MAX_FUTURE_SKEW_SECS` in
/// the future and strictly less than `effective_max_age` in the past.
pub fn oracle_timestamp_acceptable(age: i64, effective_max_age: i64) -> (res: bool)
    ensures
        res == (age >= -MAX_FUTURE_SKEW_SECS && age < effective_max_age),
{
    age >= -MAX_FUTURE_SKEW_SECS && age < effective_max_age
}

/// `10^n`.
pub open spec fn pow10(n: nat) -> nat
    decreases n,
{
    if n == 0 {
        1
    } else {
        10 * pow10((n - 1) as nat)
    }
}

proof fn lemma_pow10_monotone(a: nat, b: nat)
    requires
        a <= b,
    ensures
        pow10(a) <= pow10(b),
    decreases b,
{
    if a < b {
        lemma_pow10_monotone(a, (b - 1) as nat);
    }
}

/// `10^38` is the largest power of ten that fits a `u128`.
pub proof fn lemma_pow10_u128_limit()
    ensures
        pow10(38) <= u128::MAX,
        pow10(39) > u128::MAX,
        pow10(18) == 1_000_000_000_000_000_000,
{
    reveal_with_fuel(pow10, 40);
}

/// `10^exp` as a `u128`; fails with `ArithmeticOverflow` when it does not fit
/// (that is, for every `exp > 38`).
pub fn pow10_u128(exp: u32) -> (res: Result<u128, Error>)
    ensures
        res is Ok <==> exp <= 38,
        res is Ok <==> pow10(exp as nat) <= u128::MAX,
        res matches Ok(v) ==> v == pow10(exp as nat),
        res matches Err(e) ==> e == Error::ArithmeticOverflow,
{
    proof {
        lemma_pow10_u128_limit();
        if exp > 38 {
            lemma_pow10_monotone(39, exp as nat);
        } else {
            lemma_pow10_monotone(exp as nat, 38);
        }
    }
    let mut acc: u128 = 1;
    let mut i: u32 = 0;
    while i < exp
        invariant
            i <= exp,
            acc == pow10(i as nat),
            pow10(39) > u128::MAX,
            exp > 38 ==> pow10(exp as nat) > u128::MAX,
            exp <= 38 ==> pow10(exp as nat) <= u128::MAX,
        decreases exp - i,
    {
        proof {
            lemma_pow10_monotone((i + 1) as nat, exp as nat);
        }
        match acc.checked_mul(10) {
            Some(v) => {
                acc = v;
            },
            None => {
                return Err(Error::ArithmeticOverflow);
            },
        }
        i = i + 1;
    }
    Ok(acc)
}

/// Outcome of [`scale_to_fp48`].
pub open spec fn scale_to_fp48_result(value: u128, exponent: i32) -> Result<u128, Error> {
    if exponent >= 0 {
        if exponent > 38 {
            Err(Error::ArithmeticOverflow)
        } else if value * pow10(exponent as nat) * scale() > u128::MAX {
            Err(Error::ArithmeticOverflow)
        } else {
            Ok((value * pow10(exponent as nat) * scale()) as u128)
        }
    } else if -exponent > 38 {
        Err(Error::ArithmeticOverflow)
    } else {
        match mul_div_result(value as int, scale(), pow10((-exponent) as nat) as int, false) {
            Err(e) => Err(e),
            Ok(v) => if v == 0 {
                Err(Error::Adapter(AdapterError::OracleNonPositive))
            } else {
                Ok(v)
            },
        }
    }
}

/// `value * 10^exponent` as a 48-bit fixed-point number (floored). A
/// negative exponent whose result rounds to zero is refused as non-positive.
pub fn scale_to_fp48(value: u128, exponent: i32) -> (res: Result<u128, Error>)
    requires
        exponent > i32::MIN,
    ensures
        res == scale_to_fp48_result(value, exponent),
{
    if exponent >= 0 {
        let factor = pow10_u128(exponent as u32)?;
        let scaled_value = mul_div(value, factor, 1, false)?;
        proof {
            vstd::arithmetic::div_mod::lemma_div_basics(value * factor);
            assert(value * factor >= 0) by (nonlinear_arith)
                requires
                    value >= 0,
                    factor >= 0,
            ;
        }
        to_scaled(scaled_value)
    } else {
        let abs_exp = (-exponent) as u32;
        let denom = pow10_u128(abs_exp)?;
        let scaled = mul_div(value, 0x1_0000_0000_0000u128, denom, false)?;
        if scaled == 0 {
            return Err(Error::Adapter(AdapterError::OracleNonPositive));
        }
        Ok(scaled)
    }
}

/// Outcome of [`check_confidence_interval`].
pub open spec fn confidence_result(
    price_fp48: u128,
    conf_fp48: u128,
    multiplier_bps: u128,
    max_conf_u32: u32,
) -> Result<(), Error> {
    if conf_fp48 == 0 {
        Ok(())
    } else {
        match mul_div_result(conf_fp48 as int, multiplier_bps as int, BPS_DIVISOR as int, false) {
            Err(e) => Err(e),
            Ok(inflated) => {
                let max_conf = if max_conf_u32 > 0 {
                    mul_div_result(price_fp48 as int, max_conf_u32 as int, u32::MAX as int, false)
                } else {
                    mul_div_result(
                        price_fp48 as int,
                        DEFAULT_MAX_CONF_PCT_BPS as int,
                        BPS_DIVISOR as int,
                        false,
                    )
                };
                match max_conf {
                    Err(e) => Err(e),
                    Ok(m) => if inflated > m {
                        Err(Error::Adapter(AdapterError::OracleMaxConfidenceExceeded))
                    } else {
                        Ok(())
                    },
                }
            },
        }
    }
}

/// Confidence gate: the confidence inflated by `multiplier_bps` may not
/// exceed the bank's maximum share of the price (`max_conf_u32 / u32::MAX`),
/// or 10% of the price when the bank sets no maximum. A zero confidence passes.
pub fn check_confidence_interval(
    price_fp48: u128,
    conf_fp48: u128,
    multiplier_bps: u128,
    oracle_max_confidence_u32: u32,
) -> (res: Result<(), Error>)
    ensures
        res == confidence_result(price_fp48, conf_fp48, multiplier_bps, oracle_max_confidence_u32),
{
    if conf_fp48 == 0 {
        return Ok(());
    }
    let inflated_conf = mul_div(conf_fp48, multiplier_bps, BPS_DIVISOR, false)?;
    let max_conf_fp48: u128 = if oracle_max_confidence_u32 > 0 {
        mul_div(price_fp48, oracle_max_confidence_u32 as u128, 0xFFFF_FFFFu128, false)?
    } else {
        mul_div(price_fp48, DEFAULT_MAX_CONF_PCT_BPS, BPS_DIVISOR, false)?
    };
    if inflated_conf > max_conf_fp48 {
        return Err(Error::Adapter(AdapterError::OracleMaxConfidenceExceeded));
    }
    Ok(())
}

/// Signed little-endian `i64` at `off`.
pub open spec fn le_i64(data: Seq<u8>, off: int) -> i64 {
    (le_value(data, off, 8) as u64) as i64
}

/// Outcome of [`decode_pyth_push`]: `(price_fp48, publish_time)`.
pub open spec fn pyth_push_result(data: Seq<u8>, max_conf_u32: u32) -> Result<(u128, i64), Error> {
    if data.len() < 41 {
        Err(Error::Adapter(AdapterError::InvalidIntegrationAccount))
    } else if data[40] != PYTH_VERIFY_TAG_FULL {
        Err(Error::Adapter(AdapterError::OracleSetupUnsupported))
    } else if data.len() < 101 {
        Err(Error::Adapter(AdapterError::InvalidIntegrationAccount))
    } else {
        let price = le_i64(data, PYTH_PRICE_OFFSET as int);
        let conf = le_value(data, PYTH_CONF_OFFSET as int, 8);
        let exponent = (le_value(data, PYTH_EXPONENT_OFFSET as int, 4) as u32) as i32;
        let publish_time = le_i64(data, PYTH_PUBLISH_TIME_OFFSET as int);
        if price <= 0 {
            Err(Error::Adapter(AdapterError::OracleNonPositive))
        } else if conf == 0 {
            Err(Error::Adapter(AdapterError::OracleMaxConfidenceExceeded))
        } else if exponent < PYTH_MIN_EXPONENT || exponent > PYTH_MAX_EXPONENT {
            Err(Error::Adapter(AdapterError::OracleSetupUnsupported))
        } else {
            match scale_to_fp48_result(price as u128, exponent) {
                Err(e) => Err(e),
                Ok(price_fp48) => match scale_to_fp48_result(conf as u128, exponent) {
                    Err(e) => Err(e),
                    Ok(conf_fp48) => match confidence_result(
                        price_fp48,
                        conf_fp48,
                        CONF_INTERVAL_MULTIPLE_BPS,
                        max_conf_u32,
                    ) {
                        Err(e) => Err(e),
                        Ok(_) => Ok((price_fp48, publish_time)),
                    },
                },
            }
        }
    }
}

/// Decodes a Pyth push price update: only fully verified updates are
/// accepted; price must be positive, confidence non-zero, exponent within
/// `[-12, 2]`, and the inflated confidence within the bank's bound.
/// Returns the fixed-point price and the publish time.
pub fn decode_pyth_push(data: &[u8], oracle_max_confidence_u32: u32) -> (res: Result<
    (u128, i64),
    Error,
>)
    ensures
        res == pyth_push_result(data@, oracle_max_confidence_u32),
{
    if data.len() < PYTH_VERIFICATION_LEVEL_OFFSET + 1 {
        return Err(Error::Adapter(AdapterError::InvalidIntegrationAccount));
    }
    let verify_tag = data[PYTH_VERIFICATION_LEVEL_OFFSET];
    if verify_tag != PYTH_VERIFY_TAG_FULL {
        return Err(Error::Adapter(AdapterError::OracleSetupUnsupported));
    }
    if data.len() < PYTH_PUBLISH_TIME_OFFSET + 8 {
        return Err(Error::Adapter(AdapterError::InvalidIntegrationAccount));
    }
    proof {
        crate::bytes::lemma_byte_base_values();
        crate::bytes::lemma_le_value_bound(data@, PYTH_PRICE_OFFSET as int, 8);
        crate::bytes::lemma_le_value_bound(data@, PYTH_CONF_OFFSET as int, 8);
        crate::bytes::lemma_le_value_bound(data@, PYTH_EXPONENT_OFFSET as int, 4);
        crate::bytes::lemma_le_value_bound(data@, PYTH_PUBLISH_TIME_OFFSET as int, 8);
    }
    let price = (read_le(data, PYTH_PRICE_OFFSET, 8) as u64) as i64;
    let conf = read_le(data, PYTH_CONF_OFFSET, 8) as u64;
    let exponent = (read_le(data, PYTH_EXPONENT_OFFSET, 4) as u32) as i32;
    let publish_time = (read_le(data, PYTH_PUBLISH_TIME_OFFSET, 8) as u64) as i64;
    if price <= 0 {
        return Err(Error::Adapter(AdapterError::OracleNonPositive));
    }
    if conf == 0 {
        return Err(Error::Adapter(AdapterError::OracleMaxConfidenceExceeded));
    }
    if exponent < PYTH_MIN_EXPONENT || exponent > PYTH_MAX_EXPONENT {
        return Err(Error::Adapter(AdapterError::OracleSetupUnsupported));
    }
    let price_fp48 = scale_to_fp48(price as u128, exponent)?;
    let conf_fp48 = scale_to_fp48(conf as u128, exponent)?;
    check_confidence_interval(
        price_fp48,
        conf_fp48,
        CONF_INTERVAL_MULTIPLE_BPS,
        oracle_max_confidence_u32,
    )?;
    Ok((price_fp48, publish_time))
}

/// Signed little-endian `i128` at `off`, as a mathematical integer.
pub open spec fn le_i128(data: Seq<u8>, off: int) -> int {
    let v = le_value(data, off, 16);
    if v >= 0x8000_0000_0000_0000_0000_0000_0000_0000int {
        v - 0x1_0000_0000_0000_0000_0000_0000_0000_0000int
    } else {
        v as int
    }
}

/// Outcome of [`decode_switchboard_pull`]: `(price_fp48, last_update_ts)`.
pub open spec fn switchboard_pull_result(data: Seq<u8>, max_conf_u32: u32) -> Result<
    (u128, i64),
    Error,
> {
    if data.len() < SWB_RESULT_NUM_SAMPLES_OFFSET + 1 {
        Err(Error::Adapter(AdapterError::InvalidIntegrationAccount))
    } else {
        let min_sample_size = data[SWB_MIN_SAMPLE_SIZE_OFFSET as int];
        let num_samples = data[SWB_RESULT_NUM_SAMPLES_OFFSET as int];
        let ts = le_i64(data, SWB_LAST_UPDATE_TS_OFFSET as int);
        let value = le_i128(data, SWB_RESULT_VALUE_OFFSET as int);
        let std_dev = le_i128(data, SWB_RESULT_STD_DEV_OFFSET as int);
        let denom = pow10(SWB_PRECISION as nat);
        if !(num_samples >= min_sample_size && num_samples > 0) {
            Err(Error::Adapter(AdapterError::OracleSetupUnsupported))
        } else if value <= 0 {
            Err(Error::Adapter(AdapterError::OracleNonPositive))
        } else {
            match mul_div_result(value, scale(), denom as int, false) {
                Err(e) => Err(e),
                Ok(price) => {
                    let std = if std_dev > 0 {
                        mul_div_result(std_dev, scale(), denom as int, false)
                    } else {
                        Ok(0u128)
                    };
                    match std {
                        Err(e) => Err(e),
                        Ok(s) => match confidence_result(price, s, STD_DEV_MULTIPLE_BPS, max_conf_u32) {
                            Err(e) => Err(e),
                            Ok(_) => Ok((price, ts)),
                        },
                    }
                },
            }
        }
    }
}

/// Decodes a Switchboard pull feed: enough samples are required, the value
/// must be positive, and the inflated standard deviation must be within the
/// bank's bound. Returns the fixed-point price and the last update time.
pub fn decode_switchboard_pull(data: &[u8], oracle_max_confidence_u32: u32) -> (res: Result<
    (u128, i64),
    Error,
>)
    ensures
        res == switchboard_pull_result(data@, oracle_max_confidence_u32),
{
    if data.len() < SWB_RESULT_NUM_SAMPLES_OFFSET + 1 {
        return Err(Error::Adapter(AdapterError::InvalidIntegrationAccount));
    }
    let min_sample_size = data[SWB_MIN_SAMPLE_SIZE_OFFSET];
    let num_samples = data[SWB_RESULT_NUM_SAMPLES_OFFSET];
    if !(num_samples >= min_sample_size && num_samples > 0) {
        return Err(Error::Adapter(AdapterError::OracleSetupUnsupported));
    }
    proof {
        crate::bytes::lemma_byte_base_values();
        crate::bytes::lemma_le_value_bound(data@, SWB_LAST_UPDATE_TS_OFFSET as int, 8);
        crate::bytes::lemma_le_value_bound(data@, SWB_RESULT_VALUE_OFFSET as int, 16);
        crate::bytes::lemma_le_value_bound(data@, SWB_RESULT_STD_DEV_OFFSET as int, 16);
        lemma_pow10_u128_limit();
    }
    let last_update_ts = (read_le(data, SWB_LAST_UPDATE_TS_OFFSET, 8) as u64) as i64;
    let value_bits = read_le(data, SWB_RESULT_VALUE_OFFSET, 16);
    let std_bits = read_le(data, SWB_RESULT_STD_DEV_OFFSET, 16);
    // A set top bit is a negative two's-complement value.
    if value_bits == 0 || value_bits >= 0x8000_0000_0000_0000_0000_0000_0000_0000u128 {
        return Err(Error::Adapter(AdapterError::OracleNonPositive));
    }
    let denom = pow10_u128(SWB_PRECISION)?;
    let price_fp48 = mul_div(value_bits, 0x1_0000_0000_0000u128, denom, false)?;
    let std_dev_fp48 = if std_bits != 0 && std_bits < 0x8000_0000_0000_0000_0000_0000_0000_0000u128 {
        mul_div(std_bits, 0x1_0000_0000_0000u128, denom, false)?
    } else {
        0
    };
    check_confidence_interval(price_fp48, std_dev_fp48, STD_DEV_MULTIPLE_BPS, oracle_max_confidence_u32)?;
    Ok((price_fp48, last_update_ts))
}

/// Outcome of [`read_spl_mint_supply_and_decimals`].
pub open spec fn spl_mint_result(data: Seq<u8>) -> Result<(u64, u8), Error> {
    if data.len() < SPL_MINT_DECIMALS_OFFSET + 1 {
        Err(Error::Adapter(AdapterError::InvalidIntegrationAccount))
    } else {
        Ok(
            (
                le_value(data, SPL_MINT_SUPPLY_OFFSET as int, 8) as u64,
                data[SPL_MINT_DECIMALS_OFFSET as int],
            ),
        )
    }
}

/// Reads an SPL mint's supply (little-endian `u64` at byte 36) and decimals (byte 44).
pub fn read_spl_mint_supply_and_decimals(data: &[u8]) -> (res: Result<(u64, u8), Error>)
    ensures
        res == spl_mint_result(data@),
{
    if data.len() < SPL_MINT_DECIMALS_OFFSET + 1 {
        return Err(Error::Adapter(AdapterError::InvalidIntegrationAccount));
    }
    proof {
        crate::bytes::lemma_byte_base_values();
        crate::bytes::lemma_le_value_bound(data@, SPL_MINT_SUPPLY_OFFSET as int, 8);
    }
    let supply = read_le(data, SPL_MINT_SUPPLY_OFFSET, 8) as u64;
    Ok((supply, data[SPL_MINT_DECIMALS_OFFSET]))
}

/// Outcome of decoding a stake account's bytes with the stake program's borsh
/// layout: `None` when decoding fails, `Some(None)` for a state other than an
/// active stake, `Some(Some(lamports))` for a stake delegating `lamports`.
pub uninterp spec fn stake_state_delegation(data: Seq<u8>) -> Option<Option<u64>>;

/// Decodes a stake account with
/// `solana_program::borsh1::try_from_slice_unchecked::<StakeStateV2>`: `None`
/// when decoding fails, `Some(None)` for any state but an active stake, and
/// `Some(Some(lamports))` with the delegation's stake otherwise. Which byte
/// strings decode to which state is the decoder's and is named by
/// [`stake_state_delegation`].
#[verifier::external_body]
fn decode_stake_state_v2(data: &[u8]) -> (res: Option<Option<u64>>)
    ensures
        res == stake_state_delegation(data@),
{
    match solana_program::borsh1::try_from_slice_unchecked::<
        solana_program::stake::state::StakeStateV2,
    >(data) {
        Err(_) => None,
        Ok(solana_program::stake::state::StakeStateV2::Stake(_meta, stake, _flags)) => Some(
            Some(stake.delegation.stake),
        ),
        Ok(_) => Some(None),
    }
}

/// The id of the native stake program, as `solana_program::stake::program::id()`
/// declares it.
#[verifier::external_body]
fn stake_program_id() -> (id: [u8; 32])
    ensures
        id == STAKE_PROGRAM_ID,
{
    solana_program::stake::program::id().to_bytes()
}

/// Delegated lamports of a stake account's data; fails on undecodable data
/// and on a stake account that is not actively delegating.
pub fn read_stake_state_v2_delegated_lamports(data: &[u8]) -> (res: Result<u64, Error>)
    ensures
        match stake_state_delegation(data@) {
            None => res == Err::<u64, Error>(Error::Adapter(AdapterError::InvalidIntegrationAccount)),
            Some(None) => res == Err::<u64, Error>(
                Error::Adapter(AdapterError::OracleSetupUnsupported),
            ),
            Some(Some(lamports)) => res == Ok::<u64, Error>(lamports),
        },
{
    match decode_stake_state_v2(data) {
        None => Err(Error::Adapter(AdapterError::InvalidIntegrationAccount)),
        Some(None) => Err(Error::Adapter(AdapterError::OracleSetupUnsupported)),
        Some(Some(lamports)) => Ok(lamports),
    }
}

/// An account handed to the oracle reader: its key, owner and data.
#[derive(Debug, Clone)]
pub struct OracleAccount {
    pub key: [u8; 32],
    pub owner: [u8; 32],
    pub data: Vec<u8>,
}

/// The oracle part of a bank's configuration.
#[derive(Debug, Clone, Copy)]
pub struct BankOracleConfig {
    /// The configured setup; `None` when the stored tag is not a known setup.
    pub setup: Option<OracleSetup>,
    /// Oracle keys; index 0 is the primary oracle.
    pub oracle_keys: [[u8; 32]; 5],
    /// Staleness window in seconds; 0 selects the default.
    pub oracle_max_age: u16,
    /// Maximum confidence as a share of price, in units of 1 / `u32::MAX`; 0 selects 10%.
    pub oracle_max_confidence: u32,
}

/// Owner program that the primary oracle account of a supported setup must have.
pub open spec fn expected_oracle_owner(setup: OracleSetup) -> Seq<u8> {
    if setup == OracleSetup::SwitchboardPull {
        SWITCHBOARD_ON_DEMAND_PROGRAM_ID@
    } else {
        PYTH_PUSH_PROGRAM_ID@
    }
}

/// Price and publish time the decoder of `setup` reads from the oracle
/// accounts (before the freshness gate).
pub open spec fn decoded_price_result(
    setup: OracleSetup,
    cfg: BankOracleConfig,
    accounts: Seq<OracleAccount>,
) -> Result<(u128, i64), Error> {
    let primary = accounts[0];
    let max_conf = cfg.oracle_max_confidence;
    if setup == OracleSetup::PythPushOracle {
        pyth_push_result(primary.data@, max_conf)
    } else if setup == OracleSetup::SwitchboardPull {
        switchboard_pull_result(primary.data@, max_conf)
    } else {
        let lst_mint = accounts[1];
        let stake = accounts[2];
        let incorrect = Error::Ydelta(YdeltaError::IncorrectAccount);
        let unsupported = Error::Adapter(AdapterError::OracleSetupUnsupported);
        if lst_mint.key@ != cfg.oracle_keys@[1]@ {
            Err(incorrect)
        } else if stake.key@ != cfg.oracle_keys@[2]@ {
            Err(incorrect)
        } else if lst_mint.owner@ != SPL_TOKEN_PROGRAM_ID@ && lst_mint.owner@
            != SPL_TOKEN_2022_PROGRAM_ID@ {
            Err(incorrect)
        } else if stake.owner@ != STAKE_PROGRAM_ID@ {
            Err(incorrect)
        } else {
            match spl_mint_result(lst_mint.data@) {
                Err(e) => Err(e),
                Ok(mint) => if mint.0 == 0 {
                    Err(unsupported)
                } else if mint.1 != SOL_DECIMALS {
                    Err(unsupported)
                } else {
                    match stake_state_delegation(stake.data@) {
                        None => Err(Error::Adapter(AdapterError::InvalidIntegrationAccount)),
                        Some(None) => Err(unsupported),
                        Some(Some(lamports)) => if lamports <= LAMPORTS_PER_SOL {
                            Err(unsupported)
                        } else {
                            match pyth_push_result(primary.data@, max_conf) {
                                Err(e) => Err(e),
                                Ok(raw) => match mul_div_result(
                                    raw.0 as int,
                                    lamports - LAMPORTS_PER_SOL,
                                    mint.0 as int,
                                    false,
                                ) {
                                    Err(e) => Err(e),
                                    Ok(adjusted) => if adjusted == 0 {
                                        Err(Error::Adapter(AdapterError::OracleNonPositive))
                                    } else {
                                        Ok((adjusted, raw.1))
                                    },
                                },
                            }
                        },
                    }
                },
            }
        }
    }
}

/// The bank's maximum oracle age: its configured value, or 300 s when unset.
pub open spec fn effective_max_age(cfg: BankOracleConfig) -> int {
    if cfg.oracle_max_age == 0 {
        DEFAULT_ORACLE_MAX_AGE_SECS as int
    } else {
        cfg.oracle_max_age as int
    }
}

/// A price is only ever returned from a reading of the configured setup
/// published within the freshness window: at most 900 s after `now` and
/// less than the bank's maximum age before it.
pub proof fn lemma_price_only_from_fresh_readings(
    cfg: BankOracleConfig,
    accounts: Seq<OracleAccount>,
    now: i64,
)
    requires
        oracle_price_result(cfg, accounts, now) is Ok,
    ensures
        cfg.setup matches Some(setup) && decoded_price_result(setup, cfg, accounts) matches Ok(d)
            && -MAX_FUTURE_SKEW_SECS <= now - d.1 < effective_max_age(cfg)
            && oracle_price_result(cfg, accounts, now)->Ok_0 == d.0,
{
}

/// Outcome of [`read_oracle_price`].
pub open spec fn oracle_price_result(
    cfg: BankOracleConfig,
    accounts: Seq<OracleAccount>,
    now: i64,
) -> Result<u128, Error> {
    let unsupported = Error::Adapter(AdapterError::OracleSetupUnsupported);
    let mismatch = Error::Adapter(AdapterError::OracleAccountMismatch);
    match cfg.setup {
        None => Err(unsupported),
        Some(setup) => match oracle_account_count(setup) {
            None => Err(unsupported),
            Some(n) => if accounts.len() != n {
                Err(unsupported)
            } else if accounts[0].key@ != cfg.oracle_keys@[0]@ {
                Err(mismatch)
            } else if accounts[0].owner@ != expected_oracle_owner(setup) {
                Err(mismatch)
            } else {
                match decoded_price_result(setup, cfg, accounts) {
                    Err(e) => Err(e),
                    Ok(decoded) => {
                        let age: int = now - decoded.1;
                        if age >= -MAX_FUTURE_SKEW_SECS && age < effective_max_age(cfg) {
                            Ok(decoded.0)
                        } else {
                            Err(Error::Adapter(AdapterError::OracleStale))
                        }
                    },
                }
            },
        },
    }
}

fn staked_lst_price(
    cfg: &BankOracleConfig,
    oracle_accounts: &[OracleAccount],
) -> (res: Result<(u128, i64), Error>)
    requires
        oracle_accounts@.len() == 3,
    ensures
        res == decoded_price_result(OracleSetup::StakedWithPythPush, *cfg, oracle_accounts@),
{
    let primary = &oracle_accounts[0];
    let lst_mint = &oracle_accounts[1];
    let stake = &oracle_accounts[2];
    let max_conf = cfg.oracle_max_confidence;
    if !keys_equal(&lst_mint.key, &cfg.oracle_keys[1]) {
        return Err(Error::Ydelta(YdeltaError::IncorrectAccount));
    }
    if !keys_equal(&stake.key, &cfg.oracle_keys[2]) {
        return Err(Error::Ydelta(YdeltaError::IncorrectAccount));
    }
    if !crate::token::is_token_program(&lst_mint.owner) {
        return Err(Error::Ydelta(YdeltaError::IncorrectAccount));
    }
    let stake_program = stake_program_id();
    if !keys_equal(&stake.owner, &stake_program) {
        return Err(Error::Ydelta(YdeltaError::IncorrectAccount));
    }
    let (lst_supply, lst_decimals) = read_spl_mint_supply_and_decimals(lst_mint.data.as_slice())?;
    if lst_supply == 0 {
        return Err(Error::Adapter(AdapterError::OracleSetupUnsupported));
    }
    if lst_decimals != SOL_DECIMALS {
        return Err(Error::Adapter(AdapterError::OracleSetupUnsupported));
    }
    let sol_pool_balance = read_stake_state_v2_delegated_lamports(stake.data.as_slice())?;
    let sol_pool_adjusted = match sol_pool_balance.checked_sub(LAMPORTS_PER_SOL) {
        Some(v) => v,
        None => {
            return Err(Error::Adapter(AdapterError::OracleSetupUnsupported));
        },
    };
    if sol_pool_adjusted == 0 {
        return Err(Error::Adapter(AdapterError::OracleSetupUnsupported));
    }
    let (raw_pyth_fp48, ts) = decode_pyth_push(primary.data.as_slice(), max_conf)?;
    let adjusted_fp48 = mul_div(raw_pyth_fp48, sol_pool_adjusted as u128, lst_supply as u128, false)?;
    if adjusted_fp48 == 0 {
        return Err(Error::Adapter(AdapterError::OracleNonPositive));
    }
    Ok((adjusted_fp48, ts))
}

/// Fixed-point oracle price for a bank: checks that the setup is supported,
/// that exactly the setup's oracle accounts are given, that the primary
/// oracle's key and owner match the configuration, decodes the feed
/// (adjusting staked-LST prices by the pool's SOL per LST), and applies the
/// freshness window (default 300 s, at most 900 s in the future).
pub fn read_oracle_price(cfg: &BankOracleConfig, oracle_accounts: &[OracleAccount], now: i64) -> (res:
    Result<u128, Error>)
    ensures
        res == oracle_price_result(*cfg, oracle_accounts@, now),
{
    let setup = match cfg.setup {
        Some(s) => s,
        None => {
            return Err(Error::Adapter(AdapterError::OracleSetupUnsupported));
        },
    };
    let expected = match expected_oracle_account_count(setup) {
        Some(n) => n,
        None => {
            return Err(Error::Adapter(AdapterError::OracleSetupUnsupported));
        },
    };
    if oracle_accounts.len() != expected {
        return Err(Error::Adapter(AdapterError::OracleSetupUnsupported));
    }
    let primary = &oracle_accounts[0];
    if !keys_equal(&primary.key, &cfg.oracle_keys[0]) {
        return Err(Error::Adapter(AdapterError::OracleAccountMismatch));
    }
    let owner_ok = match setup {
        OracleSetup::SwitchboardPull => keys_equal(&primary.owner, &SWITCHBOARD_ON_DEMAND_PROGRAM_ID),
        _ => keys_equal(&primary.owner, &PYTH_PUSH_PROGRAM_ID),
    };
    if !owner_ok {
        return Err(Error::Adapter(AdapterError::OracleAccountMismatch));
    }
    let max_age: i64 = cfg.oracle_max_age as i64;
    let (price_fp48, publish_time) = match setup {
        OracleSetup::PythPushOracle => decode_pyth_push(
            primary.data.as_slice(),
            cfg.oracle_max_confidence,
        )?,
        OracleSetup::SwitchboardPull => decode_switchboard_pull(
            primary.data.as_slice(),
            cfg.oracle_max_confidence,
        )?,
        _ => staked_lst_price(cfg, oracle_accounts)?,
    };
    let effective_max_age = if max_age == 0 {
        DEFAULT_ORACLE_MAX_AGE_SECS
    } else {
        max_age
    };
    // The age is formed exactly; an age outside the `i64` range lies
    // outside the freshness window in either direction.
    let age_wide: i128 = now as i128 - publish_time as i128;
    if age_wide < i64::MIN as i128 || age_wide > i64::MAX as i128 {
        return Err(Error::Adapter(AdapterError::OracleStale));
    }
    if !oracle_timestamp_acceptable(age_wide as i64, effective_max_age) {
        return Err(Error::Adapter(AdapterError::OracleStale));
    }
    Ok(price_fp48)
}

/// A staked-SOL bank is priced at the SOL price times the SOL backing one
/// LST: the Pyth SOL price times the stake account's delegated lamports less
/// one SOL of reserve, divided by the LST mint's supply (floored). So the
/// price grows with the stake and shrinks as the supply grows: doubling the
/// supply with the same stake halves it (floored).
pub proof fn lemma_staked_price_is_sol_per_lst(
    cfg: BankOracleConfig,
    accounts: Seq<OracleAccount>,
    now: i64,
)
    requires
        cfg.setup == Some(OracleSetup::StakedWithPythPush),
        oracle_price_result(cfg, accounts, now) is Ok,
    ensures
        accounts.len() == 3,
        spl_mint_result(accounts[1].data@) is Ok,
        pyth_push_result(accounts[0].data@, cfg.oracle_max_confidence) is Ok,
        stake_state_delegation(accounts[2].data@) matches Some(Some(lamports)) && ({
            let supply = spl_mint_result(accounts[1].data@)->Ok_0.0 as int;
            let sol_price = pyth_push_result(accounts[0].data@, cfg.oracle_max_confidence)->Ok_0.0
                as int;
            &&& supply > 0
            &&& lamports > LAMPORTS_PER_SOL
            &&& oracle_price_result(cfg, accounts, now)->Ok_0 == (sol_price * (lamports
                - LAMPORTS_PER_SOL)) / supply
            &&& oracle_price_result(cfg, accounts, now)->Ok_0 / 2 == (sol_price * (lamports
                - LAMPORTS_PER_SOL)) / (2 * supply)
        }),
{
    let supply = spl_mint_result(accounts[1].data@)->Ok_0.0 as int;
    let sol_price = pyth_push_result(accounts[0].data@, cfg.oracle_max_confidence)->Ok_0.0 as int;
    let lamports = stake_state_delegation(accounts[2].data@)->Some_0->Some_0;
    let x = sol_price * (lamports - LAMPORTS_PER_SOL);
    assert(stake_state_delegation(accounts[2].data@) matches Some(Some(l)) && l > LAMPORTS_PER_SOL);
    assert(sol_price * (lamports - LAMPORTS_PER_SOL) >= 0) by (nonlinear_arith)
        requires
            sol_price >= 0,
            lamports > LAMPORTS_PER_SOL,
    ;
    vstd::arithmetic::div_mod::lemma_div_denominator(x, supply, 2);
    assert(supply * 2 == 2 * supply);
}

} // verus!
