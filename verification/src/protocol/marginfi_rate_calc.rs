//! Projection of a lending bank's share values: decodes the bank's
//! interest-rate configuration and the group's program-fee state from raw
//! account bytes, evaluates the borrowing and lending APRs at the bank's
//! utilization, and applies simple accrual over `now - last_update`.

use vstd::prelude::*;

use crate::bytes::{le_value, read_le};
use crate::error::{AdapterError, Error, YdeltaError};
use crate::math::{
    div_scale, div_scale_result, div_scale_spec, mul_div, mul_div_result, mul_div_spec, mul_scale,
    mul_scale_result, mul_scale_spec, scale, SCALE,
};

verus! {

/// Length of the account discriminator that precedes every account body.
pub const ANCHOR_HEADER_LEN: usize = 8;

/// Year length used for APR to per-second conversion (365.25 days).
pub const MARGINFI_SECONDS_PER_YEAR: u128 = 31_557_600;

/// Curve tag of the legacy two-segment interest-rate curve.
pub const INTEREST_CURVE_LEGACY: u8 = 0;

/// Curve tag of the multi-point interest-rate curve.
pub const INTEREST_CURVE_SEVEN_POINT: u8 = 1;

/// Number of interior points of the multi-point curve.
pub const IRC_POINTS_COUNT: usize = 5;

pub const BANK_BODY_ASSET_SHARE_VALUE: usize = 72;
pub const BANK_BODY_LIABILITY_SHARE_VALUE: usize = 88;
pub const BANK_BODY_TOTAL_LIABILITY_SHARES: usize = 248;
pub const BANK_BODY_TOTAL_ASSET_SHARES: usize = 264;
pub const BANK_BODY_LAST_UPDATE: usize = 280;

/// Body offset of the bank's interest-rate configuration.
pub const IRC_BASE: usize = 360;

pub const IRC_OPTIMAL_UTILIZATION_RATE: usize = 0;
pub const IRC_PLATEAU_INTEREST_RATE: usize = 16;
pub const IRC_MAX_INTEREST_RATE: usize = 32;
pub const IRC_INSURANCE_FEE_FIXED_APR: usize = 48;
pub const IRC_INSURANCE_IR_FEE: usize = 64;
pub const IRC_PROTOCOL_FIXED_FEE_APR: usize = 80;
pub const IRC_PROTOCOL_IR_FEE: usize = 96;
pub const IRC_ZERO_UTIL_RATE: usize = 128;
pub const IRC_HUNDRED_UTIL_RATE: usize = 132;
pub const IRC_POINTS: usize = 136;
pub const IRC_CURVE_TYPE: usize = 176;

pub const GROUP_BODY_FLAGS: usize = 32;
pub const GROUP_BODY_PROGRAM_FEE_FIXED: usize = 72;
pub const GROUP_BODY_PROGRAM_FEE_RATE: usize = 88;

/// 2^127: the smallest bit pattern that is negative as an `i128`.
pub open spec fn sign_bit() -> int {
    0x8000_0000_0000_0000_0000_0000_0000_0000int
}

/// Unsigned little-endian value of `n` body bytes at `body_offset` (after the header).
pub open spec fn body_le(data: Seq<u8>, body_offset: int, n: nat) -> nat {
    le_value(data, 8 + body_offset, n)
}

/// Whether `n` body bytes at `body_offset` lie inside `data`.
pub open spec fn has_body(data: Seq<u8>, body_offset: int, n: int) -> bool {
    data.len() >= 8 + body_offset + n
}

/// The error raised for short or malformed integration accounts.
pub open spec fn bad_account() -> Error {
    Error::Adapter(AdapterError::InvalidIntegrationAccount)
}

/// The error raised for degenerate interest-rate configurations.
pub open spec fn invalid_argument() -> Error {
    Error::Ydelta(YdeltaError::InvalidArgument)
}

/// Outcome of decoding a non-negative 48-bit fixed-point value (stored as a
/// 16-byte two's-complement integer) at `body_offset`.
pub open spec fn wrapped_at(data: Seq<u8>, body_offset: int) -> Result<u128, Error> {
    if !has_body(data, body_offset, 16) {
        Err(bad_account())
    } else if body_le(data, body_offset, 16) >= sign_bit() {
        Err(bad_account())
    } else {
        Ok(body_le(data, body_offset, 16) as u128)
    }
}

/// Outcome of decoding a little-endian `u64` at `body_offset`.
pub open spec fn u64_at(data: Seq<u8>, body_offset: int) -> Result<u64, Error> {
    if has_body(data, body_offset, 8) {
        Ok(body_le(data, body_offset, 8) as u64)
    } else {
        Err(bad_account())
    }
}

/// Outcome of decoding a little-endian `i64` at `body_offset`.
pub open spec fn i64_at(data: Seq<u8>, body_offset: int) -> Result<i64, Error> {
    if has_body(data, body_offset, 8) {
        Ok((body_le(data, body_offset, 8) as u64) as i64)
    } else {
        Err(bad_account())
    }
}

/// Reads the byte at `body_offset` of an account body.
pub fn read_u8(data: &[u8], body_offset: usize) -> (res: Result<u8, Error>)
    requires
        body_offset <= usize::MAX - 8,
    ensures
        res is Ok <==> has_body(data@, body_offset as int, 1),
        res matches Ok(v) ==> v == data@[8 + body_offset],
        res matches Err(e) ==> e == bad_account(),
{
    let offset = ANCHOR_HEADER_LEN + body_offset;
    if data.len() <= offset {
        return Err(Error::Adapter(AdapterError::InvalidIntegrationAccount));
    }
    Ok(data[offset])
}

/// Reads the little-endian `u32` at `body_offset` of an account body.
pub fn read_u32(data: &[u8], body_offset: usize) -> (res: Result<u32, Error>)
    requires
        body_offset <= usize::MAX - 12,
    ensures
        res is Ok <==> has_body(data@, body_offset as int, 4),
        res matches Ok(v) ==> v == body_le(data@, body_offset as int, 4),
        res matches Err(e) ==> e == bad_account(),
{
    let offset = ANCHOR_HEADER_LEN + body_offset;
    if data.len() < offset + 4 {
        return Err(Error::Adapter(AdapterError::InvalidIntegrationAccount));
    }
    proof {
        crate::bytes::lemma_le_value_bound(data@, offset as int, 4);
        crate::bytes::lemma_byte_base_values();
    }
    Ok(read_le(data, offset, 4) as u32)
}

/// Reads the little-endian `u64` at `body_offset` of an account body.
pub fn read_u64(data: &[u8], body_offset: usize) -> (res: Result<u64, Error>)
    requires
        body_offset <= usize::MAX - 16,
    ensures
        res == u64_at(data@, body_offset as int),
{
    let offset = ANCHOR_HEADER_LEN + body_offset;
    if data.len() < offset + 8 {
        return Err(Error::Adapter(AdapterError::InvalidIntegrationAccount));
    }
    proof {
        crate::bytes::lemma_le_value_bound(data@, offset as int, 8);
        crate::bytes::lemma_byte_base_values();
    }
    Ok(read_le(data, offset, 8) as u64)
}

/// Reads the little-endian `i64` at `body_offset` of an account body.
pub fn read_i64(data: &[u8], body_offset: usize) -> (res: Result<i64, Error>)
    requires
        body_offset <= usize::MAX - 16,
    ensures
        res == i64_at(data@, body_offset as int),
{
    match read_u64(data, body_offset) {
        Ok(v) => Ok(v as i64),
        Err(e) => Err(e),
    }
}

/// Reads the 16-byte fixed-point value at `body_offset` as an unsigned
/// 48-bit fixed-point `u128`; negative bit patterns are refused.
pub fn read_wrapped_i80f48_fp48(data: &[u8], body_offset: usize) -> (res: Result<u128, Error>)
    requires
        body_offset <= usize::MAX - 24,
    ensures
        res == wrapped_at(data@, body_offset as int),
{
    let offset = ANCHOR_HEADER_LEN + body_offset;
    if data.len() < offset + 16 {
        return Err(Error::Adapter(AdapterError::InvalidIntegrationAccount));
    }
    let bits = read_le(data, offset, 16);
    if bits >= 0x8000_0000_0000_0000_0000_0000_0000_0000u128 {
        return Err(Error::Adapter(AdapterError::InvalidIntegrationAccount));
    }
    Ok(bits)
}

/// The bank's `last_update` unix timestamp.
pub open spec fn bank_last_update(bank: Seq<u8>) -> Result<i64, Error> {
    i64_at(bank, BANK_BODY_LAST_UPDATE as int)
}

/// Reads the bank's `last_update` unix timestamp from raw bank bytes.
pub fn read_bank_last_update(bank: &[u8]) -> (res: Result<i64, Error>)
    ensures
        res == bank_last_update(bank@),
{
    read_i64(bank, BANK_BODY_LAST_UPDATE)
}

/// Reads the bank's fixed-point asset share value.
pub fn read_bank_asset_share_value_fp48(bank: &[u8]) -> (res: Result<u128, Error>)
    ensures
        res == wrapped_at(bank@, BANK_BODY_ASSET_SHARE_VALUE as int),
{
    read_wrapped_i80f48_fp48(bank, BANK_BODY_ASSET_SHARE_VALUE)
}

/// Reads the bank's fixed-point liability share value.
pub fn read_bank_liability_share_value_fp48(bank: &[u8]) -> (res: Result<u128, Error>)
    ensures
        res == wrapped_at(bank@, BANK_BODY_LIABILITY_SHARE_VALUE as int),
{
    read_wrapped_i80f48_fp48(bank, BANK_BODY_LIABILITY_SHARE_VALUE)
}

/// Reads the bank's total fixed-point asset shares.
pub fn read_bank_total_asset_shares_fp48(bank: &[u8]) -> (res: Result<u128, Error>)
    ensures
        res == wrapped_at(bank@, BANK_BODY_TOTAL_ASSET_SHARES as int),
{
    read_wrapped_i80f48_fp48(bank, BANK_BODY_TOTAL_ASSET_SHARES)
}

/// Reads the bank's total fixed-point liability shares.
pub fn read_bank_total_liability_shares_fp48(bank: &[u8]) -> (res: Result<u128, Error>)
    ensures
        res == wrapped_at(bank@, BANK_BODY_TOTAL_LIABILITY_SHARES as int),
{
    read_wrapped_i80f48_fp48(bank, BANK_BODY_TOTAL_LIABILITY_SHARES)
}

/// A bank's interest-rate configuration, decoded.
#[derive(Debug, Clone, Copy)]
pub struct InterestRateConfigDecoded {
    pub optimal_utilization_rate_fp48: u128,
    pub plateau_interest_rate_fp48: u128,
    pub max_interest_rate_fp48: u128,
    pub insurance_fee_fixed_apr_fp48: u128,
    pub insurance_ir_fee_fp48: u128,
    pub protocol_fixed_fee_apr_fp48: u128,
    pub protocol_ir_fee_fp48: u128,
    /// Rate at zero utilization, in units of 1000% / `u32::MAX`.
    pub zero_util_rate_milli_u32: u32,
    /// Rate at full utilization, in units of 1000% / `u32::MAX`.
    pub hundred_util_rate_milli_u32: u32,
    /// Interior `(utilization, rate)` points; a zero utilization marks an unused slot.
    pub points: [(u32, u32); 5],
    pub curve_type: u8,
}

/// The group's program-fee state, decoded.
#[derive(Debug, Clone, Copy)]
pub struct GroupProgramFees {
    pub enabled: bool,
    pub program_fee_fixed_fp48: u128,
    pub program_fee_rate_fp48: u128,
}

/// Whether every fixed-point field of the interest-rate configuration decodes.
pub open spec fn irc_wrapped_ok(bank: Seq<u8>) -> bool {
    let b = IRC_BASE as int;
    &&& wrapped_at(bank, b + IRC_OPTIMAL_UTILIZATION_RATE as int) is Ok
    &&& wrapped_at(bank, b + IRC_PLATEAU_INTEREST_RATE as int) is Ok
    &&& wrapped_at(bank, b + IRC_MAX_INTEREST_RATE as int) is Ok
    &&& wrapped_at(bank, b + IRC_INSURANCE_FEE_FIXED_APR as int) is Ok
    &&& wrapped_at(bank, b + IRC_INSURANCE_IR_FEE as int) is Ok
    &&& wrapped_at(bank, b + IRC_PROTOCOL_FIXED_FEE_APR as int) is Ok
    &&& wrapped_at(bank, b + IRC_PROTOCOL_IR_FEE as int) is Ok
}

/// Whether the whole interest-rate configuration decodes from `bank`.
pub open spec fn irc_readable(bank: Seq<u8>) -> bool {
    irc_wrapped_ok(bank) && has_body(bank, IRC_BASE + IRC_CURVE_TYPE as int, 1)
}

/// Whether `cfg` holds exactly the values stored in `bank`.
pub open spec fn irc_matches(cfg: InterestRateConfigDecoded, bank: Seq<u8>) -> bool {
    let b = IRC_BASE as int;
    &&& cfg.optimal_utilization_rate_fp48 == body_le(bank, b + IRC_OPTIMAL_UTILIZATION_RATE as int, 16)
    &&& cfg.plateau_interest_rate_fp48 == body_le(bank, b + IRC_PLATEAU_INTEREST_RATE as int, 16)
    &&& cfg.max_interest_rate_fp48 == body_le(bank, b + IRC_MAX_INTEREST_RATE as int, 16)
    &&& cfg.insurance_fee_fixed_apr_fp48 == body_le(bank, b + IRC_INSURANCE_FEE_FIXED_APR as int, 16)
    &&& cfg.insurance_ir_fee_fp48 == body_le(bank, b + IRC_INSURANCE_IR_FEE as int, 16)
    &&& cfg.protocol_fixed_fee_apr_fp48 == body_le(bank, b + IRC_PROTOCOL_FIXED_FEE_APR as int, 16)
    &&& cfg.protocol_ir_fee_fp48 == body_le(bank, b + IRC_PROTOCOL_IR_FEE as int, 16)
    &&& cfg.zero_util_rate_milli_u32 == body_le(bank, b + IRC_ZERO_UTIL_RATE as int, 4)
    &&& cfg.hundred_util_rate_milli_u32 == body_le(bank, b + IRC_HUNDRED_UTIL_RATE as int, 4)
    &&& forall|i: int|
        0 <= i < 5 ==> #[trigger] cfg.points@[i] == (
            body_le(bank, b + IRC_POINTS as int + i * 8, 4) as u32,
            body_le(bank, b + IRC_POINTS as int + i * 8 + 4, 4) as u32,
        )
    &&& cfg.curve_type == bank[8 + b + IRC_CURVE_TYPE as int]
}

/// The interest-rate configuration stored in `bank` (meaningful when
/// [`irc_readable`] holds).
pub open spec fn irc_of(bank: Seq<u8>) -> InterestRateConfigDecoded {
    choose|c: InterestRateConfigDecoded| irc_matches(c, bank)
}

/// A configuration that matches the bytes is the one they store.
pub proof fn lemma_irc_unique(c: InterestRateConfigDecoded, bank: Seq<u8>)
    requires
        irc_matches(c, bank),
    ensures
        c == irc_of(bank),
{
    let d = irc_of(bank);
    assert(irc_matches(d, bank));
    assert(c.points =~= d.points) by {
        assert forall|i: int| 0 <= i < 5 implies c.points[i] == d.points[i] by {
            assert(c.points@[i] == d.points@[i]);
        }
    }
}

/// Decodes the bank's interest-rate configuration from raw bank bytes.
pub fn read_bank_interest_rate_config(bank: &[u8]) -> (res: Result<InterestRateConfigDecoded, Error>)
    ensures
        res is Ok <==> irc_readable(bank@),
        res matches Ok(cfg) ==> irc_matches(cfg, bank@) && cfg == irc_of(bank@),
        res matches Err(e) ==> e == bad_account(),
{
    let b = IRC_BASE;
    let optimal_utilization_rate_fp48 = read_wrapped_i80f48_fp48(
        bank,
        b + IRC_OPTIMAL_UTILIZATION_RATE,
    )?;
    let plateau_interest_rate_fp48 = read_wrapped_i80f48_fp48(bank, b + IRC_PLATEAU_INTEREST_RATE)?;
    let max_interest_rate_fp48 = read_wrapped_i80f48_fp48(bank, b + IRC_MAX_INTEREST_RATE)?;
    let insurance_fee_fixed_apr_fp48 = read_wrapped_i80f48_fp48(
        bank,
        b + IRC_INSURANCE_FEE_FIXED_APR,
    )?;
    let insurance_ir_fee_fp48 = read_wrapped_i80f48_fp48(bank, b + IRC_INSURANCE_IR_FEE)?;
    let protocol_fixed_fee_apr_fp48 = read_wrapped_i80f48_fp48(
        bank,
        b + IRC_PROTOCOL_FIXED_FEE_APR,
    )?;
    let protocol_ir_fee_fp48 = read_wrapped_i80f48_fp48(bank, b + IRC_PROTOCOL_IR_FEE)?;
    let curve_type = match read_u8(bank, b + IRC_CURVE_TYPE) {
        Ok(v) => v,
        Err(e) => {
            proof {
                assert(!irc_readable(bank@));
            }
            return Err(e);
        },
    };
    // The curve-type byte is the last one of the configuration, so every
    // remaining field lies inside `bank` once it decoded.
    let zero_util_rate_milli_u32 = read_u32(bank, b + IRC_ZERO_UTIL_RATE)?;
    let hundred_util_rate_milli_u32 = read_u32(bank, b + IRC_HUNDRED_UTIL_RATE)?;
    let u0 = read_u32(bank, b + IRC_POINTS)?;
    let r0 = read_u32(bank, b + IRC_POINTS + 4)?;
    let u1 = read_u32(bank, b + IRC_POINTS + 8)?;
    let r1 = read_u32(bank, b + IRC_POINTS + 12)?;
    let u2 = read_u32(bank, b + IRC_POINTS + 16)?;
    let r2 = read_u32(bank, b + IRC_POINTS + 20)?;
    let u3 = read_u32(bank, b + IRC_POINTS + 24)?;
    let r3 = read_u32(bank, b + IRC_POINTS + 28)?;
    let u4 = read_u32(bank, b + IRC_POINTS + 32)?;
    let r4 = read_u32(bank, b + IRC_POINTS + 36)?;
    let points = [(u0, r0), (u1, r1), (u2, r2), (u3, r3), (u4, r4)];
    let cfg = InterestRateConfigDecoded {
        optimal_utilization_rate_fp48,
        plateau_interest_rate_fp48,
        max_interest_rate_fp48,
        insurance_fee_fixed_apr_fp48,
        insurance_ir_fee_fp48,
        protocol_fixed_fee_apr_fp48,
        protocol_ir_fee_fp48,
        zero_util_rate_milli_u32,
        hundred_util_rate_milli_u32,
        points,
        curve_type,
    };
    proof {
        assert(forall|i: int|
            0 <= i < 5 ==> #[trigger] cfg.points@[i] == (
                body_le(bank@, IRC_BASE + IRC_POINTS as int + i * 8, 4) as u32,
                body_le(bank@, IRC_BASE + IRC_POINTS as int + i * 8 + 4, 4) as u32,
            )) by {
            assert(cfg.points@ =~= seq![(u0, r0), (u1, r1), (u2, r2), (u3, r3), (u4, r4)]);
        }
    }
    proof {
        lemma_irc_unique(cfg, bank@);
    }
    Ok(cfg)
}

/// Whether the group's program-fee state decodes from `group`.
pub open spec fn group_fees_readable(group: Seq<u8>) -> bool {
    &&& has_body(group, GROUP_BODY_FLAGS as int, 8)
    &&& wrapped_at(group, GROUP_BODY_PROGRAM_FEE_FIXED as int) is Ok
    &&& wrapped_at(group, GROUP_BODY_PROGRAM_FEE_RATE as int) is Ok
}

/// The program-fee state stored in `group` (meaningful when
/// [`group_fees_readable`] holds).
pub open spec fn group_fees_of(group: Seq<u8>) -> GroupProgramFees {
    GroupProgramFees {
        enabled: body_le(group, GROUP_BODY_FLAGS as int, 8) % 2 == 1,
        program_fee_fixed_fp48: body_le(group, GROUP_BODY_PROGRAM_FEE_FIXED as int, 16) as u128,
        program_fee_rate_fp48: body_le(group, GROUP_BODY_PROGRAM_FEE_RATE as int, 16) as u128,
    }
}

/// Decodes the group's program-fee state from raw group bytes. Fees count
/// as enabled when the low bit of the group's flags is set.
pub fn read_group_program_fees(group: &[u8]) -> (res: Result<GroupProgramFees, Error>)
    ensures
        res is Ok <==> group_fees_readable(group@),
        res matches Ok(f) ==> {
            &&& f.enabled == (body_le(group@, GROUP_BODY_FLAGS as int, 8) % 2 == 1)
            &&& f.program_fee_fixed_fp48 == body_le(group@, GROUP_BODY_PROGRAM_FEE_FIXED as int, 16)
            &&& f.program_fee_rate_fp48 == body_le(group@, GROUP_BODY_PROGRAM_FEE_RATE as int, 16)
            &&& f == group_fees_of(group@)
        },
        res matches Err(e) ==> e == bad_account(),
{
    let flags = read_u64(group, GROUP_BODY_FLAGS)?;
    proof {
        crate::bytes::lemma_le_value_bound(group@, 8 + GROUP_BODY_FLAGS as int, 8);
        crate::bytes::lemma_byte_base_values();
    }
    let program_fee_fixed_fp48 = read_wrapped_i80f48_fp48(group, GROUP_BODY_PROGRAM_FEE_FIXED)?;
    let program_fee_rate_fp48 = read_wrapped_i80f48_fp48(group, GROUP_BODY_PROGRAM_FEE_RATE)?;
    Ok(GroupProgramFees { enabled: flags % 2 == 1, program_fee_fixed_fp48, program_fee_rate_fp48 })
}

/// A rate in units of 1000% / `u32::MAX`, as a 48-bit fixed-point APR.
pub open spec fn rate_milli_fp48(rate: u32) -> u128 {
    mul_div_spec(rate as int, 10 * scale(), u32::MAX as int, false) as u128
}

/// A utilization in units of 100% / `u32::MAX`, as a 48-bit fixed-point ratio.
pub open spec fn util_centi_fp48(util: u32) -> u128 {
    mul_div_spec(util as int, scale(), u32::MAX as int, false) as u128
}

proof fn lemma_small_mul_div(x: int, k: int, d: int)
    requires
        0 <= x <= u32::MAX,
        0 <= k <= 10 * scale(),
        d == u32::MAX,
    ensures
        0 <= mul_div_spec(x, k, d, false) <= u128::MAX,
{
    assert(0 <= x * k < 0x1_0000_0000_0000_0000_0000_0000_0000int) by (nonlinear_arith)
        requires
            0 <= x <= u32::MAX,
            0 <= k <= 10 * scale(),
    ;
    vstd::arithmetic::div_mod::lemma_div_pos_is_pos(x * k, d);
    vstd::arithmetic::div_mod::lemma_div_is_ordered_by_denominator(x * k, 1, d);
    vstd::arithmetic::div_mod::lemma_div_basics(x * k);
}

/// Converts a milli-rate `u32` to a 48-bit fixed-point APR (never fails).
pub fn rate_milli_u32_to_fp48(rate: u32) -> (res: Result<u128, Error>)
    ensures
        res == Ok::<u128, Error>(rate_milli_fp48(rate)),
{
    proof {
        lemma_small_mul_div(rate as int, 10 * scale(), u32::MAX as int);
    }
    mul_div(rate as u128, 10u128 * SCALE, 0xFFFF_FFFFu128, false)
}

/// Converts a centi-utilization `u32` to a 48-bit fixed-point ratio (never fails).
pub fn util_centi_u32_to_fp48(util: u32) -> (res: Result<u128, Error>)
    ensures
        res == Ok::<u128, Error>(util_centi_fp48(util)),
{
    proof {
        lemma_small_mul_div(util as int, scale(), u32::MAX as int);
    }
    mul_div(util as u128, SCALE, 0xFFFF_FFFFu128, false)
}

/// `a * s / b <= s` for `0 <= a <= b`.
proof fn lemma_fraction_le(a: int, b: int, s: int)
    requires
        0 <= a <= b,
        b > 0,
        s >= 0,
    ensures
        0 <= (a * s) / b <= s,
{
    assert(0 <= a * s <= b * s) by (nonlinear_arith)
        requires
            0 <= a <= b,
            s >= 0,
    ;
    vstd::arithmetic::div_mod::lemma_div_is_ordered(a * s, b * s, b);
    vstd::arithmetic::div_mod::lemma_div_is_ordered(0, a * s, b);
    vstd::arithmetic::div_mod::lemma_div_by_multiple(s, b);
    assert(b * s == s * b) by (nonlinear_arith);
}

/// Outcome of linear interpolation between `(sx, sy)` and `(ex, ey)` at `tx`.
pub open spec fn lerp_result(sx: u128, sy: u128, ex: u128, ey: u128, tx: u128) -> Result<
    u128,
    Error,
> {
    if ex <= sx || tx < sx || tx > ex || ey < sy {
        Err(invalid_argument())
    } else {
        Ok(
            (sy + mul_scale_spec(
                (ey - sy) as int,
                div_scale_spec((tx - sx) as int, (ex - sx) as int),
            )) as u128,
        )
    }
}

/// Linear interpolation of the segment `(start_x, start_y)`–`(end_x, end_y)`
/// at `target_x`. Refuses a degenerate segment, a target outside the segment
/// and a negative slope. The result always lies between `start_y` and `end_y`.
pub fn lerp_fp48(start_x: u128, start_y: u128, end_x: u128, end_y: u128, target_x: u128) -> (res:
    Result<u128, Error>)
    ensures
        res == lerp_result(start_x, start_y, end_x, end_y, target_x),
        res matches Ok(v) ==> start_y <= v <= end_y,
{
    if end_x <= start_x {
        return Err(Error::Ydelta(YdeltaError::InvalidArgument));
    }
    if target_x < start_x || target_x > end_x {
        return Err(Error::Ydelta(YdeltaError::InvalidArgument));
    }
    if end_y < start_y {
        return Err(Error::Ydelta(YdeltaError::InvalidArgument));
    }
    let delta_x = end_x - start_x;
    let offset = target_x - start_x;
    proof {
        lemma_fraction_le(offset as int, delta_x as int, scale());
    }
    let proportion_fp48 = div_scale(offset, delta_x)?;
    let delta_y = end_y - start_y;
    proof {
        lemma_fraction_le(proportion_fp48 as int, scale(), delta_y as int);
        assert(delta_y * proportion_fp48 == proportion_fp48 * delta_y) by (nonlinear_arith);
    }
    let scaled_delta = mul_scale(delta_y, proportion_fp48)?;
    Ok(start_y.saturating_add(scaled_delta))
}

/// Outcome of the legacy two-segment curve at utilization `ur`.
pub open spec fn legacy_curve_result(ur: u128, cfg: InterestRateConfigDecoded) -> Result<
    u128,
    Error,
> {
    let opt = cfg.optimal_utilization_rate_fp48;
    let plateau = cfg.plateau_interest_rate_fp48;
    let max_ir = cfg.max_interest_rate_fp48;
    if opt == 0 {
        Err(invalid_argument())
    } else if ur <= opt {
        Ok(mul_scale_spec(div_scale_spec(ur as int, opt as int), plateau as int) as u128)
    } else if opt >= SCALE {
        Err(invalid_argument())
    } else {
        match div_scale_result((ur - opt) as int, (SCALE - opt) as int) {
            Err(e) => Err(e),
            Ok(prop) => match mul_scale_result(prop as int, max_ir.saturating_sub(plateau) as int) {
                Err(e) => Err(e),
                Ok(scaled) => Ok(plateau.saturating_add(scaled)),
            },
        }
    }
}

/// Legacy curve: linear from zero to the plateau rate up to the optimal
/// utilization, then linear from the plateau to the maximum rate at full
/// utilization.
pub fn interest_rate_curve_legacy(ur_fp48: u128, cfg: &InterestRateConfigDecoded) -> (res: Result<
    u128,
    Error,
>)
    ensures
        res == legacy_curve_result(ur_fp48, *cfg),
{
    let optimal_ur = cfg.optimal_utilization_rate_fp48;
    let plateau_ir = cfg.plateau_interest_rate_fp48;
    let max_ir = cfg.max_interest_rate_fp48;
    if optimal_ur == 0 {
        return Err(Error::Ydelta(YdeltaError::InvalidArgument));
    }
    if ur_fp48 <= optimal_ur {
        proof {
            lemma_fraction_le(ur_fp48 as int, optimal_ur as int, scale());
        }
        let prop_fp48 = div_scale(ur_fp48, optimal_ur)?;
        proof {
            lemma_fraction_le(prop_fp48 as int, scale(), plateau_ir as int);
            assert(plateau_ir * prop_fp48 == prop_fp48 * plateau_ir) by (nonlinear_arith);
        }
        mul_scale(prop_fp48, plateau_ir)
    } else {
        let numer = ur_fp48 - optimal_ur;
        let denom = SCALE.saturating_sub(optimal_ur);
        if denom == 0 {
            return Err(Error::Ydelta(YdeltaError::InvalidArgument));
        }
        let prop_fp48 = div_scale(numer, denom)?;
        let spread = max_ir.saturating_sub(plateau_ir);
        let scaled = mul_scale(prop_fp48, spread)?;
        Ok(plateau_ir.saturating_add(scaled))
    }
}

/// Outcome of the multi-point curve from point `k` on, with the previous
/// breakpoint `(prev_util, prev_rate)` and utilization `ur` (already capped at 1.0).
pub open spec fn seven_point_from(
    ur: u128,
    cfg: InterestRateConfigDecoded,
    k: int,
    prev_util: u128,
    prev_rate: u128,
) -> Result<u128, Error>
    decreases 5 - k,
{
    if k >= 5 {
        lerp_result(prev_util, prev_rate, SCALE, rate_milli_fp48(cfg.hundred_util_rate_milli_u32), ur)
    } else {
        let point = cfg.points@[k];
        if point.0 == 0 {
            seven_point_from(ur, cfg, k + 1, prev_util, prev_rate)
        } else {
            let pu = util_centi_fp48(point.0);
            let pr = rate_milli_fp48(point.1);
            if pu <= prev_util {
                Err(invalid_argument())
            } else if ur <= pu {
                lerp_result(prev_util, prev_rate, pu, pr, ur)
            } else {
                seven_point_from(ur, cfg, k + 1, pu, pr)
            }
        }
    }
}

/// Outcome of the multi-point curve at utilization `ur`.
pub open spec fn seven_point_curve_result(ur: u128, cfg: InterestRateConfigDecoded) -> Result<
    u128,
    Error,
> {
    let capped = if ur <= SCALE {
        ur
    } else {
        SCALE
    };
    seven_point_from(capped, cfg, 0, 0, rate_milli_fp48(cfg.zero_util_rate_milli_u32))
}

/// Multi-point curve: piecewise-linear through `(0, zero_rate)`, the used
/// interior points in increasing utilization order, and `(1.0, hundred_rate)`.
/// Utilization above 1.0 is capped; out-of-order points are refused.
pub fn interest_rate_curve_seven_point(ur_fp48: u128, cfg: &InterestRateConfigDecoded) -> (res:
    Result<u128, Error>)
    ensures
        res == seven_point_curve_result(ur_fp48, *cfg),
{
    let zero_rate = rate_milli_u32_to_fp48(cfg.zero_util_rate_milli_u32)?;
    let hundred_rate = rate_milli_u32_to_fp48(cfg.hundred_util_rate_milli_u32)?;
    let ur_capped = if ur_fp48 <= SCALE {
        ur_fp48
    } else {
        SCALE
    };
    let mut prev_util_fp48: u128 = 0;
    let mut prev_rate_fp48: u128 = zero_rate;
    let mut k: usize = 0;
    while k < IRC_POINTS_COUNT
        invariant
            k <= 5,
            hundred_rate == rate_milli_fp48(cfg.hundred_util_rate_milli_u32),
            ur_capped == (if ur_fp48 <= SCALE {
                ur_fp48
            } else {
                SCALE
            }),
            seven_point_curve_result(ur_fp48, *cfg) == seven_point_from(
                ur_capped,
                *cfg,
                k as int,
                prev_util_fp48,
                prev_rate_fp48,
            ),
        decreases 5 - k,
    {
        let point = cfg.points[k];
        let point_util_u32 = point.0;
        let point_rate_u32 = point.1;
        assert(cfg.points@[k as int] == point);
        if point_util_u32 != 0 {
            let point_util_fp48 = util_centi_u32_to_fp48(point_util_u32)?;
            let point_rate_fp48 = rate_milli_u32_to_fp48(point_rate_u32)?;
            if point_util_fp48 <= prev_util_fp48 {
                return Err(Error::Ydelta(YdeltaError::InvalidArgument));
            }
            if ur_capped <= point_util_fp48 {
                return lerp_fp48(
                    prev_util_fp48,
                    prev_rate_fp48,
                    point_util_fp48,
                    point_rate_fp48,
                    ur_capped,
                );
            }
            prev_util_fp48 = point_util_fp48;
            prev_rate_fp48 = point_rate_fp48;
        }
        k = k + 1;
    }
    lerp_fp48(prev_util_fp48, prev_rate_fp48, SCALE, hundred_rate, ur_capped)
}

/// The curve's base APR at `utilization`, by curve tag.
pub open spec fn base_rate_result(utilization: u128, cfg: InterestRateConfigDecoded) -> Result<
    u128,
    Error,
> {
    if cfg.curve_type == INTEREST_CURVE_LEGACY {
        legacy_curve_result(utilization, cfg)
    } else if cfg.curve_type == INTEREST_CURVE_SEVEN_POINT {
        seven_point_curve_result(utilization, cfg)
    } else {
        Err(bad_account())
    }
}

/// Outcome of [`calc_interest_rate_fp48`]: `(lending APR, borrowing APR)`.
/// Lending is base × utilization; borrowing is base × (1 + rate fees) + fixed fees,
/// where the program fees count only when enabled.
pub open spec fn interest_rates_result(
    utilization: u128,
    cfg: InterestRateConfigDecoded,
    fees: GroupProgramFees,
) -> Result<(u128, u128), Error> {
    let program_rate_fee: u128 = if fees.enabled {
        fees.program_fee_rate_fp48
    } else {
        0
    };
    let program_fixed_fee: u128 = if fees.enabled {
        fees.program_fee_fixed_fp48
    } else {
        0
    };
    let fee_ir = cfg.insurance_ir_fee_fp48.saturating_add(cfg.protocol_ir_fee_fp48).saturating_add(
        program_rate_fee,
    );
    let fee_fixed = cfg.insurance_fee_fixed_apr_fp48.saturating_add(
        cfg.protocol_fixed_fee_apr_fp48,
    ).saturating_add(program_fixed_fee);
    match base_rate_result(utilization, cfg) {
        Err(e) => Err(e),
        Ok(base) => match mul_scale_result(base as int, utilization as int) {
            Err(e) => Err(e),
            Ok(lending) => match mul_scale_result(base as int, SCALE.saturating_add(fee_ir) as int) {
                Err(e) => Err(e),
                Ok(b) => Ok((lending, b.saturating_add(fee_fixed))),
            },
        },
    }
}

/// Lending and borrowing APRs (48-bit fixed point) at `utilization_fp48`.
pub fn calc_interest_rate_fp48(
    utilization_fp48: u128,
    cfg: &InterestRateConfigDecoded,
    program_fees: &GroupProgramFees,
) -> (res: Result<(u128, u128), Error>)
    ensures
        res == interest_rates_result(utilization_fp48, *cfg, *program_fees),
{
    let (program_rate_fee, program_fixed_fee) = if program_fees.enabled {
        (program_fees.program_fee_rate_fp48, program_fees.program_fee_fixed_fp48)
    } else {
        (0u128, 0u128)
    };
    let fee_ir_fp48 = cfg.insurance_ir_fee_fp48.saturating_add(
        cfg.protocol_ir_fee_fp48,
    ).saturating_add(program_rate_fee);
    let fee_fixed_fp48 = cfg.insurance_fee_fixed_apr_fp48.saturating_add(
        cfg.protocol_fixed_fee_apr_fp48,
    ).saturating_add(program_fixed_fee);
    let base_rate_apr_fp48 = if cfg.curve_type == INTEREST_CURVE_LEGACY {
        interest_rate_curve_legacy(utilization_fp48, cfg)?
    } else if cfg.curve_type == INTEREST_CURVE_SEVEN_POINT {
        interest_rate_curve_seven_point(utilization_fp48, cfg)?
    } else {
        return Err(Error::Adapter(AdapterError::InvalidIntegrationAccount));
    };
    let lending_rate_apr_fp48 = mul_scale(base_rate_apr_fp48, utilization_fp48)?;
    let one_plus_fee_ir = SCALE.saturating_add(fee_ir_fp48);
    let borrowing = mul_scale(base_rate_apr_fp48, one_plus_fee_ir)?;
    Ok((lending_rate_apr_fp48, borrowing.saturating_add(fee_fixed_fp48)))
}

/// Outcome of [`calc_accrued_share_value_fp48`].
pub open spec fn accrued_share_value_result(apr: u128, dt: u128, share_value: u128) -> Result<
    u128,
    Error,
> {
    if dt == 0 || apr == 0 || share_value == 0 {
        Ok(share_value)
    } else {
        match mul_div_result(apr as int, dt as int, MARGINFI_SECONDS_PER_YEAR as int, false) {
            Err(e) => Err(e),
            Ok(period) => match mul_scale_result(share_value as int, period as int) {
                Err(e) => Err(e),
                Ok(accrued) => Ok(share_value.saturating_add(accrued)),
            },
        }
    }
}

/// Share value after `dt` seconds at `apr_fp48`: `sv + sv * apr * dt / year`.
/// Unchanged when any input is zero; never below the starting value.
pub fn calc_accrued_share_value_fp48(apr_fp48: u128, dt: u128, share_value_fp48: u128) -> (res:
    Result<u128, Error>)
    ensures
        res == accrued_share_value_result(apr_fp48, dt, share_value_fp48),
        res matches Ok(v) ==> v >= share_value_fp48,
{
    if dt == 0 || apr_fp48 == 0 || share_value_fp48 == 0 {
        return Ok(share_value_fp48);
    }
    let period_rate_fp48 = mul_div(apr_fp48, dt, MARGINFI_SECONDS_PER_YEAR, false)?;
    let accrued_fp48 = mul_scale(share_value_fp48, period_rate_fp48)?;
    Ok(share_value_fp48.saturating_add(accrued_fp48))
}

/// Accrual never lowers a share value.
pub proof fn lemma_accrual_never_decreases(apr: u128, dt: u128, share_value: u128)
    ensures
        accrued_share_value_result(apr, dt, share_value) matches Ok(v) ==> v >= share_value,
{
}

/// Accrual is monotone in time: at the same APR, a longer period gives at
/// least the share value a shorter one gives.
pub proof fn lemma_accrual_monotone_in_time(apr: u128, dt1: u128, dt2: u128, share_value: u128)
    requires
        dt1 <= dt2,
        accrued_share_value_result(apr, dt1, share_value) is Ok,
        accrued_share_value_result(apr, dt2, share_value) is Ok,
    ensures
        accrued_share_value_result(apr, dt1, share_value)->Ok_0 <= accrued_share_value_result(
            apr,
            dt2,
            share_value,
        )->Ok_0,
{
    if dt1 == 0 || apr == 0 || share_value == 0 {
    } else {
        let y = MARGINFI_SECONDS_PER_YEAR as int;
        let a = apr as int;
        assert(a * dt1 <= a * dt2) by (nonlinear_arith)
            requires
                0 <= a,
                dt1 <= dt2,
        ;
        vstd::arithmetic::div_mod::lemma_div_is_ordered(a * dt1, a * dt2, y);
        let p1 = mul_div_spec(a, dt1 as int, y, false);
        let p2 = mul_div_spec(a, dt2 as int, y, false);
        assert(p1 <= p2);
        let sv = share_value as int;
        assert(sv * p1 <= sv * p2) by (nonlinear_arith)
            requires
                0 <= sv,
                p1 <= p2,
        ;
        vstd::arithmetic::div_mod::lemma_div_is_ordered(sv * p1, sv * p2, scale());
    }
}

/// Projecting a bank's share value forward never lowers it below the value
/// the bank stores.
pub proof fn lemma_projection_never_decreases(bank: Seq<u8>, group: Seq<u8>, now: i64, liability: bool)
    requires
        projected_share_value_result(bank, group, now, liability) is Ok,
    ensures
        ({
            let own_off: int = if liability {
                BANK_BODY_LIABILITY_SHARE_VALUE as int
            } else {
                BANK_BODY_ASSET_SHARE_VALUE as int
            };
            wrapped_at(bank, own_off) matches Ok(sv) && projected_share_value_result(
                bank,
                group,
                now,
                liability,
            )->Ok_0 >= sv
        }),
{
    let own_off: int = if liability {
        BANK_BODY_LIABILITY_SHARE_VALUE as int
    } else {
        BANK_BODY_ASSET_SHARE_VALUE as int
    };
    let sv = wrapped_at(bank, own_off)->Ok_0;
    let last = bank_last_update(bank)->Ok_0;
    let dt: int = if now - last > 0 {
        now - last
    } else {
        0
    };
    let tas = wrapped_at(bank, BANK_BODY_TOTAL_ASSET_SHARES as int)->Ok_0;
    let tls = wrapped_at(bank, BANK_BODY_TOTAL_LIABILITY_SHARES as int)->Ok_0;
    let other_off: int = if liability {
        BANK_BODY_ASSET_SHARE_VALUE as int
    } else {
        BANK_BODY_LIABILITY_SHARE_VALUE as int
    };
    let other = wrapped_at(bank, other_off)->Ok_0;
    let asv = if liability { other } else { sv };
    let lsv = if liability { sv } else { other };
    let ta = mul_scale_result(tas as int, asv as int)->Ok_0;
    let tl = mul_scale_result(tls as int, lsv as int)->Ok_0;
    if dt != 0 && ta != 0 && tl != 0 {
        let util = div_scale_result(tl as int, ta as int)->Ok_0;
        let rates = interest_rates_result(util, irc_of(bank), group_fees_of(group))->Ok_0;
        lemma_accrual_never_decreases(
            if liability {
                rates.1
            } else {
                rates.0
            },
            dt as u128,
            sv,
        );
    }
}

/// Projection is monotone in time: projecting a bank to a later moment never
/// gives a lower share value than projecting it to an earlier one.
pub proof fn lemma_projection_monotone_in_time(
    bank: Seq<u8>,
    group: Seq<u8>,
    now1: i64,
    now2: i64,
    liability: bool,
)
    requires
        now1 <= now2,
        projected_share_value_result(bank, group, now1, liability) is Ok,
        projected_share_value_result(bank, group, now2, liability) is Ok,
    ensures
        projected_share_value_result(bank, group, now1, liability)->Ok_0
            <= projected_share_value_result(bank, group, now2, liability)->Ok_0,
{
    lemma_projection_never_decreases(bank, group, now2, liability);
    let own_off: int = if liability {
        BANK_BODY_LIABILITY_SHARE_VALUE as int
    } else {
        BANK_BODY_ASSET_SHARE_VALUE as int
    };
    let sv = wrapped_at(bank, own_off)->Ok_0;
    let last = bank_last_update(bank)->Ok_0;
    let dt1: int = if now1 - last > 0 {
        now1 - last
    } else {
        0
    };
    let dt2: int = if now2 - last > 0 {
        now2 - last
    } else {
        0
    };
    let tas = wrapped_at(bank, BANK_BODY_TOTAL_ASSET_SHARES as int)->Ok_0;
    let tls = wrapped_at(bank, BANK_BODY_TOTAL_LIABILITY_SHARES as int)->Ok_0;
    let other_off: int = if liability {
        BANK_BODY_ASSET_SHARE_VALUE as int
    } else {
        BANK_BODY_LIABILITY_SHARE_VALUE as int
    };
    let other = wrapped_at(bank, other_off)->Ok_0;
    let asv = if liability { other } else { sv };
    let lsv = if liability { sv } else { other };
    let ta = mul_scale_result(tas as int, asv as int)->Ok_0;
    let tl = mul_scale_result(tls as int, lsv as int)->Ok_0;
    if dt1 != 0 && ta != 0 && tl != 0 {
        let util = div_scale_result(tl as int, ta as int)->Ok_0;
        let rates = interest_rates_result(util, irc_of(bank), group_fees_of(group))->Ok_0;
        lemma_accrual_monotone_in_time(
            if liability {
                rates.1
            } else {
                rates.0
            },
            dt1 as u128,
            dt2 as u128,
            sv,
        );
    }
}

/// Whether `now - last_update` is representable for the bank's stored timestamp.
pub open spec fn elapsed_in_range(bank: Seq<u8>, now: i64) -> bool {
    bank_last_update(bank) matches Ok(last) ==> i64::MIN <= now - last <= i64::MAX
}

/// Outcome of projecting a bank share value to `now`. `liability` selects the
/// liability share value (borrowing APR) or the asset share value (lending APR).
pub open spec fn projected_share_value_result(
    bank: Seq<u8>,
    group: Seq<u8>,
    now: i64,
    liability: bool,
) -> Result<u128, Error> {
    let own_off: int = if liability {
        BANK_BODY_LIABILITY_SHARE_VALUE as int
    } else {
        BANK_BODY_ASSET_SHARE_VALUE as int
    };
    let other_off: int = if liability {
        BANK_BODY_ASSET_SHARE_VALUE as int
    } else {
        BANK_BODY_LIABILITY_SHARE_VALUE as int
    };
    match bank_last_update(bank) {
        Err(e) => Err(e),
        Ok(last) => {
            let dt: int = if now - last > 0 {
                now - last
            } else {
                0
            };
            match wrapped_at(bank, own_off) {
                Err(e) => Err(e),
                Ok(sv) => if dt == 0 {
                    Ok(sv)
                } else {
                    match wrapped_at(bank, BANK_BODY_TOTAL_ASSET_SHARES as int) {
                        Err(e) => Err(e),
                        Ok(tas) => match wrapped_at(bank, BANK_BODY_TOTAL_LIABILITY_SHARES as int) {
                            Err(e) => Err(e),
                            Ok(tls) => match wrapped_at(bank, other_off) {
                                Err(e) => Err(e),
                                Ok(other) => {
                                    let asv = if liability {
                                        other
                                    } else {
                                        sv
                                    };
                                    let lsv = if liability {
                                        sv
                                    } else {
                                        other
                                    };
                                    match mul_scale_result(tas as int, asv as int) {
                                        Err(e) => Err(e),
                                        Ok(ta) => match mul_scale_result(tls as int, lsv as int) {
                                            Err(e) => Err(e),
                                            Ok(tl) => if ta == 0 || tl == 0 {
                                                Ok(sv)
                                            } else {
                                                match div_scale_result(tl as int, ta as int) {
                                                    Err(e) => Err(e),
                                                    Ok(util) => projected_from_rates(
                                                        bank,
                                                        group,
                                                        util,
                                                        dt as u128,
                                                        sv,
                                                        liability,
                                                    ),
                                                }
                                            },
                                        },
                                    }
                                },
                            },
                        },
                    }
                },
            }
        },
    }
}

/// Last stage of [`projected_share_value_result`]: decode the curve and the
/// program fees, evaluate the APR at `util`, and accrue `sv` over `dt`.
pub open spec fn projected_from_rates(
    bank: Seq<u8>,
    group: Seq<u8>,
    util: u128,
    dt: u128,
    sv: u128,
    liability: bool,
) -> Result<u128, Error> {
    if !irc_readable(bank) {
        Err(bad_account())
    } else if !group_fees_readable(group) {
        Err(bad_account())
    } else {
        match interest_rates_result(util, irc_of(bank), group_fees_of(group)) {
            Err(e) => Err(e),
            Ok(rates) => accrued_share_value_result(
                if liability {
                    rates.1
                } else {
                    rates.0
                },
                dt,
                sv,
            ),
        }
    }
}

fn projected_share_value(bank: &[u8], group: &[u8], now_unix: i64, liability: bool) -> (res:
    Result<u128, Error>)
    requires
        elapsed_in_range(bank@, now_unix),
    ensures
        res == projected_share_value_result(bank@, group@, now_unix, liability),
{
    let (own_off, other_off) = if liability {
        (BANK_BODY_LIABILITY_SHARE_VALUE, BANK_BODY_ASSET_SHARE_VALUE)
    } else {
        (BANK_BODY_ASSET_SHARE_VALUE, BANK_BODY_LIABILITY_SHARE_VALUE)
    };
    let last_update = read_bank_last_update(bank)?;
    let elapsed: i64 = now_unix - last_update;
    let dt: u128 = if elapsed > 0 {
        elapsed as u128
    } else {
        0
    };
    let sv = read_wrapped_i80f48_fp48(bank, own_off)?;
    if dt == 0 {
        return Ok(sv);
    }
    let total_asset_shares_fp48 = read_bank_total_asset_shares_fp48(bank)?;
    let total_liability_shares_fp48 = read_bank_total_liability_shares_fp48(bank)?;
    let other = read_wrapped_i80f48_fp48(bank, other_off)?;
    let (asv_fp48, lsv_fp48) = if liability {
        (other, sv)
    } else {
        (sv, other)
    };
    let total_assets_fp48 = mul_scale(total_asset_shares_fp48, asv_fp48)?;
    let total_liabilities_fp48 = mul_scale(total_liability_shares_fp48, lsv_fp48)?;
    if total_assets_fp48 == 0 || total_liabilities_fp48 == 0 {
        return Ok(sv);
    }
    let utilization_fp48 = div_scale(total_liabilities_fp48, total_assets_fp48)?;
    let cfg = read_bank_interest_rate_config(bank)?;
    let program_fees = read_group_program_fees(group)?;
    let (lending_apr_fp48, borrowing_apr_fp48) = calc_interest_rate_fp48(
        utilization_fp48,
        &cfg,
        &program_fees,
    )?;
    let apr = if liability {
        borrowing_apr_fp48
    } else {
        lending_apr_fp48
    };
    calc_accrued_share_value_fp48(apr, dt, sv)
}

/// Projects the bank's liability share value to `now_unix` with the
/// borrowing APR (base curve, rate fees and fixed fees) over
/// `now_unix - last_update`; unchanged when no time has passed or either
/// side of the bank is empty.
pub fn calc_projected_liability_share_value_fp48(bank: &[u8], group: &[u8], now_unix: i64) -> (res:
    Result<u128, Error>)
    requires
        elapsed_in_range(bank@, now_unix),
    ensures
        res == projected_share_value_result(bank@, group@, now_unix, true),
{
    projected_share_value(bank, group, now_unix, true)
}

/// Projects the bank's asset share value to `now_unix` with the lending APR
/// (base curve times utilization); unchanged when no time has passed or
/// either side of the bank is empty.
pub fn calc_projected_asset_share_value_fp48(bank: &[u8], group: &[u8], now_unix: i64) -> (res:
    Result<u128, Error>)
    requires
        elapsed_in_range(bank@, now_unix),
    ensures
        res == projected_share_value_result(bank@, group@, now_unix, false),
{
    projected_share_value(bank, group, now_unix, false)
}

/// Interpolation is monotone: on the same segment, a later target never
/// gives a lower value.
pub proof fn lemma_lerp_monotone(sx: u128, sy: u128, ex: u128, ey: u128, t1: u128, t2: u128)
    requires
        lerp_result(sx, sy, ex, ey, t1) is Ok,
        lerp_result(sx, sy, ex, ey, t2) is Ok,
        t1 <= t2,
    ensures
        lerp_result(sx, sy, ex, ey, t1)->Ok_0 <= lerp_result(sx, sy, ex, ey, t2)->Ok_0,
{
    let dx = (ex - sx) as int;
    let dy = (ey - sy) as int;
    let o1 = (t1 - sx) as int;
    let o2 = (t2 - sx) as int;
    assert(o1 * scale() <= o2 * scale()) by (nonlinear_arith)
        requires
            0 <= o1 <= o2,
    ;
    vstd::arithmetic::div_mod::lemma_div_is_ordered(o1 * scale(), o2 * scale(), dx);
    let p1 = div_scale_spec(o1, dx);
    let p2 = div_scale_spec(o2, dx);
    assert(p1 >= 0) by {
        vstd::arithmetic::div_mod::lemma_div_pos_is_pos(o1 * scale(), dx);
    }
    assert(dy * p1 <= dy * p2) by (nonlinear_arith)
        requires
            dy >= 0,
            0 <= p1 <= p2,
    ;
    vstd::arithmetic::div_mod::lemma_div_is_ordered(dy * p1, dy * p2, scale());
    lemma_fraction_le(o2, dx, scale());
    lemma_fraction_le(o1, dx, scale());
    assert(dy * p2 == p2 * dy) by (nonlinear_arith);
    assert(dy * p1 == p1 * dy) by (nonlinear_arith);
    lemma_fraction_le(p2, scale(), dy);
    lemma_fraction_le(p1, scale(), dy);
    assert(mul_scale_spec(dy, p1) == (p1 * dy) / scale());
    assert(mul_scale_spec(dy, p2) == (p2 * dy) / scale());
}

/// Lenders never earn more than borrowers pay: at a utilization of at most
/// one whole, the lending rate is at most the borrowing rate.
pub proof fn lemma_lending_at_most_borrowing(
    utilization: u128,
    cfg: InterestRateConfigDecoded,
    fees: GroupProgramFees,
)
    requires
        interest_rates_result(utilization, cfg, fees) is Ok,
        utilization <= SCALE,
    ensures
        interest_rates_result(utilization, cfg, fees)->Ok_0.0 <= interest_rates_result(
            utilization,
            cfg,
            fees,
        )->Ok_0.1,
{
    let program_rate_fee: u128 = if fees.enabled {
        fees.program_fee_rate_fp48
    } else {
        0
    };
    let fee_ir = cfg.insurance_ir_fee_fp48.saturating_add(cfg.protocol_ir_fee_fp48).saturating_add(
        program_rate_fee,
    );
    let base = base_rate_result(utilization, cfg)->Ok_0;
    let m = SCALE.saturating_add(fee_ir);
    assert(m >= SCALE);
    assert(base * utilization <= base * m) by (nonlinear_arith)
        requires
            base >= 0,
            utilization <= m,
    ;
    vstd::arithmetic::div_mod::lemma_div_is_ordered(
        base * utilization,
        base * m,
        scale(),
    );
}

/// The enabled program rate fee, zero when program fees are off.
pub open spec fn program_rate_fee(fees: GroupProgramFees) -> int {
    if fees.enabled {
        fees.program_fee_rate_fp48 as int
    } else {
        0
    }
}

/// The enabled program fixed fee, zero when program fees are off.
pub open spec fn program_fixed_fee(fees: GroupProgramFees) -> int {
    if fees.enabled {
        fees.program_fee_fixed_fp48 as int
    } else {
        0
    }
}

/// Lending and borrowing APRs from the curve's base APR: lending is the base
/// times utilization; borrowing is the base times one plus every rate fee
/// (insurance, protocol and, when enabled, program), plus every fixed fee
/// (insurance, protocol and, when enabled, program). Stated where no sum
/// saturates.
pub proof fn lemma_rates_from_base_and_fees(
    utilization: u128,
    cfg: InterestRateConfigDecoded,
    fees: GroupProgramFees,
)
    requires
        interest_rates_result(utilization, cfg, fees) is Ok,
        SCALE + cfg.insurance_ir_fee_fp48 + cfg.protocol_ir_fee_fp48 + program_rate_fee(fees)
            <= u128::MAX,
        ({
            let base = base_rate_result(utilization, cfg)->Ok_0 as int;
            (base * (SCALE + cfg.insurance_ir_fee_fp48 + cfg.protocol_ir_fee_fp48
                + program_rate_fee(fees))) / scale() + cfg.insurance_fee_fixed_apr_fp48
                + cfg.protocol_fixed_fee_apr_fp48 + program_fixed_fee(fees) <= u128::MAX
        }),
    ensures
        ({
            let base = base_rate_result(utilization, cfg)->Ok_0 as int;
            let r = interest_rates_result(utilization, cfg, fees)->Ok_0;
            &&& r.0 == (base * utilization) / scale()
            &&& r.1 == (base * (SCALE + cfg.insurance_ir_fee_fp48 + cfg.protocol_ir_fee_fp48
                + program_rate_fee(fees))) / scale() + cfg.insurance_fee_fixed_apr_fp48
                + cfg.protocol_fixed_fee_apr_fp48 + program_fixed_fee(fees)
        }),
{
}

/// Raising the protocol's fixed fee by `x` raises the borrowing APR by
/// exactly `x` and leaves the lending APR as it was (where nothing
/// saturates).
pub proof fn lemma_protocol_fixed_fee_adds_to_borrowing(
    utilization: u128,
    cfg: InterestRateConfigDecoded,
    fees: GroupProgramFees,
    x: u128,
)
    requires
        interest_rates_result(utilization, cfg, fees) is Ok,
        cfg.protocol_fixed_fee_apr_fp48 + x <= u128::MAX,
        SCALE + cfg.insurance_ir_fee_fp48 + cfg.protocol_ir_fee_fp48 + program_rate_fee(fees)
            <= u128::MAX,
        ({
            let base = base_rate_result(utilization, cfg)->Ok_0 as int;
            (base * (SCALE + cfg.insurance_ir_fee_fp48 + cfg.protocol_ir_fee_fp48
                + program_rate_fee(fees))) / scale() + cfg.insurance_fee_fixed_apr_fp48
                + cfg.protocol_fixed_fee_apr_fp48 + x + program_fixed_fee(fees) <= u128::MAX
        }),
    ensures
        ({
            let raised = InterestRateConfigDecoded {
                protocol_fixed_fee_apr_fp48: (cfg.protocol_fixed_fee_apr_fp48 + x) as u128,
                ..cfg
            };
            &&& interest_rates_result(utilization, raised, fees) is Ok
            &&& interest_rates_result(utilization, raised, fees)->Ok_0.0 == interest_rates_result(
                utilization,
                cfg,
                fees,
            )->Ok_0.0
            &&& interest_rates_result(utilization, raised, fees)->Ok_0.1 == interest_rates_result(
                utilization,
                cfg,
                fees,
            )->Ok_0.1 + x
        }),
{
    let raised = InterestRateConfigDecoded {
        protocol_fixed_fee_apr_fp48: (cfg.protocol_fixed_fee_apr_fp48 + x) as u128,
        ..cfg
    };
    assert(base_rate_result(utilization, raised) == base_rate_result(utilization, cfg)) by {
        assert(legacy_curve_result(utilization, raised) == legacy_curve_result(utilization, cfg));
        assert(seven_point_curve_result(utilization, raised) == seven_point_curve_result(
            utilization,
            cfg,
        )) by {
            let capped: u128 = if utilization <= SCALE {
                utilization
            } else {
                SCALE
            };
            lemma_seven_point_ignores_fees(capped, cfg, raised, 0, 0,
                rate_milli_fp48(cfg.zero_util_rate_milli_u32));
        }
    }
    lemma_rates_from_base_and_fees(utilization, cfg, fees);
    lemma_rates_from_base_and_fees(utilization, raised, fees);
}

/// The multi-point curve reads only its rates and points, not the fees.
proof fn lemma_seven_point_ignores_fees(
    ur: u128,
    a: InterestRateConfigDecoded,
    b: InterestRateConfigDecoded,
    k: int,
    pu: u128,
    pr: u128,
)
    requires
        a.points == b.points,
        a.hundred_util_rate_milli_u32 == b.hundred_util_rate_milli_u32,
    ensures
        seven_point_from(ur, a, k, pu, pr) == seven_point_from(ur, b, k, pu, pr),
    decreases 5 - k,
{
    if k < 5 {
        let point = a.points@[k];
        lemma_seven_point_ignores_fees(ur, a, b, k + 1, pu, pr);
        if point.0 != 0 {
            lemma_seven_point_ignores_fees(ur, a, b, k + 1, util_centi_fp48(point.0),
                rate_milli_fp48(point.1));
        }
    }
}

/// The utilization of the multi-point curve's interior point `i`.
pub open spec fn point_util(cfg: InterestRateConfigDecoded, i: int) -> u128 {
    util_centi_fp48(cfg.points@[i].0)
}

/// The rate of the multi-point curve's interior point `i`.
pub open spec fn point_rate(cfg: InterestRateConfigDecoded, i: int) -> u128 {
    rate_milli_fp48(cfg.points@[i].1)
}

/// A used point's utilization lies in `(0, 1.0]`.
proof fn lemma_point_util_range(u: u32)
    requires
        u != 0,
    ensures
        0 < util_centi_fp48(u) <= SCALE,
{
    lemma_fraction_le(u as int, u32::MAX as int, scale());
    assert(u32::MAX as int <= u as int * scale()) by (nonlinear_arith)
        requires
            u >= 1,
            scale() == 0x1_0000_0000_0000,
    ;
    vstd::arithmetic::div_mod::lemma_div_is_ordered(
        u32::MAX as int,
        u as int * scale(),
        u32::MAX as int,
    );
    vstd::arithmetic::div_mod::lemma_div_by_self(u32::MAX as int);
}

/// Walking the points from slot `j`, with the previous breakpoint being slot
/// `j - 1` (or the origin at `j == 0`), reaches the segment between slots
/// `k` and `k + 1`.
proof fn lemma_seven_point_walk(
    ur: u128,
    cfg: InterestRateConfigDecoded,
    j: int,
    k: int,
    prev_util: u128,
    prev_rate: u128,
)
    requires
        0 <= k < 4,
        0 <= j <= k + 1,
        j == 0 ==> prev_util == 0,
        j > 0 ==> prev_util == point_util(cfg, j - 1) && prev_rate == point_rate(cfg, j - 1),
        forall|i: int| 0 <= i <= k + 1 ==> #[trigger] cfg.points@[i].0 != 0,
        forall|i: int, i2: int|
            0 <= i < i2 <= k + 1 ==> point_util(cfg, i) < point_util(cfg, i2),
        point_util(cfg, k) < ur <= point_util(cfg, k + 1),
    ensures
        seven_point_from(ur, cfg, j, prev_util, prev_rate) == lerp_result(
            point_util(cfg, k),
            point_rate(cfg, k),
            point_util(cfg, k + 1),
            point_rate(cfg, k + 1),
            ur,
        ),
    decreases k + 1 - j,
{
    assert(cfg.points@[j].0 != 0);
    if j == 0 {
        lemma_point_util_range(cfg.points@[0].0);
    } else {
        assert(point_util(cfg, j - 1) < point_util(cfg, j));
    }
    if j <= k {
        if j < k {
            assert(point_util(cfg, j) < point_util(cfg, k));
        }
        lemma_seven_point_walk(ur, cfg, j + 1, k, point_util(cfg, j), point_rate(cfg, j));
    }
}

/// Between two consecutive used interior points of the multi-point curve,
/// the rate is the straight line between those two points' rates: past
/// point `k` the curve starts from point `k`'s own rate, not from an earlier
/// one. Stated for the first `k + 2` slots used, in increasing utilization.
pub proof fn lemma_seven_point_between_points(ur: u128, cfg: InterestRateConfigDecoded, k: int)
    requires
        0 <= k < 4,
        forall|i: int| 0 <= i <= k + 1 ==> #[trigger] cfg.points@[i].0 != 0,
        forall|i: int, i2: int|
            0 <= i < i2 <= k + 1 ==> point_util(cfg, i) < point_util(cfg, i2),
        point_util(cfg, k) < ur <= point_util(cfg, k + 1),
    ensures
        seven_point_curve_result(ur, cfg) == lerp_result(
            point_util(cfg, k),
            point_rate(cfg, k),
            point_util(cfg, k + 1),
            point_rate(cfg, k + 1),
            ur,
        ),
{
    lemma_point_util_range(cfg.points@[k + 1].0);
    lemma_seven_point_walk(ur, cfg, 0, k, 0, rate_milli_fp48(cfg.zero_util_rate_milli_u32));
}

/// Just past an interior point the rate is at least that point's rate when
/// the next point's rate is no lower: the curve does not drop back after a
/// point it has passed.
pub proof fn lemma_seven_point_no_drop_after_point(ur: u128, cfg: InterestRateConfigDecoded, k: int)
    requires
        0 <= k < 4,
        forall|i: int| 0 <= i <= k + 1 ==> #[trigger] cfg.points@[i].0 != 0,
        forall|i: int, i2: int|
            0 <= i < i2 <= k + 1 ==> point_util(cfg, i) < point_util(cfg, i2),
        point_util(cfg, k) < ur <= point_util(cfg, k + 1),
        point_rate(cfg, k) <= point_rate(cfg, k + 1),
    ensures
        seven_point_curve_result(ur, cfg) is Ok,
        point_rate(cfg, k) <= seven_point_curve_result(ur, cfg)->Ok_0 <= point_rate(cfg, k + 1),
{
    lemma_seven_point_between_points(ur, cfg, k);
    let sx = point_util(cfg, k) as int;
    let ex = point_util(cfg, k + 1) as int;
    let sy = point_rate(cfg, k) as int;
    let ey = point_rate(cfg, k + 1) as int;
    let o = ur - sx;
    lemma_fraction_le(o, ex - sx, scale());
    let p = div_scale_spec(o, ex - sx);
    assert((ey - sy) * p == p * (ey - sy)) by (nonlinear_arith);
    lemma_fraction_le(p, scale(), ey - sy);
}

} // verus!
