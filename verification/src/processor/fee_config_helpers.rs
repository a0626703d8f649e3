//! Fee-configuration validation and override application shared by market
//! creation and later fee updates. Every bps field is bounded by 10_000;
//! the liquidation keeper bonus and the curator's split by stricter sanity
//! caps of 5_000 each; the grace period by 90 days.

use vstd::prelude::*;

use crate::error::{Error, YdeltaError};
use crate::pubkey::keys_equal;

verus! {

/// Hard cap on the grace period (90 days, in seconds).
pub const MAX_GRACE_PERIOD_SECONDS: u32 = 7_776_000;

/// Sanity cap on the liquidation keeper's bonus (50%, in bps).
pub const MAX_LIQUIDATION_KEEPER_BPS: u16 = 5_000;

/// Sanity cap on the curator's split of interest: the same 50% ceiling the
/// liquidation keeper's bonus has (in bps).
pub const MAX_CURATOR_SPLIT_BPS: u16 = 5_000;

/// One whole, in basis points.
pub const BPS_FULL_SCALE: u16 = 10_000;

/// A market's fee configuration.
#[derive(Debug, Clone, Copy, PartialEq, Eq, Structural)]
pub struct FeeConfig {
    /// Floor on the protocol fee (bps).
    pub protocol_fee_bps_floor: u16,
    /// Origination fee charged on net principal at promotion (bps).
    pub origination_bps: u16,
    /// Curator's share of interest (bps).
    pub curator_split_bps: u16,
    /// Curator fee on a profile's deployed principal at match (bps).
    pub curator_fee_bps: u16,
    /// Liquidation keeper bonus on repaid principal (bps).
    pub liquidation_keeper_bps: u16,
    /// Protocol's share of liquidation proceeds (bps).
    pub liquidation_protocol_bps: u16,
    /// Buffer under the strategy's LTV cap applied at origination (bps).
    pub ltv_buffer_bps: u16,
    /// Seconds after maturity before settlement is permitted.
    pub grace_period_seconds: u32,
}

/// Per-field overrides of a market's fee configuration: `Some(v)` replaces
/// the field, `None` leaves it unchanged.
#[derive(Debug, Clone, Copy)]
pub struct SetFeeConfigParams {
    pub protocol_fee_bps_floor: Option<u16>,
    pub origination_bps: Option<u16>,
    pub curator_split_bps: Option<u16>,
    pub liquidation_keeper_bps: Option<u16>,
    pub liquidation_protocol_bps: Option<u16>,
    pub grace_period_seconds: Option<u32>,
}

/// The overrides accepted by both market creation and fee updates.
pub type FeeConfigOverrides = SetFeeConfigParams;

impl Default for SetFeeConfigParams {
    fn default() -> (res: Self)
        ensures
            res.protocol_fee_bps_floor is None,
            res.origination_bps is None,
            res.curator_split_bps is None,
            res.liquidation_keeper_bps is None,
            res.liquidation_protocol_bps is None,
            res.grace_period_seconds is None,
    {
        SetFeeConfigParams {
            protocol_fee_bps_floor: None,
            origination_bps: None,
            curator_split_bps: None,
            liquidation_keeper_bps: None,
            liquidation_protocol_bps: None,
            grace_period_seconds: None,
        }
    }
}

/// Whether an optional bps override is at most 10_000.
pub open spec fn bps_ok(v: Option<u16>) -> bool {
    v matches Some(x) ==> x <= BPS_FULL_SCALE
}

/// Whether every present override is within bounds.
pub open spec fn overrides_valid(p: SetFeeConfigParams) -> bool {
    &&& bps_ok(p.protocol_fee_bps_floor)
    &&& bps_ok(p.origination_bps)
    &&& bps_ok(p.curator_split_bps)
    &&& bps_ok(p.liquidation_keeper_bps)
    &&& bps_ok(p.liquidation_protocol_bps)
    &&& p.curator_split_bps matches Some(x) ==> x <= MAX_CURATOR_SPLIT_BPS
    &&& p.liquidation_keeper_bps matches Some(x) ==> x <= MAX_LIQUIDATION_KEEPER_BPS
    &&& p.grace_period_seconds matches Some(x) ==> x <= MAX_GRACE_PERIOD_SECONDS
}

/// Whether a whole fee configuration is within the bounds the overrides obey.
pub open spec fn fee_config_valid(c: FeeConfig) -> bool {
    &&& c.protocol_fee_bps_floor <= BPS_FULL_SCALE
    &&& c.origination_bps <= BPS_FULL_SCALE
    &&& c.curator_split_bps <= MAX_CURATOR_SPLIT_BPS
    &&& c.curator_fee_bps <= BPS_FULL_SCALE
    &&& c.ltv_buffer_bps <= BPS_FULL_SCALE
    &&& c.liquidation_keeper_bps <= MAX_LIQUIDATION_KEEPER_BPS
    &&& c.liquidation_protocol_bps <= BPS_FULL_SCALE
    &&& c.grace_period_seconds <= MAX_GRACE_PERIOD_SECONDS
}

/// `value` when present, otherwise `current`.
pub open spec fn override_with<T>(current: T, value: Option<T>) -> T {
    match value {
        Some(v) => v,
        None => current,
    }
}

/// The configuration `c` with every present override of `p` applied.
pub open spec fn applied(c: FeeConfig, p: SetFeeConfigParams) -> FeeConfig {
    FeeConfig {
        protocol_fee_bps_floor: override_with(c.protocol_fee_bps_floor, p.protocol_fee_bps_floor),
        origination_bps: override_with(c.origination_bps, p.origination_bps),
        curator_split_bps: override_with(c.curator_split_bps, p.curator_split_bps),
        curator_fee_bps: c.curator_fee_bps,
        liquidation_keeper_bps: override_with(c.liquidation_keeper_bps, p.liquidation_keeper_bps),
        liquidation_protocol_bps: override_with(
            c.liquidation_protocol_bps,
            p.liquidation_protocol_bps,
        ),
        ltv_buffer_bps: c.ltv_buffer_bps,
        grace_period_seconds: override_with(c.grace_period_seconds, p.grace_period_seconds),
    }
}

fn check_bps(value: Option<u16>) -> (res: Result<(), Error>)
    ensures
        res is Ok <==> bps_ok(value),
        res matches Err(e) ==> e == Error::Ydelta(YdeltaError::InvalidFeeConfig),
{
    if let Some(v) = value {
        if v > BPS_FULL_SCALE {
            return Err(Error::Ydelta(YdeltaError::InvalidFeeConfig));
        }
    }
    Ok(())
}

/// Bounds-checks every present override: each bps value at most 10_000, the
/// liquidation keeper bonus and the curator's split at most 5_000, the grace
/// period at most 90 days.
pub fn validate_fee_config_overrides(params: &FeeConfigOverrides) -> (res: Result<(), Error>)
    ensures
        res is Ok <==> overrides_valid(*params),
        res matches Err(e) ==> e == Error::Ydelta(YdeltaError::InvalidFeeConfig),
{
    check_bps(params.protocol_fee_bps_floor)?;
    check_bps(params.origination_bps)?;
    check_bps(params.curator_split_bps)?;
    check_bps(params.liquidation_keeper_bps)?;
    check_bps(params.liquidation_protocol_bps)?;
    if let Some(v) = params.curator_split_bps {
        if v > MAX_CURATOR_SPLIT_BPS {
            return Err(Error::Ydelta(YdeltaError::InvalidFeeConfig));
        }
    }
    if let Some(v) = params.liquidation_keeper_bps {
        if v > MAX_LIQUIDATION_KEEPER_BPS {
            return Err(Error::Ydelta(YdeltaError::InvalidFeeConfig));
        }
    }
    if let Some(v) = params.grace_period_seconds {
        if v > MAX_GRACE_PERIOD_SECONDS {
            return Err(Error::Ydelta(YdeltaError::InvalidFeeConfig));
        }
    }
    Ok(())
}

/// Writes each present override onto `target`; absent fields are untouched.
pub fn apply_fee_config_overrides(target: &mut FeeConfig, params: &FeeConfigOverrides)
    ensures
        *final(target) == applied(*old(target), *params),
{
    if let Some(v) = params.protocol_fee_bps_floor {
        target.protocol_fee_bps_floor = v;
    }
    if let Some(v) = params.origination_bps {
        target.origination_bps = v;
    }
    if let Some(v) = params.curator_split_bps {
        target.curator_split_bps = v;
    }
    if let Some(v) = params.liquidation_keeper_bps {
        target.liquidation_keeper_bps = v;
    }
    if let Some(v) = params.liquidation_protocol_bps {
        target.liquidation_protocol_bps = v;
    }
    if let Some(v) = params.grace_period_seconds {
        target.grace_period_seconds = v;
    }
}

/// A market admin's fee update: the signer must be the market admin, the
/// overrides must be within bounds, and then each present override is
/// written. A refused update leaves the configuration untouched.
pub fn update_fee_config(
    target: &mut FeeConfig,
    admin: &[u8; 32],
    signer: &[u8; 32],
    params: &SetFeeConfigParams,
) -> (res: Result<(), Error>)
    ensures
        signer@ != admin@ ==> res == Err::<(), Error>(Error::Ydelta(YdeltaError::MarketAdminRequired)),
        signer@ == admin@ ==> (res is Ok <==> overrides_valid(*params)),
        signer@ == admin@ && !overrides_valid(*params) ==> res == Err::<(), Error>(
            Error::Ydelta(YdeltaError::InvalidFeeConfig),
        ),
        res is Ok ==> *final(target) == applied(*old(target), *params),
        res is Err ==> *final(target) == *old(target),
{
    if !keys_equal(signer, admin) {
        return Err(Error::Ydelta(YdeltaError::MarketAdminRequired));
    }
    validate_fee_config_overrides(params)?;
    apply_fee_config_overrides(target, params);
    Ok(())
}

/// Applying validated overrides to a configuration within bounds yields a
/// configuration within bounds.
pub proof fn lemma_apply_preserves_validity(c: FeeConfig, p: SetFeeConfigParams)
    requires
        fee_config_valid(c),
        overrides_valid(p),
    ensures
        fee_config_valid(applied(c, p)),
{
}

/// Overrides with every field absent leave the configuration unchanged.
pub proof fn lemma_apply_nothing_is_identity(c: FeeConfig, p: SetFeeConfigParams)
    requires
        p.protocol_fee_bps_floor is None,
        p.origination_bps is None,
        p.curator_split_bps is None,
        p.liquidation_keeper_bps is None,
        p.liquidation_protocol_bps is None,
        p.grace_period_seconds is None,
    ensures
        applied(c, p) == c,
{
}

/// Applying the same overrides twice is the same as applying them once.
pub proof fn lemma_apply_idempotent(c: FeeConfig, p: SetFeeConfigParams)
    ensures
        applied(applied(c, p), p) == applied(c, p),
{
}

/// Every present override is what the field holds afterwards.
pub proof fn lemma_apply_sets_present_fields(c: FeeConfig, p: SetFeeConfigParams)
    ensures
        p.protocol_fee_bps_floor matches Some(v) ==> applied(c, p).protocol_fee_bps_floor == v,
        p.origination_bps matches Some(v) ==> applied(c, p).origination_bps == v,
        p.curator_split_bps matches Some(v) ==> applied(c, p).curator_split_bps == v,
        p.liquidation_keeper_bps matches Some(v) ==> applied(c, p).liquidation_keeper_bps == v,
        p.liquidation_protocol_bps matches Some(v) ==> applied(c, p).liquidation_protocol_bps == v,
        p.grace_period_seconds matches Some(v) ==> applied(c, p).grace_period_seconds == v,
{
}

} // verus!
