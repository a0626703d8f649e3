//! Parameters of the program's instructions.

use vstd::prelude::*;

use crate::error::{Error, YdeltaError};
use crate::processor::fee_config_helpers::{
    apply_fee_config_overrides, applied, bps_ok, overrides_valid, override_with,
    validate_fee_config_overrides, FeeConfig, SetFeeConfigParams, BPS_FULL_SCALE,
};

verus! {

/// Identifies the sub-vault whose resting order an admin cancels.
#[derive(Debug, Clone, Copy)]
pub struct AdminCancelSubVaultOrderParams {
    pub sub_vault_id: u8,
}

/// Proposes a new market admin.
#[derive(Debug, Clone, Copy)]
pub struct TransferMarketAdminParams {
    pub new_admin: [u8; 32],
}

/// Proposes a new global-vault admin.
#[derive(Debug, Clone, Copy)]
pub struct TransferGlobalVaultAdminParams {
    pub new_admin: [u8; 32],
}

/// Proposes a new curator for a risk profile.
#[derive(Debug, Clone, Copy)]
pub struct TransferCuratorParams {
    pub profile_id: u8,
    pub new_curator: [u8; 32],
}

/// Accepts the curator role of a risk profile.
#[derive(Debug, Clone, Copy)]
pub struct AcceptCuratorParams {
    pub profile_id: u8,
}

/// Cancels a borrower's resting bid.
#[derive(Debug, Clone, Copy)]
pub struct CancelOrderParams {
    pub order_sequence: u64,
    pub seat_index_hint: Option<u32>,
}

/// Cancels a risk profile's resting order.
#[derive(Debug, Clone, Copy)]
pub struct CancelOrderForRiskProfileParams {
    pub profile_id: u8,
}

/// Cancels a sub-vault's resting order.
#[derive(Debug, Clone, Copy)]
pub struct CancelOrderForSubVaultParams {
    pub sub_vault_id: u16,
}

/// Claims a sub-vault's accumulated curator fee.
#[derive(Debug, Clone, Copy)]
pub struct ClaimCuratorFeeParams {
    pub sub_vault_id: u8,
}

/// Claims a repaid loan for its lender.
#[derive(Debug, Clone, Copy)]
pub struct ClaimRepaymentParams {
    pub lender_seat_index_hint: Option<u32>,
}

/// Sweeps repaid atoms into a risk profile.
#[derive(Debug, Clone, Copy)]
pub struct ClaimRepaymentForRiskProfileParams {
    pub risk_profile_id: u8,
}

/// Claims a market seat for a risk profile.
#[derive(Debug, Clone, Copy)]
pub struct ClaimSeatForRiskProfileParams {
    pub profile_id: u8,
    pub max_exposure_atoms: u64,
}

/// Migrates a pool loan into fixed-rate loans.
#[derive(Debug, Clone, Copy)]
pub struct ConvertP2PoolToFixedParams {
    pub max_acceptable_rate_bps: u16,
}

/// Creates a risk profile.
#[derive(Debug, Clone, Copy)]
pub struct CreateRiskProfileParams {
    pub profile_id: u8,
    pub curator: [u8; 32],
    pub max_ltv_bps: u16,
    pub max_term_seconds: u32,
    pub allowed_market_max: u8,
}

/// Creates a curator-run pool sub-vault.
#[derive(Debug, Clone, Copy)]
pub struct CreatePoolSubVaultParams {
    pub curator: [u8; 32],
    pub spread_bps: u16,
    pub max_ltv_bps: u16,
    pub liquidation_ltv_bps: u16,
    pub max_term_seconds: u32,
    pub curator_fee_bps: u16,
}

/// Creates an owner-run private sub-vault (curator fee 0).
#[derive(Debug, Clone, Copy)]
pub struct CreatePrivateSubVaultParams {
    pub spread_bps: u16,
    pub max_ltv_bps: u16,
    pub liquidation_ltv_bps: u16,
    pub max_term_seconds: u32,
}

/// Deposits atoms into a market seat.
#[derive(Debug, Clone, Copy)]
pub struct DepositParams {
    pub amount_atoms: u64,
    pub trader_index_hint: Option<u32>,
}

/// Proposes a new protocol admin.
#[derive(Debug, Clone, Copy)]
pub struct TransferProtocolAdminParams {
    pub new_admin: [u8; 32],
}

/// Pauses (non-zero) or resumes (zero) the protocol.
#[derive(Debug, Clone, Copy)]
pub struct SetGlobalPauseParams {
    pub paused: u8,
}

/// Deposits atoms into a sub-vault.
#[derive(Debug, Clone, Copy)]
pub struct GlobalVaultDepositParams {
    pub amount_atoms: u64,
    pub sub_vault_id: u8,
}

/// Burns sub-vault shares for principal.
#[derive(Debug, Clone, Copy)]
pub struct GlobalVaultWithdrawParams {
    pub shares_to_burn: u128,
    pub sub_vault_id: u16,
}

/// Runs the matching crank.
#[derive(Debug, Clone, Copy)]
pub struct MatchCrankParams {
    pub max_fills: u32,
}

/// Places a borrower bid.
#[derive(Debug, Clone, Copy)]
pub struct PlaceOrderParams {
    pub seat_index_hint: Option<u32>,
    pub residual_mode: u8,
    pub last_valid_unix_ts: i64,
    pub rate_bps: u16,
    pub term_seconds: u32,
    pub principal_atoms: u64,
    pub collateral_atoms: u64,
}

/// Places a risk profile's ask.
#[derive(Debug, Clone, Copy)]
pub struct PlaceOrderForRiskProfileParams {
    pub profile_id: u8,
    pub rate_bps: u16,
    pub term_seconds: u32,
    pub flags: u8,
}

/// Places a sub-vault's ask.
#[derive(Debug, Clone, Copy)]
pub struct PlaceOrderForSubVaultParams {
    pub sub_vault_id: u16,
    pub flags: u8,
}

/// Promotes a matched loan into a loan record.
#[derive(Debug, Clone, Copy)]
pub struct ProcessMatchedLoanParams {
    pub matched_loan_sequence: u64,
    pub matched_loan_index_hint: Option<u32>,
}

/// Releases a risk profile's market seat.
#[derive(Debug, Clone, Copy)]
pub struct ReleaseSeatForRiskProfileParams {
    pub profile_id: u8,
}

/// Removes a risk profile.
#[derive(Debug, Clone, Copy)]
pub struct RemoveRiskProfileParams {
    pub profile_id: u8,
}

/// Removes a sub-vault.
#[derive(Debug, Clone, Copy)]
pub struct RemoveSubVaultParams {
    pub sub_vault_id: u8,
}

/// Resumes a sunset risk profile.
#[derive(Debug, Clone, Copy)]
pub struct ResumeRiskProfileParams {
    pub profile_id: u8,
}

/// Resumes a sunset sub-vault.
#[derive(Debug, Clone, Copy)]
pub struct ResumeSubVaultParams {
    pub sub_vault_id: u16,
}

/// Pauses (non-zero) or resumes (zero) a market.
#[derive(Debug, Clone, Copy)]
pub struct SetMarketPauseParams {
    pub paused: u8,
}

/// Sets a risk profile seat's exposure cap.
#[derive(Debug, Clone, Copy)]
pub struct SetSeatMaxExposureForRiskProfileParams {
    pub profile_id: u8,
    pub max_exposure_atoms: u64,
}

/// Pauses (non-zero) or resumes (zero) the global vault.
#[derive(Debug, Clone, Copy)]
pub struct SetVaultPauseParams {
    pub paused: u8,
}

/// Winds a risk profile down.
#[derive(Debug, Clone, Copy)]
pub struct SunsetRiskProfileParams {
    pub profile_id: u8,
}

/// Synchronizes a user's market position (no fields).
#[derive(Debug, Clone, Copy)]
pub struct SyncMarketPositionParams {}

/// Synchronizes a risk profile's market seats.
#[derive(Debug, Clone, Copy)]
pub struct SyncMarketSeatsForRiskProfileParams {
    pub profile_id: u8,
}

/// Edits a borrower's resting bid.
#[derive(Debug, Clone, Copy)]
pub struct UpdateOrderParams {
    pub order_sequence: u64,
    pub seat_index_hint: Option<u32>,
    pub new_rate_bps: u16,
    pub new_term_seconds: u32,
    pub new_last_valid_unix_ts: i64,
    pub new_ltv_buffer_bps: u16,
}

/// Edits a risk profile's ask.
#[derive(Debug, Clone, Copy)]
pub struct UpdateOrderForRiskProfileParams {
    pub profile_id: u8,
    pub new_rate_bps: u16,
    pub new_term_seconds: u32,
    pub new_flags: u8,
}

/// Edits a sub-vault's ask flags.
#[derive(Debug, Clone, Copy)]
pub struct UpdateOrderForSubVaultParams {
    pub sub_vault_id: u16,
    pub new_flags: u8,
}

/// Withdraws atoms from a market seat.
#[derive(Debug, Clone, Copy)]
pub struct WithdrawParams {
    pub amount_atoms: u64,
    pub trader_index_hint: Option<u32>,
    pub withdraw_all: bool,
}

/// Initial fee-configuration overrides of a new market; `None` keeps the default.
#[derive(Debug, Clone, Copy)]
pub struct CreateMarketParams {
    pub protocol_fee_bps_floor: Option<u16>,
    pub origination_bps: Option<u16>,
    pub curator_split_bps: Option<u16>,
    pub curator_fee_bps: Option<u16>,
    pub liquidation_keeper_bps: Option<u16>,
    pub liquidation_protocol_bps: Option<u16>,
    pub ltv_buffer_bps: Option<u16>,
    pub grace_period_seconds: Option<u32>,
}

impl Default for CreateMarketParams {
    fn default() -> (res: Self)
        ensures
            res.protocol_fee_bps_floor is None,
            res.origination_bps is None,
            res.curator_split_bps is None,
            res.curator_fee_bps is None,
            res.liquidation_keeper_bps is None,
            res.liquidation_protocol_bps is None,
            res.ltv_buffer_bps is None,
            res.grace_period_seconds is None,
    {
        CreateMarketParams {
            protocol_fee_bps_floor: None,
            origination_bps: None,
            curator_split_bps: None,
            curator_fee_bps: None,
            liquidation_keeper_bps: None,
            liquidation_protocol_bps: None,
            ltv_buffer_bps: None,
            grace_period_seconds: None,
        }
    }
}

/// The fee overrides a market creation carries, as update overrides.
pub open spec fn create_market_overrides(p: CreateMarketParams) -> SetFeeConfigParams {
    SetFeeConfigParams {
        protocol_fee_bps_floor: p.protocol_fee_bps_floor,
        origination_bps: p.origination_bps,
        curator_split_bps: p.curator_split_bps,
        liquidation_keeper_bps: p.liquidation_keeper_bps,
        liquidation_protocol_bps: p.liquidation_protocol_bps,
        grace_period_seconds: p.grace_period_seconds,
    }
}

impl<'a> From<&'a CreateMarketParams> for SetFeeConfigParams {
    fn from(p: &'a CreateMarketParams) -> (res: Self) {
        SetFeeConfigParams {
            protocol_fee_bps_floor: p.protocol_fee_bps_floor,
            origination_bps: p.origination_bps,
            curator_split_bps: p.curator_split_bps,
            liquidation_keeper_bps: p.liquidation_keeper_bps,
            liquidation_protocol_bps: p.liquidation_protocol_bps,
            grace_period_seconds: p.grace_period_seconds,
        }
    }
}

impl<'a> vstd::std_specs::convert::FromSpecImpl<&'a CreateMarketParams> for SetFeeConfigParams {
    open spec fn obeys_from_spec() -> bool {
        true
    }

    open spec fn from_spec(p: &'a CreateMarketParams) -> SetFeeConfigParams {
        create_market_overrides(*p)
    }
}

/// Whether a market creation's overrides are within bounds: those it shares
/// with fee updates as for an update, and its curator fee and LTV buffer at
/// most 10_000 bps each.
pub open spec fn create_market_params_valid(p: CreateMarketParams) -> bool {
    &&& overrides_valid(create_market_overrides(p))
    &&& bps_ok(p.curator_fee_bps)
    &&& bps_ok(p.ltv_buffer_bps)
}

/// The fee configuration a new market starts with: `base` with every
/// present override of `p` written over it, the curator fee and the LTV
/// buffer included.
pub open spec fn create_market_config(base: FeeConfig, p: CreateMarketParams) -> FeeConfig {
    let c = applied(base, create_market_overrides(p));
    FeeConfig {
        curator_fee_bps: override_with(base.curator_fee_bps, p.curator_fee_bps),
        ltv_buffer_bps: override_with(base.ltv_buffer_bps, p.ltv_buffer_bps),
        ..c
    }
}

/// Builds a new market's fee configuration from the defaults `base`: every
/// present override replaces the default, every absent one keeps it. Any
/// override out of bounds refuses the creation with `InvalidFeeConfig`.
pub fn create_market_fee_config(base: FeeConfig, params: &CreateMarketParams) -> (res: Result<
    FeeConfig,
    Error,
>)
    ensures
        res is Ok <==> create_market_params_valid(*params),
        res matches Ok(c) ==> c == create_market_config(base, *params),
        res matches Err(e) ==> e == Error::Ydelta(YdeltaError::InvalidFeeConfig),
{
    let overrides = SetFeeConfigParams::from(params);
    validate_fee_config_overrides(&overrides)?;
    if let Some(v) = params.curator_fee_bps {
        if v > BPS_FULL_SCALE {
            return Err(Error::Ydelta(YdeltaError::InvalidFeeConfig));
        }
    }
    if let Some(v) = params.ltv_buffer_bps {
        if v > BPS_FULL_SCALE {
            return Err(Error::Ydelta(YdeltaError::InvalidFeeConfig));
        }
    }
    let mut c = base;
    apply_fee_config_overrides(&mut c, &overrides);
    if let Some(v) = params.curator_fee_bps {
        c.curator_fee_bps = v;
    }
    if let Some(v) = params.ltv_buffer_bps {
        c.ltv_buffer_bps = v;
    }
    Ok(c)
}

/// Refuses an LTV buffer above 10_000 bps on a bid edit.
pub fn validate_update_order_params(params: &UpdateOrderParams) -> (res: Result<(), Error>)
    ensures
        res is Ok <==> params.new_ltv_buffer_bps <= 10_000,
        res matches Err(e) ==> e == Error::Ydelta(YdeltaError::InvalidArgument),
{
    if params.new_ltv_buffer_bps > 10_000 {
        return Err(Error::Ydelta(YdeltaError::InvalidArgument));
    }
    Ok(())
}

} // verus!
