//! Rules of a vault's risk profiles and sub-vaults: creation parameters,
//! curator-gated operations, the per-profile cap on market seats, when a
//! market seat may be released, and when a profile or sub-vault may be
//! removed or updated.

use vstd::prelude::*;

use crate::error::{Error, YdeltaError};
use crate::processor::create_sub_vault::{
    resolve_sub_vault_update, resolved_risk, sub_vault_risk_error, sub_vault_risk_ok, validate_risk_profile_overrides,
    validate_sub_vault_risk_params, SubVaultRiskParams, UpdateRiskProfileParams,
    UpdateSubVaultParams,
};
use crate::processor::admin::{is_zero, is_zero_key};
use crate::processor::params::{CreatePoolSubVaultParams, CreateRiskProfileParams};
use crate::pubkey::keys_equal;

verus! {

/// Validates the parameters of a new risk profile: it may hold seats in
/// `1..=allowed_markets_cap` markets, its LTV cap lies in `(0, 10_000)`,
/// its term is positive, and its curator is not the all-zero key (which no
/// one can sign for, so the profile could never be operated).
pub fn validate_create_risk_profile(params: &CreateRiskProfileParams, allowed_markets_cap: u8) -> (res:
    Result<(), Error>)
    ensures
        res is Ok <==> (1 <= params.allowed_market_max <= allowed_markets_cap && 0
            < params.max_ltv_bps < 10_000 && params.max_term_seconds > 0 && !is_zero(
            params.curator,
        )),
        !(1 <= params.allowed_market_max <= allowed_markets_cap) ==> res == Err::<(), Error>(
            Error::Ydelta(YdeltaError::VaultProfileAllowedMarketsExceeded),
        ),
        (1 <= params.allowed_market_max <= allowed_markets_cap && !(0 < params.max_ltv_bps
            < 10_000)) ==> res == Err::<(), Error>(
            Error::Ydelta(YdeltaError::VaultProfileLtvOutOfRange),
        ),
        (1 <= params.allowed_market_max <= allowed_markets_cap && 0 < params.max_ltv_bps < 10_000
            && params.max_term_seconds == 0) ==> res == Err::<(), Error>(
            Error::Ydelta(YdeltaError::VaultProfileTermInvalid),
        ),
        (1 <= params.allowed_market_max <= allowed_markets_cap && 0 < params.max_ltv_bps < 10_000
            && params.max_term_seconds > 0 && is_zero(params.curator)) ==> res == Err::<(), Error>(
            Error::Ydelta(YdeltaError::InvalidArgument),
        ),
{
    if params.allowed_market_max < 1 || params.allowed_market_max > allowed_markets_cap {
        return Err(Error::Ydelta(YdeltaError::VaultProfileAllowedMarketsExceeded));
    }
    if !(params.max_ltv_bps > 0 && params.max_ltv_bps < 10_000) {
        return Err(Error::Ydelta(YdeltaError::VaultProfileLtvOutOfRange));
    }
    if params.max_term_seconds == 0 {
        return Err(Error::Ydelta(YdeltaError::VaultProfileTermInvalid));
    }
    if is_zero_key(&params.curator) {
        return Err(Error::Ydelta(YdeltaError::InvalidArgument));
    }
    Ok(())
}

/// Validates the parameters of a new pool sub-vault: its risk parameters,
/// a curator fee of at most `max_curator_fee_bps`, and a curator other than
/// the all-zero key.
pub fn validate_create_pool_sub_vault(
    params: &CreatePoolSubVaultParams,
    min_liq_gap_bps: u16,
    max_curator_fee_bps: u16,
) -> (res: Result<(), Error>)
    ensures
        res is Ok <==> (sub_vault_risk_ok(
            params.max_ltv_bps,
            params.liquidation_ltv_bps,
            params.max_term_seconds,
            min_liq_gap_bps,
        ) && params.curator_fee_bps <= max_curator_fee_bps && !is_zero(params.curator)),
        sub_vault_risk_ok(
            params.max_ltv_bps,
            params.liquidation_ltv_bps,
            params.max_term_seconds,
            min_liq_gap_bps,
        ) && !(params.curator_fee_bps <= max_curator_fee_bps && !is_zero(params.curator)) ==> res
            == Err::<(), Error>(Error::Ydelta(YdeltaError::InvalidArgument)),
{
    validate_sub_vault_risk_params(
        params.max_ltv_bps,
        params.liquidation_ltv_bps,
        params.max_term_seconds,
        min_liq_gap_bps,
    )?;
    if params.curator_fee_bps > max_curator_fee_bps {
        return Err(Error::Ydelta(YdeltaError::InvalidArgument));
    }
    if is_zero_key(&params.curator) {
        return Err(Error::Ydelta(YdeltaError::InvalidArgument));
    }
    Ok(())
}

/// Checks a curator's request to claim a market seat for a risk profile:
/// the exposure cap must be positive (the matching engine treats it as a
/// hard limit), the signer must be the profile's curator, and the profile
/// must still be below its maximum number of markets.
pub fn check_claim_seat_for_risk_profile(
    max_exposure_atoms: u64,
    signer: &[u8; 32],
    curator: &[u8; 32],
    allowed_market_count: u8,
    allowed_market_max: u8,
) -> (res: Result<(), Error>)
    ensures
        res is Ok <==> (max_exposure_atoms > 0 && signer@ == curator@ && allowed_market_count
            < allowed_market_max),
        max_exposure_atoms == 0 ==> res == Err::<(), Error>(
            Error::Ydelta(YdeltaError::InvalidArgument),
        ),
        max_exposure_atoms > 0 && signer@ != curator@ ==> res == Err::<(), Error>(
            Error::Ydelta(YdeltaError::VaultCuratorRequired),
        ),
        max_exposure_atoms > 0 && signer@ == curator@ && allowed_market_count
            >= allowed_market_max ==> res == Err::<(), Error>(
            Error::Ydelta(YdeltaError::VaultProfileAllowedMarketsExceeded),
        ),
{
    if max_exposure_atoms == 0 {
        return Err(Error::Ydelta(YdeltaError::InvalidArgument));
    }
    if !keys_equal(signer, curator) {
        return Err(Error::Ydelta(YdeltaError::VaultCuratorRequired));
    }
    if allowed_market_count >= allowed_market_max {
        return Err(Error::Ydelta(YdeltaError::VaultProfileAllowedMarketsExceeded));
    }
    Ok(())
}

/// Checks a curator's new exposure cap for a risk profile's market seat:
/// positive, set by the profile's curator, and not below what the seat has
/// already deployed (which would leave open loans over the cap).
pub fn check_seat_max_exposure(
    new_max_exposure_atoms: u64,
    signer: &[u8; 32],
    curator: &[u8; 32],
    deployed_atoms: u64,
) -> (res: Result<(), Error>)
    ensures
        res is Ok <==> (new_max_exposure_atoms > 0 && signer@ == curator@ && new_max_exposure_atoms
            >= deployed_atoms),
        new_max_exposure_atoms > 0 && signer@ != curator@ ==> res == Err::<(), Error>(
            Error::Ydelta(YdeltaError::VaultCuratorRequired),
        ),
        (new_max_exposure_atoms == 0 || (signer@ == curator@ && new_max_exposure_atoms
            < deployed_atoms)) ==> res == Err::<(), Error>(
            Error::Ydelta(YdeltaError::InvalidArgument),
        ),
{
    if new_max_exposure_atoms == 0 {
        return Err(Error::Ydelta(YdeltaError::InvalidArgument));
    }
    if !keys_equal(signer, curator) {
        return Err(Error::Ydelta(YdeltaError::VaultCuratorRequired));
    }
    if new_max_exposure_atoms < deployed_atoms {
        return Err(Error::Ydelta(YdeltaError::InvalidArgument));
    }
    Ok(())
}

/// Checks a curator's ask for a risk profile: the signer must be the
/// profile's curator and the term within the profile's maximum.
pub fn check_risk_profile_order(
    signer: &[u8; 32],
    curator: &[u8; 32],
    term_seconds: u32,
    profile_max_term_seconds: u32,
) -> (res: Result<(), Error>)
    ensures
        res is Ok <==> (signer@ == curator@ && term_seconds <= profile_max_term_seconds),
        signer@ != curator@ ==> res == Err::<(), Error>(
            Error::Ydelta(YdeltaError::VaultCuratorRequired),
        ),
        signer@ == curator@ && term_seconds > profile_max_term_seconds ==> res == Err::<(), Error>(
            Error::Ydelta(YdeltaError::VaultOrderTermExceedsProfileMax),
        ),
{
    if !keys_equal(signer, curator) {
        return Err(Error::Ydelta(YdeltaError::VaultCuratorRequired));
    }
    if term_seconds > profile_max_term_seconds {
        return Err(Error::Ydelta(YdeltaError::VaultOrderTermExceedsProfileMax));
    }
    Ok(())
}

/// What a market seat still carries.
#[derive(Debug, Clone, Copy, PartialEq, Eq, Structural)]
pub struct SeatObligations {
    /// Loan principal in flight (atoms).
    pub deployed_atoms: u64,
    /// Resting asks.
    pub open_lend_count: u32,
    /// Open borrows.
    pub open_borrow_count: u32,
    /// Repaid shares not yet swept.
    pub debt_withdrawable_shares: u128,
    /// Shares reserved for open loans.
    pub debt_encumbered_shares: u128,
}

/// Whether a seat carries nothing at all.
pub open spec fn seat_is_clear(s: SeatObligations) -> bool {
    &&& s.deployed_atoms == 0
    &&& s.open_lend_count == 0
    &&& s.open_borrow_count == 0
    &&& s.debt_withdrawable_shares == 0
    &&& s.debt_encumbered_shares == 0
}

/// A risk profile's market seat may be released only once it carries no
/// deployed principal, no orders, no borrows and no unswept or encumbered
/// shares.
pub fn check_seat_releasable(seat: &SeatObligations) -> (res: Result<(), Error>)
    ensures
        res is Ok <==> seat_is_clear(*seat),
        res matches Err(e) ==> e == Error::Ydelta(YdeltaError::SeatHasOpenObligations),
{
    if seat.deployed_atoms != 0 || seat.open_lend_count != 0 || seat.open_borrow_count != 0
        || seat.debt_withdrawable_shares != 0 || seat.debt_encumbered_shares != 0 {
        return Err(Error::Ydelta(YdeltaError::SeatHasOpenObligations));
    }
    Ok(())
}

/// The balances a risk profile carries.
#[derive(Debug, Clone, Copy, PartialEq, Eq, Structural)]
pub struct RiskProfileBalances {
    pub total_shares: u128,
    pub total_assets_atoms: u64,
    pub total_principal_atoms: u64,
    pub deployed_principal_atoms: u64,
    pub encumbered_in_orders_atoms: u64,
    pub accumulated_curator_fee_atoms: u64,
}

/// Whether a profile carries no balance at all.
pub open spec fn profile_is_empty(p: RiskProfileBalances) -> bool {
    &&& p.total_shares == 0
    &&& p.total_assets_atoms == 0
    &&& p.total_principal_atoms == 0
    &&& p.deployed_principal_atoms == 0
    &&& p.encumbered_in_orders_atoms == 0
    &&& p.accumulated_curator_fee_atoms == 0
}

/// A risk profile may be removed only when it carries no balance, so that
/// nothing is stranded.
pub fn check_risk_profile_removable(p: &RiskProfileBalances) -> (res: Result<(), Error>)
    ensures
        res is Ok <==> profile_is_empty(*p),
        res matches Err(e) ==> e == Error::Ydelta(YdeltaError::VaultProfileNotEmpty),
{
    if p.total_shares != 0 || p.total_assets_atoms != 0 || p.total_principal_atoms != 0
        || p.deployed_principal_atoms != 0 || p.encumbered_in_orders_atoms != 0
        || p.accumulated_curator_fee_atoms != 0 {
        return Err(Error::Ydelta(YdeltaError::VaultProfileNotEmpty));
    }
    Ok(())
}

/// A sub-vault may be removed, and its orders force-cancelled by the vault
/// admin, only once it has been sunset.
pub fn check_sub_vault_sunset(is_sunset: bool) -> (res: Result<(), Error>)
    ensures
        res is Ok <==> is_sunset,
        res matches Err(e) ==> e == Error::Ydelta(YdeltaError::SubVaultNotSunset),
{
    if !is_sunset {
        return Err(Error::Ydelta(YdeltaError::SubVaultNotSunset));
    }
    Ok(())
}

/// A risk profile's adjustable limits.
#[derive(Debug, Clone, Copy, PartialEq, Eq, Structural)]
pub struct RiskProfileLimits {
    pub max_ltv_bps: u16,
    pub max_term_seconds: u32,
}

/// Applies a risk-profile update: the overrides are validated, a profile
/// that is winding down refuses updates, and each present override is
/// written. On error the limits are untouched.
pub fn update_risk_profile(
    limits: &mut RiskProfileLimits,
    is_sunset: bool,
    params: &UpdateRiskProfileParams,
) -> (res: Result<(), Error>)
    ensures
        res is Ok <==> ((params.new_max_ltv_bps matches Some(v) ==> 0 < v < 10_000) && (
        params.new_max_term_seconds matches Some(t) ==> t > 0) && !is_sunset),
        ((params.new_max_ltv_bps matches Some(v) ==> 0 < v < 10_000) && (
        params.new_max_term_seconds matches Some(t) ==> t > 0) && is_sunset) ==> res == Err::<
            (),
            Error,
        >(Error::Ydelta(YdeltaError::VaultProfileSunset)),
        res is Ok ==> final(limits).max_ltv_bps == (match params.new_max_ltv_bps {
            Some(v) => v,
            None => old(limits).max_ltv_bps,
        }) && final(limits).max_term_seconds == (match params.new_max_term_seconds {
            Some(t) => t,
            None => old(limits).max_term_seconds,
        }),
        res is Err ==> *final(limits) == *old(limits),
{
    validate_risk_profile_overrides(params)?;
    if is_sunset {
        return Err(Error::Ydelta(YdeltaError::VaultProfileSunset));
    }
    if let Some(v) = params.new_max_ltv_bps {
        limits.max_ltv_bps = v;
    }
    if let Some(t) = params.new_max_term_seconds {
        limits.max_term_seconds = t;
    }
    Ok(())
}

/// Applies a curator's sub-vault update: the signer must be the sub-vault's
/// curator, a sub-vault that is winding down refuses updates, and the
/// resulting risk parameters are validated as a whole. Returns the new
/// risk parameters and, on success, writes a present spread override into
/// `spread_bps` (the spread itself is not bounded); a refused update leaves
/// the spread as it was.
pub fn update_sub_vault(
    current: SubVaultRiskParams,
    curator: &[u8; 32],
    is_sunset: bool,
    signer: &[u8; 32],
    params: &UpdateSubVaultParams,
    min_liq_gap_bps: u16,
    spread_bps: &mut u16,
) -> (res: Result<SubVaultRiskParams, Error>)
    ensures
        res is Ok ==> *final(spread_bps) == (match params.new_spread_bps {
            Some(v) => v,
            None => *old(spread_bps),
        }),
        res is Err ==> *final(spread_bps) == *old(spread_bps),
        res matches Err(e) ==> (signer@ == curator@ && !is_sunset ==> {
            let r = resolved_risk(current, *params);
            e == sub_vault_risk_error(r.max_ltv_bps, r.liquidation_ltv_bps, min_liq_gap_bps)
        }),
        signer@ != curator@ ==> res == Err::<SubVaultRiskParams, Error>(
            Error::Ydelta(YdeltaError::VaultCuratorRequired),
        ),
        signer@ == curator@ && is_sunset ==> res == Err::<SubVaultRiskParams, Error>(
            Error::Ydelta(YdeltaError::SubVaultSunset),
        ),
        res is Ok <==> (signer@ == curator@ && !is_sunset && {
            let r = resolved_risk(current, *params);
            sub_vault_risk_ok(r.max_ltv_bps, r.liquidation_ltv_bps, r.max_term_seconds, min_liq_gap_bps)
        }),
        res matches Ok(r) ==> r == resolved_risk(current, *params),
{
    if !keys_equal(signer, curator) {
        return Err(Error::Ydelta(YdeltaError::VaultCuratorRequired));
    }
    if is_sunset {
        return Err(Error::Ydelta(YdeltaError::SubVaultSunset));
    }
    let next = resolve_sub_vault_update(current, params, min_liq_gap_bps)?;
    if let Some(v) = params.new_spread_bps {
        *spread_bps = v;
    }
    Ok(next)
}

/// The rate at which a sub-vault rests its ask: the bank's live lending APR
/// plus the sub-vault's spread, refused when it does not fit a `u16`.
/// Only the curator of a sub-vault that is not winding down may re-price.
pub fn sub_vault_ask_rate(
    signer: &[u8; 32],
    curator: &[u8; 32],
    is_sunset: bool,
    bank_apr_bps: u16,
    spread_bps: u16,
) -> (res: Result<u16, Error>)
    ensures
        is_sunset ==> res == Err::<u16, Error>(Error::Ydelta(YdeltaError::SubVaultSunset)),
        !is_sunset && signer@ != curator@ ==> res == Err::<u16, Error>(
            Error::Ydelta(YdeltaError::VaultCuratorRequired),
        ),
        !is_sunset && signer@ == curator@ ==> (res is Ok <==> bank_apr_bps + spread_bps
            <= u16::MAX),
        res matches Ok(r) ==> r == bank_apr_bps + spread_bps,
        !is_sunset && signer@ == curator@ && bank_apr_bps + spread_bps > u16::MAX ==> res == Err::<
            u16,
            Error,
        >(Error::Ydelta(YdeltaError::MathOverflow)),
{
    if is_sunset {
        return Err(Error::Ydelta(YdeltaError::SubVaultSunset));
    }
    if !keys_equal(signer, curator) {
        return Err(Error::Ydelta(YdeltaError::VaultCuratorRequired));
    }
    match bank_apr_bps.checked_add(spread_bps) {
        Some(r) => Ok(r),
        None => Err(Error::Ydelta(YdeltaError::MathOverflow)),
    }
}

/// Whether `market` is among the first `count` markets a risk profile is
/// active in.
pub open spec fn active_in(active_markets: Seq<[u8; 32]>, count: int, market: Seq<u8>) -> bool {
    exists|i: int| 0 <= i < count && (#[trigger] active_markets[i])@ == market
}

/// Whether a market is one the risk profile holds a seat in; a re-stamp of
/// seats accepts only such markets.
pub fn market_is_active(active_markets: &[[u8; 32]; 8], allowed_market_count: u8, market: &[u8; 32]) -> (res:
    bool)
    requires
        allowed_market_count <= 8,
    ensures
        res == active_in(active_markets@, allowed_market_count as int, market@),
{
    let mut i: usize = 0;
    while i < allowed_market_count as usize
        invariant
            0 <= i <= allowed_market_count <= 8,
            active_markets@.len() == 8,
            forall|j: int| 0 <= j < i ==> (#[trigger] active_markets@[j])@ != market@,
        decreases allowed_market_count - i,
    {
        if keys_equal(&active_markets[i], market) {
            return true;
        }
        i = i + 1;
    }
    false
}

} // verus!
