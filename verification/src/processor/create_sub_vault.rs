//! Validation of the risk parameters of sub-vaults and risk profiles, and
//! the assignment of sub-vault ids.

use vstd::prelude::*;

use crate::error::{Error, YdeltaError};

verus! {

/// Risk parameters of a sub-vault.
#[derive(Debug, Clone, Copy, PartialEq, Eq, Structural)]
pub struct SubVaultRiskParams {
    /// Origination LTV cap (bps).
    pub max_ltv_bps: u16,
    /// Liquidation trigger (bps).
    pub liquidation_ltv_bps: u16,
    /// Longest term an ask may accept (seconds).
    pub max_term_seconds: u32,
}

/// Whether a sub-vault's risk parameters are acceptable: the LTV cap in
/// `(0, 10_000)`, the liquidation trigger at most 10_000 and at least the cap
/// plus the minimum gap (capped at `u16::MAX`), and a positive term.
pub open spec fn sub_vault_risk_ok(
    max_ltv_bps: u16,
    liquidation_ltv_bps: u16,
    max_term_seconds: u32,
    min_liq_gap_bps: u16,
) -> bool {
    &&& 0 < max_ltv_bps < 10_000
    &&& liquidation_ltv_bps <= 10_000
    &&& liquidation_ltv_bps >= (if max_ltv_bps + min_liq_gap_bps > u16::MAX {
        u16::MAX as int
    } else {
        max_ltv_bps + min_liq_gap_bps
    })
    &&& max_term_seconds > 0
}

/// The error refused risk parameters get: `SubVaultTermInvalid` when only
/// the term is wrong, `SubVaultLtvOutOfRange` when an LTV bound is.
pub open spec fn sub_vault_risk_error(
    max_ltv_bps: u16,
    liquidation_ltv_bps: u16,
    min_liq_gap_bps: u16,
) -> Error {
    if 0 < max_ltv_bps < 10_000 && liquidation_ltv_bps <= 10_000 && liquidation_ltv_bps >= (
    if max_ltv_bps + min_liq_gap_bps > u16::MAX {
        u16::MAX as int
    } else {
        max_ltv_bps + min_liq_gap_bps
    }) {
        Error::Ydelta(YdeltaError::SubVaultTermInvalid)
    } else {
        Error::Ydelta(YdeltaError::SubVaultLtvOutOfRange)
    }
}

/// Validates a sub-vault's risk parameters for creation and updates; the
/// liquidation gap `min_liq_gap_bps` guarantees no loan is born liquidatable.
/// LTV violations report `SubVaultLtvOutOfRange`, a zero term `SubVaultTermInvalid`.
pub fn validate_sub_vault_risk_params(
    max_ltv_bps: u16,
    liquidation_ltv_bps: u16,
    max_term_seconds: u32,
    min_liq_gap_bps: u16,
) -> (res: Result<(), Error>)
    ensures
        res is Ok <==> sub_vault_risk_ok(
            max_ltv_bps,
            liquidation_ltv_bps,
            max_term_seconds,
            min_liq_gap_bps,
        ),
        res matches Err(e) ==> e == sub_vault_risk_error(
            max_ltv_bps,
            liquidation_ltv_bps,
            min_liq_gap_bps,
        ),
{
    if !(max_ltv_bps > 0 && max_ltv_bps < 10_000) {
        return Err(Error::Ydelta(YdeltaError::SubVaultLtvOutOfRange));
    }
    if liquidation_ltv_bps > 10_000 {
        return Err(Error::Ydelta(YdeltaError::SubVaultLtvOutOfRange));
    }
    if liquidation_ltv_bps < max_ltv_bps.saturating_add(min_liq_gap_bps) {
        return Err(Error::Ydelta(YdeltaError::SubVaultLtvOutOfRange));
    }
    if max_term_seconds == 0 {
        return Err(Error::Ydelta(YdeltaError::SubVaultTermInvalid));
    }
    Ok(())
}

/// Overrides of a sub-vault's parameters.
#[derive(Debug, Clone, Copy)]
pub struct UpdateSubVaultParams {
    pub sub_vault_id: u16,
    pub new_max_ltv_bps: Option<u16>,
    pub new_liquidation_ltv_bps: Option<u16>,
    pub new_max_term_seconds: Option<u32>,
    pub new_spread_bps: Option<u16>,
}

/// The risk parameters after applying the present overrides.
pub open spec fn resolved_risk(current: SubVaultRiskParams, p: UpdateSubVaultParams) -> SubVaultRiskParams {
    SubVaultRiskParams {
        max_ltv_bps: match p.new_max_ltv_bps {
            Some(v) => v,
            None => current.max_ltv_bps,
        },
        liquidation_ltv_bps: match p.new_liquidation_ltv_bps {
            Some(v) => v,
            None => current.liquidation_ltv_bps,
        },
        max_term_seconds: match p.new_max_term_seconds {
            Some(v) => v,
            None => current.max_term_seconds,
        },
    }
}

/// Resolves a sub-vault update: the overrides are applied and the
/// resulting triple (not each override alone) is validated, so a partial
/// update cannot break the liquidation gap.
pub fn resolve_sub_vault_update(
    current: SubVaultRiskParams,
    params: &UpdateSubVaultParams,
    min_liq_gap_bps: u16,
) -> (res: Result<SubVaultRiskParams, Error>)
    ensures
        res is Ok <==> {
            let r = resolved_risk(current, *params);
            sub_vault_risk_ok(r.max_ltv_bps, r.liquidation_ltv_bps, r.max_term_seconds, min_liq_gap_bps)
        },
        res matches Ok(r) ==> r == resolved_risk(current, *params),
        res matches Err(e) ==> {
            let r = resolved_risk(current, *params);
            e == sub_vault_risk_error(r.max_ltv_bps, r.liquidation_ltv_bps, min_liq_gap_bps)
        },
{
    let next = SubVaultRiskParams {
        max_ltv_bps: match params.new_max_ltv_bps {
            Some(v) => v,
            None => current.max_ltv_bps,
        },
        liquidation_ltv_bps: match params.new_liquidation_ltv_bps {
            Some(v) => v,
            None => current.liquidation_ltv_bps,
        },
        max_term_seconds: match params.new_max_term_seconds {
            Some(v) => v,
            None => current.max_term_seconds,
        },
    };
    validate_sub_vault_risk_params(
        next.max_ltv_bps,
        next.liquidation_ltv_bps,
        next.max_term_seconds,
        min_liq_gap_bps,
    )?;
    Ok(next)
}

/// Overrides of a risk profile's parameters.
#[derive(Debug, Clone, Copy)]
pub struct UpdateRiskProfileParams {
    pub profile_id: u8,
    pub new_max_ltv_bps: Option<u16>,
    pub new_max_term_seconds: Option<u32>,
}

/// Validates risk-profile overrides: a present LTV must lie in
/// `(0, 10_000)`, a present term must be positive.
pub fn validate_risk_profile_overrides(params: &UpdateRiskProfileParams) -> (res: Result<(), Error>)
    ensures
        res is Ok <==> ((params.new_max_ltv_bps matches Some(v) ==> 0 < v < 10_000) && (
        params.new_max_term_seconds matches Some(t) ==> t > 0)),
        res matches Err(e) ==> (if params.new_max_ltv_bps matches Some(v) && !(0 < v < 10_000) {
            e == Error::Ydelta(YdeltaError::VaultProfileLtvOutOfRange)
        } else {
            e == Error::Ydelta(YdeltaError::VaultProfileTermInvalid)
        }),
{
    if let Some(v) = params.new_max_ltv_bps {
        if !(v > 0 && v < 10_000) {
            return Err(Error::Ydelta(YdeltaError::VaultProfileLtvOutOfRange));
        }
    }
    if let Some(t) = params.new_max_term_seconds {
        if t == 0 {
            return Err(Error::Ydelta(YdeltaError::VaultProfileTermInvalid));
        }
    }
    Ok(())
}

/// Hands out the vault's next sub-vault id and advances the counter; once
/// the counter has reached `u16::MAX` no id is left and the counter stays.
pub fn assign_sub_vault_id(next_sub_vault_id: &mut u16) -> (res: Result<u16, Error>)
    ensures
        res is Ok <==> *old(next_sub_vault_id) < u16::MAX,
        res matches Ok(id) ==> id == *old(next_sub_vault_id) && *final(next_sub_vault_id) == id
            + 1,
        res matches Err(e) ==> e == Error::Ydelta(YdeltaError::SubVaultIdExists)
            && *final(next_sub_vault_id) == *old(next_sub_vault_id),
{
    let id = *next_sub_vault_id;
    match id.checked_add(1) {
        Some(next) => {
            *next_sub_vault_id = next;
            Ok(id)
        },
        None => Err(Error::Ydelta(YdeltaError::SubVaultIdExists)),
    }
}

/// Sub-vault ids are never handed out twice: when every id already used is
/// below the counter, the id an assignment hands out is not among them, and
/// every id used afterwards, the new one included, is below the advanced
/// counter.
pub proof fn lemma_assigned_id_is_fresh(used: Set<u16>, next_before: u16, next_after: u16, id: u16)
    requires
        forall|u: u16| used.contains(u) ==> u < next_before,
        id == next_before,
        next_after == id + 1,
    ensures
        !used.contains(id),
        forall|u: u16| #[trigger] used.insert(id).contains(u) ==> u < next_after,
{
}

} // verus!
