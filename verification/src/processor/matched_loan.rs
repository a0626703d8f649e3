//! Promotion of a matched loan into a live loan: the consistency checks and
//! the amounts the promotion derives from the match, and the sizing of the
//! vault withdrawal that funds a risk-profile lender's fixed-rate loan.

use vstd::prelude::*;

use crate::error::{Error, YdeltaError};
use crate::protocol::marginfi::{
    asset_shares_ceil_ok, asset_shares_result, atoms_to_shares_floor, shares_to_atoms_floor,
    MarginfiV18Adapter,
};

verus! {

/// What a matched-loan queue entry says about the loan it becomes.
#[derive(Debug, Clone, Copy, PartialEq, Eq, Structural)]
pub struct MatchedLoanFacts {
    /// Gross principal of the match (atoms).
    pub principal_atoms: u64,
    /// Origination fee withheld from the principal (atoms).
    pub origination_atoms: u64,
    /// Whether the loan is variable-rate (pool-backed) rather than fixed.
    pub is_p2pool: bool,
    /// Whether the vault lender's funds were already settled at match time.
    pub presettled: bool,
    /// Whether the entry is flagged as lent by a vault.
    pub vault_lender_flag: bool,
    /// Whether the entry names a lender seat.
    pub has_lender_seat: bool,
    /// Curator fee recorded at match time (bps).
    pub curator_fee_bps_snapshot: u16,
    /// When the match happened.
    pub matched_at_unix: i64,
}

/// The amounts and decisions of a promotion.
#[derive(Debug, Clone, Copy, PartialEq, Eq, Structural)]
pub struct PromotionPlan {
    /// Principal net of the origination fee (atoms).
    pub net_principal_atoms: u64,
    /// Whether the lender is a vault risk profile.
    pub lender_is_risk_profile: bool,
    /// Curator fee the loan carries: the match-time snapshot for a vault
    /// lender, zero otherwise.
    pub curator_fee_bps: u16,
    /// When the loan's interest starts accruing.
    pub started_at_unix: i64,
    /// Asset shares credited to the borrower's seat for the net principal.
    pub credited_shares: u128,
    /// Asset shares the origination fee adds to the protocol fees.
    pub origination_shares: u128,
    /// Whether the vault's funds must be moved into the market now.
    pub needs_vault_settlement: bool,
}

/// Whether a fixed-rate, not yet settled loan credits the borrower's seat.
pub open spec fn credits_borrower(n: MatchedLoanFacts) -> bool {
    !n.is_p2pool && !n.presettled
}

/// Whether the promotion converts the origination fee into shares.
pub open spec fn converts_origination(n: MatchedLoanFacts) -> bool {
    !n.is_p2pool && n.origination_atoms > 0
}

/// Whether the entry's lender seat and vault-lender flag agree.
pub open spec fn lender_consistent(n: MatchedLoanFacts) -> bool {
    n.has_lender_seat == n.vault_lender_flag
}

/// Derives a promotion from a matched-loan entry. The net principal must be
/// positive; a lender seat must be present exactly when the entry is
/// flagged as vault-lent. A fixed-rate loan that was not settled at match
/// time credits the borrower the net principal in asset shares; a
/// fixed-rate loan with an origination fee books the fee in asset shares;
/// a vault-lent, fixed-rate, unsettled loan needs a vault settlement.
pub fn plan_primary_promotion(
    node: &MatchedLoanFacts,
    now_unix: i64,
    asset_share_value_fp48: u128,
) -> (res: Result<PromotionPlan, Error>)
    ensures
        node.principal_atoms <= node.origination_atoms ==> res == Err::<PromotionPlan, Error>(
            Error::Ydelta(YdeltaError::InvalidArgument),
        ),
        node.principal_atoms > node.origination_atoms && !lender_consistent(*node) ==> res == Err::<
            PromotionPlan,
            Error,
        >(Error::Ydelta(YdeltaError::IncorrectAccount)),
        res is Ok <==> (node.principal_atoms > node.origination_atoms && lender_consistent(*node)
            && (credits_borrower(*node) ==> asset_shares_result(
            asset_share_value_fp48,
            (node.principal_atoms - node.origination_atoms) as u64,
        ) is Ok) && (converts_origination(*node) ==> asset_shares_result(
            asset_share_value_fp48,
            node.origination_atoms,
        ) is Ok)),
        res matches Ok(p) ==> {
            &&& p.net_principal_atoms == node.principal_atoms - node.origination_atoms
            &&& p.lender_is_risk_profile == node.has_lender_seat
            &&& p.curator_fee_bps == (if node.has_lender_seat {
                node.curator_fee_bps_snapshot
            } else {
                0
            })
            &&& p.started_at_unix == (if node.presettled {
                node.matched_at_unix
            } else {
                now_unix
            })
            &&& p.credited_shares == (if credits_borrower(*node) {
                atoms_to_shares_floor(p.net_principal_atoms as int, asset_share_value_fp48 as int)
            } else {
                0
            })
            &&& p.origination_shares == (if converts_origination(*node) {
                atoms_to_shares_floor(node.origination_atoms as int, asset_share_value_fp48 as int)
            } else {
                0
            })
            &&& p.needs_vault_settlement == (node.has_lender_seat && !node.is_p2pool
                && !node.presettled)
        },
        res matches Err(e) ==> (e == Error::Ydelta(YdeltaError::InvalidArgument) || e
            == Error::Ydelta(YdeltaError::IncorrectAccount) || e == Error::ArithmeticOverflow),
{
    if node.principal_atoms < node.origination_atoms {
        return Err(Error::Ydelta(YdeltaError::InvalidArgument));
    }
    let net_principal_atoms: u64 = node.principal_atoms - node.origination_atoms;
    if net_principal_atoms == 0 {
        return Err(Error::Ydelta(YdeltaError::InvalidArgument));
    }
    if node.has_lender_seat != node.vault_lender_flag {
        return Err(Error::Ydelta(YdeltaError::IncorrectAccount));
    }
    let lender_is_risk_profile = node.has_lender_seat;
    let curator_fee_bps: u16 = if lender_is_risk_profile {
        node.curator_fee_bps_snapshot
    } else {
        0
    };
    let started_at_unix: i64 = if node.presettled {
        node.matched_at_unix
    } else {
        now_unix
    };
    let credited_shares: u128 = if !node.is_p2pool && !node.presettled {
        MarginfiV18Adapter.amount_to_asset_shares(asset_share_value_fp48, net_principal_atoms)?
    } else {
        0
    };
    let origination_shares: u128 = if !node.is_p2pool && node.origination_atoms > 0 {
        MarginfiV18Adapter.amount_to_asset_shares(asset_share_value_fp48, node.origination_atoms)?
    } else {
        0
    };
    Ok(
        PromotionPlan {
            net_principal_atoms,
            lender_is_risk_profile,
            curator_fee_bps,
            started_at_unix,
            credited_shares,
            origination_shares,
            needs_vault_settlement: lender_is_risk_profile && !node.is_p2pool && !node.presettled,
        },
    )
}

/// How the vault's funds for a newly promoted loan are withdrawn.
#[derive(Debug, Clone, Copy, PartialEq, Eq, Structural)]
pub struct VaultSettleWithdrawal {
    /// Atoms asked for: the principal plus one atom of rounding cover.
    pub cover_atoms: u64,
    /// Whether to drain the vault's whole balance (it is at most the cover).
    pub withdraw_all: bool,
    /// Asset shares to burn when not draining: enough to cover `cover_atoms`.
    pub expected_shares: u128,
}

/// Sizes the vault withdrawal that funds `principal_atoms` of a loan: the
/// cover is the principal plus one atom; the vault balance must hold at
/// least the principal; when the cover reaches the balance the whole
/// balance is drained, otherwise shares covering the cover are burned.
/// A zero principal needs no withdrawal.
pub fn plan_vault_settle_withdrawal(
    principal_atoms: u64,
    vault_balance_atoms: u64,
    asset_share_value_fp48: u128,
) -> (res: Result<Option<VaultSettleWithdrawal>, Error>)
    ensures
        principal_atoms == 0 ==> res == Ok::<Option<VaultSettleWithdrawal>, Error>(None),
        principal_atoms == u64::MAX ==> res == Err::<Option<VaultSettleWithdrawal>, Error>(
            Error::ArithmeticOverflow,
        ),
        0 < principal_atoms < u64::MAX && vault_balance_atoms < principal_atoms ==> res == Err::<
            Option<VaultSettleWithdrawal>,
            Error,
        >(Error::Ydelta(YdeltaError::InvalidArgument)),
        0 < principal_atoms < u64::MAX && vault_balance_atoms >= principal_atoms
            && principal_atoms + 1 >= vault_balance_atoms ==> res == Ok::<
            Option<VaultSettleWithdrawal>,
            Error,
        >(
            Some(
                VaultSettleWithdrawal {
                    cover_atoms: (principal_atoms + 1) as u64,
                    withdraw_all: true,
                    expected_shares: 0,
                },
            ),
        ),
        res matches Ok(Some(w)) ==> {
            &&& w.cover_atoms == principal_atoms + 1
            &&& w.withdraw_all == (w.cover_atoms >= vault_balance_atoms)
            &&& !w.withdraw_all ==> shares_to_atoms_floor(
                w.expected_shares as int,
                asset_share_value_fp48 as int,
            ) >= w.cover_atoms
        },
        (0 < principal_atoms < u64::MAX && vault_balance_atoms > principal_atoms + 1) ==> (res is Ok
            <==> asset_shares_ceil_ok(asset_share_value_fp48, (principal_atoms + 1) as u64)),
        res matches Err(e) ==> (e == Error::ArithmeticOverflow || e == Error::Ydelta(
            YdeltaError::InvalidArgument,
        )),
{
    if principal_atoms == 0 {
        return Ok(None);
    }
    let cover_atoms: u64 = match principal_atoms.checked_add(1) {
        Some(v) => v,
        None => {
            return Err(Error::ArithmeticOverflow);
        },
    };
    if vault_balance_atoms < principal_atoms {
        return Err(Error::Ydelta(YdeltaError::InvalidArgument));
    }
    if cover_atoms >= vault_balance_atoms {
        return Ok(Some(VaultSettleWithdrawal { cover_atoms, withdraw_all: true, expected_shares: 0 }));
    }
    let expected_shares = MarginfiV18Adapter.amount_to_asset_shares_ceil(
        asset_share_value_fp48,
        cover_atoms,
    )?;
    Ok(Some(VaultSettleWithdrawal { cover_atoms, withdraw_all: false, expected_shares }))
}

/// What the vault keeps of a settlement withdrawal: the atoms beyond the
/// principal, which go back into the vault. A withdrawal short of the
/// principal is refused.
pub fn vault_settle_surplus(principal_atoms: u64, actual_atoms: u64) -> (res: Result<u64, Error>)
    ensures
        res is Ok <==> actual_atoms >= principal_atoms,
        res matches Ok(v) ==> v == actual_atoms - principal_atoms && v + principal_atoms
            == actual_atoms,
        res matches Err(e) ==> e == Error::ArithmeticOverflow,
{
    if actual_atoms < principal_atoms {
        return Err(Error::ArithmeticOverflow);
    }
    Ok(actual_atoms - principal_atoms)
}

} // verus!
