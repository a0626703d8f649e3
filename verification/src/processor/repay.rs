//! Sizing of a borrower's repayment for pool (variable-rate) and
//! fixed-rate loans, the funding of a pool-to-fixed conversion, and the split
//! of the shares a repaid fixed-rate loan credits to its lender.

use vstd::prelude::*;

use crate::error::{Error, YdeltaError};
use crate::math::mul_scale_spec;
use crate::pubkey::keys_equal;
use crate::protocol::marginfi::{
    atoms_to_shares_floor, shares_to_atoms_ceil, MarginfiV18Adapter,
};

verus! {

/// Extra atom funded when marginfi's repay-all clears a single-loan account.
pub const ACCRUE_SAFETY_ATOMS: u64 = 1;

/// Parameters of a borrower repayment.
#[derive(Debug, Clone, Copy)]
pub struct RepayParams {
    /// Atoms to repay on a partial repayment; ignored on a full one.
    pub repay_atoms: u64,
    /// Pay the whole live debt.
    pub full_repay: bool,
    /// Hint for the borrower's seat index.
    pub borrower_seat_index_hint: Option<u32>,
}

/// How a pool-loan repayment is carried out.
#[derive(Debug, Clone, Copy, PartialEq, Eq, Structural)]
pub struct P2PoolRepayPlan {
    /// The loan's liability shares, clamped to the account's.
    pub this_loan_shares: u128,
    /// Whether the loan holds all of the account's liability.
    pub this_loan_is_account: bool,
    /// The loan's live debt at the projected liability share value.
    pub loan_live_atoms: u64,
    /// Atoms the borrower repays.
    pub repay_atoms: u64,
    /// Whether marginfi's repay-all clears the account.
    pub use_repay_all: bool,
    /// Atoms transferred from the borrower.
    pub funded_atoms: u64,
}

/// Whether a pool-loan repayment with these inputs is permitted (before
/// the overflow checks of the live-debt conversion and of the funding).
pub open spec fn p2pool_repay_allowed(
    params: RepayParams,
    loan_shares: u128,
    account_shares_pre: u128,
    live: int,
) -> bool {
    &&& loan_shares > 0
    &&& account_shares_pre > 0
    &&& live > 0
    &&& !params.full_repay ==> 0 < params.repay_atoms <= live
}

/// Sizes a pool-loan repayment. The loan's shares are clamped to the
/// account's liability; its live debt is those shares at the projected
/// liability share value, rounded up. A full repayment pays the live debt
/// (one extra atom when repay-all clears a single-loan account); a partial
/// one pays `repay_atoms`, which must be positive and at most the live debt.
pub fn plan_p2pool_repay(
    params: &RepayParams,
    loan_shares: u128,
    account_shares_pre: u128,
    predicted_lsv_fp48: u128,
) -> (res: Result<P2PoolRepayPlan, Error>)
    ensures
        (loan_shares == 0 || account_shares_pre == 0) ==> res == Err::<P2PoolRepayPlan, Error>(
            Error::Ydelta(YdeltaError::InvalidArgument),
        ),
        res matches Ok(p) ==> {
            let this = if loan_shares <= account_shares_pre {
                loan_shares
            } else {
                account_shares_pre
            };
            &&& p.this_loan_shares == this
            &&& p.this_loan_is_account == (this == account_shares_pre)
            &&& p.loan_live_atoms == shares_to_atoms_ceil(this as int, predicted_lsv_fp48 as int)
            &&& p2pool_repay_allowed(*params, loan_shares, account_shares_pre, p.loan_live_atoms as int)
            &&& p.repay_atoms == (if params.full_repay {
                p.loan_live_atoms
            } else {
                params.repay_atoms
            })
            &&& p.use_repay_all == (params.full_repay && p.this_loan_is_account)
            &&& p.funded_atoms == p.repay_atoms + (if p.use_repay_all {
                ACCRUE_SAFETY_ATOMS as int
            } else {
                0
            })
            &&& p.repay_atoms <= p.loan_live_atoms
        },
        (loan_shares > 0 && account_shares_pre > 0) ==> {
            let this = if loan_shares <= account_shares_pre {
                loan_shares
            } else {
                account_shares_pre
            };
            let live = shares_to_atoms_ceil(this as int, predicted_lsv_fp48 as int);
            let converts = mul_scale_spec(this as int, predicted_lsv_fp48 as int) <= u128::MAX
                && live <= u64::MAX;
            let repay_all = params.full_repay && this == account_shares_pre;
            &&& !converts ==> res == Err::<P2PoolRepayPlan, Error>(Error::ArithmeticOverflow)
            &&& converts && live == 0 ==> res == Err::<P2PoolRepayPlan, Error>(
                Error::Ydelta(YdeltaError::InvalidArgument),
            )
            &&& converts && live > 0 && !params.full_repay && (params.repay_atoms == 0
                || params.repay_atoms > live) ==> res == Err::<P2PoolRepayPlan, Error>(
                Error::Ydelta(YdeltaError::InvalidArgument),
            )
            &&& converts && p2pool_repay_allowed(*params, loan_shares, account_shares_pre, live)
                ==> (res is Ok <==> !(repay_all && live == u64::MAX))
            &&& converts && p2pool_repay_allowed(*params, loan_shares, account_shares_pre, live)
                && repay_all && live == u64::MAX ==> res == Err::<P2PoolRepayPlan, Error>(
                Error::ArithmeticOverflow,
            )
        },
{
    if loan_shares == 0 {
        return Err(Error::Ydelta(YdeltaError::InvalidArgument));
    }
    if account_shares_pre == 0 {
        return Err(Error::Ydelta(YdeltaError::InvalidArgument));
    }
    let this_loan_shares = if loan_shares <= account_shares_pre {
        loan_shares
    } else {
        account_shares_pre
    };
    let this_loan_is_account = this_loan_shares == account_shares_pre;
    let loan_live_atoms = MarginfiV18Adapter.liability_shares_to_atoms_ceil_at_lsv(
        this_loan_shares,
        predicted_lsv_fp48,
    )?;
    if loan_live_atoms == 0 {
        return Err(Error::Ydelta(YdeltaError::InvalidArgument));
    }
    let repay_atoms: u64 = if params.full_repay {
        loan_live_atoms
    } else {
        if params.repay_atoms == 0 {
            return Err(Error::Ydelta(YdeltaError::InvalidArgument));
        }
        if params.repay_atoms > loan_live_atoms {
            return Err(Error::Ydelta(YdeltaError::InvalidArgument));
        }
        params.repay_atoms
    };
    let use_repay_all = params.full_repay && this_loan_is_account;
    let funded_atoms: u64 = if use_repay_all {
        match repay_atoms.checked_add(ACCRUE_SAFETY_ATOMS) {
            Some(v) => v,
            None => {
                return Err(Error::ArithmeticOverflow);
            },
        }
    } else {
        repay_atoms
    };
    Ok(
        P2PoolRepayPlan {
            this_loan_shares,
            this_loan_is_account,
            loan_live_atoms,
            repay_atoms,
            use_repay_all,
            funded_atoms,
        },
    )
}

/// Atoms a fixed-rate repayment pays: the whole outstanding debt on a full
/// repayment; otherwise `repay_atoms`, which must be positive and at most
/// the outstanding debt.
pub fn plan_fixed_repay(params: &RepayParams, outstanding_debt_atoms: u64) -> (res: Result<
    u64,
    Error,
>)
    ensures
        params.full_repay ==> res == Ok::<u64, Error>(outstanding_debt_atoms),
        !params.full_repay ==> {
            &&& res is Ok <==> 0 < params.repay_atoms <= outstanding_debt_atoms
            &&& res matches Ok(v) ==> v == params.repay_atoms
            &&& res matches Err(e) ==> e == Error::Ydelta(YdeltaError::InvalidArgument)
        },
{
    if params.full_repay {
        return Ok(outstanding_debt_atoms);
    }
    if params.repay_atoms == 0 || params.repay_atoms > outstanding_debt_atoms {
        return Err(Error::Ydelta(YdeltaError::InvalidArgument));
    }
    Ok(params.repay_atoms)
}

/// Atoms a pool-to-fixed conversion withdraws from the lending vault to
/// repay the pool loan: the live debt, plus one atom when repay-all clears a
/// single-loan account.
pub fn conversion_atoms_to_fund(live_outstanding_atoms: u64, this_loan_is_account: bool) -> (res:
    Result<u64, Error>)
    ensures
        !this_loan_is_account ==> res == Ok::<u64, Error>(live_outstanding_atoms),
        this_loan_is_account ==> {
            &&& res is Ok <==> live_outstanding_atoms < u64::MAX
            &&& res matches Ok(v) ==> v == live_outstanding_atoms + 1
            &&& res matches Err(e) ==> e == Error::ArithmeticOverflow
        },
{
    if this_loan_is_account {
        match live_outstanding_atoms.checked_add(ACCRUE_SAFETY_ATOMS) {
            Some(v) => Ok(v),
            None => Err(Error::ArithmeticOverflow),
        }
    } else {
        Ok(live_outstanding_atoms)
    }
}

/// Checks a borrower's request to move a pool loan onto fixed-rate offers:
/// the loan must hold collateral, the signer must own the borrower seat, and
/// the loan must not have matured. Returns the seconds left in its term
/// (capped at `u32::MAX`), the term the fixed-rate offers must cover.
pub fn check_conversion_request(
    loan_collateral_atoms: u64,
    seat_owner: &[u8; 32],
    signer: &[u8; 32],
    matures_at_unix: i64,
    now_unix: i64,
) -> (res: Result<u32, Error>)
    ensures
        res is Ok <==> (loan_collateral_atoms > 0 && signer@ == seat_owner@ && matures_at_unix
            > now_unix),
        loan_collateral_atoms == 0 ==> res == Err::<u32, Error>(
            Error::Ydelta(YdeltaError::InvalidArgument),
        ),
        loan_collateral_atoms > 0 && signer@ != seat_owner@ ==> res == Err::<u32, Error>(
            Error::Ydelta(YdeltaError::OrderNotOwnedBySigner),
        ),
        loan_collateral_atoms > 0 && signer@ == seat_owner@ && matures_at_unix <= now_unix ==> res
            == Err::<u32, Error>(Error::Ydelta(YdeltaError::TermNotCompatible)),
        res matches Ok(t) ==> t == (if matures_at_unix - now_unix > u32::MAX {
            u32::MAX as int
        } else {
            matures_at_unix - now_unix
        }),
{
    if loan_collateral_atoms == 0 {
        return Err(Error::Ydelta(YdeltaError::InvalidArgument));
    }
    if !keys_equal(signer, seat_owner) {
        return Err(Error::Ydelta(YdeltaError::OrderNotOwnedBySigner));
    }
    if matures_at_unix <= now_unix {
        return Err(Error::Ydelta(YdeltaError::TermNotCompatible));
    }
    let remaining: i128 = (matures_at_unix as i128) - (now_unix as i128);
    if remaining > 0xFFFF_FFFFi128 {
        Ok(0xFFFF_FFFFu32)
    } else {
        Ok(remaining as u32)
    }
}

/// Refuses a conversion when the loan's collateral no longer covers its live
/// debt at the origination LTV.
pub fn check_collateral_covers(collateral_atoms: u64, required_collateral_atoms: u64) -> (res:
    Result<(), Error>)
    ensures
        res is Ok <==> collateral_atoms >= required_collateral_atoms,
        res matches Err(e) ==> e == Error::Ydelta(YdeltaError::CollateralBelowMatchLTV),
{
    if collateral_atoms < required_collateral_atoms {
        return Err(Error::Ydelta(YdeltaError::CollateralBelowMatchLTV));
    }
    Ok(())
}

/// A conversion must refinance the whole live debt on the book: a match
/// that filled nothing, or less than the live debt, is refused and the
/// loan stays variable-rate.
pub fn check_conversion_fill(total_filled_principal_atoms: u64, live_outstanding_atoms: u64) -> (res:
    Result<(), Error>)
    ensures
        res is Ok <==> (total_filled_principal_atoms > 0 && total_filled_principal_atoms
            == live_outstanding_atoms),
        res matches Err(e) ==> e == Error::Ydelta(YdeltaError::InvalidArgument),
{
    if total_filled_principal_atoms == 0 || total_filled_principal_atoms != live_outstanding_atoms {
        return Err(Error::Ydelta(YdeltaError::InvalidArgument));
    }
    Ok(())
}

/// Refuses a conversion whose vault withdrawal delivered less than the live debt.
pub fn check_conversion_funded(funded_atoms: u64, live_outstanding_atoms: u64) -> (res: Result<
    (),
    Error,
>)
    ensures
        res is Ok <==> funded_atoms >= live_outstanding_atoms,
        res matches Err(e) ==> e == Error::Ydelta(YdeltaError::InvalidArgument),
{
    if funded_atoms < live_outstanding_atoms {
        return Err(Error::Ydelta(YdeltaError::InvalidArgument));
    }
    Ok(())
}

/// How the asset shares a fixed-rate repayment credits are split.
#[derive(Debug, Clone, Copy, PartialEq, Eq, Structural)]
pub struct RepaidShareSplit {
    /// Shares for the market's protocol-fee accumulator.
    pub protocol_fee_shares: u128,
    /// Shares credited to the lender's seat.
    pub lender_claim_shares: u128,
}

/// Splits the shares credited by a fixed-rate repayment: only a full
/// repayment converts the loan's protocol-fee atoms into shares (floored at
/// the asset share value); the lender gets the remainder, floored at zero.
pub fn split_repaid_shares(
    did_full_repay: bool,
    credited_shares: u128,
    accumulated_protocol_fee_atoms: u64,
    asset_share_value_fp48: u128,
) -> (res: Result<RepaidShareSplit, Error>)
    ensures
        !(did_full_repay && accumulated_protocol_fee_atoms > 0) ==> res
            == Ok::<RepaidShareSplit, Error>(
            RepaidShareSplit { protocol_fee_shares: 0, lender_claim_shares: credited_shares },
        ),
        (did_full_repay && accumulated_protocol_fee_atoms > 0) ==> {
            let fee = atoms_to_shares_floor(
                accumulated_protocol_fee_atoms as int,
                asset_share_value_fp48 as int,
            );
            &&& res is Ok <==> (asset_share_value_fp48 != 0 && fee <= u128::MAX)
            &&& res matches Ok(s) ==> s.protocol_fee_shares == fee && s.lender_claim_shares == (
            if credited_shares >= fee {
                credited_shares - fee
            } else {
                0
            })
            &&& res matches Err(e) ==> e == Error::ArithmeticOverflow
        },
        res matches Ok(s) ==> s.lender_claim_shares <= credited_shares,
{
    let protocol_fee_shares: u128 = if did_full_repay && accumulated_protocol_fee_atoms > 0 {
        MarginfiV18Adapter.amount_to_asset_shares(
            asset_share_value_fp48,
            accumulated_protocol_fee_atoms,
        )?
    } else {
        0
    };
    let lender_claim_shares = credited_shares.saturating_sub(protocol_fee_shares);
    Ok(RepaidShareSplit { protocol_fee_shares, lender_claim_shares })
}

} // verus!
