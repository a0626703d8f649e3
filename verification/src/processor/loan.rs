//! A loan's life after origination, as state transitions over plain values:
//! the settlement gate, the close-out of a forced resolution (liquidation or
//! settlement), a borrower's repayment, a conversion of a pool-backed loan
//! to fixed-rate loans, and the seat credits these steps make. The marginfi
//! calls and account lookups between the steps are made by the caller, who
//! hands their results in.

use vstd::prelude::*;

use crate::error::{Error, YdeltaError};
use crate::math::mul_div;
use crate::processor::liquidate_loan::{
    apply_forced_resolution_fees, forced_resolution_fits, ledger_after_forced_resolution,
    LoanFeeLedger, PoolRepayOutcome,
};

verus! {

/// Whether a loan is still open.
#[derive(Debug, Clone, Copy, PartialEq, Eq, Structural)]
pub enum LoanStatus {
    /// Debt is outstanding.
    Active,
    /// Fully repaid; the loan takes no further action.
    Repaid,
}

/// How a loan is funded.
#[derive(Debug, Clone, Copy, PartialEq, Eq, Structural)]
pub enum LoanKind {
    /// Lent by a vault at a fixed rate and term.
    Fixed,
    /// Borrowed from the marginfi pool at its variable rate.
    P2Pool,
}

/// The fields of a loan that its resolution, repayment and conversion read
/// and write.
#[derive(Debug, Clone, Copy, PartialEq, Eq, Structural)]
pub struct LoanState {
    pub status: LoanStatus,
    pub kind: LoanKind,
    /// Principal still lent (atoms).
    pub principal_debt_atoms: u64,
    /// Debt owed, interest included (atoms).
    pub outstanding_debt_atoms: u64,
    /// Collateral pledged (atoms).
    pub collateral_atoms: u64,
    /// The loan's marginfi liability shares (pool-backed loans).
    pub borrower_marginfi_borrow_shares: u128,
    /// When the term ends (unix seconds).
    pub matures_at_unix: i64,
    /// The liquidation threshold stamped when the loan was made (bps).
    pub liquidation_ltv_bps: u16,
    /// Where repaid atoms go: lender, protocol, curator.
    pub fees: LoanFeeLedger,
}

/// The borrower's seat as a loan's close-out touches it.
#[derive(Debug, Clone, Copy, PartialEq, Eq, Structural)]
pub struct BorrowerSeat {
    /// Collateral shares pledged to open loans.
    pub collateral_encumbered_shares: u128,
    /// Collateral shares the borrower may withdraw.
    pub collateral_withdrawable_shares: u128,
    /// Debt-side shares the borrower may withdraw.
    pub debt_withdrawable_shares: u128,
    /// Loans open against the seat.
    pub open_borrow_count: u32,
}

/// The lender's seat as a fixed-rate loan's close-out touches it.
#[derive(Debug, Clone, Copy, PartialEq, Eq, Structural)]
pub struct LenderSeat {
    /// Debt-side shares the lender may claim.
    pub debt_withdrawable_shares: u128,
    /// Loans open on the lending side.
    pub open_lend_count: u32,
}

/// Whether settlement is due: the loan is open, the grace window after
/// maturity has passed (strictly), and live debt remains.
pub open spec fn settlement_due(
    status: LoanStatus,
    now: i64,
    matures_at: i64,
    grace_secs: u32,
    outstanding_live_atoms: u64,
) -> bool {
    &&& status != LoanStatus::Repaid
    &&& now > matures_at + grace_secs
    &&& outstanding_live_atoms > 0
}

/// The settlement gate: a repaid loan is refused with `InvalidArgument`; a
/// loan whose maturity plus grace window has not passed with
/// `LoanNotMatured`; a loan with no live debt left with `InvalidArgument`.
pub fn check_settlement_due(
    status: LoanStatus,
    now: i64,
    matures_at: i64,
    grace_secs: u32,
    outstanding_live_atoms: u64,
) -> (res: Result<(), Error>)
    ensures
        res is Ok <==> settlement_due(status, now, matures_at, grace_secs, outstanding_live_atoms),
        status == LoanStatus::Repaid ==> res == Err::<(), Error>(
            Error::Ydelta(YdeltaError::InvalidArgument),
        ),
        status != LoanStatus::Repaid && now <= matures_at + grace_secs ==> res == Err::<(), Error>(
            Error::Ydelta(YdeltaError::LoanNotMatured),
        ),
        status != LoanStatus::Repaid && now > matures_at + grace_secs && outstanding_live_atoms == 0
            ==> res == Err::<(), Error>(Error::Ydelta(YdeltaError::InvalidArgument)),
{
    if status == LoanStatus::Repaid {
        return Err(Error::Ydelta(YdeltaError::InvalidArgument));
    }
    let deadline: i128 = matures_at as i128 + grace_secs as i128;
    if now as i128 <= deadline {
        return Err(Error::Ydelta(YdeltaError::LoanNotMatured));
    }
    if outstanding_live_atoms == 0 {
        return Err(Error::Ydelta(YdeltaError::InvalidArgument));
    }
    Ok(())
}

/// Whether a loan whose debt is worth `debt_value` against collateral worth
/// `collateral_value` (both in the same quote units) is past a liquidation
/// threshold of `liquidation_ltv_bps`: its LTV, debt over collateral,
/// exceeds the threshold.
pub open spec fn ltv_breached(debt_value: u128, collateral_value: u128, liquidation_ltv_bps: u16) -> bool {
    debt_value * 10_000 > collateral_value * liquidation_ltv_bps
}

/// The liquidation gate: a repaid loan is refused with `InvalidArgument`;
/// an open one passes exactly when its LTV exceeds the threshold stamped on
/// it at origination, and is otherwise refused with `LoanStillSolvent`. The
/// debt (accrued) and collateral values are the caller's, priced from the
/// oracles.
pub fn check_liquidatable(loan: &LoanState, debt_value: u128, collateral_value: u128) -> (res:
    Result<(), Error>)
    ensures
        res is Ok <==> (loan.status != LoanStatus::Repaid && ltv_breached(
            debt_value,
            collateral_value,
            loan.liquidation_ltv_bps,
        )),
        loan.status == LoanStatus::Repaid ==> res == Err::<(), Error>(
            Error::Ydelta(YdeltaError::InvalidArgument),
        ),
        loan.status != LoanStatus::Repaid && !ltv_breached(
            debt_value,
            collateral_value,
            loan.liquidation_ltv_bps,
        ) ==> res == Err::<(), Error>(Error::Ydelta(YdeltaError::LoanStillSolvent)),
{
    if loan.status == LoanStatus::Repaid {
        return Err(Error::Ydelta(YdeltaError::InvalidArgument));
    }
    let bps = loan.liquidation_ltv_bps as u128;
    proof {
        lemma_breach_by_floor(debt_value as int, collateral_value as int * bps as int);
    }
    match mul_div(collateral_value, bps, 10_000, false) {
        Ok(threshold) => {
            if debt_value > threshold {
                Ok(())
            } else {
                Err(Error::Ydelta(YdeltaError::LoanStillSolvent))
            }
        },
        Err(_) => Err(Error::Ydelta(YdeltaError::LoanStillSolvent)),
    }
}

/// `d * 10_000 > x` exactly when `d` exceeds `x / 10_000`, floored.
proof fn lemma_breach_by_floor(d: int, x: int)
    requires
        d >= 0,
        x >= 0,
    ensures
        (d * 10_000 > x) <==> (d > x / 10_000),
{
    vstd::arithmetic::div_mod::lemma_fundamental_div_mod(x, 10_000);
    assert((d * 10_000 > x) <==> (d > x / 10_000)) by (nonlinear_arith)
        requires
            x == 10_000 * (x / 10_000) + x % 10_000,
            0 <= x % 10_000 < 10_000,
            d >= 0,
    ;
}

/// What a forced resolution (liquidation or settlement) did, as the caller
/// measured it around its marginfi calls.
#[derive(Debug, Clone, Copy, PartialEq, Eq, Structural)]
pub struct ForcedResolution {
    /// Debt atoms the keeper repaid.
    pub repaid_atoms: u64,
    /// Collateral atoms withdrawn from marginfi to the keeper.
    pub withdrawn_atoms: u64,
    /// For a pool-backed loan: the loan after marginfi's repay.
    pub pool: PoolRepayOutcome,
    /// For a fixed-rate loan: the protocol's cut of the repayment.
    pub protocol_fee_atoms: u64,
    /// Debt the collateral could not cover.
    pub bad_debt_gap_atoms: u64,
}

/// What follows a resolved loan.
#[derive(Debug, Clone, Copy, PartialEq, Eq, Structural)]
pub struct ResolutionAction {
    /// The loan is fully repaid: its account is closed and its seats
    /// retire it.
    pub did_full_repay: bool,
    /// Shortfall to report as bad debt.
    pub bad_debt_atoms: u64,
}

/// `a - b`, floored at zero.
pub open spec fn sat_diff(a: u64, b: u64) -> u64 {
    if a >= b {
        (a - b) as u64
    } else {
        0
    }
}

/// Whether a forced resolution can be booked on `l`: a fixed-rate loan
/// cannot be repaid past its debt, and its fee buckets must not overflow.
pub open spec fn resolution_fits(l: LoanState, r: ForcedResolution) -> bool {
    l.kind == LoanKind::Fixed ==> (r.repaid_atoms <= l.outstanding_debt_atoms
        && forced_resolution_fits(l.fees, r.protocol_fee_atoms, r.bad_debt_gap_atoms))
}

/// The loan after a forced resolution. A pool-backed loan takes marginfi's
/// outcome: its shares become the remaining shares; fully repaid it owes
/// nothing, holds no collateral and is `Repaid`; otherwise it owes the
/// remaining debt and keeps the collateral not withdrawn. A fixed-rate loan
/// owes `repaid_atoms` less, its fee buckets move as
/// [`ledger_after_forced_resolution`] says, and it is `Repaid`, with no
/// collateral, exactly when its debt reaches zero.
pub open spec fn resolved_loan(l: LoanState, r: ForcedResolution) -> LoanState {
    match l.kind {
        LoanKind::P2Pool => if r.pool.did_full_repay {
            LoanState {
                borrower_marginfi_borrow_shares: r.pool.post_loan_shares,
                outstanding_debt_atoms: 0,
                collateral_atoms: 0,
                status: LoanStatus::Repaid,
                ..l
            }
        } else {
            LoanState {
                borrower_marginfi_borrow_shares: r.pool.post_loan_shares,
                outstanding_debt_atoms: r.pool.outstanding_after_atoms,
                collateral_atoms: sat_diff(l.collateral_atoms, r.withdrawn_atoms),
                ..l
            }
        },
        LoanKind::Fixed => {
            let debt = (l.outstanding_debt_atoms - r.repaid_atoms) as u64;
            let fees = ledger_after_forced_resolution(
                l.fees,
                r.protocol_fee_atoms,
                r.bad_debt_gap_atoms,
            );
            if debt == 0 {
                LoanState {
                    outstanding_debt_atoms: 0,
                    collateral_atoms: 0,
                    status: LoanStatus::Repaid,
                    fees,
                    ..l
                }
            } else {
                LoanState {
                    outstanding_debt_atoms: debt,
                    collateral_atoms: sat_diff(l.collateral_atoms, r.withdrawn_atoms),
                    fees,
                    ..l
                }
            }
        },
    }
}

/// Books a forced resolution on the loan (see [`resolved_loan`]) and says
/// what follows: whether the loan closed, and the bad debt to report. A
/// fixed-rate resolution past the debt, or one that overflows a fee bucket,
/// is refused with `ArithmeticOverflow` and leaves the loan untouched.
pub fn resolve_loan(loan: &mut LoanState, r: ForcedResolution) -> (res: Result<
    ResolutionAction,
    Error,
>)
    ensures
        res is Ok <==> resolution_fits(*old(loan), r),
        res is Ok ==> *final(loan) == resolved_loan(*old(loan), r),
        res matches Ok(a) ==> a.bad_debt_atoms == r.bad_debt_gap_atoms && (a.did_full_repay
            ==> final(loan).status == LoanStatus::Repaid && final(loan).outstanding_debt_atoms
            == 0 && final(loan).collateral_atoms == 0),
        res matches Ok(a) ==> old(loan).kind == LoanKind::Fixed ==> (a.did_full_repay
            <==> final(loan).outstanding_debt_atoms == 0),
        res matches Ok(a) ==> old(loan).kind == LoanKind::P2Pool ==> a.did_full_repay
            == r.pool.did_full_repay,
        res matches Err(e) ==> e == Error::ArithmeticOverflow && *final(loan) == *old(loan),
{
    let did_full_repay: bool;
    match loan.kind {
        LoanKind::P2Pool => {
            did_full_repay = r.pool.did_full_repay;
            loan.borrower_marginfi_borrow_shares = r.pool.post_loan_shares;
            if r.pool.did_full_repay {
                loan.outstanding_debt_atoms = 0;
                loan.collateral_atoms = 0;
                loan.status = LoanStatus::Repaid;
            } else {
                loan.outstanding_debt_atoms = r.pool.outstanding_after_atoms;
                loan.collateral_atoms = loan.collateral_atoms.saturating_sub(r.withdrawn_atoms);
            }
        },
        LoanKind::Fixed => {
            if r.repaid_atoms > loan.outstanding_debt_atoms {
                return Err(Error::ArithmeticOverflow);
            }
            let mut fees = loan.fees;
            apply_forced_resolution_fees(&mut fees, r.protocol_fee_atoms, r.bad_debt_gap_atoms)?;
            loan.fees = fees;
            loan.outstanding_debt_atoms = loan.outstanding_debt_atoms - r.repaid_atoms;
            did_full_repay = loan.outstanding_debt_atoms == 0;
            if did_full_repay {
                loan.collateral_atoms = 0;
                loan.status = LoanStatus::Repaid;
            } else {
                loan.collateral_atoms = loan.collateral_atoms.saturating_sub(r.withdrawn_atoms);
            }
        },
    }
    Ok(ResolutionAction { did_full_repay, bad_debt_atoms: r.bad_debt_gap_atoms })
}

/// Releases a loan's collateral on the borrower's seat: `release_shares`
/// come off the encumbrance (floored at zero), `returned_shares` (the
/// surplus handed back) are credited to what the borrower may withdraw, and
/// a closed loan retires one open borrow (floored at zero). A credit that
/// overflows is refused with `ArithmeticOverflow` and leaves the seat as it
/// was.
pub fn release_borrower_collateral(
    seat: &mut BorrowerSeat,
    release_shares: u128,
    returned_shares: u128,
    loan_closed: bool,
) -> (res: Result<(), Error>)
    ensures
        res is Ok <==> old(seat).collateral_withdrawable_shares + returned_shares <= u128::MAX,
        res is Ok ==> {
            &&& final(seat).collateral_encumbered_shares == (if old(
                seat,
            ).collateral_encumbered_shares >= release_shares {
                old(seat).collateral_encumbered_shares - release_shares
            } else {
                0
            })
            &&& final(seat).collateral_withdrawable_shares == old(
                seat,
            ).collateral_withdrawable_shares + returned_shares
            &&& final(seat).debt_withdrawable_shares == old(seat).debt_withdrawable_shares
            &&& final(seat).open_borrow_count == (if loan_closed && old(seat).open_borrow_count
                > 0 {
                (old(seat).open_borrow_count - 1) as u32
            } else {
                old(seat).open_borrow_count
            })
        },
        res matches Err(e) ==> e == Error::ArithmeticOverflow && *final(seat) == *old(seat),
{
    let withdrawable = match seat.collateral_withdrawable_shares.checked_add(returned_shares) {
        Some(v) => v,
        None => {
            return Err(Error::ArithmeticOverflow);
        },
    };
    seat.collateral_encumbered_shares = seat.collateral_encumbered_shares.saturating_sub(
        release_shares,
    );
    seat.collateral_withdrawable_shares = withdrawable;
    if loan_closed {
        seat.open_borrow_count = seat.open_borrow_count.saturating_sub(1);
    }
    Ok(())
}

/// Credits a fixed-rate loan's lender with the shares its repayment bought
/// in marginfi, less the protocol's fee shares (floored at zero), and on a
/// full repayment retires one open lend. Returns the shares credited. A
/// credit that overflows, or a retirement with no open lend, is refused with
/// `ArithmeticOverflow` and leaves the seat as it was.
pub fn credit_lender_seat(
    seat: &mut LenderSeat,
    credited_shares: u128,
    protocol_fee_shares: u128,
    did_full_repay: bool,
) -> (res: Result<u128, Error>)
    ensures
        ({
            let claim: int = if credited_shares >= protocol_fee_shares {
                credited_shares - protocol_fee_shares
            } else {
                0
            };
            &&& res is Ok <==> (old(seat).debt_withdrawable_shares + claim <= u128::MAX && (
            did_full_repay ==> old(seat).open_lend_count > 0))
            &&& res matches Ok(c) ==> {
                &&& c == claim
                &&& final(seat).debt_withdrawable_shares == old(seat).debt_withdrawable_shares
                    + claim
                &&& final(seat).open_lend_count == (if did_full_repay {
                    old(seat).open_lend_count - 1
                } else {
                    old(seat).open_lend_count as int
                })
            }
        }),
        res matches Err(e) ==> e == Error::ArithmeticOverflow && *final(seat) == *old(seat),
{
    let claim = credited_shares.saturating_sub(protocol_fee_shares);
    let withdrawable = match seat.debt_withdrawable_shares.checked_add(claim) {
        Some(v) => v,
        None => {
            return Err(Error::ArithmeticOverflow);
        },
    };
    let lends: u32 = if did_full_repay {
        match seat.open_lend_count.checked_sub(1) {
            Some(v) => v,
            None => {
                return Err(Error::ArithmeticOverflow);
            },
        }
    } else {
        seat.open_lend_count
    };
    seat.debt_withdrawable_shares = withdrawable;
    seat.open_lend_count = lends;
    Ok(claim)
}

/// Whether a repayment may proceed: the loan is open and the signer owns the
/// borrower's seat.
pub open spec fn repay_allowed(status: LoanStatus, signer_is_owner: bool) -> bool {
    status != LoanStatus::Repaid && signer_is_owner
}

/// The repayment gate: a repaid loan is refused with `InvalidArgument`, a
/// signer who does not own the borrower's seat with `OrderNotOwnedBySigner`.
pub fn check_repay_allowed(status: LoanStatus, signer_is_owner: bool) -> (res: Result<(), Error>)
    ensures
        res is Ok <==> repay_allowed(status, signer_is_owner),
        status == LoanStatus::Repaid ==> res == Err::<(), Error>(
            Error::Ydelta(YdeltaError::InvalidArgument),
        ),
        status != LoanStatus::Repaid && !signer_is_owner ==> res == Err::<(), Error>(
            Error::Ydelta(YdeltaError::OrderNotOwnedBySigner),
        ),
{
    if status == LoanStatus::Repaid {
        return Err(Error::Ydelta(YdeltaError::InvalidArgument));
    }
    if !signer_is_owner {
        return Err(Error::Ydelta(YdeltaError::OrderNotOwnedBySigner));
    }
    Ok(())
}

/// Books a borrower's repayment of `repay_atoms` on a fixed-rate loan: the
/// debt falls by that much and the loan is `Repaid` exactly when it reaches
/// zero. Returns whether it did. A repayment past the debt is refused with
/// `InvalidArgument` and leaves the loan untouched.
pub fn apply_fixed_repay(loan: &mut LoanState, repay_atoms: u64) -> (res: Result<bool, Error>)
    ensures
        res is Ok <==> repay_atoms <= old(loan).outstanding_debt_atoms,
        res matches Ok(full) ==> {
            &&& final(loan).outstanding_debt_atoms == old(loan).outstanding_debt_atoms
                - repay_atoms
            &&& full == (final(loan).outstanding_debt_atoms == 0)
            &&& final(loan).status == (if full {
                LoanStatus::Repaid
            } else {
                old(loan).status
            })
            &&& *final(loan) == (LoanState {
                outstanding_debt_atoms: final(loan).outstanding_debt_atoms,
                status: final(loan).status,
                ..*old(loan)
            })
        },
        res matches Err(e) ==> e == Error::Ydelta(YdeltaError::InvalidArgument) && *final(loan)
            == *old(loan),
{
    if repay_atoms > loan.outstanding_debt_atoms {
        return Err(Error::Ydelta(YdeltaError::InvalidArgument));
    }
    loan.outstanding_debt_atoms = loan.outstanding_debt_atoms - repay_atoms;
    let full = loan.outstanding_debt_atoms == 0;
    if full {
        loan.status = LoanStatus::Repaid;
    }
    Ok(full)
}

/// Books a borrower's repayment of a pool-backed loan from marginfi's
/// outcome: the loan owes the remaining debt; fully repaid it keeps no
/// shares and is `Repaid`, otherwise it keeps the remaining shares. Returns
/// whether it was fully repaid.
pub fn apply_pool_repay(loan: &mut LoanState, outcome: PoolRepayOutcome) -> (res: bool)
    ensures
        res == outcome.did_full_repay,
        *final(loan) == (LoanState {
            outstanding_debt_atoms: outcome.outstanding_after_atoms,
            borrower_marginfi_borrow_shares: if outcome.did_full_repay {
                0
            } else {
                outcome.post_loan_shares
            },
            status: if outcome.did_full_repay {
                LoanStatus::Repaid
            } else {
                old(loan).status
            },
            ..*old(loan)
        }),
{
    loan.outstanding_debt_atoms = outcome.outstanding_after_atoms;
    if outcome.did_full_repay {
        loan.borrower_marginfi_borrow_shares = 0;
        loan.status = LoanStatus::Repaid;
    } else {
        loan.borrower_marginfi_borrow_shares = outcome.post_loan_shares;
    }
    outcome.did_full_repay
}

/// What the fixed-rate fills of a conversion took over from a pool-backed
/// loan.
#[derive(Debug, Clone, Copy, PartialEq, Eq, Structural)]
pub struct ConversionFill {
    /// Fixed-rate loans opened.
    pub num_fills: u32,
    /// Principal they took over (atoms).
    pub total_filled_principal: u64,
    /// Collateral they took over (atoms).
    pub total_filled_collateral: u64,
}

/// What a conversion leaves to do.
#[derive(Debug, Clone, Copy, PartialEq, Eq, Structural)]
pub struct ConversionAction {
    /// The pool-backed loan is fully converted: its account is closed.
    pub close_pool_loan: bool,
    /// Collateral atoms the fills did not carry over, released back to the
    /// borrower on a full conversion.
    pub release_collateral_atoms: u64,
}

/// Whether a conversion can be booked: the seat's borrow count takes the new
/// loans, and a partial conversion cannot take more collateral than the loan
/// has.
pub open spec fn conversion_fits(
    loan: LoanState,
    open_borrow_count: u32,
    fill: ConversionFill,
    outcome: PoolRepayOutcome,
) -> bool {
    &&& open_borrow_count + fill.num_fills <= u32::MAX
    &&& !outcome.did_full_repay ==> fill.total_filled_collateral <= loan.collateral_atoms
}

/// Books a conversion of a pool-backed loan into fixed-rate loans, given
/// the fills and marginfi's repay outcome. The seat gains one open borrow
/// per fill. A full conversion retires the pool loan's borrow, closes it and
/// releases the collateral the fills did not take (floored at zero); the
/// loan itself is left as it was, for the caller to close. A partial one
/// keeps the pool loan open (`Active`) with the principal not taken over
/// (floored at zero), the remaining debt and shares, and the collateral not
/// taken over. A count overflow, or a partial conversion taking more
/// collateral than the loan has, is refused with `ArithmeticOverflow`, and
/// nothing changes.
pub fn apply_conversion(
    loan: &mut LoanState,
    open_borrow_count: &mut u32,
    fill: ConversionFill,
    outcome: PoolRepayOutcome,
) -> (res: Result<ConversionAction, Error>)
    ensures
        res is Ok <==> conversion_fits(*old(loan), *old(open_borrow_count), fill, outcome),
        res matches Ok(a) ==> {
            &&& a.close_pool_loan == outcome.did_full_repay
            &&& outcome.did_full_repay ==> {
                &&& *final(open_borrow_count) == (if *old(open_borrow_count) + fill.num_fills
                    >= 1 {
                    *old(open_borrow_count) + fill.num_fills - 1
                } else {
                    0
                })
                &&& a.release_collateral_atoms == sat_diff(
                    old(loan).collateral_atoms,
                    fill.total_filled_collateral,
                )
                &&& *final(loan) == *old(loan)
            }
            &&& !outcome.did_full_repay ==> {
                &&& *final(open_borrow_count) == *old(open_borrow_count) + fill.num_fills
                &&& a.release_collateral_atoms == 0
                &&& *final(loan) == (LoanState {
                    principal_debt_atoms: sat_diff(
                        old(loan).principal_debt_atoms,
                        fill.total_filled_principal,
                    ),
                    outstanding_debt_atoms: outcome.outstanding_after_atoms,
                    collateral_atoms: (old(loan).collateral_atoms
                        - fill.total_filled_collateral) as u64,
                    borrower_marginfi_borrow_shares: outcome.post_loan_shares,
                    status: LoanStatus::Active,
                    ..*old(loan)
                })
            }
        },
        res matches Err(e) ==> e == Error::ArithmeticOverflow && *final(loan) == *old(loan)
            && *final(open_borrow_count) == *old(open_borrow_count),
{
    let count = match open_borrow_count.checked_add(fill.num_fills) {
        Some(v) => v,
        None => {
            return Err(Error::ArithmeticOverflow);
        },
    };
    if outcome.did_full_repay {
        *open_borrow_count = count.saturating_sub(1);
        return Ok(ConversionAction {
            close_pool_loan: true,
            release_collateral_atoms: loan.collateral_atoms.saturating_sub(
                fill.total_filled_collateral,
            ),
        });
    }
    let collateral = match loan.collateral_atoms.checked_sub(fill.total_filled_collateral) {
        Some(v) => v,
        None => {
            return Err(Error::ArithmeticOverflow);
        },
    };
    *open_borrow_count = count;
    loan.principal_debt_atoms = loan.principal_debt_atoms.saturating_sub(
        fill.total_filled_principal,
    );
    loan.outstanding_debt_atoms = outcome.outstanding_after_atoms;
    loan.collateral_atoms = collateral;
    loan.borrower_marginfi_borrow_shares = outcome.post_loan_shares;
    loan.status = LoanStatus::Active;
    Ok(ConversionAction { close_pool_loan: false, release_collateral_atoms: 0 })
}

/// Credits the borrower's debt-side seat with the asset shares the market's
/// lender account gained from depositing a pool-backed loan's proceeds,
/// measured around that deposit. A balance that shrank is refused with
/// `IncorrectAccount`, a credit that overflows with `ArithmeticOverflow`;
/// either way the seat is untouched. Returns the shares credited.
pub fn credit_pool_tail_deposit(seat: &mut BorrowerSeat, pre_shares: u128, post_shares: u128) -> (res:
    Result<u128, Error>)
    ensures
        post_shares < pre_shares ==> res == Err::<u128, Error>(
            Error::Ydelta(YdeltaError::IncorrectAccount),
        ),
        post_shares >= pre_shares ==> (res is Ok <==> old(seat).debt_withdrawable_shares + (
        post_shares - pre_shares) <= u128::MAX),
        res matches Ok(c) ==> c == post_shares - pre_shares && *final(seat) == (BorrowerSeat {
            debt_withdrawable_shares: (old(seat).debt_withdrawable_shares + c) as u128,
            ..*old(seat)
        }),
        res matches Err(e) ==> *final(seat) == *old(seat) && (e == Error::Ydelta(
            YdeltaError::IncorrectAccount,
        ) || e == Error::ArithmeticOverflow),
        post_shares >= pre_shares && res is Err ==> res == Err::<u128, Error>(
            Error::ArithmeticOverflow,
        ),
{
    let gained = crate::processor::place_order::shares_gained(pre_shares, post_shares)?;
    let credited = match seat.debt_withdrawable_shares.checked_add(gained) {
        Some(v) => v,
        None => {
            return Err(Error::ArithmeticOverflow);
        },
    };
    seat.debt_withdrawable_shares = credited;
    Ok(gained)
}

} // verus!
