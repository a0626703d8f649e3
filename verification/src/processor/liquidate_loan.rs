//! Sizing rules of forced loan resolution (liquidation after an LTV breach,
//! settlement after maturity): how much debt is repaid, how the collateral
//! is split between the keeper, the borrower and the bad-debt gap, and how
//! the lender's fee buckets move.

use vstd::prelude::*;

use crate::bytes::{le_value, read_le};
use crate::error::{Error, YdeltaError};
use crate::math::{mul_div_spec, mul_div_u64};
use crate::math::mul_scale_spec;
use crate::processor::fee_config_helpers::MAX_LIQUIDATION_KEEPER_BPS;
use crate::protocol::marginfi::{shares_to_atoms_ceil, shares_to_atoms_floor, MarginfiV18Adapter};

verus! {

/// Smallest outstanding debt that may be resolved partially, and the
/// smallest partial repayment (atoms).
pub const MIN_PARTIAL_REPAY_FLOOR_ATOMS: u64 = 1_000;

/// How a liquidation's collateral is split.
#[derive(Debug, Clone, Copy, PartialEq, Eq, Structural)]
pub struct CollateralSplit {
    /// Collateral atoms the liquidator takes (capped by the collateral).
    pub liquidator_seizes_atoms: u64,
    /// Collateral left to the borrower after the seize.
    pub surplus_atoms: u64,
    /// Shortfall when the collateral cannot cover the seize target.
    pub bad_debt_gap_atoms: u64,
    /// Bonus part of the seize target.
    pub bonus_atoms: u64,
}

/// `a + b`, capped at `u64::MAX`.
pub open spec fn sat_add_u64(a: int, b: int) -> int {
    if a + b > u64::MAX {
        u64::MAX as int
    } else {
        a + b
    }
}

/// Splits `collateral_atoms` for a liquidation repaying debt worth
/// `debt_value_in_collateral_atoms`: the seize target is that value plus a
/// `bonus_bps` bonus (capped at `u64::MAX`); the liquidator takes the target
/// or all the collateral, whichever is less; the rest of the collateral is
/// surplus and the rest of the target is the bad-debt gap. The bonus may not
/// exceed the keeper cap (5_000 bps).
pub fn compute_collateral_split(
    debt_value_in_collateral_atoms: u64,
    collateral_atoms: u64,
    bonus_bps: u16,
) -> (res: Result<CollateralSplit, Error>)
    ensures
        res is Ok <==> bonus_bps <= MAX_LIQUIDATION_KEEPER_BPS,
        res matches Err(e) ==> e == Error::Ydelta(YdeltaError::InvalidArgument),
        res matches Ok(s) ==> {
            let bonus = mul_div_spec(
                debt_value_in_collateral_atoms as int,
                bonus_bps as int,
                10_000,
                false,
            );
            let target = sat_add_u64(debt_value_in_collateral_atoms as int, bonus);
            &&& s.bonus_atoms == bonus
            &&& s.liquidator_seizes_atoms == (if collateral_atoms <= target {
                collateral_atoms as int
            } else {
                target
            })
            &&& s.liquidator_seizes_atoms + s.surplus_atoms == collateral_atoms
            &&& s.liquidator_seizes_atoms + s.bad_debt_gap_atoms == target
            &&& (s.surplus_atoms == 0 || s.bad_debt_gap_atoms == 0)
        },
{
    if bonus_bps > MAX_LIQUIDATION_KEEPER_BPS {
        return Err(Error::Ydelta(YdeltaError::InvalidArgument));
    }
    proof {
        let d = debt_value_in_collateral_atoms as int;
        assert(0 <= d * bonus_bps <= d * 10_000) by (nonlinear_arith)
            requires
                0 <= d,
                bonus_bps <= 5_000,
        ;
        vstd::arithmetic::div_mod::lemma_div_is_ordered(d * bonus_bps, d * 10_000, 10_000);
        vstd::arithmetic::div_mod::lemma_div_pos_is_pos(d * bonus_bps, 10_000);
        vstd::arithmetic::div_mod::lemma_div_by_multiple(d, 10_000);
    }
    let bonus_atoms = match mul_div_u64(debt_value_in_collateral_atoms, bonus_bps as u64, 10_000, false) {
        Ok(v) => v,
        Err(e) => {
            return Err(e);
        },
    };
    let total_seize_target: u64 = debt_value_in_collateral_atoms.saturating_add(bonus_atoms);
    let liquidator_seizes_atoms: u64 = if collateral_atoms <= total_seize_target {
        collateral_atoms
    } else {
        total_seize_target
    };
    let bad_debt_gap_atoms: u64 = total_seize_target.saturating_sub(collateral_atoms);
    let surplus_atoms: u64 = collateral_atoms.saturating_sub(liquidator_seizes_atoms);
    Ok(CollateralSplit { liquidator_seizes_atoms, surplus_atoms, bad_debt_gap_atoms, bonus_atoms })
}

/// Outcome of [`parse_repay_atoms_max`].
pub open spec fn repay_atoms_max_result(data: Seq<u8>) -> Result<u64, Error> {
    if data.len() == 0 {
        Ok(0)
    } else if data.len() != 8 {
        Err(Error::Ydelta(YdeltaError::InvalidArgument))
    } else {
        Ok(le_value(data, 0, 8) as u64)
    }
}

/// Instruction data of liquidation and settlement: empty for a full
/// resolution (0), or exactly 8 bytes, the little-endian `repay_atoms_max`.
/// Any other length is refused with `InvalidArgument`, a truncated payload
/// included, rather than read as a full resolution.
pub fn parse_repay_atoms_max(data: &[u8]) -> (res: Result<u64, Error>)
    ensures
        res == repay_atoms_max_result(data@),
        res is Ok <==> (data@.len() == 0 || data@.len() == 8),
        res is Err ==> res == Err::<u64, Error>(Error::Ydelta(YdeltaError::InvalidArgument)),
{
    if data.len() == 0 {
        return Ok(0);
    }
    if data.len() != 8 {
        return Err(Error::Ydelta(YdeltaError::InvalidArgument));
    }
    proof {
        crate::bytes::lemma_le_value_bound(data@, 0, 8);
        crate::bytes::lemma_byte_base_values();
    }
    Ok(read_le(data, 0, 8) as u64)
}

/// How much of a loan a forced resolution repays.
#[derive(Debug, Clone, Copy, PartialEq, Eq, Structural)]
pub struct ForcedRepayPlan {
    /// Debt atoms the keeper repays.
    pub actual_repay_atoms: u64,
    /// Whether that is all of the live debt.
    pub is_full_repay: bool,
}

/// Debt atoms a forced resolution repays: all the live debt when
/// `repay_atoms_max` is 0, otherwise `repay_atoms_max` capped at the live debt.
pub open spec fn forced_repay_atoms(repay_atoms_max: u64, outstanding_live_atoms: u64) -> u64 {
    if repay_atoms_max == 0 || repay_atoms_max > outstanding_live_atoms {
        outstanding_live_atoms
    } else {
        repay_atoms_max
    }
}

/// Smallest partial repayment: 1% of the live debt, at least the floor.
pub open spec fn min_partial_repay(outstanding_live_atoms: u64) -> int {
    if outstanding_live_atoms / 100 >= MIN_PARTIAL_REPAY_FLOOR_ATOMS {
        (outstanding_live_atoms / 100) as int
    } else {
        MIN_PARTIAL_REPAY_FLOOR_ATOMS as int
    }
}

/// Whether a forced resolution of the given size is permitted.
pub open spec fn forced_repay_allowed(repay_atoms_max: u64, outstanding_live_atoms: u64) -> bool {
    let actual = forced_repay_atoms(repay_atoms_max, outstanding_live_atoms);
    &&& actual > 0
    &&& actual != outstanding_live_atoms ==> {
        &&& outstanding_live_atoms >= MIN_PARTIAL_REPAY_FLOOR_ATOMS
        &&& actual >= min_partial_repay(outstanding_live_atoms)
    }
}

/// Sizes a liquidation or settlement. Nothing to repay is refused; a
/// partial repayment requires live debt of at least 1_000 atoms and must
/// repay at least `max(1% of live debt, 1_000)` atoms.
pub fn plan_forced_repay(repay_atoms_max: u64, outstanding_live_atoms: u64) -> (res: Result<
    ForcedRepayPlan,
    Error,
>)
    ensures
        res is Ok <==> forced_repay_allowed(repay_atoms_max, outstanding_live_atoms),
        res matches Err(e) ==> e == Error::Ydelta(YdeltaError::InvalidArgument),
        res matches Ok(p) ==> {
            &&& p.actual_repay_atoms == forced_repay_atoms(repay_atoms_max, outstanding_live_atoms)
            &&& 0 < p.actual_repay_atoms <= outstanding_live_atoms
            &&& p.is_full_repay == (p.actual_repay_atoms == outstanding_live_atoms)
        },
{
    let actual_repay_atoms: u64 = if repay_atoms_max == 0 || repay_atoms_max > outstanding_live_atoms {
        outstanding_live_atoms
    } else {
        repay_atoms_max
    };
    if actual_repay_atoms == 0 {
        return Err(Error::Ydelta(YdeltaError::InvalidArgument));
    }
    let is_full_repay = actual_repay_atoms == outstanding_live_atoms;
    if !is_full_repay {
        if outstanding_live_atoms < MIN_PARTIAL_REPAY_FLOOR_ATOMS {
            return Err(Error::Ydelta(YdeltaError::InvalidArgument));
        }
        let one_percent = outstanding_live_atoms / 100;
        let min_partial = if one_percent >= MIN_PARTIAL_REPAY_FLOOR_ATOMS {
            one_percent
        } else {
            MIN_PARTIAL_REPAY_FLOOR_ATOMS
        };
        if actual_repay_atoms < min_partial {
            return Err(Error::Ydelta(YdeltaError::InvalidArgument));
        }
    }
    Ok(ForcedRepayPlan { actual_repay_atoms, is_full_repay })
}

/// Collateral a settlement hands the keeper: all of it on a full
/// repayment, otherwise the share `actual_repay / outstanding` of it, floored.
pub fn settlement_seized_collateral(
    collateral_atoms: u64,
    actual_repay_atoms: u64,
    outstanding_live_atoms: u64,
    is_full_repay: bool,
) -> (res: Result<u64, Error>)
    ensures
        is_full_repay ==> res == Ok::<u64, Error>(collateral_atoms),
        !is_full_repay ==> {
            &&& res is Ok <==> (outstanding_live_atoms != 0 && mul_div_spec(
                collateral_atoms as int,
                actual_repay_atoms as int,
                outstanding_live_atoms as int,
                false,
            ) <= u64::MAX)
            &&& res matches Ok(v) ==> v == mul_div_spec(
                collateral_atoms as int,
                actual_repay_atoms as int,
                outstanding_live_atoms as int,
                false,
            )
            &&& res matches Err(e) ==> e == Error::ArithmeticOverflow
        },
        (!is_full_repay && 0 < actual_repay_atoms <= outstanding_live_atoms) ==> (res matches Ok(v)
            && v <= collateral_atoms),
{
    if is_full_repay {
        return Ok(collateral_atoms);
    }
    proof {
        if 0 < actual_repay_atoms <= outstanding_live_atoms {
            let c = collateral_atoms as int;
            let a = actual_repay_atoms as int;
            let o = outstanding_live_atoms as int;
            assert(0 <= c * a <= c * o) by (nonlinear_arith)
                requires
                    0 <= c,
                    0 < a <= o,
            ;
            vstd::arithmetic::div_mod::lemma_div_is_ordered(c * a, c * o, o);
            vstd::arithmetic::div_mod::lemma_div_by_multiple(c, o);
        }
    }
    mul_div_u64(collateral_atoms, actual_repay_atoms, outstanding_live_atoms, false)
}

/// Debt atoms a settlement stages from the keeper: a pool-loan full close
/// adds a 2% + 64-atom accrual cushion (capped at `u64::MAX`); otherwise
/// exactly the repayment.
pub fn settlement_staged_atoms(actual_repay_atoms: u64, p2pool_full_close: bool) -> (res: u64)
    ensures
        p2pool_full_close ==> res == sat_add_u64(
            sat_add_u64(actual_repay_atoms as int, (actual_repay_atoms / 50) as int),
            64,
        ),
        !p2pool_full_close ==> res == actual_repay_atoms,
        res >= actual_repay_atoms,
{
    if p2pool_full_close {
        actual_repay_atoms.saturating_add(actual_repay_atoms / 50).saturating_add(64)
    } else {
        actual_repay_atoms
    }
}

/// Protocol's cut of a fixed-rate loan's forced repayment:
/// `repay * liquidation_protocol_bps / 10_000` (floored); zero for pool
/// loans and for a zero rate.
pub fn liquidation_protocol_fee_atoms(
    is_fixed_loan: bool,
    actual_repay_atoms: u64,
    liquidation_protocol_bps: u16,
) -> (res: Result<u64, Error>)
    ensures
        !(is_fixed_loan && liquidation_protocol_bps > 0) ==> res == Ok::<u64, Error>(0),
        (is_fixed_loan && liquidation_protocol_bps > 0) ==> {
            &&& res is Ok <==> mul_div_spec(
                actual_repay_atoms as int,
                liquidation_protocol_bps as int,
                10_000,
                false,
            ) <= u64::MAX
            &&& res matches Ok(v) ==> v == mul_div_spec(
                actual_repay_atoms as int,
                liquidation_protocol_bps as int,
                10_000,
                false,
            )
            &&& res matches Err(e) ==> e == Error::ArithmeticOverflow
        },
{
    if is_fixed_loan && liquidation_protocol_bps > 0 {
        mul_div_u64(actual_repay_atoms, liquidation_protocol_bps as u64, 10_000, false)
    } else {
        Ok(0)
    }
}

/// The fee buckets of a fixed-rate loan.
#[derive(Debug, Clone, Copy, PartialEq, Eq, Structural)]
pub struct LoanFeeLedger {
    /// Atoms the lender will receive.
    pub lender_claimable_atoms: u64,
    /// Atoms earmarked for the protocol.
    pub accumulated_protocol_fee_atoms: u64,
    /// Atoms earmarked for the curator.
    pub accumulated_curator_fee_atoms: u64,
}

/// The ledger after a forced resolution of a fixed-rate loan, when no bucket
/// overflows: the protocol cut moves from the lender to the protocol (capped
/// at what the lender has), and on bad debt the curator's fees are clawed
/// back to the lender.
pub open spec fn ledger_after_forced_resolution(
    l: LoanFeeLedger,
    protocol_fee_atoms: u64,
    bad_debt_gap_atoms: u64,
) -> LoanFeeLedger {
    let fee = if protocol_fee_atoms <= l.lender_claimable_atoms {
        protocol_fee_atoms
    } else {
        l.lender_claimable_atoms
    };
    let lender = l.lender_claimable_atoms - fee;
    let protocol = l.accumulated_protocol_fee_atoms + fee;
    if bad_debt_gap_atoms > 0 && l.accumulated_curator_fee_atoms > 0 {
        LoanFeeLedger {
            lender_claimable_atoms: (lender + l.accumulated_curator_fee_atoms) as u64,
            accumulated_protocol_fee_atoms: protocol as u64,
            accumulated_curator_fee_atoms: 0,
        }
    } else {
        LoanFeeLedger {
            lender_claimable_atoms: lender as u64,
            accumulated_protocol_fee_atoms: protocol as u64,
            accumulated_curator_fee_atoms: l.accumulated_curator_fee_atoms,
        }
    }
}

/// Sum of a ledger's three buckets.
pub open spec fn ledger_total(l: LoanFeeLedger) -> int {
    l.lender_claimable_atoms + l.accumulated_protocol_fee_atoms + l.accumulated_curator_fee_atoms
}

/// Whether [`ledger_after_forced_resolution`] keeps every bucket within `u64`.
pub open spec fn forced_resolution_fits(
    l: LoanFeeLedger,
    protocol_fee_atoms: u64,
    bad_debt_gap_atoms: u64,
) -> bool {
    let fee = if protocol_fee_atoms <= l.lender_claimable_atoms {
        protocol_fee_atoms
    } else {
        l.lender_claimable_atoms
    };
    &&& l.accumulated_protocol_fee_atoms + fee <= u64::MAX
    &&& (bad_debt_gap_atoms > 0 && l.accumulated_curator_fee_atoms > 0) ==> l.lender_claimable_atoms
        - fee + l.accumulated_curator_fee_atoms <= u64::MAX
}

/// Moves a fixed-rate loan's fee buckets after a forced resolution: the
/// protocol cut (at most what the lender has) goes from the lender to the
/// protocol, and when the resolution left bad debt the curator's fees are
/// returned to the lender. The total across the three buckets is unchanged.
/// On overflow the ledger is left untouched.
pub fn apply_forced_resolution_fees(
    ledger: &mut LoanFeeLedger,
    protocol_fee_atoms: u64,
    bad_debt_gap_atoms: u64,
) -> (res: Result<(), Error>)
    ensures
        res is Ok <==> forced_resolution_fits(*old(ledger), protocol_fee_atoms, bad_debt_gap_atoms),
        res is Ok ==> *final(ledger) == ledger_after_forced_resolution(
            *old(ledger),
            protocol_fee_atoms,
            bad_debt_gap_atoms,
        ),
        res is Ok ==> ledger_total(*final(ledger)) == ledger_total(*old(ledger)),
        res is Err ==> *final(ledger) == *old(ledger),
        res matches Err(e) ==> e == Error::ArithmeticOverflow,
{
    let mut lender = ledger.lender_claimable_atoms;
    let mut protocol = ledger.accumulated_protocol_fee_atoms;
    let mut curator = ledger.accumulated_curator_fee_atoms;
    if protocol_fee_atoms > 0 {
        let fee: u64 = if protocol_fee_atoms <= lender {
            protocol_fee_atoms
        } else {
            lender
        };
        lender = lender - fee;
        protocol = match protocol.checked_add(fee) {
            Some(v) => v,
            None => {
                return Err(Error::ArithmeticOverflow);
            },
        };
    }
    if bad_debt_gap_atoms > 0 && curator > 0 {
        lender = match lender.checked_add(curator) {
            Some(v) => v,
            None => {
                return Err(Error::ArithmeticOverflow);
            },
        };
        curator = 0;
    }
    ledger.lender_claimable_atoms = lender;
    ledger.accumulated_protocol_fee_atoms = protocol;
    ledger.accumulated_curator_fee_atoms = curator;
    Ok(())
}

/// A pool loan's liability shares after a repayment: the shares the
/// account burned (its pre- minus post-CPI liability, floored at zero) are
/// taken from the loan's pre-repay shares (floored at zero).
pub fn p2pool_post_repay_loan_shares(
    pre_loan_shares: u128,
    pre_account_shares: u128,
    post_account_shares: u128,
) -> (res: u128)
    ensures
        res == (if pre_account_shares >= post_account_shares && pre_loan_shares >= pre_account_shares
            - post_account_shares {
            pre_loan_shares - (pre_account_shares - post_account_shares)
        } else if pre_account_shares < post_account_shares {
            pre_loan_shares as int
        } else {
            0
        }),
        res <= pre_loan_shares,
{
    let burned = pre_account_shares.saturating_sub(post_account_shares);
    pre_loan_shares.saturating_sub(burned)
}

/// Whether a pool loan's residual is share-rounding dust (at most one atom)
/// and the loan counts as fully repaid.
pub fn p2pool_residual_is_dust(post_atoms_floor: u64) -> (res: bool)
    ensures
        res == (post_atoms_floor <= 1),
{
    post_atoms_floor <= 1
}

/// A keeper's debt-token balance must cover what the keeper pays in.
pub fn check_keeper_payment(balance_atoms: u64, required_atoms: u64) -> (res: Result<(), Error>)
    ensures
        res is Ok <==> balance_atoms >= required_atoms,
        res matches Err(e) ==> e == Error::Ydelta(YdeltaError::LiquidatorPaymentInsufficient),
{
    if balance_atoms < required_atoms {
        return Err(Error::Ydelta(YdeltaError::LiquidatorPaymentInsufficient));
    }
    Ok(())
}

/// Where a loan's collateral stands after the keeper's seize.
#[derive(Debug, Clone, Copy, PartialEq, Eq, Structural)]
pub struct CollateralAfterSeize {
    /// Collateral returned to the borrower's seat.
    pub borrower_surplus_atoms: u64,
    /// Collateral the loan still holds.
    pub loan_collateral_atoms: u64,
}

/// After the keeper withdrew `withdrawn_atoms` of the loan's collateral: a
/// full resolution returns the rest to the borrower and leaves the loan
/// with none; a partial one leaves the rest on the loan (both floored at
/// zero). No collateral is lost when the withdrawal stays within it.
pub fn collateral_after_seize(collateral_atoms: u64, withdrawn_atoms: u64, did_full_repay: bool) -> (res:
    CollateralAfterSeize)
    ensures
        ({
            let rest: int = if collateral_atoms >= withdrawn_atoms {
                collateral_atoms - withdrawn_atoms
            } else {
                0
            };
            &&& did_full_repay ==> res.borrower_surplus_atoms == rest && res.loan_collateral_atoms
                == 0
            &&& !did_full_repay ==> res.borrower_surplus_atoms == 0 && res.loan_collateral_atoms
                == rest
        }),
        withdrawn_atoms <= collateral_atoms ==> withdrawn_atoms + res.borrower_surplus_atoms
            + res.loan_collateral_atoms == collateral_atoms,
{
    let rest = collateral_atoms.saturating_sub(withdrawn_atoms);
    if did_full_repay {
        CollateralAfterSeize { borrower_surplus_atoms: rest, loan_collateral_atoms: 0 }
    } else {
        CollateralAfterSeize { borrower_surplus_atoms: 0, loan_collateral_atoms: rest }
    }
}

/// A pool loan after a forced repayment.
#[derive(Debug, Clone, Copy, PartialEq, Eq, Structural)]
pub struct PoolRepayOutcome {
    /// The loan's liability shares after the repayment.
    pub post_loan_shares: u128,
    /// Whether the loan counts as fully repaid (its residual is dust).
    pub did_full_repay: bool,
    /// The loan's remaining debt: zero when fully repaid, otherwise its
    /// shares at the liability share value, rounded up.
    pub outstanding_after_atoms: u64,
}

/// Settles a pool loan after marginfi's repay: the loan keeps its shares
/// less what the account burned; a residual of at most one atom (floored)
/// is marginfi's rounding dust and counts as fully repaid; otherwise the
/// remaining debt is the residual shares in atoms, rounded up.
pub fn pool_loan_after_repay(
    pre_loan_shares: u128,
    pre_account_shares: u128,
    post_account_shares: u128,
    liability_share_value_fp48: u128,
) -> (res: Result<PoolRepayOutcome, Error>)
    ensures
        ({
            let burned: int = if pre_account_shares >= post_account_shares {
                pre_account_shares - post_account_shares
            } else {
                0
            };
            let post: int = if pre_loan_shares >= burned {
                pre_loan_shares - burned
            } else {
                0
            };
            let floor = shares_to_atoms_floor(post, liability_share_value_fp48 as int);
            let ceil = shares_to_atoms_ceil(post, liability_share_value_fp48 as int);
            &&& res is Ok <==> (mul_scale_spec(post, liability_share_value_fp48 as int) <= u128::MAX
                && floor <= u64::MAX && (floor > 1 ==> ceil <= u64::MAX))
            &&& res matches Ok(o) ==> {
                &&& o.post_loan_shares == post
                &&& o.did_full_repay == (floor <= 1)
                &&& o.outstanding_after_atoms == (if floor <= 1 {
                    0
                } else {
                    ceil
                })
            }
            &&& res matches Err(e) ==> e == Error::ArithmeticOverflow
        }),
{
    let post_loan_shares = p2pool_post_repay_loan_shares(
        pre_loan_shares,
        pre_account_shares,
        post_account_shares,
    );
    let post_atoms_floor = MarginfiV18Adapter.liability_shares_to_atoms_floor(
        liability_share_value_fp48,
        post_loan_shares,
    )?;
    let did_full_repay = p2pool_residual_is_dust(post_atoms_floor);
    let outstanding_after_atoms: u64 = if did_full_repay {
        0
    } else {
        MarginfiV18Adapter.liability_shares_to_atoms_ceil_at_lsv(
            post_loan_shares,
            liability_share_value_fp48,
        )?
    };
    Ok(PoolRepayOutcome { post_loan_shares, did_full_repay, outstanding_after_atoms })
}

/// How a forced resolution repays a pool loan on marginfi.
#[derive(Debug, Clone, Copy, PartialEq, Eq, Structural)]
pub struct PoolRepayCall {
    /// Use marginfi's repay-all, which clears the whole account.
    pub repay_all: bool,
    /// Atoms handed to marginfi (a cap under repay-all).
    pub amount_atoms: u64,
}

/// Chooses the marginfi repay of a forced resolution: repay-all only when
/// the resolution is full and the loan holds the account's whole liability
/// (so no sibling loan is cleared), capped at `repay_all_cap_atoms`;
/// otherwise an exact repay of the resolved atoms.
pub fn forced_pool_repay_call(
    is_full_repay: bool,
    pre_loan_shares: u128,
    pre_account_shares: u128,
    actual_repay_atoms: u64,
    repay_all_cap_atoms: u64,
) -> (res: PoolRepayCall)
    ensures
        res.repay_all == (is_full_repay && pre_loan_shares == pre_account_shares),
        res.amount_atoms == (if res.repay_all {
            repay_all_cap_atoms
        } else {
            actual_repay_atoms
        }),
{
    let repay_all = is_full_repay && pre_loan_shares == pre_account_shares;
    PoolRepayCall {
        repay_all,
        amount_atoms: if repay_all {
            repay_all_cap_atoms
        } else {
            actual_repay_atoms
        },
    }
}

/// Atoms of a settlement's staged cushion that marginfi left in the market's
/// debt vault, returned to the keeper: the vault's growth since staging,
/// floored at zero.
pub fn staging_refund_atoms(vault_balance_now: u64, vault_balance_before_staging: u64) -> (res: u64)
    ensures
        res == (if vault_balance_now >= vault_balance_before_staging {
            vault_balance_now - vault_balance_before_staging
        } else {
            0
        }),
{
    vault_balance_now.saturating_sub(vault_balance_before_staging)
}

} // verus!
