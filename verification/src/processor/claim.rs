//! Claims of repaid loans and of accumulated fees: the checks a lender's
//! claim must pass, how the claimed shares move on the lender's seat, how a
//! risk profile's seat is swept into its vault, and how curator and
//! protocol fees are paid out.

use vstd::prelude::*;

use crate::error::{Error, YdeltaError};
use crate::processor::vault::{split_withdraw_proceeds, WithdrawProceeds};
use crate::protocol::marginfi::{asset_shares_result, shares_to_atoms_floor, MarginfiV18Adapter};
use crate::math::mul_scale_spec;
use crate::pubkey::keys_equal;

verus! {

/// Checks a lender's claim on a fixed-rate loan: the loan must be fully
/// repaid, it must have reached maturity (the lender's principal stays
/// locked for the whole term even when repaid early), and the signer must
/// own the lender seat.
pub fn check_claim_repayment(
    outstanding_debt_atoms: u64,
    now_unix: i64,
    matures_at_unix: i64,
    seat_owner: &[u8; 32],
    signer: &[u8; 32],
) -> (res: Result<(), Error>)
    ensures
        res is Ok <==> (outstanding_debt_atoms == 0 && now_unix >= matures_at_unix && signer@
            == seat_owner@),
        outstanding_debt_atoms != 0 ==> res == Err::<(), Error>(
            Error::Ydelta(YdeltaError::InvalidArgument),
        ),
        outstanding_debt_atoms == 0 && now_unix < matures_at_unix ==> res == Err::<(), Error>(
            Error::Ydelta(YdeltaError::LoanNotMatured),
        ),
        outstanding_debt_atoms == 0 && now_unix >= matures_at_unix && signer@ != seat_owner@
            ==> res == Err::<(), Error>(Error::Ydelta(YdeltaError::OrderNotOwnedBySigner)),
{
    if outstanding_debt_atoms != 0 {
        return Err(Error::Ydelta(YdeltaError::InvalidArgument));
    }
    if now_unix < matures_at_unix {
        return Err(Error::Ydelta(YdeltaError::LoanNotMatured));
    }
    if !keys_equal(signer, seat_owner) {
        return Err(Error::Ydelta(YdeltaError::OrderNotOwnedBySigner));
    }
    Ok(())
}

/// The debt-side share balances of a lender's market seat.
#[derive(Debug, Clone, Copy, PartialEq, Eq, Structural)]
pub struct LenderSeatShares {
    /// Shares reserved for open loans.
    pub debt_encumbered_shares: u128,
    /// Shares the owner may withdraw.
    pub debt_withdrawable_shares: u128,
    /// Open loans lent from the seat.
    pub open_lend_count: u32,
}

/// Releases a settled loan's claim to its lender's seat: `claim_shares`
/// move from encumbered (floored at zero, which absorbs accrued interest
/// beyond the encumbered principal) to withdrawable, and the seat has one
/// open loan fewer (floored at zero). On error the seat is untouched.
pub fn release_claim_to_seat(seat: &mut LenderSeatShares, claim_shares: u128) -> (res: Result<
    (),
    Error,
>)
    ensures
        res is Ok <==> old(seat).debt_withdrawable_shares + claim_shares <= u128::MAX,
        res is Ok ==> {
            &&& final(seat).debt_encumbered_shares == (if old(seat).debt_encumbered_shares
                >= claim_shares {
                old(seat).debt_encumbered_shares - claim_shares
            } else {
                0
            })
            &&& final(seat).debt_withdrawable_shares == old(seat).debt_withdrawable_shares
                + claim_shares
            &&& final(seat).open_lend_count == (if old(seat).open_lend_count > 0 {
                old(seat).open_lend_count - 1
            } else {
                0
            })
        },
        res is Ok && claim_shares <= old(seat).debt_encumbered_shares ==> final(seat).debt_encumbered_shares
            + final(seat).debt_withdrawable_shares == old(seat).debt_encumbered_shares + old(seat).debt_withdrawable_shares,
        res is Err ==> *final(seat) == *old(seat),
        res matches Err(e) ==> e == Error::ArithmeticOverflow,
{
    let withdrawable = match seat.debt_withdrawable_shares.checked_add(claim_shares) {
        Some(v) => v,
        None => {
            return Err(Error::ArithmeticOverflow);
        },
    };
    seat.debt_encumbered_shares = seat.debt_encumbered_shares.saturating_sub(claim_shares);
    seat.debt_withdrawable_shares = withdrawable;
    seat.open_lend_count = seat.open_lend_count.saturating_sub(1);
    Ok(())
}

/// The outcome of sweeping a risk profile's market seat into its vault.
#[derive(Debug, Clone, Copy, PartialEq, Eq, Structural)]
pub struct ClaimSweep {
    /// The seat's withdrawable shares after the sweep.
    pub seat_shares_after: u128,
    /// The profile's in-transit claim counter after the sweep.
    pub pending_claim_after: u64,
    /// Atoms forwarded from the market into the vault.
    pub forward_atoms: u64,
}

/// Settles a sweep once marginfi has answered the withdrawal of the seat's
/// pending shares. The seat is decremented by the shares marginfi actually
/// burned (never by the shares asked for), so drift cannot accumulate. When
/// marginfi paid out nothing (dust), nothing is forwarded and the profile is
/// unchanged; otherwise the atoms are forwarded and leave the profile's
/// in-transit counter (floored at zero).
pub fn settle_claim_sweep(
    seat_withdrawable_shares: u128,
    pending_claim_atoms: u64,
    actual_atoms: u64,
    actual_shares_burned: u128,
) -> (res: ClaimSweep)
    ensures
        res.seat_shares_after == (if seat_withdrawable_shares >= actual_shares_burned {
            seat_withdrawable_shares - actual_shares_burned
        } else {
            0
        }),
        res.forward_atoms == actual_atoms,
        actual_atoms == 0 ==> res.pending_claim_after == pending_claim_atoms,
        actual_atoms > 0 ==> res.pending_claim_after == (if pending_claim_atoms >= actual_atoms {
            pending_claim_atoms - actual_atoms
        } else {
            0
        }),
        res.seat_shares_after <= seat_withdrawable_shares,
        res.pending_claim_after <= pending_claim_atoms,
{
    let seat_shares_after = seat_withdrawable_shares.saturating_sub(actual_shares_burned);
    if actual_atoms == 0 {
        return ClaimSweep {
            seat_shares_after,
            pending_claim_after: pending_claim_atoms,
            forward_atoms: 0,
        };
    }
    ClaimSweep {
        seat_shares_after,
        pending_claim_after: pending_claim_atoms.saturating_sub(actual_atoms),
        forward_atoms: actual_atoms,
    }
}

/// Shares to withdraw for a curator's fee claim: only the curator may
/// claim; nothing is withdrawn when no fee has accumulated; otherwise the
/// fee in asset shares, floored.
pub fn plan_curator_fee_claim(
    signer: &[u8; 32],
    curator: &[u8; 32],
    accumulated_fee_atoms: u64,
    asset_share_value_fp48: u128,
) -> (res: Result<Option<u128>, Error>)
    ensures
        signer@ != curator@ ==> res == Err::<Option<u128>, Error>(
            Error::Ydelta(YdeltaError::VaultCuratorRequired),
        ),
        signer@ == curator@ && accumulated_fee_atoms == 0 ==> res == Ok::<Option<u128>, Error>(
            None,
        ),
        signer@ == curator@ && accumulated_fee_atoms > 0 ==> match asset_shares_result(
            asset_share_value_fp48,
            accumulated_fee_atoms,
        ) {
            Ok(v) => res == Ok::<Option<u128>, Error>(Some(v)),
            Err(e) => res == Err::<Option<u128>, Error>(e),
        },
{
    if !keys_equal(signer, curator) {
        return Err(Error::Ydelta(YdeltaError::VaultCuratorRequired));
    }
    if accumulated_fee_atoms == 0 {
        return Ok(None);
    }
    let shares = MarginfiV18Adapter.amount_to_asset_shares(
        asset_share_value_fp48,
        accumulated_fee_atoms,
    )?;
    Ok(Some(shares))
}

/// Settles a fee payout once marginfi has answered the withdrawal: the
/// claimant gets up to `fee_atoms`, the rest goes back to the lending
/// account, and the fee counter drops by what was paid (floored at zero).
pub fn settle_fee_payout(accumulated_fee_atoms: u64, fee_atoms: u64, actual_atoms: u64) -> (res: (
    WithdrawProceeds,
    u64,
))
    ensures
        res.0.payout_atoms == (if actual_atoms <= fee_atoms {
            actual_atoms
        } else {
            fee_atoms
        }),
        res.0.payout_atoms + res.0.surplus_atoms == actual_atoms,
        res.1 == (if accumulated_fee_atoms >= res.0.payout_atoms {
            accumulated_fee_atoms - res.0.payout_atoms
        } else {
            0
        }),
{
    let proceeds = split_withdraw_proceeds(actual_atoms, fee_atoms);
    (proceeds, accumulated_fee_atoms.saturating_sub(proceeds.payout_atoms))
}

/// Takes a market's accumulated protocol-fee shares for payout: returns the
/// shares and the atoms they are worth (floored) and zeroes the
/// accumulator, or `None` when nothing has accumulated. On error the
/// accumulator is untouched.
pub fn take_protocol_fee(accumulated_fee_shares: &mut u128, asset_share_value_fp48: u128) -> (res:
    Result<Option<(u128, u64)>, Error>)
    ensures
        *old(accumulated_fee_shares) == 0 ==> res == Ok::<Option<(u128, u64)>, Error>(None)
            && *final(accumulated_fee_shares) == 0,
        *old(accumulated_fee_shares) > 0 ==> (res is Ok <==> (mul_scale_spec(
            *old(accumulated_fee_shares) as int,
            asset_share_value_fp48 as int,
        ) <= u128::MAX && shares_to_atoms_floor(
            *old(accumulated_fee_shares) as int,
            asset_share_value_fp48 as int,
        ) <= u64::MAX)),
        res matches Ok(Some(t)) ==> t.0 == *old(accumulated_fee_shares) && t.1
            == shares_to_atoms_floor(t.0 as int, asset_share_value_fp48 as int)
            && *final(accumulated_fee_shares) == 0,
        res is Err ==> *final(accumulated_fee_shares) == *old(accumulated_fee_shares),
        res matches Err(e) ==> e == Error::ArithmeticOverflow,
{
    let fee_shares = *accumulated_fee_shares;
    if fee_shares == 0 {
        return Ok(None);
    }
    let fee_atoms = MarginfiV18Adapter.shares_to_amount(asset_share_value_fp48, fee_shares)?;
    *accumulated_fee_shares = 0;
    Ok(Some((fee_shares, fee_atoms)))
}

} // verus!
