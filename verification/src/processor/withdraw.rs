//! Withdrawals from, and deposits into, a trader's market seat: sizing the
//! marginfi withdrawal against the seat's and the account's share
//! balances, and ordering the banks the marginfi account is active in.

use vstd::prelude::*;

use crate::error::{Error, YdeltaError};
use crate::processor::params::{DepositParams, WithdrawParams};
use crate::math::mul_scale_spec;
use crate::protocol::marginfi::{asset_shares_result, shares_to_atoms_floor, MarginfiV18Adapter};
use crate::pubkey::keys_equal;

verus! {

/// How a seat withdrawal is carried out.
#[derive(Debug, Clone, Copy, PartialEq, Eq, Structural)]
pub struct SeatWithdrawPlan {
    /// Asset shares withdrawn from marginfi.
    pub expected_shares: u128,
    /// Atoms those shares are worth, floored: the most that is paid out.
    pub expected_atoms: u64,
    /// Shares taken off the seat: its whole balance on a drain, otherwise
    /// the shares withdrawn.
    pub seat_burn_shares: u128,
}

/// Shares the request asks for before the marginfi cap: the seat's whole
/// balance on a drain, otherwise the requested atoms in shares (floored).
pub open spec fn requested_shares(params: WithdrawParams, asv: u128) -> int {
    if params.withdraw_all {
        0
    } else {
        asset_shares_result(asv, params.amount_atoms)->Ok_0 as int
    }
}

/// Sizes a seat withdrawal. An amount request must be positive and, in
/// shares, within the seat's withdrawable balance; a drain asks for the
/// whole balance. The shares withdrawn are capped at what the marginfi
/// account holds (seat shares may exceed it by rounding dust) and must be
/// positive. A drain takes the whole seat balance off the seat; an amount
/// request only the shares withdrawn.
pub fn plan_seat_withdraw(
    params: &WithdrawParams,
    seat_withdrawable_shares: u128,
    marginfi_asset_shares: u128,
    asset_share_value_fp48: u128,
) -> (res: Result<SeatWithdrawPlan, Error>)
    ensures
        !params.withdraw_all && params.amount_atoms == 0 ==> res == Err::<SeatWithdrawPlan, Error>(
            Error::Ydelta(YdeltaError::InvalidWithdrawAccounts),
        ),
        !params.withdraw_all && params.amount_atoms > 0 && asset_shares_result(
            asset_share_value_fp48,
            params.amount_atoms,
        ) is Err ==> res == Err::<SeatWithdrawPlan, Error>(Error::ArithmeticOverflow),
        !params.withdraw_all && params.amount_atoms > 0 && asset_shares_result(
            asset_share_value_fp48,
            params.amount_atoms,
        ) is Ok && requested_shares(*params, asset_share_value_fp48) > seat_withdrawable_shares
            ==> res == Err::<SeatWithdrawPlan, Error>(
            Error::Ydelta(YdeltaError::InsufficientWithdrawableBalance),
        ),
        res matches Ok(p) ==> {
            let raw: int = if params.withdraw_all {
                seat_withdrawable_shares as int
            } else {
                requested_shares(*params, asset_share_value_fp48)
            };
            &&& raw <= seat_withdrawable_shares
            &&& p.expected_shares == (if raw <= marginfi_asset_shares {
                raw
            } else {
                marginfi_asset_shares as int
            })
            &&& p.expected_shares > 0
            &&& p.expected_atoms == shares_to_atoms_floor(
                p.expected_shares as int,
                asset_share_value_fp48 as int,
            )
            &&& p.seat_burn_shares == (if params.withdraw_all {
                seat_withdrawable_shares
            } else {
                p.expected_shares
            })
            &&& p.expected_shares <= p.seat_burn_shares <= seat_withdrawable_shares
        },
        (params.withdraw_all || (params.amount_atoms > 0 && asset_shares_result(
            asset_share_value_fp48,
            params.amount_atoms,
        ) is Ok && requested_shares(*params, asset_share_value_fp48)
            <= seat_withdrawable_shares)) ==> ({
            let raw: int = if params.withdraw_all {
                seat_withdrawable_shares as int
            } else {
                requested_shares(*params, asset_share_value_fp48)
            };
            let capped: int = if raw <= marginfi_asset_shares {
                raw
            } else {
                marginfi_asset_shares as int
            };
            &&& capped == 0 ==> res == Err::<SeatWithdrawPlan, Error>(
                Error::Ydelta(YdeltaError::InsufficientWithdrawableBalance),
            )
            &&& capped > 0 ==> (res is Ok <==> (mul_scale_spec(capped, asset_share_value_fp48 as int) <= u128::MAX
                && shares_to_atoms_floor(capped, asset_share_value_fp48 as int) <= u64::MAX))
            &&& (capped > 0 && res is Err) ==> res == Err::<SeatWithdrawPlan, Error>(
                Error::ArithmeticOverflow,
            )
        }),
{
    if !params.withdraw_all && params.amount_atoms == 0 {
        return Err(Error::Ydelta(YdeltaError::InvalidWithdrawAccounts));
    }
    let raw_expected_shares: u128 = if params.withdraw_all {
        seat_withdrawable_shares
    } else {
        let req = MarginfiV18Adapter.amount_to_asset_shares(
            asset_share_value_fp48,
            params.amount_atoms,
        )?;
        if req > seat_withdrawable_shares {
            return Err(Error::Ydelta(YdeltaError::InsufficientWithdrawableBalance));
        }
        req
    };
    let expected_shares: u128 = if raw_expected_shares <= marginfi_asset_shares {
        raw_expected_shares
    } else {
        marginfi_asset_shares
    };
    if expected_shares == 0 {
        return Err(Error::Ydelta(YdeltaError::InsufficientWithdrawableBalance));
    }
    let expected_atoms = MarginfiV18Adapter.shares_to_amount(asset_share_value_fp48, expected_shares)?;
    let seat_burn_shares: u128 = if params.withdraw_all {
        seat_withdrawable_shares
    } else {
        expected_shares
    };
    Ok(SeatWithdrawPlan { expected_shares, expected_atoms, seat_burn_shares })
}

impl SeatWithdrawPlan {
    /// What the trader is paid once marginfi has delivered `actual_atoms`:
    /// what arrived, but never more than the plan's floored atoms.
    pub fn payout(&self, actual_atoms: u64) -> (res: u64)
        ensures
            res == (if actual_atoms <= self.expected_atoms {
                actual_atoms
            } else {
                self.expected_atoms
            }),
    {
        if actual_atoms <= self.expected_atoms {
            actual_atoms
        } else {
            self.expected_atoms
        }
    }
}

/// Refuses a seat deposit of zero atoms, a deposit on the debt side (debt
/// reaches a seat only through loan settlement), and a transfer that
/// delivered nothing to the staging vault.
pub fn check_seat_deposit(params: &DepositParams, is_debt: bool, received_atoms: u64) -> (res:
    Result<(), Error>)
    ensures
        res is Ok <==> (params.amount_atoms > 0 && !is_debt && received_atoms > 0),
        res matches Err(e) ==> e == Error::Ydelta(YdeltaError::InvalidDepositAccounts),
{
    if params.amount_atoms == 0 || is_debt || received_atoms == 0 {
        return Err(Error::Ydelta(YdeltaError::InvalidDepositAccounts));
    }
    Ok(())
}

/// Which of the market's two banks a marginfi balance is in.
#[derive(Debug, Clone, Copy, PartialEq, Eq, Structural)]
pub enum BankSide {
    Debt,
    Collateral,
}

/// One balance slot of a marginfi account: whether it is in use and the
/// bank it belongs to.
#[derive(Debug, Clone, Copy)]
pub struct BalanceSlot {
    pub active: bool,
    pub bank: [u8; 32],
}

/// The sides of the active balances of `slots`, in slot order, or `None`
/// when an active balance is in a bank that is neither `debt` nor
/// `collateral`. A bank equal to both is taken as the debt bank.
pub open spec fn active_sides(slots: Seq<BalanceSlot>, debt: Seq<u8>, collateral: Seq<u8>) -> Option<
    Seq<BankSide>,
>
    decreases slots.len(),
{
    if slots.len() == 0 {
        Some(Seq::empty())
    } else {
        match active_sides(slots.drop_last(), debt, collateral) {
            None => None,
            Some(prefix) => {
                let last = slots.last();
                if !last.active {
                    Some(prefix)
                } else if last.bank@ == debt {
                    Some(prefix.push(BankSide::Debt))
                } else if last.bank@ == collateral {
                    Some(prefix.push(BankSide::Collateral))
                } else {
                    None
                }
            },
        }
    }
}

/// Lists, in slot order, the side of each active balance of a marginfi
/// account, so that each bank can be passed to marginfi with its oracles.
/// An active balance in any other bank is refused with `IncorrectAccount`.
pub fn order_active_banks(balances: &[BalanceSlot], debt_bank: &[u8; 32], collateral_bank: &[u8; 32]) -> (res:
    Result<Vec<BankSide>, Error>)
    ensures
        active_sides(balances@, debt_bank@, collateral_bank@) is Some <==> res is Ok,
        res matches Ok(v) ==> Some(v@) == active_sides(balances@, debt_bank@, collateral_bank@),
        res matches Err(e) ==> e == Error::Ydelta(YdeltaError::IncorrectAccount),
{
    let mut out: Vec<BankSide> = Vec::new();
    let mut i: usize = 0;
    while i < balances.len()
        invariant
            0 <= i <= balances@.len(),
            active_sides(balances@.take(i as int), debt_bank@, collateral_bank@) == Some(out@),
        decreases balances@.len() - i,
    {
        assert(balances@.take((i + 1) as int).drop_last() =~= balances@.take(i as int));
        let slot = balances[i];
        if slot.active {
            if keys_equal(&slot.bank, debt_bank) {
                out.push(BankSide::Debt);
            } else if keys_equal(&slot.bank, collateral_bank) {
                out.push(BankSide::Collateral);
            } else {
                proof {
                    lemma_active_sides_fails_on_extension(
                        balances@,
                        (i + 1) as int,
                        debt_bank@,
                        collateral_bank@,
                    );
                }
                return Err(Error::Ydelta(YdeltaError::IncorrectAccount));
            }
        }
        i = i + 1;
    }
    assert(balances@.take(balances@.len() as int) =~= balances@);
    Ok(out)
}

/// Once a prefix has an unknown active bank, every longer prefix does too.
proof fn lemma_active_sides_fails_on_extension(
    s: Seq<BalanceSlot>,
    n: int,
    debt: Seq<u8>,
    collateral: Seq<u8>,
)
    requires
        0 <= n <= s.len(),
        active_sides(s.take(n), debt, collateral) is None,
    ensures
        active_sides(s, debt, collateral) is None,
    decreases s.len() - n,
{
    if n < s.len() {
        assert(s.take(n + 1).drop_last() =~= s.take(n));
        lemma_active_sides_fails_on_extension(s, n + 1, debt, collateral);
    } else {
        assert(s.take(n) =~= s);
    }
}

} // verus!
