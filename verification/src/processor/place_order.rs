//! What follows the matching of a borrower's bid: whether the unfilled
//! remainder opens a pool-backed loan, rests on the book, or is dropped,
//! and the share deltas the pool-backed tail reads across its marginfi
//! calls.

use vstd::prelude::*;

use crate::error::{Error, YdeltaError};

verus! {

/// The steps that follow a matched bid.
#[derive(Debug, Clone, Copy, PartialEq, Eq, Structural)]
pub struct BidFollowUp {
    /// Borrow the remainder from the pool and lend it to the market.
    pub open_pool_tail: bool,
    /// Record the resting bid on the borrower's account.
    pub record_resting_bid: bool,
    /// Report the remainder as dropped by an immediate-or-cancel bid.
    pub log_dropped_residual: bool,
}

/// Decides what follows the matching of a bid: a pool-backed loan is opened
/// for a positive remainder when the match created one; a rested bid is
/// recorded on the borrower's account; a positive remainder that neither
/// rested nor went to the pool is reported as dropped.
pub fn bid_follow_up(pool_loan_created: bool, rested: bool, remaining_principal: u64) -> (res:
    BidFollowUp)
    ensures
        res.open_pool_tail == (pool_loan_created && remaining_principal > 0),
        res.record_resting_bid == rested,
        res.log_dropped_residual == (!rested && !pool_loan_created && remaining_principal > 0),
{
    BidFollowUp {
        open_pool_tail: pool_loan_created && remaining_principal > 0,
        record_resting_bid: rested,
        log_dropped_residual: !rested && !pool_loan_created && remaining_principal > 0,
    }
}

/// Shares an account gained across an outside call (a borrow opening
/// liability shares, a deposit crediting asset shares). A balance that
/// shrank means the account is not the one the call acted on.
pub fn shares_gained(pre_shares: u128, post_shares: u128) -> (res: Result<u128, Error>)
    ensures
        res is Ok <==> post_shares >= pre_shares,
        res matches Ok(v) ==> v == post_shares - pre_shares && pre_shares + v == post_shares,
        res matches Err(e) ==> e == Error::Ydelta(YdeltaError::IncorrectAccount),
{
    if post_shares < pre_shares {
        return Err(Error::Ydelta(YdeltaError::IncorrectAccount));
    }
    Ok(post_shares - pre_shares)
}

} // verus!
