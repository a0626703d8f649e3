//! How a bid and an offer meet: when an offer crosses a bid, the rates a
//! cross stamps on the loan, and the origination cap a borrower's LTV
//! buffer sets.

use vstd::prelude::*;

use crate::error::{Error, YdeltaError};

verus! {

/// Whether an offer can fill a bid: its rate is at or below the bid's rate,
/// its maximum term covers the bid's term, and its rate has not drifted
/// below the live market lending rate (the fill-time floor).
pub open spec fn crosses(
    bid_rate_bps: u16,
    bid_term_seconds: u32,
    offer_rate_bps: u16,
    offer_max_term_seconds: u32,
    market_floor_rate_bps: u16,
) -> bool {
    &&& offer_rate_bps <= bid_rate_bps
    &&& offer_max_term_seconds >= bid_term_seconds
    &&& offer_rate_bps >= market_floor_rate_bps
}

/// Whether an offer can fill a bid (see [`crosses`]).
pub fn offer_crosses_bid(
    bid_rate_bps: u16,
    bid_term_seconds: u32,
    offer_rate_bps: u16,
    offer_max_term_seconds: u32,
    market_floor_rate_bps: u16,
) -> (res: bool)
    ensures
        res == crosses(
            bid_rate_bps,
            bid_term_seconds,
            offer_rate_bps,
            offer_max_term_seconds,
            market_floor_rate_bps,
        ),
{
    offer_rate_bps <= bid_rate_bps && offer_max_term_seconds >= bid_term_seconds && offer_rate_bps
        >= market_floor_rate_bps
}

/// The rates a cross stamps on the loan.
#[derive(Debug, Clone, Copy, PartialEq, Eq, Structural)]
pub struct MatchPricing {
    /// What the lender earns: the offer's rate.
    pub lender_rate_bps: u16,
    /// What the borrower pays: the bid's rate, but never less than the
    /// offer's rate plus the protocol fee floor.
    pub borrower_rate_bps: u16,
}

/// The borrower's rate on a cross: the larger of the bid's rate and the
/// offer's rate plus the protocol fee floor.
pub open spec fn borrower_rate(bid_rate_bps: u16, offer_rate_bps: u16, protocol_fee_bps_floor: u16) -> int {
    if bid_rate_bps >= offer_rate_bps + protocol_fee_bps_floor {
        bid_rate_bps as int
    } else {
        offer_rate_bps + protocol_fee_bps_floor
    }
}

/// Prices a cross: the lender earns the offer's rate; the borrower pays the
/// larger of the bid's rate and the offer's rate plus the protocol fee
/// floor, so the floor is always collected on top of the lender's rate.
/// Refused when the offer's rate plus the floor does not fit a `u16`.
pub fn price_cross(bid_rate_bps: u16, offer_rate_bps: u16, protocol_fee_bps_floor: u16) -> (res:
    Result<MatchPricing, Error>)
    ensures
        res is Ok <==> offer_rate_bps + protocol_fee_bps_floor <= u16::MAX,
        res matches Ok(p) ==> {
            &&& p.lender_rate_bps == offer_rate_bps
            &&& p.borrower_rate_bps == borrower_rate(bid_rate_bps, offer_rate_bps, protocol_fee_bps_floor)
            &&& p.borrower_rate_bps >= p.lender_rate_bps + protocol_fee_bps_floor
            &&& p.borrower_rate_bps >= bid_rate_bps
        },
        res matches Err(e) ==> e == Error::Ydelta(YdeltaError::MathOverflow),
{
    let with_floor: u16 = match offer_rate_bps.checked_add(protocol_fee_bps_floor) {
        Some(v) => v,
        None => {
            return Err(Error::Ydelta(YdeltaError::MathOverflow));
        },
    };
    let borrower_rate_bps: u16 = if bid_rate_bps >= with_floor {
        bid_rate_bps
    } else {
        with_floor
    };
    Ok(MatchPricing { lender_rate_bps: offer_rate_bps, borrower_rate_bps })
}

/// The strategy's maximum LTV less the borrower's buffer, floored at zero.
pub open spec fn ltv_cap(strategy_max_ltv_bps: u16, ltv_buffer_bps: u16) -> int {
    if strategy_max_ltv_bps >= ltv_buffer_bps {
        strategy_max_ltv_bps - ltv_buffer_bps
    } else {
        0
    }
}

/// The origination LTV cap of a bid (see [`ltv_cap`]); it never exceeds the
/// strategy's maximum.
pub fn effective_ltv_cap(strategy_max_ltv_bps: u16, ltv_buffer_bps: u16) -> (res: u16)
    ensures
        res == ltv_cap(strategy_max_ltv_bps, ltv_buffer_bps),
        res <= strategy_max_ltv_bps,
{
    strategy_max_ltv_bps.saturating_sub(ltv_buffer_bps)
}

/// Tightening the buffer never raises the origination cap.
pub proof fn lemma_buffer_monotone(strategy_max_ltv_bps: u16, b1: u16, b2: u16)
    requires
        b1 <= b2,
    ensures
        ltv_cap(strategy_max_ltv_bps, b2) <= ltv_cap(strategy_max_ltv_bps, b1),
{
}

/// A cross never pays the lender more than the bid offered, and the
/// protocol's cut (borrower rate less lender rate) is at least the floor.
pub proof fn lemma_cross_spread(
    bid_rate_bps: u16,
    bid_term_seconds: u32,
    offer_rate_bps: u16,
    offer_max_term_seconds: u32,
    market_floor_rate_bps: u16,
    protocol_fee_bps_floor: u16,
)
    requires
        crosses(
            bid_rate_bps,
            bid_term_seconds,
            offer_rate_bps,
            offer_max_term_seconds,
            market_floor_rate_bps,
        ),
    ensures
        offer_rate_bps <= bid_rate_bps,
        borrower_rate(bid_rate_bps, offer_rate_bps, protocol_fee_bps_floor) - offer_rate_bps
            >= protocol_fee_bps_floor,
        borrower_rate(bid_rate_bps, offer_rate_bps, protocol_fee_bps_floor) >= bid_rate_bps,
{
}

} // verus!
