//! The permissionless match crank: it walks the resting asks best-first,
//! skips those priced under the live lending floor, and hands each of the
//! others to the matching engine until its fill budget is spent.

use vstd::prelude::*;

use crate::processor::params::MatchCrankParams;

verus! {

/// What a crank run has left to fill and what it has filled so far.
#[derive(Debug, Clone, Copy, PartialEq, Eq, Structural)]
pub struct CrankBudget {
    /// Fills the run may still make.
    pub remaining: u32,
    /// Fills made so far.
    pub total_fills: u32,
}

/// What the crank does with the next resting ask.
#[derive(Debug, Clone, Copy, PartialEq, Eq, Structural)]
pub enum CrankStep {
    /// The budget is spent: the walk ends.
    Stop,
    /// The ask is priced under the floor and never fills; go on.
    SkipBelowFloor,
    /// Look the ask's sub-vault up and, when it exists, take the resting
    /// bids that cross the ask, within the remaining budget.
    Take,
}

/// A run's fill budget: the requested fills, at least one.
pub open spec fn initial_budget(max_fills: u32) -> u32 {
    if max_fills >= 1 {
        max_fills
    } else {
        1
    }
}

/// The step the crank takes on an ask of `ask_rate_bps` under `floor_bps`.
pub open spec fn crank_step_spec(remaining: u32, ask_rate_bps: u16, floor_bps: u16) -> CrankStep {
    if remaining == 0 {
        CrankStep::Stop
    } else if ask_rate_bps < floor_bps {
        CrankStep::SkipBelowFloor
    } else {
        CrankStep::Take
    }
}

/// Opens a crank run with the requested budget, raised to one fill when
/// zero was asked for.
pub fn start_crank(params: &MatchCrankParams) -> (res: CrankBudget)
    ensures
        res.remaining == initial_budget(params.max_fills),
        res.total_fills == 0,
{
    let remaining: u32 = if params.max_fills >= 1 {
        params.max_fills
    } else {
        1
    };
    CrankBudget { remaining, total_fills: 0 }
}

impl CrankBudget {
    /// Decides what to do with the next ask: stop once the budget is spent,
    /// skip an ask under the floor, take the others.
    pub fn step(&self, ask_rate_bps: u16, floor_bps: u16) -> (res: CrankStep)
        ensures
            res == crank_step_spec(self.remaining, ask_rate_bps, floor_bps),
    {
        if self.remaining == 0 {
            CrankStep::Stop
        } else if ask_rate_bps < floor_bps {
            CrankStep::SkipBelowFloor
        } else {
            CrankStep::Take
        }
    }

    /// Books the fills the engine made on one ask: they add to the total and
    /// come off the remaining budget, both saturating.
    pub fn record_fills(&mut self, num_fills: u32)
        ensures
            final(self).total_fills == (if old(self).total_fills + num_fills <= u32::MAX {
                (old(self).total_fills + num_fills) as u32
            } else {
                u32::MAX
            }),
            final(self).remaining == (if num_fills <= old(self).remaining {
                (old(self).remaining - num_fills) as u32
            } else {
                0u32
            }),
            final(self).remaining <= old(self).remaining,
            num_fills <= old(self).remaining && old(self).total_fills + old(self).remaining
                <= u32::MAX ==> final(self).total_fills + final(self).remaining
                == old(self).total_fills + old(self).remaining,
            *final(self) == crank_after(*old(self), seq![num_fills]),
    {
        proof {
            reveal_with_fuel(crank_after, 2);
            assert(seq![num_fills].drop_last() =~= Seq::<u32>::empty());
        }
        self.total_fills = self.total_fills.saturating_add(num_fills);
        self.remaining = self.remaining.saturating_sub(num_fills);
    }
}

/// A run never fills more than its budget: from the start, as long as the
/// engine makes no more fills on an ask than the budget it was handed, the
/// fills made and the budget left always add up to the initial budget.
pub proof fn lemma_crank_conserves_budget(start: CrankBudget, fills: Seq<u32>)
    requires
        start.total_fills == 0,
    ensures
        ({
            let end = crank_after(start, fills);
            &&& end.remaining <= start.remaining
            &&& within_budget(start, fills) ==> end.total_fills + end.remaining
                == start.remaining
        }),
    decreases fills.len(),
{
    if fills.len() > 0 {
        lemma_crank_conserves_budget(start, fills.drop_last());
    }
}

/// The budget after booking `fills`, one entry per ask taken.
pub open spec fn crank_after(start: CrankBudget, fills: Seq<u32>) -> CrankBudget
    decreases fills.len(),
{
    if fills.len() == 0 {
        start
    } else {
        let prev = crank_after(start, fills.drop_last());
        let n = fills.last();
        CrankBudget {
            total_fills: if prev.total_fills + n <= u32::MAX {
                (prev.total_fills + n) as u32
            } else {
                u32::MAX
            },
            remaining: if n <= prev.remaining {
                (prev.remaining - n) as u32
            } else {
                0u32
            },
        }
    }
}

/// Whether each entry of `fills` stays within the budget left when it was
/// booked.
pub open spec fn within_budget(start: CrankBudget, fills: Seq<u32>) -> bool
    decreases fills.len(),
{
    if fills.len() == 0 {
        true
    } else {
        within_budget(start, fills.drop_last()) && fills.last() <= crank_after(
            start,
            fills.drop_last(),
        ).remaining
    }
}

} // verus!
