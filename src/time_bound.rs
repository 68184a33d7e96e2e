use vstd::prelude::*;

verus! {

#[derive(Debug, Clone, Copy, PartialEq, Eq, Structural)]
pub enum TimeBoundKind {
    Before,
    After,
}

/// A predicate on the ledger time that gates an escrow withdrawal.
#[derive(Debug, Clone, Copy, PartialEq, Eq, Structural)]
pub struct TimeBound {
    pub kind: TimeBoundKind,
    pub timestamp: u64,
}

impl TimeBound {
    /// `Before(t)` holds up to and including `t`; `After(t)` from `t` on.
    pub open spec fn holds(self, now: u64) -> bool {
        match self.kind {
            TimeBoundKind::Before => now <= self.timestamp,
            TimeBoundKind::After => now >= self.timestamp,
        }
    }
}

/// Tests `time_bound` against the ledger time `now`.
pub fn check_time_bound(time_bound: &TimeBound, now: u64) -> (r: bool)
    ensures
        r == time_bound.holds(now),
{
    match time_bound.kind {
        TimeBoundKind::Before => now <= time_bound.timestamp,
        TimeBoundKind::After => now >= time_bound.timestamp,
    }
}

} // verus!
