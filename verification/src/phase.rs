use vstd::prelude::*;

verus! {

/// The lifecycle stage of a poll relative to the clock. It is never stored:
/// it is derived fresh on each call from the poll's window, so it cannot go
/// stale.
#[derive(Clone, Copy, Debug, PartialEq, Eq, Structural)]
pub enum Phase {
    Unstarted,
    Active,
    Ended,
}

/// The stage a poll with window `[start, end)` is in at time `now`:
/// `Unstarted` strictly before `start`, `Active` from `start` inclusive to
/// `end` exclusive, `Ended` from `end` on.
pub open spec fn spec_phase(now: u64, start: u64, end: u64) -> Phase {
    if now < start {
        Phase::Unstarted
    } else if now < end {
        Phase::Active
    } else {
        Phase::Ended
    }
}

/// Computes the poll stage at time `now` for the window `[start, end)`.
pub fn phase(now: u64, start: u64, end: u64) -> (p: Phase)
    ensures
        p == spec_phase(now, start, end),
{
    if now < start {
        Phase::Unstarted
    } else if now < end {
        Phase::Active
    } else {
        Phase::Ended
    }
}

} // verus!
