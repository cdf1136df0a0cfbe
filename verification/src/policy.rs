//! Temporal policy: an exam's phase is derived from the current time and the
//! stored start/end instants (millisecond epoch), never persisted.

use vstd::prelude::*;

verus! {

/// Derived temporal status of an exam.
#[derive(Clone, Copy, Debug, PartialEq, Eq, Structural)]
pub enum Phase {
    NotStarted,
    Open,
    Closed,
}

/// The phase of an exam at instant `now`, given its window `[start, end]`:
/// before `start` it has not started, from `start` through `end` it is open,
/// after `end` it is closed.
pub open spec fn spec_phase(now: int, start: int, end: int) -> Phase {
    if now < start {
        Phase::NotStarted
    } else if now <= end {
        Phase::Open
    } else {
        Phase::Closed
    }
}

/// Computes the phase of the window `[start, end]` at instant `now`.
pub fn phase(now: i64, start: i64, end: i64) -> (p: Phase)
    ensures
        p == spec_phase(now as int, start as int, end as int),
{
    if now < start {
        Phase::NotStarted
    } else if now <= end {
        Phase::Open
    } else {
        Phase::Closed
    }
}

/// A schedule is acceptable at instant `now` when its start is not in the
/// past and its end does not precede its start.
pub open spec fn spec_schedule_ok(now: int, start: int, end: int) -> bool {
    start >= now && end >= start
}

/// Checks the creation/edit schedule rule for the window `[start, end]`.
pub fn schedule_ok(now: i64, start: i64, end: i64) -> (ok: bool)
    ensures
        ok == spec_schedule_ok(now as int, start as int, end as int),
{
    start >= now && end >= start
}

} // verus!
