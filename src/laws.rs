//! Properties of the transition engine that relate several transitions or calls.
use vstd::prelude::*;
use crate::record::{performs, step, EmployeeData, ErrorCode, Transition};

verus! {

/// From any record, the three transitions that start an active phase
/// (`ClockIn`, `IntermittentOut`, `LunchOut`) succeed exactly when the record
/// is inactive and otherwise fail with `AlreadyClockedIn`; the three that end
/// one (`ClockOut`, `IntermittentIn`, `LunchIn`) succeed exactly when it is
/// active and otherwise fail with `NotClockedIn`. So exactly one of the two
/// groups succeeds.
pub proof fn lemma_polarity_exclusive(rec: EmployeeData, now: u64)
    ensures
        step(rec, Transition::ClockIn, now) is Ok <==> !rec.active,
        step(rec, Transition::IntermittentOut, now) is Ok <==> !rec.active,
        step(rec, Transition::LunchOut, now) is Ok <==> !rec.active,
        step(rec, Transition::ClockOut, now) is Ok <==> rec.active,
        step(rec, Transition::IntermittentIn, now) is Ok <==> rec.active,
        step(rec, Transition::LunchIn, now) is Ok <==> rec.active,
        rec.active ==> step(rec, Transition::ClockIn, now) == Err::<EmployeeData, ErrorCode>(ErrorCode::AlreadyClockedIn),
        rec.active ==> step(rec, Transition::IntermittentOut, now) == Err::<EmployeeData, ErrorCode>(ErrorCode::AlreadyClockedIn),
        rec.active ==> step(rec, Transition::LunchOut, now) == Err::<EmployeeData, ErrorCode>(ErrorCode::AlreadyClockedIn),
        !rec.active ==> step(rec, Transition::ClockOut, now) == Err::<EmployeeData, ErrorCode>(ErrorCode::NotClockedIn),
        !rec.active ==> step(rec, Transition::IntermittentIn, now) == Err::<EmployeeData, ErrorCode>(ErrorCode::NotClockedIn),
        !rec.active ==> step(rec, Transition::LunchIn, now) == Err::<EmployeeData, ErrorCode>(ErrorCode::NotClockedIn),
{
}

/// A transition that fails touches no field: the record after the call is the
/// record before it.
pub proof fn lemma_failure_preserves(
    before: EmployeeData,
    after: EmployeeData,
    t: Transition,
    now: u64,
    r: Result<(), ErrorCode>,
)
    requires
        performs(before, after, t, now, r),
        r is Err,
    ensures
        after == before,
{
}

/// A transition that succeeds flips `active`, sets the one timestamp field of
/// the transition to `now`, and leaves the other five timestamp fields as they were.
pub proof fn lemma_timestamp_isolation(
    before: EmployeeData,
    after: EmployeeData,
    t: Transition,
    now: u64,
    r: Result<(), ErrorCode>,
)
    requires
        performs(before, after, t, now, r),
        r is Ok,
    ensures
        after.active != before.active,
        after.timestamps() == before.timestamps().update(t.slot(), now),
        forall|i: int|
            0 <= i < 6 && i != t.slot() ==> #[trigger] after.timestamps()[i]
                == before.timestamps()[i],
{
    assert(after.timestamps() =~= before.timestamps().update(t.slot(), now));
}

/// Calling a transition that fails, then the same transition again with no
/// other call between, gives the same error both times, and the record stays
/// as it was.
pub proof fn lemma_failure_repeats(
    before: EmployeeData,
    middle: EmployeeData,
    after: EmployeeData,
    t: Transition,
    now1: u64,
    now2: u64,
    r1: Result<(), ErrorCode>,
    r2: Result<(), ErrorCode>,
)
    requires
        performs(before, middle, t, now1, r1),
        r1 is Err,
        performs(middle, after, t, now2, r2),
    ensures
        r2 == r1,
        after == before,
{
}

} // verus!
