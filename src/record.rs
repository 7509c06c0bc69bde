//! The punch record and the transition engine over it.
use vstd::prelude::*;

verus! {

/// Why a transition was refused.
#[derive(PartialEq, Eq, Structural, Clone, Copy, Debug)]
pub enum ErrorCode {
    /// The transition starts an active phase, but the record is already active.
    AlreadyClockedIn,
    /// The transition ends an active phase, but the record is not active.
    NotClockedIn,
}

/// One employee's punch state: the active flag and the latest timestamp of
/// each of the six clock events.
#[derive(PartialEq, Eq, Structural, Clone, Copy, Debug)]
pub struct EmployeeData {
    pub active: bool,
    pub shift_start_clock: u64,
    pub shift_end_clock: u64,
    pub intermittent_start_clock: u64,
    pub intermittent_end_clock: u64,
    pub lunch_start_clock: u64,
    pub lunch_end_clock: u64,
}

/// The six guarded transitions.
#[derive(PartialEq, Eq, Structural, Clone, Copy, Debug)]
pub enum Transition {
    ClockIn,
    ClockOut,
    IntermittentIn,
    IntermittentOut,
    LunchIn,
    LunchOut,
}

impl Transition {
    /// The value of `active` that the transition requires; it sets the opposite.
    pub open spec fn needs_active(self) -> bool {
        match self {
            Transition::ClockOut | Transition::IntermittentIn | Transition::LunchIn => true,
            _ => false,
        }
    }

    /// The error raised when `active` does not have the required value.
    pub open spec fn refusal(self) -> ErrorCode {
        if self.needs_active() {
            ErrorCode::NotClockedIn
        } else {
            ErrorCode::AlreadyClockedIn
        }
    }

    /// Position, in `EmployeeData::timestamps`, of the field that the transition stamps.
    pub open spec fn slot(self) -> int {
        match self {
            Transition::ClockIn => 0,
            Transition::ClockOut => 1,
            Transition::IntermittentIn => 2,
            Transition::IntermittentOut => 3,
            Transition::LunchIn => 4,
            Transition::LunchOut => 5,
        }
    }
}

impl EmployeeData {
    /// The six timestamps, in the order shift, intermittent break, lunch; start before end.
    pub open spec fn timestamps(self) -> Seq<u64> {
        seq![
            self.shift_start_clock,
            self.shift_end_clock,
            self.intermittent_start_clock,
            self.intermittent_end_clock,
            self.lunch_start_clock,
            self.lunch_end_clock,
        ]
    }

    /// The state of a record just created: inactive, every timestamp zero.
    pub open spec fn is_initial(self) -> bool {
        &&& !self.active
        &&& self.timestamps() == seq![0u64, 0u64, 0u64, 0u64, 0u64, 0u64]
    }

    /// The record with `active` flipped and the field of `t` set to `now`.
    pub open spec fn stamped(self, t: Transition, now: u64) -> EmployeeData {
        let active = !self.active;
        match t {
            Transition::ClockIn => EmployeeData { active, shift_start_clock: now, ..self },
            Transition::ClockOut => EmployeeData { active, shift_end_clock: now, ..self },
            Transition::IntermittentIn => EmployeeData { active, intermittent_start_clock: now, ..self },
            Transition::IntermittentOut => EmployeeData { active, intermittent_end_clock: now, ..self },
            Transition::LunchIn => EmployeeData { active, lunch_start_clock: now, ..self },
            Transition::LunchOut => EmployeeData { active, lunch_end_clock: now, ..self },
        }
    }

    /// A fresh record: inactive, with every timestamp zero.
    pub fn new() -> (r: EmployeeData)
        ensures
            r.is_initial(),
    {
        EmployeeData {
            active: false,
            shift_start_clock: 0,
            shift_end_clock: 0,
            intermittent_start_clock: 0,
            intermittent_end_clock: 0,
            lunch_start_clock: 0,
            lunch_end_clock: 0,
        }
    }
}

/// What transition `t` at time `now` does to `rec`: the stamped record when
/// `active` has the value that `t` requires, else the error of `t`.
pub open spec fn step(rec: EmployeeData, t: Transition, now: u64) -> Result<EmployeeData, ErrorCode> {
    if rec.active == t.needs_active() {
        Ok(rec.stamped(t, now))
    } else {
        Err(t.refusal())
    }
}

/// `r` and the record after the call are what `step` gives for the record before it.
pub open spec fn performs(
    before: EmployeeData,
    after: EmployeeData,
    t: Transition,
    now: u64,
    r: Result<(), ErrorCode>,
) -> bool {
    match step(before, t, now) {
        Ok(next) => r == Ok::<(), ErrorCode>(()) && after == next,
        Err(e) => r == Err::<(), ErrorCode>(e) && after == before,
    }
}

/// Starts a shift: requires an inactive record, sets `active`, stamps `shift_start_clock`.
pub fn clock_in(data: &mut EmployeeData, now: u64) -> (r: Result<(), ErrorCode>)
    ensures
        performs(*old(data), *final(data), Transition::ClockIn, now, r),
        r is Err <==> old(data).active,
{
    if data.active {
        return Err(ErrorCode::AlreadyClockedIn);
    }
    data.active = true;
    data.shift_start_clock = now;
    Ok(())
}

/// Ends a shift: requires an active record, clears `active`, stamps `shift_end_clock`.
pub fn clock_out(data: &mut EmployeeData, now: u64) -> (r: Result<(), ErrorCode>)
    ensures
        performs(*old(data), *final(data), Transition::ClockOut, now, r),
        r is Err <==> !old(data).active,
{
    if !data.active {
        return Err(ErrorCode::NotClockedIn);
    }
    data.active = false;
    data.shift_end_clock = now;
    Ok(())
}

/// Starts a miscellaneous break: requires an active record, clears `active`,
/// stamps `intermittent_start_clock`.
pub fn clock_intermittent_in(data: &mut EmployeeData, now: u64) -> (r: Result<(), ErrorCode>)
    ensures
        performs(*old(data), *final(data), Transition::IntermittentIn, now, r),
        r is Err <==> !old(data).active,
{
    if !data.active {
        return Err(ErrorCode::NotClockedIn);
    }
    data.active = false;
    data.intermittent_start_clock = now;
    Ok(())
}

/// Ends a miscellaneous break: requires an inactive record, sets `active`,
/// stamps `intermittent_end_clock`.
pub fn clock_intermittent_out(data: &mut EmployeeData, now: u64) -> (r: Result<(), ErrorCode>)
    ensures
        performs(*old(data), *final(data), Transition::IntermittentOut, now, r),
        r is Err <==> old(data).active,
{
    if data.active {
        return Err(ErrorCode::AlreadyClockedIn);
    }
    data.active = true;
    data.intermittent_end_clock = now;
    Ok(())
}

/// Starts a lunch break: requires an active record, clears `active`, stamps `lunch_start_clock`.
pub fn clock_lunch_in(data: &mut EmployeeData, now: u64) -> (r: Result<(), ErrorCode>)
    ensures
        performs(*old(data), *final(data), Transition::LunchIn, now, r),
        r is Err <==> !old(data).active,
{
    if !data.active {
        return Err(ErrorCode::NotClockedIn);
    }
    data.active = false;
    data.lunch_start_clock = now;
    Ok(())
}

/// Ends a lunch break: requires an inactive record, sets `active`, stamps `lunch_end_clock`.
pub fn clock_lunch_out(data: &mut EmployeeData, now: u64) -> (r: Result<(), ErrorCode>)
    ensures
        performs(*old(data), *final(data), Transition::LunchOut, now, r),
        r is Err <==> old(data).active,
{
    if data.active {
        return Err(ErrorCode::AlreadyClockedIn);
    }
    data.active = true;
    data.lunch_end_clock = now;
    Ok(())
}

/// Performs transition `t` at time `now` on `data`.
pub fn apply(data: &mut EmployeeData, t: Transition, now: u64) -> (r: Result<(), ErrorCode>)
    ensures
        performs(*old(data), *final(data), t, now, r),
{
    match t {
        Transition::ClockIn => clock_in(data, now),
        Transition::ClockOut => clock_out(data, now),
        Transition::IntermittentIn => clock_intermittent_in(data, now),
        Transition::IntermittentOut => clock_intermittent_out(data, now),
        Transition::LunchIn => clock_lunch_in(data, now),
        Transition::LunchOut => clock_lunch_out(data, now),
    }
}

} // verus!
