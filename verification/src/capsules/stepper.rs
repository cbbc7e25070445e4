use vstd::prelude::*;
use crate::error_code::{CommandReturn, ErrorCode};
use crate::process::{ProcessError, ProcessId, owner_is_live, spec_owner_is_live};

verus! {

/// Number of phase windings.
pub const PHASES: usize = 4;

/// Rows in the half-step sequence.
pub const SEQUENCE_LEN: usize = 8;

/// The half-step sequence: which windings are energised in each row. One
/// step advances it by one row.
pub open spec fn spec_sequence(row: usize) -> [bool; 4] {
    if row == 0 {
        [true, false, false, false]
    } else if row == 1 {
        [true, true, false, false]
    } else if row == 2 {
        [false, true, false, false]
    } else if row == 3 {
        [false, true, true, false]
    } else if row == 4 {
        [false, false, true, false]
    } else if row == 5 {
        [false, false, true, true]
    } else if row == 6 {
        [false, false, false, true]
    } else {
        [true, false, false, true]
    }
}

/// One row of the half-step sequence.
pub fn sequence(row: usize) -> (levels: [bool; 4])
    requires
        row < SEQUENCE_LEN,
    ensures
        levels == spec_sequence(row),
{
    if row == 0 {
        [true, false, false, false]
    } else if row == 1 {
        [true, true, false, false]
    } else if row == 2 {
        [false, true, false, false]
    } else if row == 3 {
        [false, true, true, false]
    } else if row == 4 {
        [false, false, true, false]
    } else if row == 5 {
        [false, false, true, true]
    } else if row == 6 {
        [false, false, false, true]
    } else {
        [true, false, false, true]
    }
}

/// Which way the sequence is walked.
#[derive(Copy, Clone, Debug, PartialEq, Eq, Structural)]
pub enum Direction {
    Forward,
    Reverse,
}

/// The row after `phase` in `direction`.
pub open spec fn spec_advance(phase: usize, direction: Direction) -> usize {
    match direction {
        Direction::Forward => ((phase + 1) % 8) as usize,
        Direction::Reverse => ((phase + 7) % 8) as usize,
    }
}

/// What the stepper asks of its alarm.
#[derive(Copy, Clone, Debug, PartialEq, Eq, Structural)]
pub enum AlarmRequest {
    /// Leave it as it is.
    Keep,
    /// Cancel any pending alarm.
    Disarm,
    /// Fire after this many microseconds.
    Arm { interval_us: u32 },
}

/// What the stepper asks of the hardware after one of its steps, in order:
/// the phase row written to the windings, then whether every winding is
/// driven low, then the alarm, then the completion upcall.
#[derive(Copy, Clone, Debug, PartialEq, Eq)]
pub struct StepperEffects {
    /// Configure every winding as an output, before anything else.
    pub make_outputs: bool,
    /// Levels to drive the four windings to, in order.
    pub write_phase: Option<[bool; 4]>,
    /// Drive every winding low afterwards.
    pub deenergise: bool,
    pub alarm: AlarmRequest,
    /// Deliver upcall 0 to this process with status `Ok(())` and this step
    /// count.
    pub upcall: Option<(ProcessId, usize)>,
}

/// Nothing to do.
pub open spec fn spec_no_effects() -> StepperEffects {
    StepperEffects { make_outputs: false, write_phase: None, deenergise: false, alarm: AlarmRequest::Keep, upcall: None }
}

/// A four-phase unipolar stepper motor, stepped from the capsule's own alarm
/// for one process at a time.
#[derive(Copy, Clone, Debug, PartialEq, Eq, Structural)]
pub struct Stepper {
    /// The process currently stepping, if any.
    pub owner: Option<ProcessId>,
    /// The row of the sequence the windings are at.
    pub phase: usize,
    pub steps_remaining: usize,
    pub steps_taken: usize,
    pub direction: Direction,
    pub interval_us: u32,
}

/// The stepper once a run has ended, however it ended.
/// One step from the alarm while the owner is alive: the phase advances
/// and is written, the step is counted, and the run either ends (windings
/// low, alarm off, the owner told how many steps were taken) or the next
/// step is scheduled.
pub open spec fn spec_live_alarm(s: Stepper) -> (Stepper, StepperEffects) {
    let phase = spec_advance(s.phase, s.direction);
    let taken = (s.steps_taken + 1) as usize;
    let remaining = (s.steps_remaining - 1) as usize;
    if remaining == 0 {
        (
            Stepper { phase, steps_taken: taken, steps_remaining: 0, owner: None, ..s },
            StepperEffects {
                make_outputs: false,
                write_phase: Some(spec_sequence(phase)),
                deenergise: true,
                alarm: AlarmRequest::Disarm,
                upcall: Some((s.owner->0, taken)),
            },
        )
    } else {
        (
            Stepper { phase, steps_taken: taken, steps_remaining: remaining, ..s },
            StepperEffects {
                make_outputs: false,
                write_phase: Some(spec_sequence(phase)),
                deenergise: false,
                alarm: AlarmRequest::Arm { interval_us: s.interval_us },
                upcall: None,
            },
        )
    }
}

/// The motor after `n` steps with its owner alive throughout.
pub open spec fn spec_live_alarms(s: Stepper, n: nat) -> Stepper
    decreases n,
{
    if n == 0 { s } else { spec_live_alarms(spec_live_alarm(s).0, (n - 1) as nat) }
}

pub open spec fn spec_stopped(s: Stepper) -> Stepper {
    Stepper { owner: None, steps_remaining: 0, ..s }
}

impl Stepper {
    /// The phase is a row of the sequence; a run is in progress exactly when
    /// someone owns the motor, and then has a step left to take.
    pub open spec fn wf(self) -> bool {
        &&& self.phase < SEQUENCE_LEN
        &&& (self.owner is Some) == (self.steps_remaining > 0)
        &&& self.steps_taken + self.steps_remaining <= usize::MAX
    }

    /// An idle motor. The windings are made outputs and driven low.
    pub fn new() -> (r: (Stepper, StepperEffects))
        ensures
            r.0.wf(),
            r.0 == (Stepper { owner: None, phase: 0, steps_remaining: 0, steps_taken: 0, direction: Direction::Forward, interval_us: 0 }),
            r.1 == (StepperEffects { make_outputs: true, deenergise: true, ..spec_no_effects() }),
    {
        (
            Stepper { owner: None, phase: 0, steps_remaining: 0, steps_taken: 0, direction: Direction::Forward, interval_us: 0 },
            StepperEffects { make_outputs: true, write_phase: None, deenergise: true, alarm: AlarmRequest::Keep, upcall: None },
        )
    }

    /// Move the phase one row in the current direction.
    pub fn advance_phase(&mut self)
        requires
            old(self).phase < SEQUENCE_LEN,
        ensures
            *final(self) == (Stepper { phase: spec_advance(old(self).phase, old(self).direction), ..*old(self) }),
            final(self).phase < SEQUENCE_LEN,
    {
        let next = match self.direction {
            Direction::Forward => (self.phase + 1) % SEQUENCE_LEN,
            Direction::Reverse => (self.phase + SEQUENCE_LEN - 1) % SEQUENCE_LEN,
        };
        self.phase = next;
    }

    /// Stop stepping, drive the windings low and forget the owner, without
    /// telling anyone.
    pub fn release(&mut self) -> (e: StepperEffects)
        ensures
            *final(self) == spec_stopped(*old(self)),
            e == (StepperEffects { deenergise: true, alarm: AlarmRequest::Disarm, ..spec_no_effects() }),
    {
        self.owner = None;
        self.steps_remaining = 0;
        StepperEffects { make_outputs: false, write_phase: None, deenergise: true, alarm: AlarmRequest::Disarm, upcall: None }
    }

    /// End the run, drive the windings low, and tell the owner how many
    /// steps were taken.
    pub fn finish(&mut self) -> (e: StepperEffects)
        ensures
            *final(self) == spec_stopped(*old(self)),
            e == (StepperEffects {
                deenergise: true,
                alarm: AlarmRequest::Disarm,
                upcall: match old(self).owner {
                    Some(o) => Some((o, old(self).steps_taken)),
                    None => None,
                },
                ..spec_no_effects()
            }),
    {
        let taken = self.steps_taken;
        let owner = self.owner;
        self.owner = None;
        self.steps_remaining = 0;
        let upcall = match owner {
            Some(o) => Some((o, taken)),
            None => None,
        };
        StepperEffects { make_outputs: false, write_phase: None, deenergise: true, alarm: AlarmRequest::Disarm, upcall }
    }

    /// Start a run of `steps` steps, `interval_us` apart, for `processid`.
    /// `owner_entry` is what entering the current owner's grant answered.
    ///
    /// `INVAL` for a zero count or interval. `BUSY` while a live process owns
    /// the motor, the caller included: a run is never replaced in place. A
    /// motor whose owner is gone is released and taken.
    pub fn start(
        &mut self,
        processid: ProcessId,
        direction: Direction,
        steps: usize,
        interval_us: u32,
        owner_entry: Result<(), ProcessError>,
    ) -> (r: Result<StepperEffects, ErrorCode>)
        requires
            old(self).wf(),
        ensures
            final(self).wf(),
            (steps == 0 || interval_us == 0) ==> r == Err::<StepperEffects, ErrorCode>(ErrorCode::INVAL) && *final(self) == *old(self),
            (steps != 0 && interval_us != 0 && spec_owner_is_live(old(self).owner, owner_entry))
                ==> r == Err::<StepperEffects, ErrorCode>(ErrorCode::BUSY) && *final(self) == *old(self),
            (steps != 0 && interval_us != 0 && !spec_owner_is_live(old(self).owner, owner_entry)) ==> {
                &&& r == Ok::<StepperEffects, ErrorCode>(StepperEffects {
                        deenergise: old(self).owner is Some,
                        alarm: AlarmRequest::Arm { interval_us },
                        ..spec_no_effects()
                    })
                &&& *final(self) == (Stepper {
                        owner: Some(processid),
                        direction,
                        steps_remaining: steps,
                        steps_taken: 0,
                        interval_us,
                        ..*old(self)
                    })
            },
    {
        if steps == 0 || interval_us == 0 {
            return Err(ErrorCode::INVAL);
        }
        let mut deenergise = false;
        if self.owner.is_some() {
            if owner_is_live(self.owner, owner_entry) {
                return Err(ErrorCode::BUSY);
            }
            let released = self.release();
            deenergise = released.deenergise;
        }
        self.owner = Some(processid);
        self.direction = direction;
        self.steps_remaining = steps;
        self.steps_taken = 0;
        self.interval_us = interval_us;
        Ok(StepperEffects { make_outputs: false, write_phase: None, deenergise, alarm: AlarmRequest::Arm { interval_us }, upcall: None })
    }

    /// One step, from the alarm. `owner_entry` is what entering the owner's
    /// grant answered.
    ///
    /// A gone owner gets no further step: the motor is released. Otherwise
    /// the phase advances and is written, the step is counted, and the run
    /// either finishes (with the completion upcall) or the alarm is set
    /// for the next step.
    pub fn alarm(&mut self, owner_entry: Result<(), ProcessError>) -> (e: StepperEffects)
        requires
            old(self).wf(),
        ensures
            final(self).wf(),
            !spec_owner_is_live(old(self).owner, owner_entry) ==> *final(self) == spec_stopped(*old(self))
                && e == (StepperEffects { deenergise: true, alarm: AlarmRequest::Disarm, ..spec_no_effects() }),
            spec_owner_is_live(old(self).owner, owner_entry) ==> (*final(self), e) == spec_live_alarm(*old(self)),
            spec_owner_is_live(old(self).owner, owner_entry) ==> {
                let phase = spec_advance(old(self).phase, old(self).direction);
                let taken = (old(self).steps_taken + 1) as usize;
                let remaining = (old(self).steps_remaining - 1) as usize;
                &&& final(self).phase == phase
                &&& final(self).steps_taken == taken
                &&& final(self).direction == old(self).direction
                &&& final(self).interval_us == old(self).interval_us
                &&& e.write_phase == Some(spec_sequence(phase))
                &&& if remaining == 0 {
                        &&& final(self).owner is None
                        &&& final(self).steps_remaining == 0
                        &&& e.deenergise
                        &&& e.alarm == AlarmRequest::Disarm
                        &&& e.upcall == Some((old(self).owner->0, taken))
                    } else {
                        &&& final(self).owner == old(self).owner
                        &&& final(self).steps_remaining == remaining
                        &&& !e.deenergise
                        &&& e.alarm == (AlarmRequest::Arm { interval_us: old(self).interval_us })
                        &&& e.upcall is None
                    }
            },
    {
        if !owner_is_live(self.owner, owner_entry) {
            return self.release();
        }
        self.advance_phase();
        let row = sequence(self.phase);
        self.steps_taken = self.steps_taken + 1;
        let remaining = self.steps_remaining - 1;
        self.steps_remaining = remaining;
        if remaining == 0 {
            let done = self.finish();
            StepperEffects { make_outputs: false, write_phase: Some(row), ..done }
        } else {
            StepperEffects { make_outputs: false, write_phase: Some(row), deenergise: false, alarm: AlarmRequest::Arm { interval_us: self.interval_us }, upcall: None }
        }
    }

    /// The syscall interface.
    ///
    /// - `0`: the driver exists.
    /// - `1`, `2`: step forward, or in reverse: `arg1` steps, `arg2`
    ///   microseconds apart. `INVAL` for a zero count or interval or one that
    ///   does not fit in 32 bits; `BUSY` while a live process is stepping.
    /// - `3`: stop: end the caller's run, drive the windings low, deliver
    ///   the completion upcall, and answer the number of steps taken.
    ///   `RESERVE` if the caller does not own the motor.
    /// - anything else: `NOSUPPORT`.
    ///
    /// `owner_entry` is what entering the current owner's grant answered.
    pub fn command(
        &mut self,
        command_num: usize,
        arg1: usize,
        arg2: usize,
        processid: ProcessId,
        owner_entry: Result<(), ProcessError>,
    ) -> (r: (CommandReturn, StepperEffects))
        requires
            old(self).wf(),
        ensures
            final(self).wf(),
            command_num == 0 ==> r == (CommandReturn::Success, spec_no_effects()) && *final(self) == *old(self),
            (command_num == 1 || command_num == 2) ==> {
                let direction = if command_num == 1 { Direction::Forward } else { Direction::Reverse };
                if arg1 == 0 || arg2 == 0 || arg2 > u32::MAX {
                    r == (CommandReturn::Failure(ErrorCode::INVAL), spec_no_effects()) && *final(self) == *old(self)
                } else if spec_owner_is_live(old(self).owner, owner_entry) {
                    r == (CommandReturn::Failure(ErrorCode::BUSY), spec_no_effects()) && *final(self) == *old(self)
                } else {
                    &&& r.0 == CommandReturn::Success
                    &&& r.1 == (StepperEffects {
                            deenergise: old(self).owner is Some,
                            alarm: AlarmRequest::Arm { interval_us: arg2 as u32 },
                            ..spec_no_effects()
                        })
                    &&& *final(self) == (Stepper {
                            owner: Some(processid),
                            direction,
                            steps_remaining: arg1,
                            steps_taken: 0,
                            interval_us: arg2 as u32,
                            ..*old(self)
                        })
                }
            },
            command_num == 3 ==> {
                if old(self).owner != Some(processid) {
                    r == (CommandReturn::Failure(ErrorCode::RESERVE), spec_no_effects()) && *final(self) == *old(self)
                } else {
                    &&& r.0 == CommandReturn::SuccessU32(old(self).steps_taken as u32)
                    &&& r.1 == (StepperEffects {
                            deenergise: true,
                            alarm: AlarmRequest::Disarm,
                            upcall: Some((processid, old(self).steps_taken)),
                            ..spec_no_effects()
                        })
                    &&& *final(self) == spec_stopped(*old(self))
                }
            },
            command_num > 3 ==> r == (CommandReturn::Failure(ErrorCode::NOSUPPORT), spec_no_effects()) && *final(self) == *old(self),
    {
        let none = StepperEffects { make_outputs: false, write_phase: None, deenergise: false, alarm: AlarmRequest::Keep, upcall: None };
        match command_num {
            0 => (CommandReturn::Success, none),
            1 | 2 => {
                let direction = if command_num == 1 { Direction::Forward } else { Direction::Reverse };
                if arg2 > u32::MAX as usize {
                    return (CommandReturn::Failure(ErrorCode::INVAL), none);
                }
                let interval = arg2 as u32;
                match self.start(processid, direction, arg1, interval, owner_entry) {
                    Ok(effects) => (CommandReturn::Success, effects),
                    Err(e) => (CommandReturn::Failure(e), none),
                }
            },
            3 => {
                if self.owner != Some(processid) {
                    return (CommandReturn::Failure(ErrorCode::RESERVE), none);
                }
                let taken = self.steps_taken;
                let effects = self.finish();
                (CommandReturn::SuccessU32(taken as u32), effects)
            },
            _ => (CommandReturn::Failure(ErrorCode::NOSUPPORT), none),
        }
    }
}

/// Walking the sequence one row forward and then one row back returns to
/// the same row, and so does the reverse.
pub proof fn lemma_reverse_undoes_forward(phase: usize)
    requires
        phase < SEQUENCE_LEN,
    ensures
        spec_advance(spec_advance(phase, Direction::Forward), Direction::Reverse) == phase,
        spec_advance(spec_advance(phase, Direction::Reverse), Direction::Forward) == phase,
{
}

/// Every row of the sequence energises one winding or two neighbouring ones,
/// and consecutive rows differ in exactly one winding: a half step.
pub proof fn lemma_half_steps(row: usize)
    requires
        row < SEQUENCE_LEN,
    ensures
        ({
            let a = spec_sequence(row);
            let b = spec_sequence(spec_advance(row, Direction::Forward));
            let changed = (if a[0] != b[0] { 1int } else { 0 }) + (if a[1] != b[1] { 1int } else { 0 })
                + (if a[2] != b[2] { 1int } else { 0 }) + (if a[3] != b[3] { 1int } else { 0 });
            changed == 1
        }),
{
}

/// Which windings each half step energises: at an even row `r` winding
/// `r / 2` alone, at an odd row the two neighbouring windings `(r - 1) / 2`
/// and `(r + 1) / 2` (mod 4). Stepping forward through the rows therefore
/// carries the field round the four windings in one direction, A, AB, B, BC,
/// C, CD, D, DA, and no two rows are the same.
pub proof fn law_half_step_windings(row: usize, w: usize)
    requires
        row < SEQUENCE_LEN,
        w < PHASES,
    ensures
        spec_sequence(row)[w as int] == if row % 2 == 0 {
            w == row / 2
        } else {
            w == (row - 1) / 2 || w == ((row + 1) / 2) % 4
        },
        forall|other: usize| other < SEQUENCE_LEN && other != row ==> spec_sequence(other) != spec_sequence(row),
{
    assert forall|other: usize| other < SEQUENCE_LEN && other != row implies spec_sequence(other) != spec_sequence(row) by {
        let a = spec_sequence(other);
        let b = spec_sequence(row);
        assert(a[0] != b[0] || a[1] != b[1] || a[2] != b[2] || a[3] != b[3]);
    }
}

/// Partway through a run with its owner alive, the steps taken and the
/// steps left add up to the steps asked for.
pub proof fn lemma_run_accounting(s: Stepper, n: nat, k: nat)
    requires
        s.wf(),
        s.owner is Some,
        s.steps_remaining == n,
        s.steps_taken == 0,
        k < n,
    ensures
        ({
            let t = spec_live_alarms(s, k);
            &&& t.owner == s.owner
            &&& t.steps_remaining == n - k
            &&& t.steps_taken == k
            &&& t.interval_us == s.interval_us
            &&& t.direction == s.direction
            &&& t.wf()
        }),
    decreases k,
{
    if k > 0 {
        lemma_run_accounting(s, n, (k - 1) as nat);
        lemma_live_alarms_step(s, (k - 1) as nat);
    }
}

/// `k + 1` steps are `k` steps and one more.
pub proof fn lemma_live_alarms_step(s: Stepper, k: nat)
    ensures
        spec_live_alarms(s, k + 1) == spec_live_alarm(spec_live_alarms(s, k)).0,
    decreases k,
{
    let s1 = spec_live_alarm(s).0;
    assert(spec_live_alarms(s, k + 1) == spec_live_alarms(s1, k));
    if k > 0 {
        lemma_live_alarms_step(s1, (k - 1) as nat);
        assert(spec_live_alarms(s, k) == spec_live_alarms(s1, (k - 1) as nat));
        assert((k - 1) as nat + 1 == k);
    }
}

/// A run of `n` steps whose owner stays alive takes exactly `n` alarms:
/// after `n - 1` the run is still going with one step left, and the `n`th
/// ends it, drives the windings low, turns the alarm off and tells the owner
/// that `n` steps were taken.
pub proof fn law_run_takes_the_steps_asked_for(s: Stepper, n: nat)
    requires
        s.wf(),
        s.owner is Some,
        s.steps_remaining == n,
        s.steps_taken == 0,
        n >= 1,
    ensures
        ({
            let before = spec_live_alarms(s, (n - 1) as nat);
            let (after, e) = spec_live_alarm(before);
            &&& before.owner == s.owner
            &&& before.steps_remaining == 1
            &&& after.owner is None
            &&& after.steps_remaining == 0
            &&& after.steps_taken == n
            &&& e.upcall == Some((s.owner->0, n as usize))
            &&& e.deenergise
            &&& e.alarm == AlarmRequest::Disarm
        }),
{
    lemma_run_accounting(s, n, (n - 1) as nat);
}

} // verus!
