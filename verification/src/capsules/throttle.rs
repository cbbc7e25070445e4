use vstd::prelude::*;
use crate::error_code::{CommandReturn, ErrorCode};
use crate::hil::pwm::PwmRequest;
use crate::process::{ProcessError, ProcessId, owner_is_live, spec_owner_is_live};

verus! {

/// Full scale for a throttle request: a request is in units of 0.01%.
pub const SCALE: u16 = 10_000;

/// How often the output is recomputed, in milliseconds.
pub const TICK_MS: u32 = 20;

/// The most the output may move in one tick: a twentieth of full scale.
pub const SLEW_PER_TICK: u16 = 500;

/// Ticks of silence from the owner before the target is forced to zero.
pub const TIMEOUT_TICKS: u32 = 10;

/// What a throttle asks of the hardware after one of its steps.
#[derive(Copy, Clone, Debug, PartialEq, Eq, Structural)]
pub struct ThrottleEffects {
    /// A call to make on the PWM pin, if any.
    pub pwm: Option<PwmRequest>,
    /// Whether to set the alarm for the next tick, `TICK_MS` from now.
    pub schedule_tick: bool,
}

/// A throttle output that an application requests and the capsule enforces.
///
/// The application asks for a target; the output follows it by at most
/// `SLEW_PER_TICK` per tick, and goes to zero when the owner dies, falls
/// silent for `TIMEOUT_TICKS`, or asks.
#[derive(Copy, Clone, Debug, PartialEq, Eq, Structural)]
pub struct Throttle {
    /// The process holding the throttle, if any.
    pub owner: Option<ProcessId>,
    /// What the owner last asked for, in units of `SCALE`.
    pub target: u16,
    /// What the output is actually at.
    pub current: u16,
    /// Ticks since the owner last said anything.
    pub silent_ticks: u32,
    /// The carrier frequency handed to the pin.
    pub frequency_hz: usize,
}

/// The pin call that puts `duty` (in units of `SCALE`) on the output: zero
/// stops the pin, anything else starts it at the matching share of the
/// pin's maximum duty cycle.
pub open spec fn spec_output(frequency_hz: usize, duty: u16, max_duty_cycle: usize) -> PwmRequest {
    if duty == 0 {
        PwmRequest::Stop
    } else {
        PwmRequest::Start {
            frequency_hz,
            duty_cycle: (spec_saturating_mul(duty as usize, max_duty_cycle) / (SCALE as usize)) as usize,
        }
    }
}

/// A request is started in proportion to it: a duty of `duty` parts in
/// `SCALE` drives the pin at that share of its maximum duty cycle, rounded
/// down (`d * SCALE <= duty * max < (d + 1) * SCALE`) while the product
/// fits a `usize`, and at the largest `usize` share when it does not; and a
/// larger request never drives the pin at a smaller duty cycle.
pub proof fn law_output_is_proportional(frequency_hz: usize, duty: u16, other: u16, max_duty_cycle: usize)
    requires
        0 < duty <= SCALE,
    ensures
        spec_output(frequency_hz, duty, max_duty_cycle) matches PwmRequest::Start { frequency_hz: f, duty_cycle: d } && {
            &&& f == frequency_hz
            &&& d <= max_duty_cycle
            &&& (duty * max_duty_cycle <= usize::MAX ==> {
                &&& d * (SCALE as int) <= duty * max_duty_cycle
                &&& duty * max_duty_cycle < (d + 1) * (SCALE as int)
            })
            &&& (duty * max_duty_cycle > usize::MAX ==> d == usize::MAX / (SCALE as usize))
        },
        duty <= other <= SCALE ==> (spec_output(frequency_hz, duty, max_duty_cycle) matches PwmRequest::Start { duty_cycle: d1, .. }
            && spec_output(frequency_hz, other, max_duty_cycle) matches PwmRequest::Start { duty_cycle: d2, .. }
            && d1 <= d2),
{
    let p = spec_saturating_mul(duty as usize, max_duty_cycle);
    let d = p / (SCALE as usize);
    assert(d * (SCALE as int) <= p && p < (d + 1) * (SCALE as int)) by (nonlinear_arith)
        requires
            d == p / (SCALE as usize),
            SCALE == 10000,
    ;
    assert(d <= max_duty_cycle) by (nonlinear_arith)
        requires
            d * (SCALE as int) <= p,
            p <= usize::MAX,
            d >= 0,
            max_duty_cycle >= 0,
            0 < duty <= SCALE,
            duty * max_duty_cycle > usize::MAX ==> p == usize::MAX,
            duty * max_duty_cycle <= usize::MAX ==> p == duty * max_duty_cycle,
            SCALE == 10000,
    ;
    if duty <= other <= SCALE {
        let q = spec_saturating_mul(other as usize, max_duty_cycle);
        assert(p <= q) by (nonlinear_arith)
            requires
                duty <= other,
                p == if duty * max_duty_cycle > usize::MAX { usize::MAX as int } else { duty * max_duty_cycle },
                q == if other * max_duty_cycle > usize::MAX { usize::MAX as int } else { other * max_duty_cycle },
                max_duty_cycle >= 0,
        ;
        vstd::arithmetic::div_mod::lemma_div_is_ordered(p as int, q as int, SCALE as int);
    }
}

/// `usize::saturating_mul`.
pub open spec fn spec_saturating_mul(a: usize, b: usize) -> usize {
    if a * b > usize::MAX { usize::MAX } else { (a * b) as usize }
}

/// One tick's movement of the output toward the target, by at most
/// `SLEW_PER_TICK`.
pub open spec fn spec_slew(current: u16, target: u16) -> u16 {
    if target > current {
        if current + SLEW_PER_TICK < target { (current + SLEW_PER_TICK) as u16 } else { target }
    } else {
        if current - SLEW_PER_TICK > target { (current - SLEW_PER_TICK) as u16 } else { target }
    }
}

/// The state a released throttle is in.
pub open spec fn spec_released(t: Throttle) -> Throttle {
    Throttle { owner: None, target: 0, current: 0, silent_ticks: 0, ..t }
}

impl Throttle {
    /// Requests and output are within full scale, and a throttle nobody
    /// holds is closed.
    pub open spec fn wf(self) -> bool {
        &&& self.target <= SCALE
        &&& self.current <= SCALE
        &&& self.owner is None ==> self.target == 0 && self.current == 0 && self.silent_ticks == 0
    }

    /// A closed throttle that nobody holds.
    pub fn new(frequency_hz: usize) -> (t: Throttle)
        ensures
            t.wf(),
            t == (Throttle { owner: None, target: 0, current: 0, silent_ticks: 0, frequency_hz }),
    {
        Throttle { owner: None, target: 0, current: 0, silent_ticks: 0, frequency_hz }
    }

    /// The pin call that puts `duty` on the output.
    pub fn write_output(&self, duty: u16, max_duty_cycle: usize) -> (r: PwmRequest)
        ensures
            r == spec_output(self.frequency_hz, duty, max_duty_cycle),
            duty == 0 ==> r == PwmRequest::Stop,
    {
        if duty == 0 {
            PwmRequest::Stop
        } else {
            let product = match (duty as usize).checked_mul(max_duty_cycle) {
                Some(p) => p,
                None => usize::MAX,
            };
            let scaled = product / (SCALE as usize);
            PwmRequest::Start { frequency_hz: self.frequency_hz, duty_cycle: scaled }
        }
    }

    /// Close the throttle and release it. The caller stops ticking.
    pub fn release(&mut self) -> (r: PwmRequest)
        ensures
            *final(self) == spec_released(*old(self)),
            r == PwmRequest::Stop,
            final(self).wf(),
    {
        self.owner = None;
        self.current = 0;
        self.target = 0;
        self.silent_ticks = 0;
        PwmRequest::Stop
    }

    /// Take the throttle, closed, for `processid`. `owner_entry` is what
    /// entering the current owner's grant answered.
    ///
    /// Refused with `RESERVE` while a live process other than the caller
    /// holds it; a dead owner holds nothing.
    pub fn arm(&mut self, processid: ProcessId, owner_entry: Result<(), ProcessError>) -> (r: Result<ThrottleEffects, ErrorCode>)
        requires
            old(self).wf(),
        ensures
            final(self).wf(),
            (spec_owner_is_live(old(self).owner, owner_entry) && old(self).owner != Some(processid))
                ==> r == Err::<ThrottleEffects, ErrorCode>(ErrorCode::RESERVE) && *final(self) == *old(self),
            !(spec_owner_is_live(old(self).owner, owner_entry) && old(self).owner != Some(processid))
                ==> r == Ok::<ThrottleEffects, ErrorCode>(ThrottleEffects { pwm: Some(PwmRequest::Stop), schedule_tick: true })
                    && *final(self) == (Throttle { owner: Some(processid), target: 0, current: 0, silent_ticks: 0, ..*old(self) }),
    {
        if owner_is_live(self.owner, owner_entry) && self.owner != Some(processid) {
            return Err(ErrorCode::RESERVE);
        }
        self.owner = Some(processid);
        self.target = 0;
        self.current = 0;
        self.silent_ticks = 0;
        Ok(ThrottleEffects { pwm: Some(PwmRequest::Stop), schedule_tick: true })
    }

    /// Set the target for the owner, clamped to full scale, and refresh the
    /// silence timer. Anyone else is refused with `RESERVE`.
    pub fn set_target(&mut self, processid: ProcessId, requested: u16) -> (r: Result<(), ErrorCode>)
        requires
            old(self).wf(),
        ensures
            final(self).wf(),
            old(self).owner != Some(processid) ==> r == Err::<(), ErrorCode>(ErrorCode::RESERVE) && *final(self) == *old(self),
            old(self).owner == Some(processid) ==> r is Ok && *final(self) == (Throttle {
                target: if requested < SCALE { requested } else { SCALE },
                silent_ticks: 0,
                ..*old(self)
            }),
    {
        if self.owner != Some(processid) {
            return Err(ErrorCode::RESERVE);
        }
        self.target = if requested < SCALE { requested } else { SCALE };
        self.silent_ticks = 0;
        Ok(())
    }

    /// One tick. `owner_entry` is what entering the owner's grant answered.
    ///
    /// A dead (or absent) owner releases the throttle and ticking stops.
    /// Otherwise the silence count goes up, past `TIMEOUT_TICKS` the target
    /// is forced to zero, the output moves toward the target by at most
    /// `SLEW_PER_TICK` and is written to the pin only if it moved, and the
    /// next tick is scheduled.
    pub fn alarm(&mut self, owner_entry: Result<(), ProcessError>, max_duty_cycle: usize) -> (e: ThrottleEffects)
        requires
            old(self).wf(),
            old(self).silent_ticks < u32::MAX,
        ensures
            final(self).wf(),
            !spec_owner_is_live(old(self).owner, owner_entry) ==> *final(self) == spec_released(*old(self))
                && e == (ThrottleEffects { pwm: Some(PwmRequest::Stop), schedule_tick: false }),
            spec_owner_is_live(old(self).owner, owner_entry) ==> {
                let silent = (old(self).silent_ticks + 1) as u32;
                let target = if silent > TIMEOUT_TICKS { 0 } else { old(self).target };
                let next = spec_slew(old(self).current, target);
                &&& *final(self) == (Throttle { silent_ticks: silent, target, current: next, ..*old(self) })
                &&& e.schedule_tick
                &&& e.pwm == (if next != old(self).current {
                        Some(spec_output(old(self).frequency_hz, next, max_duty_cycle))
                    } else {
                        None::<PwmRequest>
                    })
            },
    {
        if !owner_is_live(self.owner, owner_entry) {
            let stop = self.release();
            return ThrottleEffects { pwm: Some(stop), schedule_tick: false };
        }
        let silent = self.silent_ticks + 1;
        self.silent_ticks = silent;
        if silent > TIMEOUT_TICKS {
            self.target = 0;
        }
        let current = self.current;
        let target = self.target;
        let next = if target > current {
            let up = current.saturating_add(SLEW_PER_TICK);
            if up < target { up } else { target }
        } else {
            let down = current.saturating_sub(SLEW_PER_TICK);
            if down > target { down } else { target }
        };
        let pwm = if next != current {
            self.current = next;
            Some(self.write_output(next, max_duty_cycle))
        } else {
            None
        };
        ThrottleEffects { pwm, schedule_tick: true }
    }

    /// The syscall interface.
    ///
    /// - `0`: the driver exists.
    /// - `1`: arm: take the throttle, closed, and start the tick; `RESERVE`
    ///   while another live process holds it.
    /// - `2`: set the target to `data1` in units of `SCALE`, clamped; owner only.
    /// - `3`: disarm: close and release; owner only.
    /// - `4`: the position the output is actually at.
    /// - anything else: `NOSUPPORT`.
    ///
    /// `owner_entry` is what entering the current owner's grant answered.
    pub fn command(
        &mut self,
        command_num: usize,
        data1: usize,
        processid: ProcessId,
        owner_entry: Result<(), ProcessError>,
    ) -> (r: (CommandReturn, ThrottleEffects))
        requires
            old(self).wf(),
        ensures
            final(self).wf(),
            command_num == 0 ==> r.0 == CommandReturn::Success && *final(self) == *old(self),
            command_num == 1 ==> {
                if spec_owner_is_live(old(self).owner, owner_entry) && old(self).owner != Some(processid) {
                    r.0 == CommandReturn::Failure(ErrorCode::RESERVE) && *final(self) == *old(self)
                } else {
                    &&& r.0 == CommandReturn::Success
                    &&& r.1 == (ThrottleEffects { pwm: Some(PwmRequest::Stop), schedule_tick: true })
                    &&& *final(self) == (Throttle { owner: Some(processid), target: 0, current: 0, silent_ticks: 0, ..*old(self) })
                }
            },
            command_num == 2 ==> {
                if old(self).owner != Some(processid) {
                    r.0 == CommandReturn::Failure(ErrorCode::RESERVE) && *final(self) == *old(self)
                } else {
                    r.0 == CommandReturn::Success && *final(self) == (Throttle {
                        target: if data1 < SCALE { data1 as u16 } else { SCALE },
                        silent_ticks: 0,
                        ..*old(self)
                    })
                }
            },
            command_num == 3 ==> {
                if old(self).owner != Some(processid) {
                    r.0 == CommandReturn::Failure(ErrorCode::RESERVE) && *final(self) == *old(self)
                } else {
                    &&& r.0 == CommandReturn::Success
                    &&& r.1 == (ThrottleEffects { pwm: Some(PwmRequest::Stop), schedule_tick: false })
                    &&& *final(self) == spec_released(*old(self))
                }
            },
            command_num == 4 ==> r.0 == CommandReturn::SuccessU32(old(self).current as u32) && *final(self) == *old(self),
            command_num > 4 ==> r.0 == CommandReturn::Failure(ErrorCode::NOSUPPORT) && *final(self) == *old(self),
            command_num != 1 && command_num != 3 ==> r.1 == (ThrottleEffects { pwm: None, schedule_tick: false }),
    {
        let none = ThrottleEffects { pwm: None, schedule_tick: false };
        match command_num {
            0 => (CommandReturn::Success, none),
            1 => match self.arm(processid, owner_entry) {
                Ok(effects) => (CommandReturn::Success, effects),
                Err(e) => (CommandReturn::Failure(e), none),
            },
            2 => {
                let requested: u16 = if data1 < SCALE as usize { data1 as u16 } else { SCALE };
                match self.set_target(processid, requested) {
                    Ok(()) => (CommandReturn::Success, none),
                    Err(e) => (CommandReturn::Failure(e), none),
                }
            },
            3 => {
                if self.owner != Some(processid) {
                    return (CommandReturn::Failure(ErrorCode::RESERVE), none);
                }
                let stop = self.release();
                (CommandReturn::Success, ThrottleEffects { pwm: Some(stop), schedule_tick: false })
            },
            4 => (CommandReturn::SuccessU32(self.current as u32), none),
            _ => (CommandReturn::Failure(ErrorCode::NOSUPPORT), none),
        }
    }
}

/// The output moves by at most `SLEW_PER_TICK` in one tick, never passes
/// the target, and lands on it once the target is within reach.
pub proof fn lemma_slew_is_bounded(current: u16, target: u16)
    ensures
        ({
            let next = spec_slew(current, target);
            &&& (current <= next <= target) || (target <= next <= current)
            &&& next - current <= SLEW_PER_TICK
            &&& current - next <= SLEW_PER_TICK
            &&& (target - current <= SLEW_PER_TICK && current - target <= SLEW_PER_TICK) ==> next == target
        }),
{
}

/// Where the output is after `ticks` ticks toward a target that does not
/// change.
pub open spec fn spec_slew_ticks(current: u16, target: u16, ticks: nat) -> u16
    decreases ticks,
{
    if ticks == 0 {
        current
    } else {
        spec_slew_ticks(spec_slew(current, target), target, (ticks - 1) as nat)
    }
}

/// A target that stays put is reached within distance / `SLEW_PER_TICK`
/// ticks, rounded up, and held from then on.
pub proof fn lemma_target_reached(current: u16, target: u16, ticks: nat)
    requires
        ticks * (SLEW_PER_TICK as int) >= target - current,
        ticks * (SLEW_PER_TICK as int) >= current - target,
    ensures
        spec_slew_ticks(current, target, ticks) == target,
    decreases ticks,
{
    if ticks > 0 {
        let next = spec_slew(current, target);
        assert((ticks - 1) * (SLEW_PER_TICK as int) == ticks * (SLEW_PER_TICK as int) - SLEW_PER_TICK) by (nonlinear_arith);
        lemma_target_reached(next, target, (ticks - 1) as nat);
    }
}

} // verus!
