use vstd::prelude::*;
use crate::error_code::ErrorCode;
use crate::hil::pwm::{Pwm, PwmPin};

verus! {

/// Shared access to one PWM interface for several users.
///
/// There is no queue: the interface is synchronous, so every operation is
/// carried out on the spot and its answer, error and all, handed straight
/// back.
pub struct MuxPwm<'a, P: Pwm> {
    pub pwm: &'a P,
}

impl<'a, P: Pwm> MuxPwm<'a, P> {
    pub fn new(pwm: &'a P) -> (m: MuxPwm<'a, P>)
        ensures
            m.pwm == pwm,
    {
        MuxPwm { pwm }
    }
}

/// One pin of a shared PWM interface.
pub struct PwmPinUser<'a, P: Pwm> {
    pub mux: &'a MuxPwm<'a, P>,
    pub pin: P::Pin,
}

impl<'a, P: Pwm> PwmPinUser<'a, P> {
    pub fn new(mux: &'a MuxPwm<'a, P>, pin: P::Pin) -> (u: PwmPinUser<'a, P>)
        ensures
            u.mux == mux,
            u.pin == pin,
    {
        PwmPinUser { mux, pin }
    }
}

impl<'a, P: Pwm> PwmPin for PwmPinUser<'a, P> {
    /// The shared interface's answers for this user's pin.
    open spec fn start_answers(&self, frequency_hz: usize, duty_cycle: usize, r: Result<(), ErrorCode>) -> bool {
        self.mux.pwm.start_answers(&self.pin, frequency_hz, duty_cycle, r)
    }

    open spec fn stop_answers(&self, r: Result<(), ErrorCode>) -> bool {
        self.mux.pwm.stop_answers(&self.pin, r)
    }

    open spec fn spec_maximum_frequency_hz(&self) -> usize {
        self.mux.pwm.spec_maximum_frequency_hz()
    }

    open spec fn spec_maximum_duty_cycle(&self) -> usize {
        self.mux.pwm.spec_maximum_duty_cycle()
    }

    /// Passed straight through, error and all: the answer is the shared
    /// interface's answer for this user's pin.
    fn start(&self, frequency_hz: usize, duty_cycle: usize) -> (r: Result<(), ErrorCode>)
        ensures
            self.mux.pwm.start_answers(&self.pin, frequency_hz, duty_cycle, r),
    {
        self.mux.pwm.start(&self.pin, frequency_hz, duty_cycle)
    }

    fn stop(&self) -> (r: Result<(), ErrorCode>)
        ensures
            self.mux.pwm.stop_answers(&self.pin, r),
    {
        self.mux.pwm.stop(&self.pin)
    }

    fn get_maximum_frequency_hz(&self) -> (r: usize)
        ensures
            r == self.mux.pwm.spec_maximum_frequency_hz(),
    {
        self.mux.pwm.get_maximum_frequency_hz()
    }

    fn get_maximum_duty_cycle(&self) -> (r: usize)
        ensures
            r == self.mux.pwm.spec_maximum_duty_cycle(),
    {
        self.mux.pwm.get_maximum_duty_cycle()
    }
}

} // verus!
