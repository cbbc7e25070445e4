use vstd::prelude::*;
use crate::error_code::ErrorCode;

verus! {

/// PWM control for a single pin.
///
/// Synchronous: `start` and `stop` do the work and return the answer, and
/// there is no completion callback, so the `Result` is the whole answer.
pub trait Pwm {
    /// The chip-dependent type of a PWM pin.
    type Pin;

    /// Whether `r` is an answer this implementation gives to starting `pin`
    /// at `frequency_hz` and `duty_cycle`.
    spec fn start_answers(&self, pin: &Self::Pin, frequency_hz: usize, duty_cycle: usize, r: Result<(), ErrorCode>) -> bool;

    /// Whether `r` is an answer this implementation gives to stopping `pin`.
    spec fn stop_answers(&self, pin: &Self::Pin, r: Result<(), ErrorCode>) -> bool;

    /// The highest frequency the implementation supports.
    spec fn spec_maximum_frequency_hz(&self) -> usize;

    /// The number that stands for a 100% duty cycle.
    spec fn spec_maximum_duty_cycle(&self) -> usize;

    /// Generate a signal on `pin`. `INVAL` when the chip cannot produce it,
    /// `FAIL` when the peripheral cannot drive the pin at all.
    fn start(&self, pin: &Self::Pin, frequency_hz: usize, duty_cycle: usize) -> (r: Result<(), ErrorCode>)
        ensures
            self.start_answers(pin, frequency_hz, duty_cycle, r),
    ;

    /// Stop a pin. Idempotent.
    fn stop(&self, pin: &Self::Pin) -> (r: Result<(), ErrorCode>)
        ensures
            self.stop_answers(pin, r),
    ;

    /// The highest frequency the implementation supports, never 0.
    fn get_maximum_frequency_hz(&self) -> (r: usize)
        ensures
            r == self.spec_maximum_frequency_hz(),
    ;

    /// The number that stands for a 100% duty cycle, never 0.
    fn get_maximum_duty_cycle(&self) -> (r: usize)
        ensures
            r == self.spec_maximum_duty_cycle(),
    ;
}

/// PWM control restricted to one pin. Every method means what the matching
/// [`Pwm`] method means, errors included.
pub trait PwmPin {
    /// Whether `r` is an answer this pin gives to starting it at
    /// `frequency_hz` and `duty_cycle`.
    spec fn start_answers(&self, frequency_hz: usize, duty_cycle: usize, r: Result<(), ErrorCode>) -> bool;

    /// Whether `r` is an answer this pin gives to stopping it.
    spec fn stop_answers(&self, r: Result<(), ErrorCode>) -> bool;

    /// The highest frequency the pin supports.
    spec fn spec_maximum_frequency_hz(&self) -> usize;

    /// The number that stands for a 100% duty cycle on the pin.
    spec fn spec_maximum_duty_cycle(&self) -> usize;

    fn start(&self, frequency_hz: usize, duty_cycle: usize) -> (r: Result<(), ErrorCode>)
        ensures
            self.start_answers(frequency_hz, duty_cycle, r),
    ;

    fn stop(&self) -> (r: Result<(), ErrorCode>)
        ensures
            self.stop_answers(r),
    ;

    fn get_maximum_frequency_hz(&self) -> (r: usize)
        ensures
            r == self.spec_maximum_frequency_hz(),
    ;

    fn get_maximum_duty_cycle(&self) -> (r: usize)
        ensures
            r == self.spec_maximum_duty_cycle(),
    ;
}

/// A call a capsule asks to be made on its PWM pin.
#[derive(Copy, Clone, Debug, PartialEq, Eq, Structural)]
pub enum PwmRequest {
    /// `PwmPin::stop`.
    Stop,
    /// `PwmPin::start` with these arguments.
    Start { frequency_hz: usize, duty_cycle: usize },
}

} // verus!
