use vstd::prelude::*;
use crate::error_code::{CommandReturn, ErrorCode};
use crate::hil::pwm::PwmRequest;
use crate::process::{ProcessError, ProcessId, is_gone, spec_is_gone};

verus! {

/// How the syscall driver answers a command: by itself, or with whatever the
/// named call on the command's pin answers.
#[derive(Copy, Clone, Debug, PartialEq, Eq, Structural)]
pub enum PwmReply {
    /// This answer.
    Answer(CommandReturn),
    /// Make this call on the pin and answer its `Result`.
    Pin(PwmRequest),
}

/// Gives processes the board's PWM pins, one process per pin.
///
/// A claim by a process that has since died is reclaimed, and its output
/// stopped, when someone next asks for the pin.
#[derive(Copy, Clone, Debug, PartialEq, Eq)]
pub struct Pwm<const NUM_PINS: usize> {
    /// The process holding each pin, if any.
    pub active_process: [Option<ProcessId>; NUM_PINS],
}

/// The low 16 bits of command 1's `data1`: the pin.
pub open spec fn spec_command_pin(data1: usize) -> usize {
    data1 % 0x10000
}

/// The high bits of command 1's `data1`: the duty cycle in hundredths of a
/// percent.
pub open spec fn spec_command_duty(data1: usize) -> usize {
    data1 / 0x10000
}

/// Whether `processid` may use a pin held by `holder`, given what entering
/// the holder's grant answered: a free pin, the caller's own pin, or the pin
/// of a process that is gone.
pub open spec fn spec_may_claim(holder: Option<ProcessId>, processid: ProcessId, holder_entry: Result<(), ProcessError>) -> bool {
    match holder {
        None => true,
        Some(id) => id == processid || spec_is_gone(holder_entry),
    }
}

/// Whether claiming the pin reclaims it from a dead holder.
pub open spec fn spec_reclaims(holder: Option<ProcessId>, processid: ProcessId, holder_entry: Result<(), ProcessError>) -> bool {
    match holder {
        None => false,
        Some(id) => id != processid && spec_is_gone(holder_entry),
    }
}

impl<const NUM_PINS: usize> Pwm<NUM_PINS> {
    /// Every pin free. The pin number travels in 16 bits, so there are at
    /// most 65,535 pins.
    pub fn new() -> (p: Pwm<NUM_PINS>)
        requires
            NUM_PINS <= u16::MAX,
        ensures
            forall|i: int| 0 <= i < NUM_PINS ==> p.active_process[i] is None,
    {
        Pwm { active_process: [None; NUM_PINS] }
    }

    /// Whether `processid` may use `pin`. `holder_entry` is what entering
    /// the holding process's grant answered.
    ///
    /// A stale claim, held by a process that is gone, is released on the way
    /// past: the slot is cleared and the caller is asked to stop the pin.
    /// Any other failure to enter is not evidence the holder is gone, so the
    /// claim stands.
    ///
    /// Answers whether the claim may go ahead and whether the pin must be
    /// stopped.
    pub fn claim_pin(&mut self, processid: ProcessId, pin: usize, holder_entry: Result<(), ProcessError>) -> (r: (bool, bool))
        requires
            pin < NUM_PINS,
        ensures
            r.0 == spec_may_claim(old(self).active_process[pin as int], processid, holder_entry),
            r.1 == spec_reclaims(old(self).active_process[pin as int], processid, holder_entry),
            final(self).active_process@ == (if r.1 {
                old(self).active_process@.update(pin as int, None)
            } else {
                old(self).active_process@
            }),
    {
        match self.active_process[pin] {
            None => (true, false),
            Some(id) => {
                if id == processid {
                    (true, false)
                } else if is_gone(holder_entry) {
                    self.release_pin(pin);
                    (true, true)
                } else {
                    (false, false)
                }
            },
        }
    }

    /// Release `pin`. The caller stops its output, which is part of
    /// releasing, and the claim is cleared whether or not the stop succeeds.
    pub fn release_pin(&mut self, pin: usize) -> (r: PwmRequest)
        requires
            pin < NUM_PINS,
        ensures
            r == PwmRequest::Stop,
            final(self).active_process@ == old(self).active_process@.update(pin as int, None),
    {
        self.active_process[pin] = None;
        PwmRequest::Stop
    }

    /// The syscall interface. Answers how to reply, and whether the pin must
    /// first be stopped because a dead holder's claim was reclaimed.
    ///
    /// - `0`: the driver exists.
    /// - `1`: start the pin in the low 16 bits of `data1` at `data2` hertz
    ///   and the duty cycle in the high bits of `data1`, in hundredths of a
    ///   percent of the pin's maximum. `INVAL` for a pin that does not exist,
    ///   or a duty cycle whose scaling to the pin's maximum does not fit in a
    ///   `usize`, `RESERVE` for a pin another live process holds; otherwise the caller
    ///   holds it and the answer is the pin's.
    /// - `2`: stop the pin in `data1` and release it. `INVAL`, `RESERVE` as
    ///   above, `OFF` for a pin nobody holds; otherwise the answer is the
    ///   pin's stop.
    /// - `3`: the pin's maximum frequency; `INVAL` for a pin that does not
    ///   exist.
    /// - `4`: the number of pins.
    /// - anything else: `NOSUPPORT`.
    ///
    /// `holder_entry` is what entering the grant of the pin's holder
    /// answered, `max_duty_cycle` and `max_frequency_hz` what the pin
    /// reports.
    pub fn command(
        &mut self,
        command_num: usize,
        data1: usize,
        data2: usize,
        processid: ProcessId,
        holder_entry: Result<(), ProcessError>,
        max_duty_cycle: usize,
        max_frequency_hz: usize,
    ) -> (r: (PwmReply, bool))
        requires
            NUM_PINS <= u16::MAX,
        ensures
            command_num == 0 ==> r == (PwmReply::Answer(CommandReturn::Success), false) && final(self).active_process@ == old(self).active_process@,
            command_num == 1 ==> {
                let pin = spec_command_pin(data1);
                let holder = old(self).active_process[pin as int];
                if pin >= NUM_PINS || spec_command_duty(data1) * max_duty_cycle > usize::MAX {
                    r == (PwmReply::Answer(CommandReturn::Failure(ErrorCode::INVAL)), false) && final(self).active_process@ == old(self).active_process@
                } else if !spec_may_claim(holder, processid, holder_entry) {
                    r == (PwmReply::Answer(CommandReturn::Failure(ErrorCode::RESERVE)), false) && final(self).active_process@ == old(self).active_process@
                } else {
                    &&& r.0 == PwmReply::Pin(PwmRequest::Start {
                            frequency_hz: data2,
                            duty_cycle: (spec_command_duty(data1) * max_duty_cycle / 10000) as usize,
                        })
                    &&& r.1 == spec_reclaims(holder, processid, holder_entry)
                    &&& final(self).active_process@ == old(self).active_process@.update(pin as int, Some(processid))
                }
            },
            command_num == 2 ==> {
                let holder = old(self).active_process[data1 as int];
                if data1 >= NUM_PINS {
                    r == (PwmReply::Answer(CommandReturn::Failure(ErrorCode::INVAL)), false) && final(self).active_process@ == old(self).active_process@
                } else if !spec_may_claim(holder, processid, holder_entry) {
                    r == (PwmReply::Answer(CommandReturn::Failure(ErrorCode::RESERVE)), false) && final(self).active_process@ == old(self).active_process@
                } else if holder is None || spec_reclaims(holder, processid, holder_entry) {
                    &&& r == (PwmReply::Answer(CommandReturn::Failure(ErrorCode::OFF)), spec_reclaims(holder, processid, holder_entry))
                    &&& final(self).active_process@ == old(self).active_process@.update(data1 as int, None)
                } else {
                    &&& r == (PwmReply::Pin(PwmRequest::Stop), false)
                    &&& final(self).active_process@ == old(self).active_process@.update(data1 as int, None)
                }
            },
            command_num == 3 ==> final(self).active_process@ == old(self).active_process@ && r == (if data1 >= NUM_PINS {
                (PwmReply::Answer(CommandReturn::Failure(ErrorCode::INVAL)), false)
            } else {
                (PwmReply::Answer(CommandReturn::SuccessU32(max_frequency_hz as u32)), false)
            }),
            command_num == 4 ==> r == (PwmReply::Answer(CommandReturn::SuccessU32(NUM_PINS as u32)), false) && final(self).active_process@ == old(self).active_process@,
            command_num > 4 ==> r == (PwmReply::Answer(CommandReturn::Failure(ErrorCode::NOSUPPORT)), false) && final(self).active_process@ == old(self).active_process@,
    {
        match command_num {
            0 => (PwmReply::Answer(CommandReturn::Success), false),
            1 => {
                let pin = data1 & 0xffff;
                let duty_cycle = data1 >> 16;
                assert(data1 & 0xffff == data1 % 0x10000) by (bit_vector);
                assert(data1 >> 16 == data1 / 0x10000) by (bit_vector);
                if pin >= NUM_PINS {
                    (PwmReply::Answer(CommandReturn::Failure(ErrorCode::INVAL)), false)
                } else {
                    match duty_cycle.checked_mul(max_duty_cycle) {
                        None => (PwmReply::Answer(CommandReturn::Failure(ErrorCode::INVAL)), false),
                        Some(scaled) => {
                            let (may, reclaimed) = self.claim_pin(processid, pin, holder_entry);
                            if !may {
                                (PwmReply::Answer(CommandReturn::Failure(ErrorCode::RESERVE)), false)
                            } else {
                                self.active_process[pin] = Some(processid);
                                let duty = scaled / 10000;
                                (PwmReply::Pin(PwmRequest::Start { frequency_hz: data2, duty_cycle: duty }), reclaimed)
                            }
                        },
                    }
                }
            },
            2 => {
                let pin = data1;
                if pin >= NUM_PINS {
                    (PwmReply::Answer(CommandReturn::Failure(ErrorCode::INVAL)), false)
                } else {
                    let (may, reclaimed) = self.claim_pin(processid, pin, holder_entry);
                    if !may {
                        (PwmReply::Answer(CommandReturn::Failure(ErrorCode::RESERVE)), false)
                    } else if self.active_process[pin].is_none() {
                        assert(self.active_process@ =~= old(self).active_process@.update(pin as int, None));
                        (PwmReply::Answer(CommandReturn::Failure(ErrorCode::OFF)), reclaimed)
                    } else {
                        let stop = self.release_pin(pin);
                        (PwmReply::Pin(stop), false)
                    }
                }
            },
            3 => {
                if data1 >= NUM_PINS {
                    (PwmReply::Answer(CommandReturn::Failure(ErrorCode::INVAL)), false)
                } else {
                    (PwmReply::Answer(CommandReturn::SuccessU32(max_frequency_hz as u32)), false)
                }
            },
            4 => (PwmReply::Answer(CommandReturn::SuccessU32(NUM_PINS as u32)), false),
            _ => (PwmReply::Answer(CommandReturn::Failure(ErrorCode::NOSUPPORT)), false),
        }
    }
}


/// A pin is never lost to a process that is gone, and never taken from one
/// that may still be alive: when the holder is gone, any process may use the
/// pin and a new claimant's use reclaims it; otherwise only the holder may,
/// and nothing is reclaimed. A free pin is anyone's and reclaims nothing.
pub proof fn law_claims(holder: ProcessId, claimant: ProcessId, entry: Result<(), ProcessError>)
    ensures
        spec_is_gone(entry) ==> spec_may_claim(Some(holder), claimant, entry),
        spec_is_gone(entry) && holder != claimant ==> spec_reclaims(Some(holder), claimant, entry),
        !spec_is_gone(entry) ==> (spec_may_claim(Some(holder), claimant, entry) <==> holder == claimant),
        !spec_is_gone(entry) ==> !spec_reclaims(Some(holder), claimant, entry),
        spec_may_claim(None, claimant, entry) && !spec_reclaims(None, claimant, entry),
{
}

} // verus!
