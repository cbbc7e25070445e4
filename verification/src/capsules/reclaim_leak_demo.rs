use vstd::prelude::*;
use crate::error_code::{CommandReturn, ErrorCode};
use crate::process::{ProcessError, ProcessId, is_gone, spec_is_gone};

verus! {

/// What the demo asks of one of its GPIO pins.
#[derive(Copy, Clone, Debug, PartialEq, Eq, Structural)]
pub enum PinRequest {
    /// Leave it alone.
    Keep,
    /// Make it an output and drive it high.
    DriveHigh,
    /// Drive it low.
    Clear,
}

/// A bench instrument: the ownership logic of the PWM driver, driving GPIO
/// pins, with its stale-claim check applied only on demand (command 4).
///
/// Its claim check compares identifiers and never enters the holder's grant,
/// so a holder that dies keeps the pin until command 4 reclaims it.
#[derive(Copy, Clone, Debug, PartialEq, Eq)]
pub struct ReclaimLeakDemo<const NUM_PINS: usize> {
    pub active_process: [Option<ProcessId>; NUM_PINS],
}

/// Whether `processid` may use a pin held by `holder`: only a free pin or its
/// own.
pub open spec fn spec_may_claim(holder: Option<ProcessId>, processid: ProcessId) -> bool {
    match holder {
        None => true,
        Some(id) => id == processid,
    }
}

/// How command 3 reports a pin: 0 free, 1 held by the caller, 2 held by
/// someone else, dead or alive.
pub open spec fn spec_pin_state(holder: Option<ProcessId>, processid: ProcessId) -> u32 {
    match holder {
        None => 0,
        Some(id) => if id == processid { 1 } else { 2 },
    }
}

impl<const NUM_PINS: usize> ReclaimLeakDemo<NUM_PINS> {
    /// Every pin free.
    pub fn new() -> (d: ReclaimLeakDemo<NUM_PINS>)
        ensures
            forall|i: int| 0 <= i < NUM_PINS ==> d.active_process[i] is None,
    {
        ReclaimLeakDemo { active_process: [None; NUM_PINS] }
    }

    /// Whether `processid` may use `pin`, by identifier alone.
    pub fn claim_pin(&self, processid: ProcessId, pin: usize) -> (ok: bool)
        requires
            pin < NUM_PINS,
        ensures
            ok == spec_may_claim(self.active_process[pin as int], processid),
    {
        match self.active_process[pin] {
            None => true,
            Some(id) => id == processid,
        }
    }

    /// Clear the claim on `pin`.
    pub fn release_pin(&mut self, pin: usize)
        requires
            pin < NUM_PINS,
        ensures
            final(self).active_process@ == old(self).active_process@.update(pin as int, None),
    {
        self.active_process[pin] = None;
    }

    /// If the holder of `pin` is gone, as entering its grant answered, clear
    /// the claim and drive the pin low. Answers whether it did.
    pub fn reclaim_if_dead(&mut self, pin: usize, holder_entry: Result<(), ProcessError>) -> (r: (bool, PinRequest))
        requires
            pin < NUM_PINS,
        ensures
            r.0 == (old(self).active_process[pin as int] is Some && spec_is_gone(holder_entry)),
            r.0 ==> r.1 == PinRequest::Clear && final(self).active_process@ == old(self).active_process@.update(pin as int, None),
            !r.0 ==> r.1 == PinRequest::Keep && final(self).active_process@ == old(self).active_process@,
    {
        match self.active_process[pin] {
            Some(_) => {
                if is_gone(holder_entry) {
                    self.active_process[pin] = None;
                    (true, PinRequest::Clear)
                } else {
                    (false, PinRequest::Keep)
                }
            },
            None => (false, PinRequest::Keep),
        }
    }

    /// The syscall interface. Every command but 0 takes a pin in `data1`
    /// and answers `INVAL` for one that does not exist.
    ///
    /// - `0`: the driver exists.
    /// - `1`: claim the pin and drive it high; `RESERVE` if held by another.
    /// - `2`: release the pin and drive it low; `RESERVE` if held by another,
    ///   `OFF` if nobody holds it.
    /// - `3`: the pin's state: 0 free, 1 the caller's, 2 someone else's.
    /// - `4`: reclaim the pin from a dead holder; answers 1 if it did.
    /// - anything else: `NOSUPPORT`.
    pub fn command(
        &mut self,
        command_num: usize,
        data1: usize,
        processid: ProcessId,
        holder_entry: Result<(), ProcessError>,
    ) -> (r: (CommandReturn, PinRequest))
        ensures
            command_num != 0 && data1 >= NUM_PINS ==> r == (CommandReturn::Failure(ErrorCode::INVAL), PinRequest::Keep)
                && final(self).active_process@ == old(self).active_process@,
            command_num == 0 ==> r == (CommandReturn::Success, PinRequest::Keep)
                && final(self).active_process@ == old(self).active_process@,
            data1 < NUM_PINS ==> {
                let holder = old(self).active_process[data1 as int];
                &&& command_num == 1 ==> if spec_may_claim(holder, processid) {
                        r == (CommandReturn::Success, PinRequest::DriveHigh)
                            && final(self).active_process@ == old(self).active_process@.update(data1 as int, Some(processid))
                    } else {
                        r == (CommandReturn::Failure(ErrorCode::RESERVE), PinRequest::Keep)
                            && final(self).active_process@ == old(self).active_process@
                    }
                &&& command_num == 2 ==> if !spec_may_claim(holder, processid) {
                        r == (CommandReturn::Failure(ErrorCode::RESERVE), PinRequest::Keep)
                            && final(self).active_process@ == old(self).active_process@
                    } else if holder is None {
                        r == (CommandReturn::Failure(ErrorCode::OFF), PinRequest::Keep)
                            && final(self).active_process@ == old(self).active_process@
                    } else {
                        r == (CommandReturn::Success, PinRequest::Clear)
                            && final(self).active_process@ == old(self).active_process@.update(data1 as int, None)
                    }
                &&& command_num == 3 ==> r == (CommandReturn::SuccessU32(spec_pin_state(holder, processid)), PinRequest::Keep)
                        && final(self).active_process@ == old(self).active_process@
                &&& command_num == 4 ==> if holder is Some && spec_is_gone(holder_entry) {
                        r == (CommandReturn::SuccessU32(1), PinRequest::Clear)
                            && final(self).active_process@ == old(self).active_process@.update(data1 as int, None)
                    } else {
                        r == (CommandReturn::SuccessU32(0), PinRequest::Keep)
                            && final(self).active_process@ == old(self).active_process@
                    }
                &&& command_num > 4 ==> r == (CommandReturn::Failure(ErrorCode::NOSUPPORT), PinRequest::Keep)
                        && final(self).active_process@ == old(self).active_process@
            },
    {
        let pin = data1;
        if command_num != 0 && pin >= NUM_PINS {
            return (CommandReturn::Failure(ErrorCode::INVAL), PinRequest::Keep);
        }
        match command_num {
            0 => (CommandReturn::Success, PinRequest::Keep),
            1 => {
                if !self.claim_pin(processid, pin) {
                    (CommandReturn::Failure(ErrorCode::RESERVE), PinRequest::Keep)
                } else {
                    self.active_process[pin] = Some(processid);
                    (CommandReturn::Success, PinRequest::DriveHigh)
                }
            },
            2 => {
                if !self.claim_pin(processid, pin) {
                    (CommandReturn::Failure(ErrorCode::RESERVE), PinRequest::Keep)
                } else if self.active_process[pin].is_none() {
                    (CommandReturn::Failure(ErrorCode::OFF), PinRequest::Keep)
                } else {
                    self.release_pin(pin);
                    (CommandReturn::Success, PinRequest::Clear)
                }
            },
            3 => {
                let state: u32 = match self.active_process[pin] {
                    None => 0,
                    Some(id) => if id == processid { 1 } else { 2 },
                };
                (CommandReturn::SuccessU32(state), PinRequest::Keep)
            },
            4 => {
                let (reclaimed, request) = self.reclaim_if_dead(pin, holder_entry);
                (CommandReturn::SuccessU32(if reclaimed { 1 } else { 0 }), request)
            },
            _ => (CommandReturn::Failure(ErrorCode::NOSUPPORT), PinRequest::Keep),
        }
    }
}

} // verus!
