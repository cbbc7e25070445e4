use vstd::prelude::*;
use crate::error_code::{CommandReturn, ErrorCode};

verus! {

/// How long each counting window is, in milliseconds.
pub const WINDOW_MS: u32 = 250;

/// Windows per second: what a window's count is multiplied by for a rate.
pub const WINDOWS_PER_SECOND: u32 = 1000 / WINDOW_MS;

/// What the counter asks of its pins and its alarm.
#[derive(Copy, Clone, Debug, PartialEq, Eq, Structural)]
pub struct PulseEffects {
    /// Enable a rising-edge interrupt on every pin.
    pub enable_interrupts: bool,
    /// Disable the interrupt on every pin.
    pub disable_interrupts: bool,
    /// Set the alarm for the end of the next window, `WINDOW_MS` from now.
    pub schedule: bool,
}

pub open spec fn spec_no_effects() -> PulseEffects {
    PulseEffects { enable_interrupts: false, disable_interrupts: false, schedule: false }
}

/// `u32::saturating_add`.
pub open spec fn spec_saturating_add(a: u32, b: u32) -> u32 {
    if a + b > u32::MAX { u32::MAX } else { (a + b) as u32 }
}

/// `u32::saturating_mul`.
pub open spec fn spec_saturating_mul(a: u32, b: u32) -> u32 {
    if a * b > u32::MAX { u32::MAX } else { (a * b) as u32 }
}

/// The rate a window's count stands for, in pulses per second. A count that
/// has run away reads as impossibly high, never as wrapped.
pub open spec fn spec_rate(count: u32) -> u32 {
    spec_saturating_mul(count, WINDOWS_PER_SECOND)
}

/// Counts rising edges on `N` input pins over fixed windows and reports each
/// pin's rate.
#[derive(Copy, Clone, Debug, PartialEq, Eq)]
pub struct PulseCounter<const N: usize> {
    /// Edges seen in the window now being counted.
    pub counts: [u32; N],
    /// Pulses per second over the window that last closed.
    pub rates: [u32; N],
    pub running: bool,
}

impl<const N: usize> PulseCounter<N> {
    /// Stopped, every count and rate zero.
    pub fn new() -> (p: PulseCounter<N>)
        ensures
            !p.running,
            forall|i: int| 0 <= i < N ==> p.counts[i] == 0 && p.rates[i] == 0,
    {
        PulseCounter { counts: [0; N], rates: [0; N], running: false }
    }

    /// The value each pin reports when it fires: its own index, so one
    /// client serves all of them.
    pub fn initialise(&self) -> (values: Vec<u32>)
        requires
            N <= u32::MAX,
        ensures
            values@.len() == N,
            forall|i: int| 0 <= i < N ==> values@[i] == i,
    {
        let mut values: Vec<u32> = Vec::new();
        let mut i: usize = 0;
        while i < N
            invariant
                i <= N,
                N <= u32::MAX,
                values@.len() == i,
                forall|j: int| 0 <= j < i ==> values@[j] == j,
            decreases N - i,
        {
            values.push(i as u32);
            i = i + 1;
        }
        values
    }

    /// Start counting on every pin, from zero. Nothing happens if already
    /// running.
    pub fn start(&mut self) -> (e: PulseEffects)
        ensures
            old(self).running ==> *final(self) == *old(self) && e == spec_no_effects(),
            !old(self).running ==> {
                &&& final(self).running
                &&& forall|i: int| 0 <= i < N ==> final(self).counts[i] == 0 && final(self).rates[i] == 0
                &&& e == (PulseEffects { enable_interrupts: true, disable_interrupts: false, schedule: true })
            },
    {
        if self.running {
            return PulseEffects { enable_interrupts: false, disable_interrupts: false, schedule: false };
        }
        let mut i: usize = 0;
        while i < N
            invariant
                i <= N,
                forall|j: int| 0 <= j < i ==> self.counts[j] == 0 && self.rates[j] == 0,
            decreases N - i,
        {
            self.counts[i] = 0;
            self.rates[i] = 0;
            i = i + 1;
        }
        self.running = true;
        PulseEffects { enable_interrupts: true, disable_interrupts: false, schedule: true }
    }

    /// Stop counting. The counts and rates are kept.
    pub fn stop(&mut self) -> (e: PulseEffects)
        ensures
            final(self).counts@ == old(self).counts@,
            final(self).rates@ == old(self).rates@,
            !final(self).running,
            e == (PulseEffects { enable_interrupts: false, disable_interrupts: true, schedule: false }),
    {
        self.running = false;
        PulseEffects { enable_interrupts: false, disable_interrupts: true, schedule: false }
    }

    /// The pin with index `value` saw an edge. A value that is no pin's is
    /// ignored.
    pub fn fired(&mut self, value: u32)
        ensures
            final(self).rates@ == old(self).rates@,
            final(self).running == old(self).running,
            (value as int) < N ==> final(self).counts@ == old(self).counts@.update(
                value as int,
                spec_saturating_add(old(self).counts[value as int], 1),
            ),
            (value as int) >= N ==> final(self).counts@ == old(self).counts@,
    {
        let i = value as usize;
        if i < N {
            let c = self.counts[i];
            self.counts[i] = c.saturating_add(1);
        }
    }

    /// A window closed. While running, each pin's count becomes its rate and
    /// starts again from zero, and the next window is scheduled; otherwise
    /// nothing happens.
    pub fn alarm(&mut self) -> (e: PulseEffects)
        ensures
            !old(self).running ==> *final(self) == *old(self) && e == spec_no_effects(),
            old(self).running ==> {
                &&& final(self).running
                &&& forall|i: int| 0 <= i < N ==> final(self).counts[i] == 0
                        && final(self).rates[i] == spec_rate(old(self).counts[i])
                &&& e == (PulseEffects { enable_interrupts: false, disable_interrupts: false, schedule: true })
            },
    {
        if !self.running {
            return PulseEffects { enable_interrupts: false, disable_interrupts: false, schedule: false };
        }
        let mut i: usize = 0;
        while i < N
            invariant
                i <= N,
                self.running,
                forall|j: int| 0 <= j < i ==> self.counts[j] == 0 && self.rates[j] == spec_rate(old(self).counts[j]),
                forall|j: int| i <= j < N ==> self.counts[j] == old(self).counts[j],
            decreases N - i,
        {
            let count = self.counts[i];
            self.counts[i] = 0;
            self.rates[i] = match count.checked_mul(WINDOWS_PER_SECOND) {
                Some(rate) => rate,
                None => u32::MAX,
            };
            i = i + 1;
        }
        PulseEffects { enable_interrupts: false, disable_interrupts: false, schedule: true }
    }

    /// The syscall interface.
    ///
    /// - `0`: the driver exists.
    /// - `1`: start counting on every pin.
    /// - `2`: stop.
    /// - `3`: the rate on pin `data1` over the last window; `INVAL` for a pin
    ///   that does not exist.
    /// - `4`: the number of pins.
    /// - `5`: the window length in milliseconds.
    /// - anything else: `NOSUPPORT`.
    pub fn command(&mut self, command_num: usize, data1: usize) -> (r: (CommandReturn, PulseEffects))
        requires
            N <= u32::MAX,
        ensures
            command_num == 1 ==> {
                &&& r.0 == CommandReturn::Success
                &&& final(self).running
                &&& old(self).running ==> *final(self) == *old(self) && r.1 == spec_no_effects()
                &&& !old(self).running ==> r.1 == (PulseEffects { enable_interrupts: true, disable_interrupts: false, schedule: true })
                        && forall|i: int| 0 <= i < N ==> final(self).counts[i] == 0 && final(self).rates[i] == 0
            },
            command_num == 2 ==> {
                &&& r == (CommandReturn::Success, PulseEffects { enable_interrupts: false, disable_interrupts: true, schedule: false })
                &&& !final(self).running
                &&& final(self).counts@ == old(self).counts@
                &&& final(self).rates@ == old(self).rates@
            },
            command_num != 1 && command_num != 2 ==> *final(self) == *old(self) && r.1 == spec_no_effects(),
            command_num == 0 ==> r.0 == CommandReturn::Success,
            command_num == 3 ==> r.0 == (if data1 < N {
                CommandReturn::SuccessU32(old(self).rates[data1 as int])
            } else {
                CommandReturn::Failure(ErrorCode::INVAL)
            }),
            command_num == 4 ==> r.0 == CommandReturn::SuccessU32(N as u32),
            command_num == 5 ==> r.0 == CommandReturn::SuccessU32(WINDOW_MS),
            command_num > 5 ==> r.0 == CommandReturn::Failure(ErrorCode::NOSUPPORT),
    {
        let none = PulseEffects { enable_interrupts: false, disable_interrupts: false, schedule: false };
        match command_num {
            0 => (CommandReturn::Success, none),
            1 => {
                let e = self.start();
                (CommandReturn::Success, e)
            },
            2 => {
                let e = self.stop();
                (CommandReturn::Success, e)
            },
            3 => {
                if data1 < N {
                    (CommandReturn::SuccessU32(self.rates[data1]), none)
                } else {
                    (CommandReturn::Failure(ErrorCode::INVAL), none)
                }
            },
            4 => (CommandReturn::SuccessU32(N as u32), none),
            5 => (CommandReturn::SuccessU32(WINDOW_MS), none),
            _ => (CommandReturn::Failure(ErrorCode::NOSUPPORT), none),
        }
    }
}

} // verus!
