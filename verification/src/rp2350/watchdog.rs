use vstd::prelude::*;
use crate::registers::{FieldValue, spec_field, spec_bit_set, spec_read_field, is_set, read_field};

verus! {

/// How long the kernel loop may go round without tickling before the chip is
/// reset: one second.
pub const DEFAULT_PERIOD_US: u32 = 1_000_000;

/// The widest `LOAD` will take, about 16.7 seconds.
pub const MAX_LOAD_US: u32 = 0x00FF_FFFF;

/// `CTRL.TRIGGER`: trigger a watchdog reset. Self clearing.
pub const CTRL_TRIGGER: u32 = 31;
/// `CTRL.ENABLE`: when clear the counter is paused rather than reset.
pub const CTRL_ENABLE: u32 = 30;
/// `CTRL.TIME`: microseconds remaining, 24 bits.
pub const CTRL_TIME_MASK: u32 = 0x00FF_FFFF;
/// `REASON.TIMER`: the last reset came from the watchdog timing out.
pub const REASON_TIMER: u32 = 0;

/// Every `PSM_WDSEL` subsystem except the two oscillators: bits 0 to 24 are
/// defined, 2 is `ROSC` and 3 is `XOSC`.
pub const WDSEL_ALL_BUT_OSCILLATORS: u32 = 0x01FF_FFF3;

/// A write to one of the watchdog's registers.
#[derive(Copy, Clone, Debug, PartialEq, Eq, Structural)]
pub enum WatchdogWrite {
    /// A read-modify-write of `CTRL`.
    Ctrl(FieldValue),
    /// A write of `LOAD`.
    Load(u32),
    /// A write of `PSM_WDSEL`.
    Wdsel(u32),
}

/// The period `LOAD` is given for a request: capped at what it holds.
pub open spec fn spec_load(period_us: u32) -> u32 {
    if period_us < MAX_LOAD_US { period_us } else { MAX_LOAD_US }
}

/// The value loaded for a period is the period itself, capped at the widest
/// `LOAD`: never more than asked or than `MAX_LOAD_US`, less than asked only
/// at the cap, and never smaller for a longer period.
pub proof fn law_load_is_capped_period(period_us: u32, longer_us: u32)
    ensures
        spec_load(period_us) <= period_us,
        spec_load(period_us) <= MAX_LOAD_US,
        spec_load(period_us) == period_us || spec_load(period_us) == MAX_LOAD_US,
        period_us <= MAX_LOAD_US ==> spec_load(period_us) == period_us,
        period_us <= longer_us ==> spec_load(period_us) <= spec_load(longer_us),
{
}

/// What `start` writes, in order: pause the counter, choose what a timeout
/// resets, load the period, and enable.
pub open spec fn spec_start_writes(period_us: u32) -> Seq<WatchdogWrite> {
    seq![
        WatchdogWrite::Ctrl(spec_field(1, CTRL_ENABLE, 0)),
        WatchdogWrite::Wdsel(WDSEL_ALL_BUT_OSCILLATORS),
        WatchdogWrite::Load(spec_load(period_us)),
        WatchdogWrite::Ctrl(spec_field(1, CTRL_ENABLE, 1)),
    ]
}

/// The RP2350's watchdog. Its tick generator lives in another block and
/// must be started by the caller first.
#[derive(Copy, Clone, Debug, PartialEq, Eq, Structural)]
pub struct Watchdog {
    pub registers: usize,
    pub psm: usize,
}

pub const WATCHDOG_BASE: usize = 0x400D_8000;
pub const PSM_BASE: usize = 0x4001_8000;

impl Watchdog {
    /// The watchdog at its place in the address map.
    pub fn new() -> (w: Watchdog)
        ensures
            w == (Watchdog { registers: WATCHDOG_BASE, psm: PSM_BASE }),
    {
        Watchdog { registers: WATCHDOG_BASE, psm: PSM_BASE }
    }

    /// The period `LOAD` takes for a request.
    fn load_value(period_us: u32) -> (l: u32)
        ensures
            l == spec_load(period_us),
    {
        if period_us < MAX_LOAD_US { period_us } else { MAX_LOAD_US }
    }

    /// Enable the watchdog with a period in microseconds. The counter is
    /// paused while `LOAD` is written, so it cannot fire on a half-written
    /// period.
    pub fn start(&self, period_us: u32) -> (w: Vec<WatchdogWrite>)
        ensures
            w@ == spec_start_writes(period_us),
    {
        let mut w: Vec<WatchdogWrite> = Vec::new();
        w.push(WatchdogWrite::Ctrl(FieldValue::new(1, CTRL_ENABLE, 0)));
        w.push(WatchdogWrite::Wdsel(WDSEL_ALL_BUT_OSCILLATORS));
        w.push(WatchdogWrite::Load(Self::load_value(period_us)));
        w.push(WatchdogWrite::Ctrl(FieldValue::new(1, CTRL_ENABLE, 1)));
        assert(w@ =~= spec_start_writes(period_us));
        w
    }

    /// Reload the counter.
    pub fn feed(&self, period_us: u32) -> (w: WatchdogWrite)
        ensures
            w == WatchdogWrite::Load(spec_load(period_us)),
    {
        WatchdogWrite::Load(Self::load_value(period_us))
    }

    /// Pause the counter. It holds its value rather than resetting.
    pub fn stop(&self) -> (w: WatchdogWrite)
        ensures
            w == WatchdogWrite::Ctrl(spec_field(1, CTRL_ENABLE, 0)),
    {
        WatchdogWrite::Ctrl(FieldValue::new(1, CTRL_ENABLE, 0))
    }

    /// Did the last reset come from the watchdog, given what `REASON` reads?
    pub fn caused_last_reset(&self, reason: u32) -> (b: bool)
        ensures
            b == spec_bit_set(reason, REASON_TIMER),
    {
        is_set(reason, REASON_TIMER)
    }

    /// Microseconds left before the watchdog fires, given what `CTRL` reads.
    pub fn time_remaining_us(&self, ctrl: u32) -> (t: u32)
        ensures
            t == spec_read_field(ctrl, CTRL_TIME_MASK, 0),
            t <= MAX_LOAD_US,
    {
        let t = read_field(ctrl, CTRL_TIME_MASK, 0);
        assert((ctrl >> 0u32) & 0x00FF_FFFF <= 0x00FF_FFFF) by (bit_vector);
        t
    }

    /// Ask the watchdog to reset the chip now. The reset is a few cycles
    /// after the second write; the caller spins until it lands.
    pub fn trigger_reset(&self) -> (w: Vec<WatchdogWrite>)
        ensures
            w@ == seq![WatchdogWrite::Wdsel(WDSEL_ALL_BUT_OSCILLATORS), WatchdogWrite::Ctrl(spec_field(1, CTRL_TRIGGER, 1))],
    {
        let mut w: Vec<WatchdogWrite> = Vec::new();
        w.push(WatchdogWrite::Wdsel(WDSEL_ALL_BUT_OSCILLATORS));
        w.push(WatchdogWrite::Ctrl(FieldValue::new(1, CTRL_TRIGGER, 1)));
        assert(w@ =~= seq![WatchdogWrite::Wdsel(WDSEL_ALL_BUT_OSCILLATORS), WatchdogWrite::Ctrl(spec_field(1, CTRL_TRIGGER, 1))]);
        w
    }

    /// The kernel loop's `setup`: start with the default period.
    pub fn setup(&self) -> (w: Vec<WatchdogWrite>)
        ensures
            w@ == spec_start_writes(DEFAULT_PERIOD_US),
    {
        self.start(DEFAULT_PERIOD_US)
    }

    /// The kernel loop's `tickle`: reload with the default period.
    pub fn tickle(&self) -> (w: WatchdogWrite)
        ensures
            w == WatchdogWrite::Load(DEFAULT_PERIOD_US),
    {
        self.feed(DEFAULT_PERIOD_US)
    }

    /// Before the kernel sleeps: pause, since a kernel with nothing to do has
    /// not hung.
    pub fn suspend(&self) -> (w: WatchdogWrite)
        ensures
            w == WatchdogWrite::Ctrl(spec_field(1, CTRL_ENABLE, 0)),
    {
        self.stop()
    }

    /// After the kernel wakes: start again, which sets `ENABLE` that
    /// `suspend` cleared. Reloading alone would leave the watchdog off.
    pub fn resume(&self) -> (w: Vec<WatchdogWrite>)
        ensures
            w@ == spec_start_writes(DEFAULT_PERIOD_US),
    {
        self.start(DEFAULT_PERIOD_US)
    }
}

/// The value `WDSEL_ALL_BUT_OSCILLATORS` stands for: bits 0 to 24 without
/// `ROSC` and `XOSC`.
pub proof fn lemma_wdsel_spares_the_oscillators()
    ensures
        WDSEL_ALL_BUT_OSCILLATORS == 0x01FF_FFFFu32 & !((1u32 << 2u32) | (1u32 << 3u32)),
{
    assert(0x01FF_FFF3u32 == 0x01FF_FFFFu32 & !((1u32 << 2u32) | (1u32 << 3u32))) by (bit_vector);
}

/// Whatever `CTRL` held, the write `start` ends with leaves the watchdog
/// enabled, and the one `suspend` makes leaves it paused; so a `resume`
/// after a `suspend` always runs the counter again.
pub proof fn lemma_resume_reenables(ctrl: u32)
    ensures
        spec_bit_set(crate::registers::spec_apply(spec_start_writes(DEFAULT_PERIOD_US)[3]->Ctrl_0, ctrl), CTRL_ENABLE),
        !spec_bit_set(crate::registers::spec_apply(spec_field(1, CTRL_ENABLE, 0), ctrl), CTRL_ENABLE),
{
    assert((((ctrl & !(1u32 << 30u32)) | ((1u32 & 1u32) << 30u32)) >> 30u32) & 1 == 1) by (bit_vector);
    assert((((ctrl & !(1u32 << 30u32)) | ((0u32 & 1u32) << 30u32)) >> 30u32) & 1 != 1) by (bit_vector);
}

} // verus!
