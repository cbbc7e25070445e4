use vstd::prelude::*;

verus! {

/// Hangs the kernel loop on purpose, from an alarm callback, to prove that
/// the watchdog resets the board.
#[derive(Copy, Clone, Debug, PartialEq, Eq, Structural)]
pub struct WatchdogProbe {
    pub delay_ms: u32,
}

impl WatchdogProbe {
    pub fn new(delay_ms: u32) -> (p: WatchdogProbe)
        ensures
            p.delay_ms == delay_ms,
    {
        WatchdogProbe { delay_ms }
    }

    /// Arm the alarm: answers how many milliseconds from now it is set
    /// for. The hang happens in the callback, not here.
    pub fn arm(&self) -> (ms: u32)
        ensures
            ms == self.delay_ms,
    {
        self.delay_ms
    }
}

} // verus!
