use vstd::prelude::*;

verus! {

/// How fast a pad drives an edge.
#[derive(Copy, Clone, Debug, PartialEq, Eq, Structural)]
pub enum SlewRate {
    Slow,
    Fast,
}

/// How much current a pad can source or sink.
#[derive(Copy, Clone, Debug, PartialEq, Eq, Structural)]
pub enum DriveStrength {
    Drive2mA,
    Drive4mA,
    Drive8mA,
    Drive12mA,
}

/// A pin whose pad can be tuned and pointed at a PIO block.
pub trait PioPad: Sized {
    /// A handle on the pad of one GPIO, by number.
    fn from_pin_number(pin: u32) -> Self;

    /// Point this pin at a PIO block, by index.
    fn select_pio(&self, pio_index: usize);

    fn set_schmitt(&self, enable: bool);

    fn set_slew_rate(&self, rate: SlewRate);

    fn set_drive_strength(&self, strength: DriveStrength);

    /// Disable both the pull up and the pull down.
    fn set_pull_none(&self);

    /// Take the pad out of isolation: enable the input and the output.
    fn activate_pads(&self);
}

} // verus!
