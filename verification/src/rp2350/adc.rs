use vstd::prelude::*;
use crate::rp2xxx::adc::{Adc, AdcStatus};

verus! {

/// Where the ADC's registers are.
pub const ADC_BASE: usize = 0x400A_0000;

/// The four analogue inputs a QFN-60 RP2350 bonds out, and the temperature sensor.
#[derive(Copy, Clone, Debug, PartialEq, Eq, Structural)]
pub enum Channel {
    Channel0,
    Channel1,
    Channel2,
    Channel3,
    /// The on-die temperature sensor.
    Channel4,
}

/// The channel's number, which is its `AINSEL` value.
pub open spec fn spec_channel_number(c: Channel) -> u32 {
    match c {
        Channel::Channel0 => 0,
        Channel::Channel1 => 1,
        Channel::Channel2 => 2,
        Channel::Channel3 => 3,
        Channel::Channel4 => 4,
    }
}

impl crate::rp2xxx::adc::Channel for Channel {
    open spec fn spec_ainsel(&self) -> u32 {
        spec_channel_number(*self)
    }

    open spec fn spec_is_temperature_sensor(&self) -> bool {
        *self == Channel::Channel4
    }

    fn ainsel(&self) -> (r: u32) {
        match *self {
            Channel::Channel0 => 0,
            Channel::Channel1 => 1,
            Channel::Channel2 => 2,
            Channel::Channel3 => 3,
            Channel::Channel4 => 4,
        }
    }

    fn is_temperature_sensor(&self) -> (r: bool) {
        *self == Channel::Channel4
    }
}

/// The shared SAR ADC driver at this chip's `ADC_BASE`, idle.
pub fn new_adc() -> (a: Adc)
    ensures
        a == (Adc { registers: ADC_BASE, status: AdcStatus::Idle, has_client: false }),
{
    Adc::new(ADC_BASE)
}

} // verus!
