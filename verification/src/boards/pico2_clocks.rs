use vstd::prelude::*;

verus! {

/// One of the two PLLs.
#[derive(Copy, Clone, Debug, PartialEq, Eq, Structural)]
pub enum PllClock {
    Sys,
    Usb,
}

/// A glitchless clock's main source.
#[derive(Copy, Clone, Debug, PartialEq, Eq, Structural)]
pub enum MainSource {
    Xosc,
    Auxiliary,
}

/// A clock's auxiliary source.
#[derive(Copy, Clone, Debug, PartialEq, Eq, Structural)]
pub enum AuxSource {
    PllSys,
    PllUsb,
    System,
}

/// A clock generator that takes a source and a divider.
#[derive(Copy, Clone, Debug, PartialEq, Eq, Structural)]
pub enum ClockGenerator {
    Reference,
    System,
    Usb,
    Adc,
    Hstx,
}

/// One step of bringing the clocks up, in the order they are taken.
#[derive(Copy, Clone, Debug, PartialEq, Eq, Structural)]
pub enum ClockStep {
    /// Disable the resuscitation clock.
    DisableResus,
    /// Start the external oscillator.
    XoscInit,
    /// Take the system and reference clocks off their auxiliary sources.
    DisableSysAux,
    DisableRefAux,
    /// Hold both PLLs in reset, then release them and wait until they are.
    ResetPlls,
    UnresetPlls,
    /// Lock a PLL: reference frequency and divider, VCO frequency and the
    /// two post dividers.
    PllInit { clock: PllClock, xosc_mhz: u32, refdiv: u32, vco_freq: u32, post_div1: u32, post_div2: u32 },
    /// Select a generator's sources and divide `src_freq` down to `freq`.
    Configure { generator: ClockGenerator, main: Option<MainSource>, aux: AuxSource, src_freq: u32, freq: u32 },
    /// The peripheral clock: an auxiliary source with no divider.
    ConfigurePeripheral { aux: AuxSource, freq: u32 },
}

/// The Pico 2's clock tree: the 12 MHz crystal; PLL SYS at 1500 MHz / 6 / 2
/// = 125 MHz; PLL USB at 480 MHz / 5 / 2 = 48 MHz; the reference clock from
/// the crystal, the system clock from PLL SYS, USB and ADC at 48 MHz and
/// HSTX at 46875 Hz, all three from PLL USB, and the peripherals on the
/// system clock.
pub open spec fn spec_init_clocks() -> Seq<ClockStep> {
    seq![
        ClockStep::DisableResus,
        ClockStep::XoscInit,
        ClockStep::DisableSysAux,
        ClockStep::DisableRefAux,
        ClockStep::ResetPlls,
        ClockStep::UnresetPlls,
        ClockStep::PllInit { clock: PllClock::Sys, xosc_mhz: 12, refdiv: 1, vco_freq: 1500000000, post_div1: 6, post_div2: 2 },
        ClockStep::PllInit { clock: PllClock::Usb, xosc_mhz: 12, refdiv: 1, vco_freq: 480000000, post_div1: 5, post_div2: 2 },
        ClockStep::Configure { generator: ClockGenerator::Reference, main: Some(MainSource::Xosc), aux: AuxSource::PllUsb, src_freq: 12000000, freq: 12000000 },
        ClockStep::Configure { generator: ClockGenerator::System, main: Some(MainSource::Auxiliary), aux: AuxSource::PllSys, src_freq: 125000000, freq: 125000000 },
        ClockStep::Configure { generator: ClockGenerator::Usb, main: None, aux: AuxSource::PllUsb, src_freq: 48000000, freq: 48000000 },
        ClockStep::Configure { generator: ClockGenerator::Adc, main: None, aux: AuxSource::PllUsb, src_freq: 48000000, freq: 48000000 },
        ClockStep::Configure { generator: ClockGenerator::Hstx, main: None, aux: AuxSource::PllUsb, src_freq: 48000000, freq: 46875 },
        ClockStep::ConfigurePeripheral { aux: AuxSource::System, freq: 125000000 },
    ]
}

/// The steps that bring the Pico 2's clocks up, for the board to carry out
/// in order.
pub fn init_clocks() -> (steps: Vec<ClockStep>)
    ensures
        steps@ == spec_init_clocks(),
{
    let mut steps: Vec<ClockStep> = Vec::new();
    steps.push(ClockStep::DisableResus);
    steps.push(ClockStep::XoscInit);
    steps.push(ClockStep::DisableSysAux);
    steps.push(ClockStep::DisableRefAux);
    steps.push(ClockStep::ResetPlls);
    steps.push(ClockStep::UnresetPlls);
    steps.push(ClockStep::PllInit { clock: PllClock::Sys, xosc_mhz: 12, refdiv: 1, vco_freq: 1500 * 1000000, post_div1: 6, post_div2: 2 });
    steps.push(ClockStep::PllInit { clock: PllClock::Usb, xosc_mhz: 12, refdiv: 1, vco_freq: 480 * 1000000, post_div1: 5, post_div2: 2 });
    steps.push(ClockStep::Configure { generator: ClockGenerator::Reference, main: Some(MainSource::Xosc), aux: AuxSource::PllUsb, src_freq: 12000000, freq: 12000000 });
    steps.push(ClockStep::Configure { generator: ClockGenerator::System, main: Some(MainSource::Auxiliary), aux: AuxSource::PllSys, src_freq: 125000000, freq: 125000000 });
    steps.push(ClockStep::Configure { generator: ClockGenerator::Usb, main: None, aux: AuxSource::PllUsb, src_freq: 48000000, freq: 48000000 });
    steps.push(ClockStep::Configure { generator: ClockGenerator::Adc, main: None, aux: AuxSource::PllUsb, src_freq: 48000000, freq: 48000000 });
    steps.push(ClockStep::Configure { generator: ClockGenerator::Hstx, main: None, aux: AuxSource::PllUsb, src_freq: 48000000, freq: 46875 });
    steps.push(ClockStep::ConfigurePeripheral { aux: AuxSource::System, freq: 125000000 });
    assert(steps@ =~= spec_init_clocks());
    steps
}

} // verus!
