use vstd::prelude::*;

verus! {

/// Which of the probe's two wired-together pins a step is for.
#[derive(Copy, Clone, Debug, PartialEq, Eq, Structural)]
pub enum ProbePin {
    /// The output, left low and never driven by the kernel.
    Out,
    /// The rising-edge interrupt input wired to it.
    Input,
}

/// A GPIO call the probe makes.
#[derive(Copy, Clone, Debug, PartialEq, Eq, Structural)]
pub enum PinStep {
    MakeOutput,
    Clear,
    MakeInput,
    EnableRisingEdgeInterrupt,
}

/// Shows whether a GPIO edge can wake the kernel out of `wfi`: the edge is
/// driven from the debug port while the kernel sleeps.
#[derive(Copy, Clone, Debug, PartialEq, Eq, Structural)]
pub struct NvicWakeProbe {
    pub out: u32,
    pub input: u32,
}

impl NvicWakeProbe {
    /// `out` and `input` must be physically wired together.
    pub fn new(out: u32, input: u32) -> (p: NvicWakeProbe)
        ensures
            p == (NvicWakeProbe { out, input }),
    {
        NvicWakeProbe { out, input }
    }

    /// Arm the input and leave the output low. The output is deliberately
    /// not driven: an edge raised while the kernel is awake would heal the
    /// line and hide what the probe is for.
    pub fn arm(&self) -> (steps: Vec<(ProbePin, PinStep)>)
        ensures
            steps@ == seq![
                (ProbePin::Out, PinStep::MakeOutput),
                (ProbePin::Out, PinStep::Clear),
                (ProbePin::Input, PinStep::MakeInput),
                (ProbePin::Input, PinStep::EnableRisingEdgeInterrupt),
            ],
    {
        let mut steps: Vec<(ProbePin, PinStep)> = Vec::new();
        steps.push((ProbePin::Out, PinStep::MakeOutput));
        steps.push((ProbePin::Out, PinStep::Clear));
        steps.push((ProbePin::Input, PinStep::MakeInput));
        steps.push((ProbePin::Input, PinStep::EnableRisingEdgeInterrupt));
        assert(steps@ =~= seq![
            (ProbePin::Out, PinStep::MakeOutput),
            (ProbePin::Out, PinStep::Clear),
            (ProbePin::Input, PinStep::MakeInput),
            (ProbePin::Input, PinStep::EnableRisingEdgeInterrupt),
        ]);
        steps
    }
}

} // verus!
