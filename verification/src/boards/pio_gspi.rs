use vstd::prelude::*;
use crate::rp2xxx::pio::SMNumber;

verus! {

/// Which of the DMA block's two interrupt outputs a channel raises.
#[derive(Copy, Clone, Debug, PartialEq, Eq, Structural)]
pub enum DmaIrq {
    Irq0,
    Irq1,
}

/// One step of bringing up the gSPI bus the CYW43439 radio speaks.
#[derive(Copy, Clone, Debug, PartialEq, Eq, Structural)]
pub enum GspiSetupStep {
    /// Route the DMA channel's completion to this interrupt output.
    EnableDmaInterrupt(DmaIrq),
    /// Build the driver over the PIO block, the channel and the pins.
    CreateDriver,
    /// Make the driver the DMA channel's client.
    SetDmaClient,
    /// Load the PIO program and configure the pins.
    InitDriver,
    /// Make the driver the state machine's client.
    SetSmClient(SMNumber),
}

/// The parts the gSPI bus is built from.
#[derive(Copy, Clone, Debug, PartialEq, Eq, Structural)]
pub struct PioGspiComponent {
    pub pio_index: usize,
    pub pio_sm: SMNumber,
    pub dma_channel: usize,
    pub dma_irq: DmaIrq,
    /// The clock pin.
    pub clk: u32,
    /// The data pin, both directions.
    pub dio: u32,
    /// The chip-select pin.
    pub cs: u32,
}

impl PioGspiComponent {
    pub fn new(pio_index: usize, pio_sm: SMNumber, dma_channel: usize, dma_irq: DmaIrq, clk: u32, dio: u32, cs: u32) -> (c: PioGspiComponent)
        ensures
            c == (PioGspiComponent { pio_index, pio_sm, dma_channel, dma_irq, clk, dio, cs }),
    {
        PioGspiComponent { pio_index, pio_sm, dma_channel, dma_irq, clk, dio, cs }
    }

    /// The bring-up, in order: the DMA interrupt must be routed before the
    /// driver exists, and the driver must be both clients before it is
    /// initialised and starts the state machine.
    pub fn finalize(&self) -> (steps: Vec<GspiSetupStep>)
        ensures
            steps@ == seq![
                GspiSetupStep::EnableDmaInterrupt(self.dma_irq),
                GspiSetupStep::CreateDriver,
                GspiSetupStep::SetDmaClient,
                GspiSetupStep::InitDriver,
                GspiSetupStep::SetSmClient(self.pio_sm),
            ],
    {
        let mut steps: Vec<GspiSetupStep> = Vec::new();
        steps.push(GspiSetupStep::EnableDmaInterrupt(self.dma_irq));
        steps.push(GspiSetupStep::CreateDriver);
        steps.push(GspiSetupStep::SetDmaClient);
        steps.push(GspiSetupStep::InitDriver);
        steps.push(GspiSetupStep::SetSmClient(self.pio_sm));
        assert(steps@ =~= seq![
            GspiSetupStep::EnableDmaInterrupt(self.dma_irq),
            GspiSetupStep::CreateDriver,
            GspiSetupStep::SetDmaClient,
            GspiSetupStep::InitDriver,
            GspiSetupStep::SetSmClient(self.pio_sm),
        ]);
        steps
    }
}

} // verus!
