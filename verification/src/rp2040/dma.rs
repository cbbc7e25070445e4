use vstd::prelude::*;
use crate::rp2xxx::dma::{DmaLayout, layout_fits};

verus! {

/// The RP2040 has 12 DMA channels.
pub const NUM_CHANNELS: usize = 12;

/// Where the `CTRL_TRIG` fields that differ between the RP2 chips sit on the
/// RP2040 (datasheet 2.5.7).
pub struct Rp2040DmaLayout;

impl DmaLayout for Rp2040DmaLayout {
    const INCR_WRITE_SHIFT: u32 = 5;
    const CHAIN_TO_SHIFT: u32 = 11;
    const TREQ_SEL_SHIFT: u32 = 15;
    const BSWAP_SHIFT: u32 = 22;
    const BUSY_SHIFT: u32 = 24;
}

/// The RP2040's `CTRL_TRIG` positions: `INCR_WRITE` at bit 5, `CHAIN_TO` at
/// bits 11 to 14, `TREQ_SEL` at bits 15 to 20, `BSWAP` at bit 22 and `BUSY`
/// at bit 24; all of them inside the register.
pub proof fn lemma_rp2040_layout()
    ensures
        Rp2040DmaLayout::INCR_WRITE_SHIFT == 5,
        Rp2040DmaLayout::CHAIN_TO_SHIFT == 11,
        Rp2040DmaLayout::TREQ_SEL_SHIFT == 15,
        Rp2040DmaLayout::BSWAP_SHIFT == 22,
        Rp2040DmaLayout::BUSY_SHIFT == 24,
        layout_fits::<Rp2040DmaLayout>(),
{
}

/// Where the block is, and where its interrupt registers start within it.
pub const DMA_BASE: usize = 0x5000_0000;
pub const IRQ_OFFSET: usize = 0x400;

/// Which DMA channel. The RP2040 has twelve.
#[derive(Copy, Clone, Debug, PartialEq, Eq, Structural)]
pub enum Channel {
    Channel0,
    Channel1,
    Channel2,
    Channel3,
    Channel4,
    Channel5,
    Channel6,
    Channel7,
    Channel8,
    Channel9,
    Channel10,
    Channel11,
}

pub open spec fn spec_channel_index(c: Channel) -> usize {
    match c {
        Channel::Channel0 => 0,
        Channel::Channel1 => 1,
        Channel::Channel2 => 2,
        Channel::Channel3 => 3,
        Channel::Channel4 => 4,
        Channel::Channel5 => 5,
        Channel::Channel6 => 6,
        Channel::Channel7 => 7,
        Channel::Channel8 => 8,
        Channel::Channel9 => 9,
        Channel::Channel10 => 10,
        Channel::Channel11 => 11,
    }
}

impl Channel {
    /// The channel's number.
    pub fn index(self) -> (i: usize)
        ensures
            i == spec_channel_index(self),
            i < NUM_CHANNELS,
    {
        match self {
            Channel::Channel0 => 0,
            Channel::Channel1 => 1,
            Channel::Channel2 => 2,
            Channel::Channel3 => 3,
            Channel::Channel4 => 4,
            Channel::Channel5 => 5,
            Channel::Channel6 => 6,
            Channel::Channel7 => 7,
            Channel::Channel8 => 8,
            Channel::Channel9 => 9,
            Channel::Channel10 => 10,
            Channel::Channel11 => 11,
        }
    }
}

/// Where the DMA block's channel registers and interrupt registers sit.
#[derive(Copy, Clone, Debug, PartialEq, Eq, Structural)]
pub struct DmaAddresses {
    pub channels: usize,
    pub irq: usize,
    pub num_channels: usize,
}

/// The RP2040's DMA block.
pub fn new() -> (a: DmaAddresses)
    ensures
        a == (DmaAddresses { channels: DMA_BASE, irq: (DMA_BASE + IRQ_OFFSET) as usize, num_channels: NUM_CHANNELS }),
{
    DmaAddresses { channels: DMA_BASE, irq: DMA_BASE + IRQ_OFFSET, num_channels: NUM_CHANNELS }
}

} // verus!
