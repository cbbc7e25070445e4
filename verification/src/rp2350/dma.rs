use vstd::prelude::*;
use crate::rp2xxx::dma::{DmaLayout, layout_fits};
use crate::rp2040::dma::Rp2040DmaLayout;

verus! {

/// The RP2350 has 16 DMA channels.
pub const NUM_CHANNELS: usize = 16;

/// Where the `CTRL_TRIG` fields that differ between the RP2 chips sit on the
/// RP2350 (datasheet 12.6). This chip inserts `INCR_READ_REV` at bit 5 and `INCR_WRITE_REV`
/// at bit 7, so `INCR_WRITE` moves up by one and everything from `RING_SIZE` by two.
pub struct Rp2350DmaLayout;

impl DmaLayout for Rp2350DmaLayout {
    const INCR_WRITE_SHIFT: u32 = 6;
    const CHAIN_TO_SHIFT: u32 = 13;
    const TREQ_SEL_SHIFT: u32 = 17;
    const BSWAP_SHIFT: u32 = 24;
    const BUSY_SHIFT: u32 = 26;
}

/// The RP2350's `CTRL_TRIG` positions: `INCR_WRITE` at bit 6, `CHAIN_TO` at
/// bits 13 to 16, `TREQ_SEL` at bits 17 to 22, `BSWAP` at bit 24 and `BUSY`
/// at bit 26; all of them inside the register.
pub proof fn lemma_rp2350_layout()
    ensures
        Rp2350DmaLayout::INCR_WRITE_SHIFT == 6,
        Rp2350DmaLayout::CHAIN_TO_SHIFT == 13,
        Rp2350DmaLayout::TREQ_SEL_SHIFT == 17,
        Rp2350DmaLayout::BSWAP_SHIFT == 24,
        Rp2350DmaLayout::BUSY_SHIFT == 26,
        layout_fits::<Rp2350DmaLayout>(),
{
}

/// Each field that moved sits above its RP2040 position by the bits inserted
/// below it: one (`INCR_READ_REV` at bit 5) for `INCR_WRITE`, two (that and
/// `INCR_WRITE_REV` at bit 7) for every field from `CHAIN_TO` up.
pub proof fn lemma_moved_by_inserted_bits()
    ensures
        Rp2350DmaLayout::INCR_WRITE_SHIFT == Rp2040DmaLayout::INCR_WRITE_SHIFT + 1,
        Rp2350DmaLayout::CHAIN_TO_SHIFT == Rp2040DmaLayout::CHAIN_TO_SHIFT + 2,
        Rp2350DmaLayout::TREQ_SEL_SHIFT == Rp2040DmaLayout::TREQ_SEL_SHIFT + 2,
        Rp2350DmaLayout::BSWAP_SHIFT == Rp2040DmaLayout::BSWAP_SHIFT + 2,
        Rp2350DmaLayout::BUSY_SHIFT == Rp2040DmaLayout::BUSY_SHIFT + 2,
{
    crate::rp2040::dma::lemma_rp2040_layout();
}

/// Where the block is, and where its interrupt registers start within it.
pub const DMA_BASE: usize = 0x5000_0000;
pub const IRQ_OFFSET: usize = 0x400;

/// Which DMA channel. The RP2350 has sixteen.
#[derive(Copy, Clone, Debug, PartialEq, Eq, Structural)]
pub enum Channel {
    Channel0,
    Channel1,
    Channel2,
    Channel3,
    Channel4,
    Channel5,
    Channel6,
    Channel7,
    Channel8,
    Channel9,
    Channel10,
    Channel11,
    Channel12,
    Channel13,
    Channel14,
    Channel15,
}

pub open spec fn spec_channel_index(c: Channel) -> usize {
    match c {
        Channel::Channel0 => 0,
        Channel::Channel1 => 1,
        Channel::Channel2 => 2,
        Channel::Channel3 => 3,
        Channel::Channel4 => 4,
        Channel::Channel5 => 5,
        Channel::Channel6 => 6,
        Channel::Channel7 => 7,
        Channel::Channel8 => 8,
        Channel::Channel9 => 9,
        Channel::Channel10 => 10,
        Channel::Channel11 => 11,
        Channel::Channel12 => 12,
        Channel::Channel13 => 13,
        Channel::Channel14 => 14,
        Channel::Channel15 => 15,
    }
}

impl Channel {
    /// The channel's number.
    pub fn index(self) -> (i: usize)
        ensures
            i == spec_channel_index(self),
            i < NUM_CHANNELS,
    {
        match self {
            Channel::Channel0 => 0,
            Channel::Channel1 => 1,
            Channel::Channel2 => 2,
            Channel::Channel3 => 3,
            Channel::Channel4 => 4,
            Channel::Channel5 => 5,
            Channel::Channel6 => 6,
            Channel::Channel7 => 7,
            Channel::Channel8 => 8,
            Channel::Channel9 => 9,
            Channel::Channel10 => 10,
            Channel::Channel11 => 11,
            Channel::Channel12 => 12,
            Channel::Channel13 => 13,
            Channel::Channel14 => 14,
            Channel::Channel15 => 15,
        }
    }
}

/// Where the DMA block's channel registers and interrupt registers sit.
#[derive(Copy, Clone, Debug, PartialEq, Eq, Structural)]
pub struct DmaAddresses {
    pub channels: usize,
    pub irq: usize,
    pub num_channels: usize,
}

/// The RP2350's DMA block.
pub fn new() -> (a: DmaAddresses)
    ensures
        a == (DmaAddresses { channels: DMA_BASE, irq: (DMA_BASE + IRQ_OFFSET) as usize, num_channels: NUM_CHANNELS }),
{
    DmaAddresses { channels: DMA_BASE, irq: DMA_BASE + IRQ_OFFSET, num_channels: NUM_CHANNELS }
}

} // verus!
