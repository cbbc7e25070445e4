use vstd::prelude::*;
use crate::registers::{FieldValue, spec_field, spec_bit_set, is_set};
use crate::rp2xxx::pio::{SMNumber, spec_sm_index};

verus! {

/// Where the `CTRL_TRIG` fields that moved between the RP2 chips sit on one
/// of them.
///
/// Every field below `INCR_WRITE` is at the same place on both chips: `EN`
/// at bit 0, `DATA_SIZE` at bits 2 and 3, `INCR_READ` at bit 4.
pub trait DmaLayout {
    const INCR_WRITE_SHIFT: u32;
    const CHAIN_TO_SHIFT: u32;
    const TREQ_SEL_SHIFT: u32;
    const BSWAP_SHIFT: u32;
    const BUSY_SHIFT: u32;
}

/// The layout fits a 32-bit register: the six-bit `TREQ_SEL` and four-bit
/// `CHAIN_TO` fields and the one-bit fields all lie below bit 32.
pub open spec fn layout_fits<L: DmaLayout>() -> bool {
    &&& L::INCR_WRITE_SHIFT < 32
    &&& L::CHAIN_TO_SHIFT + 4 <= 32
    &&& L::TREQ_SEL_SHIFT + 6 <= 32
    &&& L::BSWAP_SHIFT < 32
    &&& L::BUSY_SHIFT < 32
}

/// `CTRL_TRIG.EN`.
pub const EN_SHIFT: u32 = 0;
/// `CTRL_TRIG.DATA_SIZE`, two bits.
pub const DATA_SIZE_SHIFT: u32 = 2;
/// `CTRL_TRIG.INCR_READ`.
pub const INCR_READ_SHIFT: u32 = 4;

/// The size of each transfer a channel makes.
#[derive(Copy, Clone, Debug, PartialEq, Eq, Structural)]
pub enum DataSize {
    Byte,
    HalfWord,
    Word,
}

/// The `DATA_SIZE` encoding of a transfer size.
pub open spec fn spec_data_size_code(size: DataSize) -> u32 {
    match size {
        DataSize::Byte => 0,
        DataSize::HalfWord => 1,
        DataSize::Word => 2,
    }
}

/// The `DATA_SIZE` field for a transfer size.
pub fn data_size(size: DataSize) -> (f: FieldValue)
    ensures
        f == spec_field(3, DATA_SIZE_SHIFT, spec_data_size_code(size)),
{
    let code: u32 = match size {
        DataSize::Byte => 0,
        DataSize::HalfWord => 1,
        DataSize::Word => 2,
    };
    FieldValue::new(3, DATA_SIZE_SHIFT, code)
}

/// `CTRL_TRIG.EN`, set or clear.
pub fn enable(on: bool) -> (f: FieldValue)
    ensures
        f == spec_field(1, EN_SHIFT, if on { 1 } else { 0 }),
{
    FieldValue::new(1, EN_SHIFT, if on { 1 } else { 0 })
}

/// `CTRL_TRIG.INCR_READ`, set or clear.
pub fn incr_read(on: bool) -> (f: FieldValue)
    ensures
        f == spec_field(1, INCR_READ_SHIFT, if on { 1 } else { 0 }),
{
    FieldValue::new(1, INCR_READ_SHIFT, if on { 1 } else { 0 })
}

/// `CTRL_TRIG.INCR_WRITE` at this chip's position, set or clear.
pub fn incr_write<L: DmaLayout>(on: bool) -> (f: FieldValue)
    requires
        layout_fits::<L>(),
    ensures
        f == spec_field(1, L::INCR_WRITE_SHIFT, if on { 1 } else { 0 }),
{
    FieldValue::new(1, L::INCR_WRITE_SHIFT, if on { 1 } else { 0 })
}

/// `CTRL_TRIG.BSWAP` at this chip's position, set or clear.
pub fn bswap<L: DmaLayout>(on: bool) -> (f: FieldValue)
    requires
        layout_fits::<L>(),
    ensures
        f == spec_field(1, L::BSWAP_SHIFT, if on { 1 } else { 0 }),
{
    FieldValue::new(1, L::BSWAP_SHIFT, if on { 1 } else { 0 })
}

/// `CTRL_TRIG.CHAIN_TO` at this chip's position: the channel to trigger on
/// completion, four bits.
pub fn chain_to<L: DmaLayout>(channel: u32) -> (f: FieldValue)
    requires
        layout_fits::<L>(),
    ensures
        f == spec_field(0xf, L::CHAIN_TO_SHIFT, channel),
{
    FieldValue::new(0xf, L::CHAIN_TO_SHIFT, channel)
}

/// `CTRL_TRIG.TREQ_SEL` at this chip's position: the transfer request that
/// paces the channel, six bits.
pub fn treq_sel<L: DmaLayout>(treq: u32) -> (f: FieldValue)
    requires
        layout_fits::<L>(),
    ensures
        f == spec_field(0x3f, L::TREQ_SEL_SHIFT, treq),
{
    FieldValue::new(0x3f, L::TREQ_SEL_SHIFT, treq)
}

/// Whether a `CTRL_TRIG` reading says the channel is still transferring.
pub fn is_busy<L: DmaLayout>(ctrl_trig: u32) -> (b: bool)
    requires
        layout_fits::<L>(),
    ensures
        b == spec_bit_set(ctrl_trig, L::BUSY_SHIFT),
{
    is_set(ctrl_trig, L::BUSY_SHIFT)
}

/// A PIO FIFO whose transfer requests can pace a channel.
#[derive(Copy, Clone, Debug, PartialEq, Eq, Structural)]
pub enum DmaPeripheral {
    /// The TX FIFO of a state machine, by block index.
    PioTxFifo(u32, SMNumber),
    /// The RX FIFO of a state machine, by block index.
    PioRxFifo(u32, SMNumber),
}

/// The transfer request number of a PIO FIFO: each block has eight, its four
/// TX FIFOs and then its four RX FIFOs, and the blocks follow one another.
pub open spec fn spec_treq_number(p: DmaPeripheral) -> u32 {
    match p {
        DmaPeripheral::PioTxFifo(block, sm) => (block * 8 + spec_sm_index(sm)) as u32,
        DmaPeripheral::PioRxFifo(block, sm) => (block * 8 + 4 + spec_sm_index(sm)) as u32,
    }
}

/// The block a FIFO belongs to.
pub open spec fn spec_peripheral_block(p: DmaPeripheral) -> u32 {
    match p {
        DmaPeripheral::PioTxFifo(block, _) => block,
        DmaPeripheral::PioRxFifo(block, _) => block,
    }
}

impl DmaPeripheral {
    /// The transfer request number that `TREQ_SEL` takes for this FIFO.
    pub fn treq_number(self) -> (n: u32)
        requires
            spec_peripheral_block(self) < 8,
        ensures
            n == spec_treq_number(self),
            n < 64,
    {
        match self {
            DmaPeripheral::PioTxFifo(block, sm) => block * 8 + sm.index(),
            DmaPeripheral::PioRxFifo(block, sm) => block * 8 + 4 + sm.index(),
        }
    }
}

/// A peripheral whose DREQ can pace a channel, named rather than numbered:
/// the numbers differ between the chips.
#[derive(Copy, Clone, Debug, PartialEq, Eq, Structural)]
pub enum DmaPacer {
    Spi0Tx,
    Spi0Rx,
    Spi1Tx,
    Spi1Rx,
}

/// Notified when a channel finishes a transfer.
pub trait DmaChannelClient {
    fn transfer_done(&self);
}

/// A channel that can stream bytes from memory into a peripheral's data
/// register, paced by that peripheral.
pub trait PeripheralDma {
    /// Stream `len` bytes from `src` into the register at `dst`, one byte per
    /// DREQ from `pacer`.
    fn write_bytes_to_peripheral(&self, src: u32, dst: u32, len: u32, pacer: DmaPacer);
}

/// One DMA channel, as a driver above it needs to see one.
pub trait DmaChannel {
    /// The PIO block type of the chip this channel belongs to.
    type Block;

    fn set_read_addr(&self, addr: u32);

    fn set_write_addr(&self, addr: u32);

    fn set_len(&self, len: u32);

    fn read_word_from_pio(&self, block: Self::Block, sm: SMNumber);

    fn write_word_to_pio(&self, block: Self::Block, sm: SMNumber);
}

} // verus!
