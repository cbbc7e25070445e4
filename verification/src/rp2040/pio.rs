use vstd::prelude::*;
use crate::rp2xxx::pio::{PioBlockAddresses, PioFunction, block_addresses, spec_block_addresses};

verus! {

/// There can be 2 PIOs per RP2040.
#[derive(Copy, Clone, Debug, PartialEq, Eq, Structural)]
pub enum PIONumber {
    PIO0,
    PIO1,
}

pub const PIO_0_BASE_ADDRESS: usize = 0x5020_0000;
pub const PIO_1_BASE_ADDRESS: usize = 0x5030_0000;

/// Where a block's interrupt registers start, relative to the block: directly
/// after the state machine registers on this chip.
pub const IRQ_OFFSET: usize = 0x128;

/// PIO0's registers.
pub fn new_pio0() -> (a: PioBlockAddresses)
    ensures
        a == spec_block_addresses(0, PIO_0_BASE_ADDRESS, IRQ_OFFSET),
{
    block_addresses(0, PIO_0_BASE_ADDRESS, IRQ_OFFSET)
}

/// PIO1's registers.
pub fn new_pio1() -> (a: PioBlockAddresses)
    ensures
        a == spec_block_addresses(1, PIO_1_BASE_ADDRESS, IRQ_OFFSET),
{
    block_addresses(1, PIO_1_BASE_ADDRESS, IRQ_OFFSET)
}

/// The alternate function that points a pin at the block with this index:
/// PIO1's for block 1, PIO0's for anything else.
pub fn gpio_init(pio_index: usize) -> (f: PioFunction)
    ensures
        f == (if pio_index == 1 { PioFunction::PIO1 } else { PioFunction::PIO0 }),
{
    if pio_index == 1 {
        PioFunction::PIO1
    } else {
        PioFunction::PIO0
    }
}

} // verus!
