use vstd::prelude::*;
use crate::rp2xxx::pio::{PioBlockAddresses, PioFunction, block_addresses, spec_block_addresses};

verus! {

/// There are 3 PIO blocks on the RP2350.
#[derive(Copy, Clone, Debug, PartialEq, Eq, Structural)]
pub enum PIONumber {
    PIO0,
    PIO1,
    PIO2,
}

/// The block's index.
pub open spec fn spec_pio_index(n: PIONumber) -> usize {
    match n {
        PIONumber::PIO0 => 0,
        PIONumber::PIO1 => 1,
        PIONumber::PIO2 => 2,
    }
}

pub const PIO_0_BASE_ADDRESS: usize = 0x5020_0000;
pub const PIO_1_BASE_ADDRESS: usize = 0x5030_0000;
pub const PIO_2_BASE_ADDRESS: usize = 0x5040_0000;

/// Where a block's interrupt registers start, relative to the block. This
/// chip puts sixteen `RXFn_PUTGETn` registers and a `GPIOBASE` between them
/// and the state machine registers.
pub const IRQ_OFFSET: usize = 0x16c;

/// The registers of block `index` at `base`.
pub fn pio(index: PIONumber, base: usize) -> (a: PioBlockAddresses)
    requires
        base + 0x3000 <= usize::MAX,
    ensures
        a == spec_block_addresses(spec_pio_index(index), base, IRQ_OFFSET),
{
    let i: usize = match index {
        PIONumber::PIO0 => 0,
        PIONumber::PIO1 => 1,
        PIONumber::PIO2 => 2,
    };
    block_addresses(i, base, IRQ_OFFSET)
}

/// PIO0's registers.
pub fn new_pio0() -> (a: PioBlockAddresses)
    ensures
        a == spec_block_addresses(0, PIO_0_BASE_ADDRESS, IRQ_OFFSET),
{
    pio(PIONumber::PIO0, PIO_0_BASE_ADDRESS)
}

/// PIO1's registers.
pub fn new_pio1() -> (a: PioBlockAddresses)
    ensures
        a == spec_block_addresses(1, PIO_1_BASE_ADDRESS, IRQ_OFFSET),
{
    pio(PIONumber::PIO1, PIO_1_BASE_ADDRESS)
}

/// PIO2's registers.
pub fn new_pio2() -> (a: PioBlockAddresses)
    ensures
        a == spec_block_addresses(2, PIO_2_BASE_ADDRESS, IRQ_OFFSET),
{
    pio(PIONumber::PIO2, PIO_2_BASE_ADDRESS)
}

/// The alternate function that points a pin at the block with this index:
/// PIO2's for 2, PIO1's for 1, PIO0's for anything else.
pub fn gpio_init(pio_index: usize) -> (f: PioFunction)
    ensures
        f == (if pio_index == 2 {
            PioFunction::PIO2
        } else if pio_index == 1 {
            PioFunction::PIO1
        } else {
            PioFunction::PIO0
        }),
{
    if pio_index == 2 {
        PioFunction::PIO2
    } else if pio_index == 1 {
        PioFunction::PIO1
    } else {
        PioFunction::PIO0
    }
}

} // verus!
