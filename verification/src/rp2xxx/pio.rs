use vstd::prelude::*;

verus! {

/// One of the four state machines of a PIO block.
#[derive(Copy, Clone, Debug, PartialEq, Eq, Structural)]
pub enum SMNumber {
    SM0,
    SM1,
    SM2,
    SM3,
}

/// A state machine's position within its block.
pub open spec fn spec_sm_index(sm: SMNumber) -> u32 {
    match sm {
        SMNumber::SM0 => 0,
        SMNumber::SM1 => 1,
        SMNumber::SM2 => 2,
        SMNumber::SM3 => 3,
    }
}

impl SMNumber {
    /// The state machine's position within its block, 0 to 3.
    pub fn index(self) -> (i: u32)
        ensures
            i == spec_sm_index(self),
            i < 4,
    {
        match self {
            SMNumber::SM0 => 0,
            SMNumber::SM1 => 1,
            SMNumber::SM2 => 2,
            SMNumber::SM3 => 3,
        }
    }
}

/// Which GPIO alternate function routes a pin to a PIO block.
#[derive(Copy, Clone, Debug, PartialEq, Eq, Structural)]
pub enum PioFunction {
    PIO0,
    PIO1,
    PIO2,
}

/// Where one PIO block's registers sit in the address map.
#[derive(Copy, Clone, Debug, PartialEq, Eq, Structural)]
pub struct PioBlockAddresses {
    /// The block's index, as its driver reports it.
    pub index: usize,
    /// The block's own registers.
    pub base: usize,
    /// Its interrupt registers.
    pub irq: usize,
    /// The set, clear and xor aliases of the block's registers.
    pub xor_alias: usize,
    pub set_alias: usize,
    pub clear_alias: usize,
}

/// The addresses of the block numbered `index` at `base`, whose interrupt
/// registers start `irq_offset` into it.
pub open spec fn spec_block_addresses(index: usize, base: usize, irq_offset: usize) -> PioBlockAddresses {
    PioBlockAddresses {
        index,
        base,
        irq: (base + irq_offset) as usize,
        xor_alias: (base + 0x1000) as usize,
        set_alias: (base + 0x2000) as usize,
        clear_alias: (base + 0x3000) as usize,
    }
}

/// Lay out the block numbered `index` at `base`.
pub fn block_addresses(index: usize, base: usize, irq_offset: usize) -> (a: PioBlockAddresses)
    requires
        irq_offset < 0x1000,
        base + 0x3000 <= usize::MAX,
    ensures
        a == spec_block_addresses(index, base, irq_offset),
{
    PioBlockAddresses {
        index,
        base,
        irq: base + irq_offset,
        xor_alias: base + 0x1000,
        set_alias: base + 0x2000,
        clear_alias: base + 0x3000,
    }
}

} // verus!
