//! What the RP2040 and the RP2350 share.

pub mod adc;
pub mod dma;
pub mod nvic;
pub mod pads;
pub mod pio;
