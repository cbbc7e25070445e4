pub mod adc;
pub mod dma;
pub mod pio;
