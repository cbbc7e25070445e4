pub mod adc;
pub mod dma;
pub mod pio;
pub mod watchdog;
pub mod trng;
