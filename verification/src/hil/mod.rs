//! Hardware interface layers: what a capsule may ask of a driver.

pub mod adc;
pub mod flash;
pub mod i2c;
pub mod pwm;
pub mod spi;
pub mod uart;
pub mod gpio;
