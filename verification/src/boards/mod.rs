//! Board-level probes and components.

pub mod jitter_probe;
pub mod nvic_wake_probe;
pub mod pico2_clocks;
pub mod pio_gspi;
pub mod watchdog_probe;
