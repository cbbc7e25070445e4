//! Capsules: drivers that sit between processes and hardware.

pub mod pulse_counter;
pub mod pwm;
pub mod reclaim_leak_demo;
pub mod screen;
pub mod stepper;
pub mod throttle;
pub mod virtual_pwm;
pub mod test;
