//! Verified decision logic of the Raspberry Pi RP2 support in this kernel:
//! capsules, chip drivers, probes and HIL conformance tests, each written as
//! a state machine whose effects on hardware are returned as plain values.

pub mod error_code;
pub mod registers;
pub mod rp2xxx;
pub mod rp2040;
pub mod rp2350;
pub mod process;
pub mod hil;
pub mod capsules;
pub mod boards;
pub mod learning;
pub mod kernel;
