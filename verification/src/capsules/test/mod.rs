//! Conformance tests: each runs a HIL's stated guarantees against a real
//! implementation and reports which clauses held.

pub mod capsule_test;
pub mod adc_contract;
pub mod i2c_contract;
pub mod gpio_contract;
