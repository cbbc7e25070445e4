use vstd::prelude::*;

verus! {

/// One peripheral's line into the chip's interrupt controller.
///
/// A peripheral's own interrupt mask is not enough: a pending interrupt
/// whose line is disabled does not wake the kernel from `wfi`. The chip crate
/// knows the number and hands the line in.
pub trait InterruptLine {
    /// Arm the line. Idempotent.
    fn enable(&self);
}

} // verus!
