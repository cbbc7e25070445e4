use vstd::prelude::*;

verus! {

/// How a pin is configured.
#[derive(Copy, Clone, Debug, PartialEq, Eq, Structural)]
pub enum Configuration {
    LowPower,
    Input,
    Output,
    InputOutput,
    Function,
    Other,
}

/// Which edge an interrupt fires on.
#[derive(Copy, Clone, Debug, PartialEq, Eq, Structural)]
pub enum InterruptEdge {
    RisingEdge,
    FallingEdge,
    EitherEdge,
}

/// A GPIO pin.
///
/// `make_output` answers the configuration it leaves, `Output` or
/// `InputOutput`, and `make_input` likewise `Input` or `InputOutput`;
/// `configuration` then agrees. `toggle` answers the new level.
///
/// Each implementation says, through the `_answers` relations, which
/// answers it gives to which call.
pub trait Pin {
    /// Whether `c` is an answer this pin gives to `make_output`.
    spec fn make_output_answers(&self, c: Configuration) -> bool;

    /// Whether `c` is an answer this pin gives to `make_input`.
    spec fn make_input_answers(&self, c: Configuration) -> bool;

    /// Whether `c` is an answer this pin gives to `configuration`.
    spec fn configuration_answers(&self, c: Configuration) -> bool;

    /// Whether `level` is an answer this pin gives to `toggle`.
    spec fn toggle_answers(&self, level: bool) -> bool;

    /// Whether `level` is an answer this pin gives to `read`.
    spec fn read_answers(&self, level: bool) -> bool;

    fn make_output(&self) -> (c: Configuration)
        ensures
            self.make_output_answers(c),
    ;

    fn make_input(&self) -> (c: Configuration)
        ensures
            self.make_input_answers(c),
    ;

    fn configuration(&self) -> (c: Configuration)
        ensures
            self.configuration_answers(c),
    ;

    fn set(&self);

    fn clear(&self);

    fn toggle(&self) -> (level: bool)
        ensures
            self.toggle_answers(level),
    ;

    fn read(&self) -> (level: bool)
        ensures
            self.read_answers(level),
    ;
}

/// A pin that can interrupt on an edge.
pub trait InterruptPin: Pin {
    /// Whether `pending` is an answer this pin gives to `is_pending`.
    spec fn pending_answers(&self, pending: bool) -> bool;

    fn enable_interrupts(&self, mode: InterruptEdge);

    fn disable_interrupts(&self);

    /// Whether an enabled edge has been seen and not yet delivered.
    fn is_pending(&self) -> (pending: bool)
        ensures
            self.pending_answers(pending),
    ;
}

/// Told when an enabled edge is seen.
pub trait Client {
    fn fired(&self);
}

} // verus!
