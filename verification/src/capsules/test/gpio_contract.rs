use vstd::prelude::*;
use crate::hil::gpio::{Configuration, InterruptEdge, InterruptPin, Pin};
use crate::capsules::test::capsule_test::{CapsuleTestError, spec_failed, spec_verdict, verdict};

verus! {

/// The clauses the GPIO run checks, in order.
#[derive(Copy, Clone, Debug, PartialEq, Eq, Structural)]
pub enum GpioClause {
    MakeOutputAnswersOutput,
    ConfigurationAgreesAfterMakeOutput,
    MakeInputAnswersInput,
    ConfigurationAgreesAfterMakeInput,
    SetReadsHigh,
    ClearReadsLow,
    ToggleFromLowReturnsTrue,
    InputFollowsToggleUp,
    ToggleFromHighReturnsFalse,
    InputFollowsToggleDown,
    RisingEdgeIsPending,
}

/// What one call on a pin answered.
#[derive(Copy, Clone, Debug, PartialEq, Eq, Structural)]
pub enum GpioAnswer {
    Config(Configuration),
    Level(bool),
}

/// The configuration an answer carries.
pub open spec fn spec_config(a: GpioAnswer) -> Configuration {
    match a {
        GpioAnswer::Config(c) => c,
        GpioAnswer::Level(_) => Configuration::Other,
    }
}

/// The level an answer carries.
pub open spec fn spec_level(a: GpioAnswer) -> bool {
    match a {
        GpioAnswer::Level(b) => b,
        GpioAnswer::Config(_) => false,
    }
}

/// Whether a configuration can drive the pin.
pub open spec fn spec_is_output(c: Configuration) -> bool {
    c == Configuration::Output || c == Configuration::InputOutput
}

/// Whether a configuration can read the pin.
pub open spec fn spec_is_input(c: Configuration) -> bool {
    c == Configuration::Input || c == Configuration::InputOutput
}

/// The checks a run comes to, given the pins' answers in order: the output
/// made an output, the input made an input, each agreeing with itself
/// afterwards; the wire carrying a set and a clear; `toggle` answering the
/// new level twice, with the wire following; and a rising edge leaving a
/// rising-edge interrupt pending.
pub open spec fn spec_gpio_checks(a: Seq<GpioAnswer>) -> Seq<(GpioClause, bool)> {
    seq![
        (GpioClause::MakeOutputAnswersOutput, spec_is_output(spec_config(a[0]))),
        (GpioClause::ConfigurationAgreesAfterMakeOutput, spec_is_output(spec_config(a[1]))),
        (GpioClause::MakeInputAnswersInput, spec_is_input(spec_config(a[2]))),
        (GpioClause::ConfigurationAgreesAfterMakeInput, spec_is_input(spec_config(a[3]))),
        (GpioClause::SetReadsHigh, spec_level(a[4])),
        (GpioClause::ClearReadsLow, !spec_level(a[5])),
        (GpioClause::ToggleFromLowReturnsTrue, spec_level(a[6])),
        (GpioClause::InputFollowsToggleUp, spec_level(a[7]) == spec_level(a[6])),
        (GpioClause::ToggleFromHighReturnsFalse, !spec_level(a[8])),
        (GpioClause::InputFollowsToggleDown, spec_level(a[9]) == spec_level(a[8])),
        (GpioClause::RisingEdgeIsPending, spec_level(a[10])),
    ]
}

/// Whether `a` holds, in order, answers `out` and `input` give to the run's
/// calls: `out.make_output`, `out.configuration`, `input.make_input`,
/// `input.configuration`, two `input.read`s, then twice `out.toggle` and
/// `input.read`, and last `input.is_pending`.
pub open spec fn spec_answered<O: Pin, I: InterruptPin>(out: O, input: I, a: Seq<GpioAnswer>) -> bool {
    &&& a.len() == 11
    &&& a[0] matches GpioAnswer::Config(c) && out.make_output_answers(c)
    &&& a[1] matches GpioAnswer::Config(c) && out.configuration_answers(c)
    &&& a[2] matches GpioAnswer::Config(c) && input.make_input_answers(c)
    &&& a[3] matches GpioAnswer::Config(c) && input.configuration_answers(c)
    &&& a[4] matches GpioAnswer::Level(b) && input.read_answers(b)
    &&& a[5] matches GpioAnswer::Level(b) && input.read_answers(b)
    &&& a[6] matches GpioAnswer::Level(b) && out.toggle_answers(b)
    &&& a[7] matches GpioAnswer::Level(b) && input.read_answers(b)
    &&& a[8] matches GpioAnswer::Level(b) && out.toggle_answers(b)
    &&& a[9] matches GpioAnswer::Level(b) && input.read_answers(b)
    &&& a[10] matches GpioAnswer::Level(b) && input.pending_answers(b)
}

/// Whether a configuration can drive the pin.
pub fn is_output(c: Configuration) -> (b: bool)
    ensures
        b == spec_is_output(c),
{
    match c {
        Configuration::Output | Configuration::InputOutput => true,
        _ => false,
    }
}

/// Whether a configuration can read the pin.
pub fn is_input(c: Configuration) -> (b: bool)
    ensures
        b == spec_is_input(c),
{
    match c {
        Configuration::Input | Configuration::InputOutput => true,
        _ => false,
    }
}

/// What a run reports.
pub struct GpioReport {
    pub answers: Vec<GpioAnswer>,
    pub checks: Vec<(GpioClause, bool)>,
    pub verdict: Result<(), CapsuleTestError>,
}

/// Runs `hil::gpio`'s documented behaviour against two pins wired together:
/// configuration, levels carried over the wire, `toggle`, and a rising
/// edge.
pub struct TestGpioContract<O: Pin, I: InterruptPin> {
    pub out: O,
    pub input: I,
    pub checks: usize,
    pub failures: usize,
    /// Whether the run is over.
    pub done: bool,
    /// Interrupts delivered, counted only.
    pub fired: usize,
}

impl<O: Pin, I: InterruptPin> TestGpioContract<O, I> {
    /// `out` and `input` must be wired together.
    pub fn new(out: O, input: I) -> (t: Self)
        ensures
            t.checks == 0 && t.failures == 0 && !t.done && t.fired == 0,
    {
        TestGpioContract { out, input, checks: 0, failures: 0, done: false, fired: 0 }
    }

    /// Record a check.
    fn check(&mut self, ok: bool, clause: GpioClause, checks: &mut Vec<(GpioClause, bool)>)
        requires
            old(self).checks < usize::MAX,
            old(self).failures <= old(self).checks,
        ensures
            final(checks)@ == old(checks)@.push((clause, ok)),
            final(self).checks == old(self).checks + 1,
            final(self).failures == old(self).failures + if ok { 0int } else { 1 },
            spec_failed(final(checks)@) == spec_failed(old(checks)@) + if ok { 0int } else { 1 },
            final(self).failures <= final(self).checks,
            final(self).done == old(self).done,
            final(self).fired == old(self).fired,
            final(self).out == old(self).out,
            final(self).input == old(self).input,
    {
        self.checks = self.checks + 1;
        if !ok {
            self.failures = self.failures + 1;
        }
        checks.push((clause, ok));
        assert(checks@.drop_last() =~= old(checks)@);
    }

    /// Run every clause and end the run. The rising edge is read through
    /// `is_pending` rather than waited for, since nothing delivers the
    /// interrupt before the kernel loop runs.
    #[verifier::rlimit(80)]
    pub fn run(&mut self) -> (report: GpioReport)
        requires
            old(self).checks + 11 <= usize::MAX,
            old(self).failures <= old(self).checks,
        ensures
            report.answers@.len() == 11,
            spec_answered(old(self).out, old(self).input, report.answers@),
            final(self).out == old(self).out,
            final(self).input == old(self).input,
            report.checks@ == spec_gpio_checks(report.answers@),
            final(self).checks == old(self).checks + 11,
            final(self).failures == old(self).failures + spec_failed(report.checks@),
            report.verdict == spec_verdict(final(self).failures as nat),
            final(self).done,
    {
        let mut checks: Vec<(GpioClause, bool)> = Vec::new();
        let mut answers: Vec<GpioAnswer> = Vec::new();
        assert(spec_failed(Seq::<(GpioClause, bool)>::empty()) == 0);

        let c = self.out.make_output();
        answers.push(GpioAnswer::Config(c));
        self.check(is_output(c), GpioClause::MakeOutputAnswersOutput, &mut checks);
        let c = self.out.configuration();
        answers.push(GpioAnswer::Config(c));
        self.check(is_output(c), GpioClause::ConfigurationAgreesAfterMakeOutput, &mut checks);
        let c = self.input.make_input();
        answers.push(GpioAnswer::Config(c));
        self.check(is_input(c), GpioClause::MakeInputAnswersInput, &mut checks);
        let c = self.input.configuration();
        answers.push(GpioAnswer::Config(c));
        self.check(is_input(c), GpioClause::ConfigurationAgreesAfterMakeInput, &mut checks);

        self.out.set();
        let high = self.input.read();
        answers.push(GpioAnswer::Level(high));
        self.check(high, GpioClause::SetReadsHigh, &mut checks);
        self.out.clear();
        let low = self.input.read();
        answers.push(GpioAnswer::Level(low));
        self.check(!low, GpioClause::ClearReadsLow, &mut checks);

        let t = self.out.toggle();
        answers.push(GpioAnswer::Level(t));
        self.check(t, GpioClause::ToggleFromLowReturnsTrue, &mut checks);
        let r = self.input.read();
        answers.push(GpioAnswer::Level(r));
        self.check(r == t, GpioClause::InputFollowsToggleUp, &mut checks);
        let t = self.out.toggle();
        answers.push(GpioAnswer::Level(t));
        self.check(!t, GpioClause::ToggleFromHighReturnsFalse, &mut checks);
        let r = self.input.read();
        answers.push(GpioAnswer::Level(r));
        self.check(r == t, GpioClause::InputFollowsToggleDown, &mut checks);

        self.out.clear();
        self.input.enable_interrupts(InterruptEdge::RisingEdge);
        self.out.set();
        let pending = self.input.is_pending();
        answers.push(GpioAnswer::Level(pending));
        self.check(pending, GpioClause::RisingEdgeIsPending, &mut checks);
        self.input.disable_interrupts();

        assert(checks@ =~= spec_gpio_checks(answers@));
        assert(spec_answered(self.out, self.input, answers@));
        self.done = true;
        GpioReport { answers, checks, verdict: verdict(self.failures) }
    }

    /// An interrupt was delivered: counted only.
    pub fn fired(&mut self)
        requires
            old(self).fired < usize::MAX,
        ensures
            final(self).fired == old(self).fired + 1,
            final(self).checks == old(self).checks,
            final(self).failures == old(self).failures,
            final(self).done == old(self).done,
    {
        self.fired = self.fired + 1;
    }
}

} // verus!
