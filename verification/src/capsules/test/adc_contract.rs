use vstd::prelude::*;
use crate::error_code::ErrorCode;
use crate::hil::adc::Adc;
use crate::capsules::test::capsule_test::{CapsuleTestError, count_failed, spec_failed, spec_verdict, verdict};

verus! {

/// The clauses the ADC run checks, in the order it checks them.
#[derive(Copy, Clone, Debug, PartialEq, Eq, Structural)]
pub enum AdcClause {
    /// The resolution is in `1..=16` bits.
    ResolutionInRange,
    /// A reported reference voltage is not zero.
    ReferenceNotZero,
    /// Stopping an idle ADC is `Ok`.
    StopWhenIdle,
    /// A sample during a sample is refused with `BUSY`.
    SampleDuringSampleRefused,
    /// Stopping during a sample is `Ok`.
    StopDuringSample,
    /// A sample after stopping is accepted.
    SampleAfterStop,
    /// A sample on an idle ADC is accepted; checked only when it was not.
    IdleSampleAccepted,
    /// The delivered sample is left-justified.
    LeftJustified,
}

/// What the ADC answered, in the order the run asks. The calls after the
/// first sample are made only when it was accepted.
#[derive(Copy, Clone, Debug)]
pub struct AdcAnswers {
    pub bits: usize,
    pub reference_mv: Option<usize>,
    pub stop_idle: Result<(), ErrorCode>,
    pub first: Result<(), ErrorCode>,
    /// The second sample, the stop and the last sample.
    pub during: Option<(Result<(), ErrorCode>, Result<(), ErrorCode>, Result<(), ErrorCode>)>,
}

/// The checks a set of answers comes to.
pub open spec fn spec_adc_checks(a: AdcAnswers) -> Seq<(AdcClause, bool)> {
    seq![
        (AdcClause::ResolutionInRange, 1 <= a.bits <= 16),
        (AdcClause::ReferenceNotZero, a.reference_mv != Some(0usize)),
        (AdcClause::StopWhenIdle, a.stop_idle is Ok),
    ] + match a.first {
        Ok(()) => match a.during {
            Some((second, stop, again)) => seq![
                (AdcClause::SampleDuringSampleRefused, second == Err::<(), ErrorCode>(ErrorCode::BUSY)),
                (AdcClause::StopDuringSample, stop is Ok),
                (AdcClause::SampleAfterStop, again is Ok),
            ],
            None => seq![
                (AdcClause::SampleDuringSampleRefused, false),
                (AdcClause::StopDuringSample, false),
                (AdcClause::SampleAfterStop, false),
            ],
        },
        Err(_) => seq![(AdcClause::IdleSampleAccepted, false)],
    }
}

/// The checks a set of answers comes to.
pub fn adc_checks(a: AdcAnswers) -> (checks: Vec<(AdcClause, bool)>)
    ensures
        checks@ == spec_adc_checks(a),
{
    let mut checks: Vec<(AdcClause, bool)> = Vec::new();
    checks.push((AdcClause::ResolutionInRange, 1 <= a.bits && a.bits <= 16));
    let zero_reference = match a.reference_mv {
        Some(mv) => mv == 0,
        None => false,
    };
    checks.push((AdcClause::ReferenceNotZero, !zero_reference));
    checks.push((AdcClause::StopWhenIdle, a.stop_idle.is_ok()));
    match a.first {
        Ok(()) => match a.during {
            Some((second, stop, again)) => {
                let refused = match second {
                    Err(ErrorCode::BUSY) => true,
                    _ => false,
                };
                checks.push((AdcClause::SampleDuringSampleRefused, refused));
                checks.push((AdcClause::StopDuringSample, stop.is_ok()));
                checks.push((AdcClause::SampleAfterStop, again.is_ok()));
            },
            None => {
                checks.push((AdcClause::SampleDuringSampleRefused, false));
                checks.push((AdcClause::StopDuringSample, false));
                checks.push((AdcClause::SampleAfterStop, false));
            },
        },
        Err(_) => {
            checks.push((AdcClause::IdleSampleAccepted, false));
        },
    }
    assert(checks@ =~= spec_adc_checks(a));
    checks
}

/// The bits below a `bits`-bit value left-justified in sixteen.
pub open spec fn spec_low_mask(bits: usize) -> u32 {
    if bits >= 16 { 0 } else { ((1u32 << (16 - bits) as u32) - 1) as u32 }
}

/// Whether a delivered sample is left-justified for a `bits`-bit
/// converter: `None` when `bits` fills the sixteen and there is nothing to
/// check. A zero resolution counts every bit as low.
pub open spec fn spec_left_justified(sample: u16, bits: usize) -> Option<bool> {
    if bits >= 16 { None } else { Some((sample as u32) & spec_low_mask(bits) == 0) }
}

/// Whether a delivered sample is left-justified.
pub fn left_justified(sample: u16, bits: usize) -> (r: Option<bool>)
    ensures
        r == spec_left_justified(sample, bits),
{
    if bits >= 16 {
        None
    } else {
        let shift = (16 - bits) as u32;
        assert(1u32 << shift >= 1) by (bit_vector)
            requires
                shift <= 16,
        ;
        let mask = (1u32 << shift) - 1;
        Some((sample as u32) & mask == 0)
    }
}

/// What a step of the run reports: the checks made, in order, and the
/// verdict when the run is over.
pub struct AdcReport {
    /// What the ADC answered during the clauses of `run`.
    pub answers: Option<AdcAnswers>,
    /// The resolution the ADC reported when the last sample arrived.
    pub resolution: Option<usize>,
    pub checks: Vec<(AdcClause, bool)>,
    pub verdict: Option<Result<(), CapsuleTestError>>,
}

/// Runs `hil::adc`'s synchronous clauses against an ADC, then waits for the
/// sample it leaves outstanding to check that it is left-justified.
pub struct TestAdcContract<A: Adc> {
    pub adc: A,
    pub channel: A::Channel,
    /// Failed checks in this run.
    pub failures: usize,
    /// The run's last sample is outstanding and its delivery finishes the
    /// run.
    pub awaiting_sample: bool,
    /// The run is scheduled: the kernel loop is owed a call of
    /// `handle_deferred_call`.
    pub deferred_call_set: bool,
}

/// Whether `a` is what `adc` answers to the clauses' calls, sampling
/// `channel`: its resolution and reference, a stop, a sample, and, when
/// that sample was accepted, a second sample, a stop and a third sample.
pub open spec fn spec_answered<A: Adc>(adc: A, channel: A::Channel, a: AdcAnswers) -> bool {
    &&& a.bits == adc.spec_resolution_bits()
    &&& a.reference_mv == adc.spec_voltage_reference_mv()
    &&& adc.stop_answers(a.stop_idle)
    &&& adc.sample_answers(&channel, a.first)
    &&& (a.during is Some) == (a.first is Ok)
    &&& a.during matches Some((second, stop, again)) ==> {
        &&& adc.sample_answers(&channel, second)
        &&& adc.stop_answers(stop)
        &&& adc.sample_answers(&channel, again)
    }
}

impl<A: Adc> TestAdcContract<A> {
    /// A test of `adc`, sampling `channel`; not yet scheduled.
    pub fn new(adc: A, channel: A::Channel) -> (t: Self)
        ensures
            t.adc == adc,
            t.channel == channel,
            t.failures == 0,
            !t.awaiting_sample,
            !t.deferred_call_set,
    {
        TestAdcContract { adc, channel, failures: 0, awaiting_sample: false, deferred_call_set: false }
    }

    /// Schedule the run: the clauses are run from the kernel loop, by
    /// `handle_deferred_call`, not from here. Nothing is asked of the ADC.
    pub fn run(&mut self)
        ensures
            final(self).deferred_call_set,
            final(self).adc == old(self).adc,
            final(self).channel == old(self).channel,
            final(self).failures == old(self).failures,
            final(self).awaiting_sample == old(self).awaiting_sample,
    {
        self.deferred_call_set = true;
    }

    /// What running the clauses came to, from `before` to `after`.
    pub open spec fn clauses_ran(before: Self, after: Self, report: AdcReport) -> bool {
        &&& after.adc == before.adc
        &&& after.channel == before.channel
        &&& report.resolution is None
        &&& report.answers matches Some(a) && {
            &&& spec_answered(before.adc, before.channel, a)
            &&& report.checks@ == spec_adc_checks(a)
            &&& after.failures == spec_failed(report.checks@)
            &&& after.awaiting_sample == (a.first is Ok)
            &&& report.verdict == if a.first is Ok {
                None
            } else {
                Some(spec_verdict(spec_failed(report.checks@)))
            }
        }
    }

    /// The kernel loop's call: the scheduled run's clauses run now.
    pub fn handle_deferred_call(&mut self) -> (report: AdcReport)
        ensures
            !final(self).deferred_call_set,
            Self::clauses_ran(*old(self), *final(self), report),
    {
        self.deferred_call_set = false;
        self.run_clauses()
    }

    /// Run the clauses: the resolution, the reference voltage, a stop while
    /// idle, then a sample, a second sample during it, a stop and a fresh
    /// sample, which is left outstanding. The run is over at once when the
    /// first sample was refused, else when that last sample arrives.
    fn run_clauses(&mut self) -> (report: AdcReport)
        ensures
            final(self).deferred_call_set == old(self).deferred_call_set,
            Self::clauses_ran(*old(self), *final(self), report),
    {
        let bits = self.adc.get_resolution_bits();
        let reference_mv = self.adc.get_voltage_reference_mv();
        let stop_idle = self.adc.stop_sampling();
        let first = self.adc.sample(&self.channel);
        let during = match first {
            Ok(()) => {
                let second = self.adc.sample(&self.channel);
                let stop = self.adc.stop_sampling();
                let again = self.adc.sample(&self.channel);
                Some((second, stop, again))
            },
            Err(_) => None,
        };
        let answers = AdcAnswers { bits, reference_mv, stop_idle, first, during };
        let checks = adc_checks(answers);
        self.failures = count_failed(&checks);
        self.awaiting_sample = first.is_ok();
        let v = if self.awaiting_sample { None } else { Some(verdict(self.failures)) };
        AdcReport { answers: Some(answers), resolution: None, checks, verdict: v }
    }

    /// A sample arrived. Outside a run it is ignored; the run's last sample
    /// is checked for left-justification at the resolution the ADC reports
    /// now, and the run ends.
    pub fn sample_ready(&mut self, sample: u16) -> (report: AdcReport)
        requires
            old(self).failures <= usize::MAX - 1,
        ensures
            report.answers is None,
            final(self).adc == old(self).adc,
            final(self).channel == old(self).channel,
            final(self).deferred_call_set == old(self).deferred_call_set,
            !old(self).awaiting_sample ==> {
                &&& final(self).failures == old(self).failures
                &&& !final(self).awaiting_sample
                &&& report.resolution is None
                &&& report.checks@.len() == 0
                &&& report.verdict is None
            },
            old(self).awaiting_sample ==> (report.resolution matches Some(bits) && {
                &&& bits == old(self).adc.spec_resolution_bits()
                &&& !final(self).awaiting_sample
                &&& report.checks@ == match spec_left_justified(sample, bits) {
                    Some(ok) => seq![(AdcClause::LeftJustified, ok)],
                    None => Seq::empty(),
                }
                &&& final(self).failures == old(self).failures + spec_failed(report.checks@)
                &&& report.verdict == Some(spec_verdict(final(self).failures as nat))
            }),
    {
        if !self.awaiting_sample {
            return AdcReport { answers: None, resolution: None, checks: Vec::new(), verdict: None };
        }
        self.awaiting_sample = false;
        let bits = self.adc.get_resolution_bits();
        let mut checks: Vec<(AdcClause, bool)> = Vec::new();
        match left_justified(sample, bits) {
            Some(ok) => {
                checks.push((AdcClause::LeftJustified, ok));
                if !ok {
                    self.failures = self.failures + 1;
                }
            },
            None => {},
        }
        proof {
            reveal_with_fuel(spec_failed, 2);
        }
        AdcReport { answers: None, resolution: Some(bits), checks, verdict: Some(verdict(self.failures)) }
    }
}

} // verus!
