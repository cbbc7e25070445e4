use vstd::prelude::*;
use crate::error_code::ErrorCode;
use crate::hil::i2c::{Error, I2CMaster};
use crate::capsules::test::capsule_test::{CapsuleTestError, spec_failed, spec_verdict, verdict};

verus! {

/// The address every clause uses. No clause reaches the bus, so nothing has
/// to answer it; it is in the general 7-bit range and not reserved.
pub const ADDR: u8 = 0x55;

/// The clauses the I2C run checks.
#[derive(Copy, Clone, Debug, PartialEq, Eq, Structural)]
pub enum I2cClause {
    UninitializedMustNotStart,
    UninitializedAnswersEnumerated,
    WritePastBufferMustFail,
    WritePastBufferIsSize,
    ReadPastBufferMustFail,
    ReadPastBufferIsSize,
    WriteLenPastBufferMustFail,
    WriteLenPastBufferIsSize,
    ReadLenPastBufferMustFail,
    ReadLenPastBufferIsSize,
    ZeroLengthWriteAnswers,
    ZeroLengthWriteAnswersEnumerated,
}

/// Whether `error` is one of the variants `hil::i2c` defines: every one is.
pub open spec fn spec_enumerated(error: Error) -> bool {
    match error {
        Error::AddressNak | Error::DataNak | Error::ArbitrationLost | Error::Overrun | Error::Size
        | Error::NotSupported | Error::Busy => true,
    }
}

/// Whether `error` is one of the variants `hil::i2c` defines.
pub fn enumerated(error: Error) -> (r: bool)
    ensures
        r == spec_enumerated(error),
{
    match error {
        Error::AddressNak | Error::DataNak | Error::ArbitrationLost | Error::Overrun | Error::Size
        | Error::NotSupported | Error::Busy => true,
    }
}

/// Whether a synchronous answer is `Err(Size)`.
pub open spec fn spec_is_size(r: Result<(), Error>) -> bool {
    r == Err::<(), Error>(Error::Size)
}

/// The checks the four over-long transfers come to, given the controller's
/// answers, stopping at the first one that started; and whether one did.
pub open spec fn spec_overlong_checks(answers: Seq<Result<(), Error>>) -> (Seq<(I2cClause, bool)>, bool) {
    if answers[0] is Ok {
        (seq![(I2cClause::WritePastBufferMustFail, false)], true)
    } else if answers[1] is Ok {
        (seq![(I2cClause::WritePastBufferIsSize, spec_is_size(answers[0])), (I2cClause::ReadPastBufferMustFail, false)], true)
    } else if answers[2] is Ok {
        (seq![
            (I2cClause::WritePastBufferIsSize, spec_is_size(answers[0])),
            (I2cClause::ReadPastBufferIsSize, spec_is_size(answers[1])),
            (I2cClause::WriteLenPastBufferMustFail, false),
        ], true)
    } else if answers[3] is Ok {
        (seq![
            (I2cClause::WritePastBufferIsSize, spec_is_size(answers[0])),
            (I2cClause::ReadPastBufferIsSize, spec_is_size(answers[1])),
            (I2cClause::WriteLenPastBufferIsSize, spec_is_size(answers[2])),
            (I2cClause::ReadLenPastBufferMustFail, false),
        ], true)
    } else {
        (seq![
            (I2cClause::WritePastBufferIsSize, spec_is_size(answers[0])),
            (I2cClause::ReadPastBufferIsSize, spec_is_size(answers[1])),
            (I2cClause::WriteLenPastBufferIsSize, spec_is_size(answers[2])),
            (I2cClause::ReadLenPastBufferIsSize, spec_is_size(answers[3])),
        ], false)
    }
}

/// The checks a whole run comes to: the four over-long transfers, then,
/// when none of them started, the zero-length write, which must answer
/// something enumerated.
pub open spec fn spec_i2c_checks(answers: Seq<Result<(), Error>>) -> Seq<(I2cClause, bool)> {
    let (c, stopped) = spec_overlong_checks(answers);
    if stopped {
        c
    } else {
        c + seq![match answers[4] {
            Ok(()) => (I2cClause::ZeroLengthWriteAnswers, true),
            Err(e) => (I2cClause::ZeroLengthWriteAnswersEnumerated, spec_enumerated(e)),
        }]
    }
}

/// Whether `a` is an answer `i2c` gives to transfer `k` of a run on
/// buffer `b`, with `over` the over-long length: `0` a write of `over`
/// bytes, `1` a read of `over`, `2` a write-read writing `over` and reading
/// one, `3` one writing one and reading `over`, `4` a write of nothing; all
/// to `ADDR`.
pub open spec fn spec_transfer_answers<I: I2CMaster>(i2c: I, k: int, b: Vec<u8>, over: int, a: Result<(), Error>) -> bool {
    if k == 0 {
        i2c.write_answers(ADDR, b, over as usize, a)
    } else if k == 1 {
        i2c.read_answers(ADDR, b, over as usize, a)
    } else if k == 2 {
        i2c.write_read_answers(ADDR, b, over as usize, 1, a)
    } else if k == 3 {
        i2c.write_read_answers(ADDR, b, 1, over as usize, a)
    } else {
        i2c.write_answers(ADDR, b, 0, a)
    }
}

/// The transfers a run makes, by their answers: one to five, every one but
/// the last refused, and fewer than five only when the last one started.
pub open spec fn spec_run_stops(answers: Seq<Result<(), Error>>) -> bool {
    &&& 1 <= answers.len() <= 5
    &&& forall|k: int| 0 <= k < answers.len() - 1 ==> (#[trigger] answers[k]) is Err
    &&& answers.len() < 5 ==> answers.last() is Ok
}

/// What a step of the run reports.
pub struct I2cReport {
    /// The controller's synchronous answers, in order.
    pub answers: Vec<Result<(), Error>>,
    pub checks: Vec<(I2cClause, bool)>,
    pub verdict: Option<Result<(), CapsuleTestError>>,
}

/// Runs `hil::i2c`'s synchronous guarantees against a controller: a length
/// past the buffer is refused with `Size` and the buffer comes back, and a
/// zero-length transfer answers rather than panicking. None of it reaches
/// the bus.
pub struct TestI2cContract<I: I2CMaster> {
    pub i2c: I,
    /// Only ever refused, never sent: its length is what matters.
    pub buffer: Option<Vec<u8>>,
    pub checks: usize,
    pub failures: usize,
}

impl<I: I2CMaster> TestI2cContract<I> {
    /// There is room to count the checks of another step.
    pub open spec fn has_room(&self) -> bool {
        self.checks + 8 <= usize::MAX && self.failures <= self.checks
    }

    /// A test of `i2c` with `buffer`.
    pub fn new(i2c: I, buffer: Vec<u8>) -> (t: Self)
        ensures
            t.buffer == Some(buffer),
            t.checks == 0,
            t.failures == 0,
    {
        TestI2cContract { i2c, buffer: Some(buffer), checks: 0, failures: 0 }
    }

    /// Record a check.
    fn check(&mut self, ok: bool, clause: I2cClause, checks: &mut Vec<(I2cClause, bool)>)
        requires
            old(self).checks < usize::MAX,
            old(self).failures <= old(self).checks,
        ensures
            final(checks)@ == old(checks)@.push((clause, ok)),
            final(self).checks == old(self).checks + 1,
            final(self).failures == old(self).failures + if ok { 0int } else { 1 },
            final(self).buffer == old(self).buffer,
            final(self).i2c == old(self).i2c,
    {
        self.checks = self.checks + 1;
        if !ok {
            self.failures = self.failures + 1;
        }
        checks.push((clause, ok));
    }

    /// Before the controller is brought up: a write of the whole buffer must
    /// answer an error rather than start. Without the buffer it does nothing.
    pub fn check_uninitialized(&mut self) -> (report: I2cReport)
        requires
            old(self).has_room(),
        ensures
            report.verdict is None,
            old(self).buffer is None ==> {
                &&& final(self).checks == old(self).checks
                &&& final(self).failures == old(self).failures
                &&& final(self).buffer is None
                &&& report.answers@.len() == 0
                &&& report.checks@.len() == 0
            },
            final(self).i2c == old(self).i2c,
            old(self).buffer matches Some(b) ==> {
                &&& report.answers@.len() == 1
                &&& old(self).i2c.write_answers(ADDR, b, b@.len() as usize, report.answers@[0])
                &&& final(self).buffer == if report.answers@[0] is Err { Some(b) } else { None }
                &&& report.checks@ == match report.answers@[0] {
                    Ok(()) => seq![(I2cClause::UninitializedMustNotStart, false)],
                    Err(e) => seq![(I2cClause::UninitializedAnswersEnumerated, spec_enumerated(e))],
                }
                &&& final(self).buffer is Some == report.answers@[0] is Err
                &&& final(self).checks == old(self).checks + 1
                &&& final(self).failures == old(self).failures + spec_failed(report.checks@)
            },
    {
        let mut checks: Vec<(I2cClause, bool)> = Vec::new();
        let mut answers: Vec<Result<(), Error>> = Vec::new();
        let buffer = match self.buffer.take() {
            Some(b) => b,
            None => return I2cReport { answers, checks, verdict: None },
        };
        proof { reveal_with_fuel(spec_failed, 2); }
        let len = buffer.len();
        match self.i2c.write(ADDR, buffer, len) {
            Ok(()) => {
                answers.push(Ok(()));
                self.check(false, I2cClause::UninitializedMustNotStart, &mut checks);
            },
            Err((e, b)) => {
                answers.push(Err(e));
                let ok = enumerated(e);
                self.check(ok, I2cClause::UninitializedAnswersEnumerated, &mut checks);
                self.buffer = Some(b);
            },
        }
        I2cReport { answers, checks, verdict: None }
    }

    /// Refuse a transfer with `over`, one byte past the buffer.
    fn overlong(&mut self, kind: usize, buffer: Vec<u8>, over: usize, checks: &mut Vec<(I2cClause, bool)>, answers: &mut Vec<Result<(), Error>>) -> (r: Option<Vec<u8>>)
        requires
            kind < 4,
            old(self).checks < usize::MAX,
            old(self).failures <= old(self).checks,
        ensures
            final(answers)@.len() == old(answers)@.len() + 1,
            final(answers)@.subrange(0, old(answers)@.len() as int) == old(answers)@,
            spec_transfer_answers(old(self).i2c, kind as int, buffer, over as int, final(answers)@.last()),
            r is None <==> final(answers)@.last() is Ok,
            r matches Some(b) ==> b == buffer,
            final(self).i2c == old(self).i2c,
            final(checks)@ == old(checks)@.push(
                if final(answers)@.last() is Ok {
                    (if kind == 0 { I2cClause::WritePastBufferMustFail } else if kind == 1 { I2cClause::ReadPastBufferMustFail }
                        else if kind == 2 { I2cClause::WriteLenPastBufferMustFail } else { I2cClause::ReadLenPastBufferMustFail }, false)
                } else {
                    (if kind == 0 { I2cClause::WritePastBufferIsSize } else if kind == 1 { I2cClause::ReadPastBufferIsSize }
                        else if kind == 2 { I2cClause::WriteLenPastBufferIsSize } else { I2cClause::ReadLenPastBufferIsSize },
                        spec_is_size(final(answers)@.last()))
                }),
            final(self).checks == old(self).checks + 1,
            final(self).failures == old(self).failures + if final(checks)@.last().1 { 0int } else { 1 },
            final(self).buffer == old(self).buffer,
    {
        let answer = if kind == 0 {
            self.i2c.write(ADDR, buffer, over)
        } else if kind == 1 {
            self.i2c.read(ADDR, buffer, over)
        } else if kind == 2 {
            self.i2c.write_read(ADDR, buffer, over, 1)
        } else {
            self.i2c.write_read(ADDR, buffer, 1, over)
        };
        match answer {
            Ok(()) => {
                answers.push(Ok(()));
                let clause = if kind == 0 {
                    I2cClause::WritePastBufferMustFail
                } else if kind == 1 {
                    I2cClause::ReadPastBufferMustFail
                } else if kind == 2 {
                    I2cClause::WriteLenPastBufferMustFail
                } else {
                    I2cClause::ReadLenPastBufferMustFail
                };
                self.check(false, clause, checks);
                assert(answers@.subrange(0, old(answers)@.len() as int) =~= old(answers)@);
                None
            },
            Err((e, b)) => {
                answers.push(Err(e));
                let clause = if kind == 0 {
                    I2cClause::WritePastBufferIsSize
                } else if kind == 1 {
                    I2cClause::ReadPastBufferIsSize
                } else if kind == 2 {
                    I2cClause::WriteLenPastBufferIsSize
                } else {
                    I2cClause::ReadLenPastBufferIsSize
                };
                let size = match e { Error::Size => true, _ => false };
                self.check(size, clause, checks);
                assert(answers@.subrange(0, old(answers)@.len() as int) =~= old(answers)@);
                Some(b)
            },
        }
    }

    /// Run the clauses: a write, a read and two write-reads one byte past
    /// the buffer, each refused with `Size` and handing the buffer back, then
    /// a zero-length write. A transfer that starts ends the run there.
    /// Without the buffer the run ends at once with `NOMEM`.
    pub fn run(&mut self) -> (report: I2cReport)
        requires
            old(self).has_room(),
            old(self).buffer matches Some(b) ==> b@.len() < usize::MAX,
        ensures
            old(self).buffer is None ==> {
                &&& final(self).checks == old(self).checks
                &&& final(self).failures == old(self).failures
                &&& report.checks@.len() == 0
                &&& report.verdict == Some(Err::<(), CapsuleTestError>(CapsuleTestError::ErrorCode(ErrorCode::NOMEM)))
            },
            final(self).i2c == old(self).i2c,
            old(self).buffer matches Some(b) ==> {
                &&& spec_run_stops(report.answers@)
                &&& forall|k: int| 0 <= k < report.answers@.len() ==>
                    spec_transfer_answers(old(self).i2c, k, b, b@.len() + 1int, #[trigger] report.answers@[k])
                &&& final(self).buffer == if report.answers@.len() == 5 && report.answers@[4] is Err { Some(b) } else { None }
                &&& report.checks@ == spec_i2c_checks(report.answers@)
                &&& final(self).checks == old(self).checks + report.checks@.len()
                &&& final(self).failures == old(self).failures + spec_failed(report.checks@)
                &&& report.verdict == Some(spec_verdict(final(self).failures as nat))
                &&& final(self).buffer is Some == (report.answers@.len() == 5 && report.answers@[4] is Err)
            },
    {
        let mut checks: Vec<(I2cClause, bool)> = Vec::new();
        let mut answers: Vec<Result<(), Error>> = Vec::new();
        let buf = match self.buffer.take() {
            Some(b) => b,
            None => {
                return I2cReport {
                    answers,
                    checks,
                    verdict: Some(Err(CapsuleTestError::ErrorCode(ErrorCode::NOMEM))),
                };
            },
        };
        let over = buf.len() + 1;
        proof { reveal_with_fuel(spec_failed, 6); }
        assert(answers@.len() == 0);
        let buf = match self.overlong(0, buf, over, &mut checks, &mut answers) {
            Some(b) => b,
            None => return I2cReport { answers, checks, verdict: Some(verdict(self.failures)) },
        };
        let buf = match self.overlong(1, buf, over, &mut checks, &mut answers) {
            Some(b) => b,
            None => return I2cReport { answers, checks, verdict: Some(verdict(self.failures)) },
        };
        let buf = match self.overlong(2, buf, over, &mut checks, &mut answers) {
            Some(b) => b,
            None => return I2cReport { answers, checks, verdict: Some(verdict(self.failures)) },
        };
        let buf = match self.overlong(3, buf, over, &mut checks, &mut answers) {
            Some(b) => b,
            None => return I2cReport { answers, checks, verdict: Some(verdict(self.failures)) },
        };
        match self.i2c.write(ADDR, buf, 0) {
            Ok(()) => {
                answers.push(Ok(()));
                self.check(true, I2cClause::ZeroLengthWriteAnswers, &mut checks);
            },
            Err((e, b)) => {
                answers.push(Err(e));
                let ok = enumerated(e);
                self.check(ok, I2cClause::ZeroLengthWriteAnswersEnumerated, &mut checks);
                self.buffer = Some(b);
            },
        }
        I2cReport { answers, checks, verdict: Some(verdict(self.failures)) }
    }
}

} // verus!
