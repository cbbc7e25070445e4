use vstd::prelude::*;
use crate::error_code::ErrorCode;

verus! {

/// Why a test run did not pass.
#[derive(Copy, Clone, Debug, PartialEq, Eq, Structural)]
pub enum CapsuleTestError {
    /// A clause did not hold.
    IncorrectResult,
    /// The run could not start: the error says why.
    ErrorCode(ErrorCode),
}

/// How many of the checks failed.
pub open spec fn spec_failed<C>(checks: Seq<(C, bool)>) -> nat
    decreases checks.len(),
{
    if checks.len() == 0 {
        0
    } else {
        spec_failed(checks.drop_last()) + if checks.last().1 { 0nat } else { 1nat }
    }
}

/// A run's verdict from its number of failures.
pub open spec fn spec_verdict(failures: nat) -> Result<(), CapsuleTestError> {
    if failures == 0 { Ok(()) } else { Err(CapsuleTestError::IncorrectResult) }
}

/// Appending checks adds their failures.
pub proof fn lemma_failed_append<C>(a: Seq<(C, bool)>, b: Seq<(C, bool)>)
    ensures
        spec_failed(a + b) == spec_failed(a) + spec_failed(b),
    decreases b.len(),
{
    if b.len() == 0 {
        assert(a + b =~= a);
    } else {
        lemma_failed_append(a, b.drop_last());
        assert((a + b).drop_last() =~= a + b.drop_last());
    }
}

/// How many of the checks failed.
pub fn count_failed<C>(checks: &Vec<(C, bool)>) -> (n: usize)
    ensures
        n == spec_failed(checks@),
{
    let mut n: usize = 0;
    let mut i: usize = 0;
    while i < checks.len()
        invariant
            i <= checks@.len(),
            n == spec_failed(checks@.subrange(0, i as int)),
            n <= i,
        decreases checks@.len() - i,
    {
        proof {
            assert(checks@.subrange(0, i as int + 1).drop_last() =~= checks@.subrange(0, i as int));
        }
        if !checks[i].1 {
            n = n + 1;
        }
        i = i + 1;
    }
    assert(checks@.subrange(0, i as int) =~= checks@);
    n
}

/// A run's verdict from its number of failures.
pub fn verdict(failures: usize) -> (r: Result<(), CapsuleTestError>)
    ensures
        r == spec_verdict(failures as nat),
{
    if failures == 0 { Ok(()) } else { Err(CapsuleTestError::IncorrectResult) }
}

} // verus!
