use vstd::prelude::*;
use crate::error_code::ErrorCode;
use crate::registers::{spec_bit_set, is_set};

verus! {

/// Where the TRNG's registers are.
pub const TRNG_BASE: usize = 0x400F_0000;

/// Ring oscillator chain length, `TRNG_CONFIG.RND_SRC_SEL`.
pub const CHAIN_LEN: u32 = 1;

/// System clock ticks between samples of the oscillator.
pub const SAMPLE_TICKS: u32 = 100;

/// How many times to reset and retry before telling the client the request
/// failed.
pub const MAX_RESETS: u8 = 4;

/// Words in one collection. The hardware fills all six or none.
pub const EHR_WORDS: usize = 6;

/// `RNG_ISR` bits.
pub const INT_EHR_VALID: u32 = 0;
pub const INT_AUTOCORR_ERR: u32 = 1;
pub const INT_CRNGT_ERR: u32 = 2;
pub const INT_VN_ERR: u32 = 3;

/// One step the driver asks of the block, its interrupt line or its client.
#[derive(Copy, Clone, Debug, PartialEq, Eq, Structural)]
pub enum TrngOp {
    /// Start one collection: `TRNG_CONFIG` to `CHAIN_LEN`, `SAMPLE_CNT1` to
    /// `SAMPLE_TICKS`, clear `EHR_VALID`, `CRNGT_ERR` and `VN_ERR` in
    /// `RNG_ICR`, and set `RND_SRC_EN`.
    Start,
    /// Clear `RND_SRC_EN`.
    Stop,
    /// Read `EHR_DATA[5]`, which clears all six.
    Drain,
    /// Stop, write 1 to `TRNG_SW_RESET` and read it back twice.
    SwReset,
    /// Unmask all four sources in `RNG_IMR` and arm the NVIC line.
    EnableInterrupts,
    /// Mask all four sources in `RNG_IMR`.
    DisableInterrupts,
    /// Clear `CRNGT_ERR` and `VN_ERR` in `RNG_ICR`.
    ClearErrors,
    /// Clear `EHR_VALID` in `RNG_ICR`.
    ClearValid,
    /// Tell the client the request failed, with no entropy.
    ReportFailure,
    /// Hand the client the collection; the client's answer comes back
    /// through `entropy_delivered`.
    Deliver,
}

/// The client's answer to a delivery.
#[derive(Copy, Clone, Debug, PartialEq, Eq, Structural)]
pub enum Continue {
    More,
    Done,
}

/// The RP2350's true random number generator.
#[derive(Copy, Clone, Debug, PartialEq, Eq, Structural)]
pub struct Trng {
    /// Where the block's registers are.
    pub registers: usize,
    /// Which `EHR_DATA` word the iterator hands out next.
    pub word: usize,
    /// Resets spent on the request in flight.
    pub resets: u8,
    /// Whether a client has been set.
    pub has_client: bool,
}

/// What follows a delivery, or a good collection with no client to deliver
/// to: drain whatever was not taken, clear the status, and either collect
/// again or stop.
pub open spec fn spec_after_delivery(more: bool) -> Seq<TrngOp> {
    if more {
        seq![TrngOp::Drain, TrngOp::ClearValid, TrngOp::Start]
    } else {
        seq![TrngOp::Drain, TrngOp::ClearValid, TrngOp::Stop, TrngOp::DisableInterrupts]
    }
}

/// The block's interrupt, given what `RNG_ISR` reads: the driver after it
/// and the steps it asks for.
pub open spec fn spec_handle_interrupt(t: Trng, status: u32) -> (Trng, Seq<TrngOp>) {
    if spec_bit_set(status, INT_AUTOCORR_ERR) {
        if t.resets < MAX_RESETS {
            (
                Trng { word: EHR_WORDS, resets: (t.resets + 1) as u8, ..t },
                seq![TrngOp::SwReset, TrngOp::EnableInterrupts, TrngOp::Start],
            )
        } else {
            (
                Trng { word: EHR_WORDS, resets: 0, ..t },
                if t.has_client {
                    seq![TrngOp::SwReset, TrngOp::DisableInterrupts, TrngOp::ReportFailure]
                } else {
                    seq![TrngOp::SwReset, TrngOp::DisableInterrupts]
                },
            )
        }
    } else if spec_bit_set(status, INT_CRNGT_ERR) || spec_bit_set(status, INT_VN_ERR) {
        (t, seq![TrngOp::ClearErrors, TrngOp::Stop, TrngOp::Start])
    } else if !spec_bit_set(status, INT_EHR_VALID) {
        (t, Seq::empty())
    } else if t.has_client {
        (Trng { word: 0, resets: 0, ..t }, seq![TrngOp::Deliver])
    } else {
        (Trng { word: EHR_WORDS, resets: 0, ..t }, spec_after_delivery(false))
    }
}

/// The driver after `n` autocorrelation failures in a row.
pub open spec fn spec_autocorr_failures(t: Trng, n: nat) -> Trng
    decreases n,
{
    if n == 0 { t } else { spec_autocorr_failures(spec_handle_interrupt(t, 1u32 << 1u32).0, (n - 1) as nat) }
}

impl Trng {
    /// The block at `TRNG_BASE`: no word to hand out, no resets spent, no
    /// client.
    pub fn new() -> (t: Trng)
        ensures
            t == (Trng { registers: TRNG_BASE, word: EHR_WORDS, resets: 0, has_client: false }),
            t.wf(),
    {
        Trng { registers: TRNG_BASE, word: EHR_WORDS, resets: 0, has_client: false }
    }

    /// The reset budget is never overspent, and the iterator never points
    /// past the six words.
    pub open spec fn wf(self) -> bool {
        self.resets <= MAX_RESETS && self.word <= EHR_WORDS
    }

    /// Record the client that receives entropy.
    pub fn set_client(&mut self)
        ensures
            *final(self) == (Trng { has_client: true, ..*old(self) }),
    {
        self.has_client = true;
    }

    /// Ask for entropy: a fresh reset budget, interrupts on, and a
    /// collection started.
    pub fn get(&mut self) -> (r: Result<Vec<TrngOp>, ErrorCode>)
        requires
            old(self).wf(),
        ensures
            final(self).wf(),
            *final(self) == (Trng { resets: 0, ..*old(self) }),
            r is Ok && r->Ok_0@ == seq![TrngOp::EnableInterrupts, TrngOp::Start],
    {
        self.resets = 0;
        let mut ops: Vec<TrngOp> = Vec::new();
        ops.push(TrngOp::EnableInterrupts);
        ops.push(TrngOp::Start);
        assert(ops@ =~= seq![TrngOp::EnableInterrupts, TrngOp::Start]);
        Ok(ops)
    }

    /// Call the request off: stop, mask, and drain a collection that may
    /// have completed meanwhile.
    pub fn cancel(&mut self) -> (r: Result<Vec<TrngOp>, ErrorCode>)
        requires
            old(self).wf(),
        ensures
            final(self).wf(),
            *final(self) == (Trng { word: EHR_WORDS, ..*old(self) }),
            r is Ok && r->Ok_0@ == seq![TrngOp::Stop, TrngOp::DisableInterrupts, TrngOp::Drain],
    {
        self.word = EHR_WORDS;
        let mut ops: Vec<TrngOp> = Vec::new();
        ops.push(TrngOp::Stop);
        ops.push(TrngOp::DisableInterrupts);
        ops.push(TrngOp::Drain);
        assert(ops@ =~= seq![TrngOp::Stop, TrngOp::DisableInterrupts, TrngOp::Drain]);
        Ok(ops)
    }

    /// The next `EHR_DATA` word for the client to read, oldest first, or
    /// `None` once all six have been handed out.
    pub fn next_word(&mut self) -> (w: Option<usize>)
        requires
            old(self).wf(),
        ensures
            final(self).wf(),
            old(self).word >= EHR_WORDS ==> w is None && *final(self) == *old(self),
            old(self).word < EHR_WORDS ==> w == Some(old(self).word)
                && *final(self) == (Trng { word: (old(self).word + 1) as usize, ..*old(self) }),
    {
        let w = self.word;
        if w >= EHR_WORDS {
            return None;
        }
        self.word = w + 1;
        Some(w)
    }

    /// The block's interrupt, given what `RNG_ISR` reads.
    ///
    /// - `AUTOCORR_ERR` stops the block until reset, so it is reset; within
    ///   the budget of `MAX_RESETS` the interrupts are re-armed and a new
    ///   collection started, beyond it the budget is refilled, the
    ///   interrupts masked and the client told of the failure.
    /// - `CRNGT_ERR` or `VN_ERR` is an ordinary bad run: cleared and
    ///   collected again, without telling the client.
    /// - `EHR_VALID` is a good collection: the budget is refilled and the
    ///   words are handed to the client, after which `entropy_delivered`
    ///   continues; with no client the collection is drained and stopped.
    /// - Anything else is ignored.
    pub fn handle_interrupt(&mut self, status: u32) -> (ops: Vec<TrngOp>)
        requires
            old(self).wf(),
        ensures
            final(self).wf(),
            (*final(self), ops@) == spec_handle_interrupt(*old(self), status),
            spec_bit_set(status, INT_AUTOCORR_ERR) ==> if old(self).resets < MAX_RESETS {
                &&& *final(self) == (Trng { word: EHR_WORDS, resets: (old(self).resets + 1) as u8, ..*old(self) })
                &&& ops@ == seq![TrngOp::SwReset, TrngOp::EnableInterrupts, TrngOp::Start]
            } else {
                &&& *final(self) == (Trng { word: EHR_WORDS, resets: 0, ..*old(self) })
                &&& ops@ == (if old(self).has_client {
                        seq![TrngOp::SwReset, TrngOp::DisableInterrupts, TrngOp::ReportFailure]
                    } else {
                        seq![TrngOp::SwReset, TrngOp::DisableInterrupts]
                    })
            },
            !spec_bit_set(status, INT_AUTOCORR_ERR) && (spec_bit_set(status, INT_CRNGT_ERR) || spec_bit_set(status, INT_VN_ERR))
                ==> *final(self) == *old(self) && ops@ == seq![TrngOp::ClearErrors, TrngOp::Stop, TrngOp::Start],
            !spec_bit_set(status, INT_AUTOCORR_ERR) && !spec_bit_set(status, INT_CRNGT_ERR) && !spec_bit_set(status, INT_VN_ERR)
                && !spec_bit_set(status, INT_EHR_VALID) ==> *final(self) == *old(self) && ops@ == Seq::<TrngOp>::empty(),
            !spec_bit_set(status, INT_AUTOCORR_ERR) && !spec_bit_set(status, INT_CRNGT_ERR) && !spec_bit_set(status, INT_VN_ERR)
                && spec_bit_set(status, INT_EHR_VALID) ==> if old(self).has_client {
                    *final(self) == (Trng { word: 0, resets: 0, ..*old(self) }) && ops@ == seq![TrngOp::Deliver]
                } else {
                    *final(self) == (Trng { word: EHR_WORDS, resets: 0, ..*old(self) }) && ops@ == spec_after_delivery(false)
                },
    {
        let mut ops: Vec<TrngOp> = Vec::new();
        if is_set(status, INT_AUTOCORR_ERR) {
            ops.push(TrngOp::SwReset);
            self.word = EHR_WORDS;
            if self.resets < MAX_RESETS {
                self.resets = self.resets + 1;
                ops.push(TrngOp::EnableInterrupts);
                ops.push(TrngOp::Start);
            } else {
                self.resets = 0;
                ops.push(TrngOp::DisableInterrupts);
                if self.has_client {
                    ops.push(TrngOp::ReportFailure);
                }
            }
            return ops;
        }
        if is_set(status, INT_CRNGT_ERR) || is_set(status, INT_VN_ERR) {
            ops.push(TrngOp::ClearErrors);
            ops.push(TrngOp::Stop);
            ops.push(TrngOp::Start);
            return ops;
        }
        if !is_set(status, INT_EHR_VALID) {
            return ops;
        }
        self.resets = 0;
        self.word = 0;
        if self.has_client {
            ops.push(TrngOp::Deliver);
            ops
        } else {
            self.entropy_delivered(None)
        }
    }

    /// After the client has taken what it wanted from a collection: the
    /// run's bits must not survive into the next one, so the rest is
    /// drained; then collect again if the client asked for more, or stop.
    pub fn entropy_delivered(&mut self, answer: Option<Continue>) -> (ops: Vec<TrngOp>)
        requires
            old(self).wf(),
        ensures
            final(self).wf(),
            *final(self) == (Trng { word: EHR_WORDS, ..*old(self) }),
            ops@ == spec_after_delivery(answer == Some(Continue::More)),
    {
        self.word = EHR_WORDS;
        let mut ops: Vec<TrngOp> = Vec::new();
        ops.push(TrngOp::Drain);
        ops.push(TrngOp::ClearValid);
        match answer {
            Some(Continue::More) => {
                ops.push(TrngOp::Start);
            },
            _ => {
                ops.push(TrngOp::Stop);
                ops.push(TrngOp::DisableInterrupts);
            },
        }
        assert(ops@ =~= spec_after_delivery(answer == Some(Continue::More)));
        ops
    }
}


/// `1 << 1` reads as an autocorrelation failure and nothing else.
pub proof fn lemma_autocorr_status()
    ensures
        spec_bit_set(1u32 << 1u32, INT_AUTOCORR_ERR),
{
    assert(((1u32 << 1u32) >> 1u32) & 1u32 == 1u32) by (bit_vector);
}

/// After `k` failures in a row from a fresh budget, `k` resets are spent.
pub proof fn lemma_failures_spend_budget(t: Trng, k: nat)
    requires
        t.resets == 0,
        k <= MAX_RESETS,
    ensures
        spec_autocorr_failures(t, k) == (Trng { word: if k == 0 { t.word } else { EHR_WORDS }, resets: k as u8, ..t }),
    decreases k,
{
    lemma_autocorr_status();
    if k > 0 {
        let t1 = spec_handle_interrupt(t, 1u32 << 1u32).0;
        assert(t1 == (Trng { word: EHR_WORDS, resets: 1, ..t }));
        lemma_failures_spend_shifted(t1, (k - 1) as nat);
    }
}

/// After `k` more failures from `t`, `k` more resets are spent.
pub proof fn lemma_failures_spend_shifted(t: Trng, k: nat)
    requires
        t.resets + k <= MAX_RESETS,
        t.word == EHR_WORDS,
    ensures
        spec_autocorr_failures(t, k) == (Trng { resets: (t.resets + k) as u8, ..t }),
    decreases k,
{
    lemma_autocorr_status();
    if k > 0 {
        let t1 = spec_handle_interrupt(t, 1u32 << 1u32).0;
        assert(t1 == (Trng { resets: (t.resets + 1) as u8, ..t }));
        lemma_failures_spend_shifted(t1, (k - 1) as nat);
    }
}

/// A block that keeps failing its autocorrelation test is reset and
/// restarted `MAX_RESETS` times, and the next failure masks the interrupts
/// and tells the client the request failed, refilling the budget: the
/// driver neither gives up early nor retries forever.
pub proof fn law_reset_budget(t: Trng)
    requires
        t.resets == 0,
        t.has_client,
    ensures
        ({
            let spent = spec_autocorr_failures(t, MAX_RESETS as nat);
            let (after, ops) = spec_handle_interrupt(spent, 1u32 << 1u32);
            &&& spent.resets == MAX_RESETS
            &&& ops == seq![TrngOp::SwReset, TrngOp::DisableInterrupts, TrngOp::ReportFailure]
            &&& after.resets == 0
        }),
{
    lemma_failures_spend_budget(t, MAX_RESETS as nat);
    lemma_autocorr_status();
}

} // verus!
