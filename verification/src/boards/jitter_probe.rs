use vstd::prelude::*;
use vstd::arithmetic::power2::pow2;
use vstd::wrapping::u32_specs::{wrapping_add, wrapping_sub};

verus! {

/// Histogram buckets: bucket `i` holds lateness in `[2^(i-1), 2^i)`
/// microseconds, bucket 0 exactly 0, and the last everything at or above
/// 65,536.
pub const BUCKETS: usize = 18;

/// Lateness at or beyond this is read as the alarm having fired early, which
/// a wrapping subtraction turns into a value near `u32::MAX`.
pub const EARLY_THRESHOLD_US: u32 = 1_000_000;

/// Lateness at or above this is counted separately, with the index of the
/// last such sample.
pub const TAIL_US: u32 = 32;

/// The number of bits needed to write `x`: 0 for 0, 1 for 1, 2 for 2 and 3,
/// 3 for 4 to 7, and so on.
pub open spec fn spec_bit_length(x: u32) -> nat
    decreases x,
{
    if x == 0 { 0 } else { 1 + spec_bit_length(x / 2) }
}

/// The histogram bucket a lateness falls in.
pub open spec fn spec_bucket(late_us: u32) -> nat {
    let b = spec_bit_length(late_us);
    if b < BUCKETS - 1 { b } else { (BUCKETS - 1) as nat }
}

/// The bucket a lateness falls in.
pub fn bucket(late_us: u32) -> (b: usize)
    ensures
        b == spec_bucket(late_us),
        b < BUCKETS,
{
    let mut x = late_us;
    let mut bits: usize = 0;
    assert(late_us <= u32::MAX >> 0u32) by (bit_vector);
    while x > 0
        invariant
            bits + spec_bit_length(x) == spec_bit_length(late_us),
            bits <= 32,
            x <= u32::MAX >> (bits as u32),
        decreases x,
    {
        assert(x / 2 <= u32::MAX >> ((bits + 1) as u32)) by (bit_vector)
            requires
                x <= u32::MAX >> (bits as u32),
                x > 0,
                bits <= 32,
        ;
        assert(bits < 32) by (bit_vector)
            requires
                x <= u32::MAX >> (bits as u32),
                x > 0,
                bits <= 32,
        ;
        x = x / 2;
        bits = bits + 1;
    }
    if bits < BUCKETS - 1 { bits } else { BUCKETS - 1 }
}

/// A number of `bits` bits lies in `[2^(bits-1), 2^bits)`.
pub proof fn lemma_bit_length_bounds(x: u32)
    ensures
        x < pow2(spec_bit_length(x)),
        x > 0 ==> pow2((spec_bit_length(x) - 1) as nat) <= x,
    decreases x,
{
    vstd::arithmetic::power2::lemma2_to64();
    if x > 0 {
        let h = (x / 2) as u32;
        lemma_bit_length_bounds(h);
        vstd::arithmetic::power2::lemma_pow2_unfold(spec_bit_length(x));
        if h > 0 {
            vstd::arithmetic::power2::lemma_pow2_unfold(spec_bit_length(h));
        }
    }
}

/// Every bucket but the first and the last holds exactly the lateness
/// values from `2^(i-1)` up to but not including `2^i`.
pub proof fn lemma_bucket_range(late_us: u32)
    ensures
        spec_bucket(late_us) == 0 <==> late_us == 0,
        0 < spec_bucket(late_us) < BUCKETS - 1 ==> pow2((spec_bucket(late_us) - 1) as nat) <= late_us < pow2(spec_bucket(late_us)),
        spec_bucket(late_us) == BUCKETS - 1 ==> late_us >= pow2((BUCKETS - 2) as nat),
{
    lemma_bit_length_bounds(late_us);
    if late_us > 0 && spec_bit_length(late_us) >= BUCKETS - 1 {
        if spec_bit_length(late_us) - 1 > BUCKETS - 2 {
            vstd::arithmetic::power2::lemma_pow2_strictly_increases((BUCKETS - 2) as nat, (spec_bit_length(late_us) - 1) as nat);
        }
    }
}

/// The sum of a histogram's buckets.
pub open spec fn spec_total(buckets: Seq<u32>) -> int
    decreases buckets.len(),
{
    if buckets.len() == 0 { 0 } else { spec_total(buckets.drop_last()) + buckets.last() }
}

/// Adding one sample to a bucket adds one to the total.
pub proof fn lemma_total_update(buckets: Seq<u32>, i: int)
    requires
        0 <= i < buckets.len(),
        buckets[i] < u32::MAX,
    ensures
        spec_total(buckets.update(i, (buckets[i] + 1) as u32)) == spec_total(buckets) + 1,
    decreases buckets.len(),
{
    let u = buckets.update(i, (buckets[i] + 1) as u32);
    if i == buckets.len() - 1 {
        assert(u.drop_last() =~= buckets.drop_last());
    } else {
        lemma_total_update(buckets.drop_last(), i);
        assert(u.drop_last() =~= buckets.drop_last().update(i, (buckets[i] + 1) as u32));
    }
}

/// A bucket never holds more than the histogram's total.
pub proof fn lemma_bucket_within_total(buckets: Seq<u32>, i: int)
    requires
        0 <= i < buckets.len(),
    ensures
        buckets[i] <= spec_total(buckets),
        spec_total(buckets) >= 0,
    decreases buckets.len(),
{
    lemma_total_nonnegative(buckets.drop_last());
    if i < buckets.len() - 1 {
        lemma_bucket_within_total(buckets.drop_last(), i);
        assert(buckets.drop_last()[i] == buckets[i]);
    }
}

/// A histogram's total is never negative.
pub proof fn lemma_total_nonnegative(buckets: Seq<u32>)
    ensures
        spec_total(buckets) >= 0,
    decreases buckets.len(),
{
    if buckets.len() > 0 {
        lemma_total_nonnegative(buckets.drop_last());
    }
}

/// The period in timer ticks, at the frequency the timer reports.
pub open spec fn spec_ticks(period_us: u32, hz: u32) -> u32 {
    ((period_us as int * hz as int) / 1_000_000) as u32
}

/// A tick count in microseconds, at the frequency the timer reports.
pub open spec fn spec_ticks_to_us(ticks: u32, hz: u32) -> u32 {
    ((ticks as int * 1_000_000) / (hz as int)) as u32
}

/// Measures how late a periodic alarm fires, keeping an absolute cadence:
/// wake `n` is due at `start + n * period`, and each alarm is set from the
/// deadline that just passed rather than from when it fired.
#[derive(Copy, Clone, Debug, PartialEq, Eq)]
pub struct JitterProbe {
    pub period_us: u32,
    /// Samples to take before reporting.
    pub target: u32,
    /// When the wake now being waited for is due, in timer ticks.
    pub expected: u32,
    /// Samples taken.
    pub n: u32,
    pub min: u32,
    pub max: u32,
    /// The sample at which `max` was seen.
    pub max_at: u32,
    /// Samples at or above `TAIL_US`, and the index of the last one.
    pub tail: u32,
    pub tail_last_at: u32,
    /// Samples that arrived early, which the alarm contract forbids.
    pub early: u32,
    pub buckets: [u32; 18],
}

/// What the probe's alarm asks for next.
#[derive(Copy, Clone, Debug, PartialEq, Eq)]
pub enum JitterNext {
    /// Set the alarm for `dt` ticks after `reference`.
    Rearm { reference: u32, dt: u32 },
    /// Stop, and print this.
    Report(JitterReport),
}

/// The figures a finished run prints.
#[derive(Copy, Clone, Debug, PartialEq, Eq)]
pub struct JitterReport {
    pub n: u32,
    /// The least lateness, or 0 if every sample was early.
    pub min: u32,
    pub max: u32,
    pub max_at: u32,
    pub early: u32,
    pub tail: u32,
    pub tail_last_at: u32,
    pub buckets: [u32; 18],
}

impl JitterProbe {
    /// Every sample is accounted for exactly once: early, or in one bucket.
    pub open spec fn wf(self) -> bool {
        &&& spec_total(self.buckets@) + self.early == self.n
        &&& self.tail <= self.n
    }

    /// A probe that has taken no samples.
    pub fn new(period_us: u32, target: u32) -> (p: JitterProbe)
        ensures
            p.wf(),
            p.period_us == period_us,
            p.target == target,
            p.n == 0 && p.min == u32::MAX && p.max == 0 && p.early == 0 && p.tail == 0,
            forall|i: int| 0 <= i < BUCKETS ==> p.buckets[i] == 0,
    {
        let p = JitterProbe {
            period_us,
            target,
            expected: 0,
            n: 0,
            min: u32::MAX,
            max: 0,
            max_at: 0,
            tail: 0,
            tail_last_at: 0,
            early: 0,
            buckets: [0; 18],
        };
        assert(spec_total(p.buckets@) == 0) by {
            reveal_with_fuel(spec_total, 19);
        }
        p
    }

    /// The period in timer ticks.
    pub fn ticks(&self, hz: u32) -> (t: u32)
        ensures
            t == spec_ticks(self.period_us, hz),
    {
        let p = self.period_us as u64;
        let h = hz as u64;
        assert(p * h <= u64::MAX) by (nonlinear_arith)
            requires
                p <= u32::MAX,
                h <= u32::MAX,
        ;
        ((p * h) / 1_000_000) as u32
    }

    /// Start the run at `now`: the first wake is due one period later.
    /// Answers the alarm to set, as a reference and a delay.
    pub fn arm(&mut self, now: u32, hz: u32) -> (r: (u32, u32))
        ensures
            r == (now, spec_ticks(old(self).period_us, hz)),
            *final(self) == (JitterProbe { expected: wrapping_add(now, spec_ticks(old(self).period_us, hz)), ..*old(self) }),
    {
        let period = self.ticks(hz);
        self.expected = now.wrapping_add(period);
        (now, period)
    }

    /// Count one sample of `late_us` microseconds' lateness.
    ///
    /// Lateness at or beyond `EARLY_THRESHOLD_US` is an early wake and is
    /// only counted as such. Otherwise the minimum, the maximum (with where
    /// it was seen), the tail (with where it was last seen) and the sample's
    /// bucket are updated.
    pub fn record(&mut self, late_us: u32)
        requires
            old(self).wf(),
            old(self).n < u32::MAX,
        ensures
            spec_total(final(self).buckets@) + final(self).early == old(self).n + 1,
            final(self).tail <= old(self).n + 1,
            late_us >= EARLY_THRESHOLD_US ==> *final(self) == (JitterProbe { early: (old(self).early + 1) as u32, ..*old(self) }),
            late_us < EARLY_THRESHOLD_US ==> {
                let b = spec_bucket(late_us) as int;
                &&& final(self).early == old(self).early
                &&& final(self).min == (if late_us < old(self).min { late_us } else { old(self).min })
                &&& final(self).max == (if late_us > old(self).max { late_us } else { old(self).max })
                &&& final(self).max_at == (if late_us > old(self).max { old(self).n } else { old(self).max_at })
                &&& final(self).tail == (if late_us >= TAIL_US { (old(self).tail + 1) as u32 } else { old(self).tail })
                &&& final(self).tail_last_at == (if late_us >= TAIL_US { old(self).n } else { old(self).tail_last_at })
                &&& final(self).buckets@ == old(self).buckets@.update(b, (old(self).buckets[b] + 1) as u32)
                &&& final(self).n == old(self).n
                &&& final(self).expected == old(self).expected
                &&& final(self).period_us == old(self).period_us
                &&& final(self).target == old(self).target
            },
    {
        if late_us >= EARLY_THRESHOLD_US {
            proof {
                lemma_bucket_within_total(self.buckets@, 0);
            }
            self.early = self.early + 1;
            return;
        }
        if late_us < self.min {
            self.min = late_us;
        }
        if late_us > self.max {
            self.max = late_us;
            self.max_at = self.n;
        }
        if late_us >= TAIL_US {
            self.tail = self.tail + 1;
            self.tail_last_at = self.n;
        }
        let idx = if late_us == 0 { 0 } else { bucket(late_us) };
        assert(late_us == 0 ==> spec_bucket(late_us) == 0) by {
            reveal_with_fuel(spec_bit_length, 2);
        }
        proof {
            lemma_bucket_within_total(self.buckets@, idx as int);
            lemma_total_update(self.buckets@, idx as int);
        }
        self.buckets[idx] = self.buckets[idx] + 1;
    }

    /// The figures a finished run reports.
    pub fn report(&self) -> (r: JitterReport)
        ensures
            r == (JitterReport {
                n: self.n,
                min: if self.min == u32::MAX { 0 } else { self.min },
                max: self.max,
                max_at: self.max_at,
                early: self.early,
                tail: self.tail,
                tail_last_at: self.tail_last_at,
                buckets: self.buckets,
            }),
    {
        JitterReport {
            n: self.n,
            min: if self.min == u32::MAX { 0 } else { self.min },
            max: self.max,
            max_at: self.max_at,
            early: self.early,
            tail: self.tail,
            tail_last_at: self.tail_last_at,
            buckets: self.buckets,
        }
    }

    /// The alarm fired at `now`. The wake's lateness past its deadline is
    /// recorded in microseconds; after `target` samples the run reports and
    /// stops, otherwise the next wake is due one period after the deadline
    /// that just passed, and the alarm is set from that deadline.
    pub fn alarm(&mut self, now: u32, hz: u32) -> (next: JitterNext)
        requires
            old(self).wf(),
            old(self).n < u32::MAX,
            hz > 0,
        ensures
            final(self).wf(),
            final(self).n == old(self).n + 1,
            ({
                let due = old(self).expected;
                let late_us = spec_ticks_to_us(wrapping_sub(now, due), hz);
                let period = spec_ticks(old(self).period_us, hz);
                &&& final(self).buckets@.len() == BUCKETS
                &&& late_us >= EARLY_THRESHOLD_US ==> final(self).early == old(self).early + 1
                &&& late_us < EARLY_THRESHOLD_US ==> final(self).buckets[spec_bucket(late_us) as int]
                        == old(self).buckets[spec_bucket(late_us) as int] + 1
                &&& if final(self).n >= old(self).target {
                        next == JitterNext::Report(final(self).report_spec()) && final(self).expected == due
                    } else {
                        next == (JitterNext::Rearm { reference: due, dt: period })
                            && final(self).expected == wrapping_add(due, period)
                    }
            }),
    {
        let due = self.expected;
        let late = now.wrapping_sub(due);
        let late_us = ((late as u64 * 1_000_000) / hz as u64) as u32;
        assert(late_us == spec_ticks_to_us(wrapping_sub(now, due), hz));
        assert(spec_bucket(late_us) < BUCKETS);
        proof {
            lemma_bucket_within_total(self.buckets@, spec_bucket(late_us) as int);
            lemma_total_nonnegative(self.buckets@);
        }
        self.record(late_us);
        assert(late_us < EARLY_THRESHOLD_US ==> self.buckets[spec_bucket(late_us) as int]
            == old(self).buckets[spec_bucket(late_us) as int] + 1);
        self.n = self.n + 1;
        if self.n >= self.target {
            return JitterNext::Report(self.report());
        }
        let period = self.ticks(hz);
        self.expected = due.wrapping_add(period);
        JitterNext::Rearm { reference: due, dt: period }
    }

    /// The report `report` returns, as a value.
    pub open spec fn report_spec(self) -> JitterReport {
        JitterReport {
            n: self.n,
            min: if self.min == u32::MAX { 0 } else { self.min },
            max: self.max,
            max_at: self.max_at,
            early: self.early,
            tail: self.tail,
            tail_last_at: self.tail_last_at,
            buckets: self.buckets,
        }
    }
}

} // verus!
