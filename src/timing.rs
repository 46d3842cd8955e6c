use vstd::prelude::*;

use crate::clock::{clock_now, nanos_since};

verus! {

/// The smallest element of `s` (0 for an empty sequence).
pub open spec fn seq_min(s: Seq<u64>) -> u64
    decreases s.len(),
{
    if s.len() == 0 {
        0
    } else if s.len() == 1 {
        s[0]
    } else {
        let m = seq_min(s.drop_last());
        if s.last() < m {
            s.last()
        } else {
            m
        }
    }
}

/// The largest element of `s` (0 for an empty sequence).
pub open spec fn seq_max(s: Seq<u64>) -> u64
    decreases s.len(),
{
    if s.len() == 0 {
        0
    } else if s.len() == 1 {
        s[0]
    } else {
        let m = seq_max(s.drop_last());
        if s.last() > m {
            s.last()
        } else {
            m
        }
    }
}

/// The sum of the elements of `s`.
pub open spec fn seq_sum(s: Seq<u64>) -> nat
    decreases s.len(),
{
    if s.len() == 0 {
        0
    } else {
        seq_sum(s.drop_last()) + s.last() as nat
    }
}

/// The average of `s`, rounded down.
pub open spec fn seq_avg(s: Seq<u64>) -> nat {
    if s.len() == 0 {
        0
    } else {
        seq_sum(s) / s.len()
    }
}

/// Every element of `s` lies between its minimum and its maximum, and both
/// are elements of `s`.
pub proof fn lemma_min_max_bound(s: Seq<u64>)
    requires
        s.len() > 0,
    ensures
        forall|k: int| 0 <= k < s.len() ==> seq_min(s) <= #[trigger] s[k] <= seq_max(s),
        exists|k: int| 0 <= k < s.len() && s[k] == seq_min(s),
        exists|k: int| 0 <= k < s.len() && s[k] == seq_max(s),
    decreases s.len(),
{
    if s.len() > 1 {
        lemma_min_max_bound(s.drop_last());
        let p = s.drop_last();
        assert forall|k: int| 0 <= k < s.len() implies seq_min(s) <= #[trigger] s[k] <= seq_max(
            s,
        ) by {
            if k < s.len() - 1 {
                assert(s[k] == p[k]);
            }
        }
        let km = choose|k: int| 0 <= k < p.len() && p[k] == seq_min(p);
        let kx = choose|k: int| 0 <= k < p.len() && p[k] == seq_max(p);
        assert(s[km] == p[km]);
        assert(s[kx] == p[kx]);
        assert(s[s.len() - 1] == s.last());
        if s.last() > seq_max(p) {
            assert(s[s.len() - 1] == seq_max(s));
        } else {
            assert(s[kx] == seq_max(s));
        }
        if s.last() < seq_min(p) {
            assert(s[s.len() - 1] == seq_min(s));
        } else {
            assert(s[km] == seq_min(s));
        }
    } else {
        assert(s[0] == seq_min(s));
        assert(s[0] == seq_max(s));
    }
}

/// The sum of `s` lies between `len * min` and `len * max`.
pub proof fn lemma_sum_bounds(s: Seq<u64>, lo: u64, hi: u64)
    requires
        forall|k: int| 0 <= k < s.len() ==> lo <= #[trigger] s[k] <= hi,
    ensures
        s.len() * lo <= seq_sum(s) <= s.len() * hi,
    decreases s.len(),
{
    if s.len() > 0 {
        let p = s.drop_last();
        assert forall|k: int| 0 <= k < p.len() implies lo <= #[trigger] p[k] <= hi by {
            assert(p[k] == s[k]);
        }
        lemma_sum_bounds(p, lo, hi);
        assert(s.last() == s[s.len() - 1]);
        assert(s.len() * lo == p.len() * lo + lo) by (nonlinear_arith)
            requires
                s.len() == p.len() + 1,
        ;
        assert(s.len() * hi == p.len() * hi + hi) by (nonlinear_arith)
            requires
                s.len() == p.len() + 1,
        ;
    }
}

/// The summary of a non-empty series of measurements is ordered:
/// minimum <= average <= maximum, and when every measurement is the same,
/// the three coincide.
pub proof fn lemma_summary_ordered(s: Seq<u64>)
    requires
        s.len() > 0,
    ensures
        seq_min(s) <= seq_avg(s) <= seq_max(s),
        (forall|i: int, j: int| 0 <= i < s.len() && 0 <= j < s.len() ==> s[i] == s[j]) ==> (
        seq_min(s) == seq_avg(s) && seq_avg(s) == seq_max(s)),
{
    lemma_min_max_bound(s);
    let lo = seq_min(s);
    let hi = seq_max(s);
    lemma_sum_bounds(s, lo, hi);
    let n = s.len();
    let t = seq_sum(s);
    assert(lo <= t / n) by (nonlinear_arith)
        requires
            n * lo <= t,
            n > 0,
    ;
    assert(t / n <= hi) by (nonlinear_arith)
        requires
            t <= n * hi,
            n > 0,
    ;
    if forall|i: int, j: int| 0 <= i < s.len() && 0 <= j < s.len() ==> s[i] == s[j] {
        let km = choose|k: int| 0 <= k < s.len() && s[k] == seq_min(s);
        let kx = choose|k: int| 0 <= k < s.len() && s[k] == seq_max(s);
        assert(s[km] == s[kx]);
        assert(t == n * lo);
        assert(t / n == lo) by (nonlinear_arith)
            requires
                t == n * lo,
                n > 0,
        ;
    }
}

/// Times `runs + warmup` executions of an operation, one `start`/`stop` pair
/// each, and summarizes the last `runs` of them.
pub struct TimingQueries {
    runs: usize,
    warmup: usize,
    timings: Vec<u64>,
    started: Option<std::time::Instant>,
}

impl TimingQueries {
    /// The number of measured iterations.
    pub closed spec fn runs(&self) -> nat {
        self.runs as nat
    }

    /// The number of leading iterations that are discarded.
    pub closed spec fn warmup(&self) -> nat {
        self.warmup as nat
    }

    /// The durations recorded so far, in nanoseconds, warm-up included.
    pub closed spec fn recorded(&self) -> Seq<u64> {
        self.timings@
    }

    /// Whether a `start` waits for its `stop`.
    pub closed spec fn running(&self) -> bool {
        self.started is Some
    }

    /// The number of iterations to go through in all.
    pub open spec fn total(&self) -> nat {
        self.runs() + self.warmup()
    }

    /// The retained durations: those after the warm-up prefix.
    pub open spec fn measured(&self) -> Seq<u64> {
        self.recorded().subrange(self.warmup() as int, self.recorded().len() as int)
    }

    /// Whether every iteration has been recorded.
    pub open spec fn complete(&self) -> bool {
        self.recorded().len() == self.total() && !self.running()
    }

    pub closed spec fn wf(&self) -> bool {
        &&& self.runs + self.warmup <= usize::MAX
        &&& self.timings.len() <= self.runs + self.warmup
        &&& self.started is Some ==> self.timings.len() < self.runs + self.warmup
    }

    pub fn new(runs: usize, warmup: usize) -> (r: Self)
        requires
            runs + warmup <= usize::MAX,
        ensures
            r.wf(),
            r.runs() == runs,
            r.warmup() == warmup,
            r.recorded() == Seq::<u64>::empty(),
            !r.running(),
    {
        TimingQueries { runs, warmup, timings: Vec::new(), started: None }
    }

    /// Marks the beginning of the next iteration.
    pub fn start(&mut self)
        requires
            old(self).wf(),
            !old(self).running(),
            old(self).recorded().len() < old(self).total(),
        ensures
            final(self).wf(),
            final(self).running(),
            final(self).runs() == old(self).runs(),
            final(self).warmup() == old(self).warmup(),
            final(self).recorded() == old(self).recorded(),
    {
        self.started = Some(clock_now());
    }

    /// Ends the running iteration and records its duration.
    pub fn stop(&mut self)
        requires
            old(self).wf(),
            old(self).running(),
        ensures
            final(self).wf(),
            !final(self).running(),
            final(self).runs() == old(self).runs(),
            final(self).warmup() == old(self).warmup(),
            final(self).recorded().len() == old(self).recorded().len() + 1,
            final(self).recorded().drop_last() == old(self).recorded(),
    {
        let ns = match &self.started {
            Some(t) => nanos_since(t),
            None => 0,
        };
        self.started = None;
        let d: u64 = if ns > u64::MAX as u128 {
            u64::MAX
        } else {
            ns as u64
        };
        self.record(d);
    }

    /// Records one iteration that took `d` nanoseconds, measured elsewhere.
    pub fn record(&mut self, d: u64)
        requires
            old(self).wf(),
            !old(self).running(),
            old(self).recorded().len() < old(self).total(),
        ensures
            final(self).wf(),
            !final(self).running(),
            final(self).runs() == old(self).runs(),
            final(self).warmup() == old(self).warmup(),
            final(self).recorded() == old(self).recorded().push(d),
    {
        self.timings.push(d);
        assert(self.timings@.drop_last() == old(self).timings@);
    }

    /// Returns the minimum, maximum and average (rounded down) of the
    /// measured durations, in nanoseconds.
    pub fn get(&self) -> (r: (u64, u64, u64))
        requires
            self.wf(),
            self.complete(),
            self.runs() >= 1,
        ensures
            r.0 == seq_min(self.measured()),
            r.1 == seq_max(self.measured()),
            r.2 == seq_avg(self.measured()),
            r.0 <= r.2 <= r.1,
    {
        let w = self.warmup;
        let end = self.timings.len();
        let mut lo: u64 = self.timings[w];
        let mut hi: u64 = self.timings[w];
        let mut sum: u128 = self.timings[w] as u128;
        let mut i: usize = w + 1;
        let ghost s = self.timings@;
        proof {
            let t0 = s.subrange(w as int, w + 1);
            assert(t0.drop_last().len() == 0);
            assert(seq_sum(t0.drop_last()) == 0);
            assert(t0.last() == s[w as int]);
        }
        while i < end
            invariant
                s == self.timings@,
                end == s.len(),
                w < i <= end,
                lo == seq_min(s.subrange(w as int, i as int)),
                hi == seq_max(s.subrange(w as int, i as int)),
                sum == seq_sum(s.subrange(w as int, i as int)),
                sum <= (i - w) * (u64::MAX as nat),
                end <= usize::MAX,
            decreases end - i,
        {
            let x = self.timings[i];
            assert(s.subrange(w as int, i + 1).drop_last() == s.subrange(w as int, i as int));
            if x < lo {
                lo = x;
            }
            if x > hi {
                hi = x;
            }
            assert(sum + x <= (i + 1 - w) * (u64::MAX as nat)) by (nonlinear_arith)
                requires
                    sum <= (i - w) * (u64::MAX as nat),
                    x <= u64::MAX,
                    i >= w,
            ;
            assert((i + 1 - w) * (u64::MAX as nat) <= (usize::MAX as nat) * (u64::MAX as nat))
                by (nonlinear_arith)
                requires
                    i + 1 - w <= usize::MAX,
            ;
            sum = sum + x as u128;
            i = i + 1;
        }
        assert(s.subrange(w as int, end as int) == self.measured());
        proof {
            lemma_summary_ordered(self.measured());
        }
        let n: u128 = (end - w) as u128;
        let avg: u128 = sum / n;
        (lo, hi, avg as u64)
    }
}

} // verus!
