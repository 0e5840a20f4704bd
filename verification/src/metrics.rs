//! Performance metrics: latency statistics in integer nanoseconds and SNR
//! statistics in fixed point (milli-dB).
//!
//! The monitors here are plain values updated through `&mut self`; the
//! application shares them between threads behind a lock.

use vstd::prelude::*;
use vstd::relations::{sorted_by, total_ordering};

verus! {

broadcast use vstd::seq_lib::group_to_multiset_ensures;

/// Ascending order on nanosecond samples.
pub open spec fn ns_leq() -> spec_fn(u64, u64) -> bool {
    |a: u64, b: u64| a <= b
}

/// The samples in ascending order.
pub open spec fn sorted_samples(s: Seq<u64>) -> Seq<u64> {
    s.sort_by(ns_leq())
}

/// Index of the `pct`-th percentile in a sorted sequence of `len` items.
pub open spec fn percentile_index(len: nat, pct: nat) -> nat {
    len * pct / 100
}

/// `len * pct / 100` without overflowing the intermediate product.
pub(crate) fn percentile_at(len: usize, pct: usize) -> (r: usize)
    requires
        pct <= 100,
    ensures
        r == percentile_index(len as nat, pct as nat),
        len > 0 && pct < 100 ==> r < len,
{
    let a = len / 100;
    let b = len % 100;
    assert(a * pct <= len && b * pct <= 9900 && a * pct + b * pct / 100 <= len) by (nonlinear_arith)
        requires
            a == len / 100,
            b == len % 100,
            pct <= 100,
    {
        vstd::arithmetic::div_mod::lemma_fundamental_div_mod(len as int, 100);
    }
    let r = a * pct + b * pct / 100;
    assert(r == len * pct / 100 && (len > 0 && pct < 100 ==> r < len)) by (nonlinear_arith)
        requires
            a == len / 100,
            b == len % 100,
            r == a * pct + b * pct / 100,
            pct <= 100,
    {
        vstd::arithmetic::div_mod::lemma_fundamental_div_mod(len as int, 100);
    }
    r
}

/// Insert `x` into the ascending `v`, keeping it ascending.
fn insert_sorted(v: &mut Vec<u64>, x: u64)
    requires
        sorted_by(old(v)@, ns_leq()),
    ensures
        sorted_by(final(v)@, ns_leq()),
        final(v)@.to_multiset() == old(v)@.to_multiset().insert(x),
{
    let mut pos: usize = 0;
    while pos < v.len() && v[pos] <= x
        invariant
            pos <= v@.len(),
            forall|k: int| 0 <= k < pos ==> v@[k] <= x,
        decreases v@.len() - pos,
    {
        pos += 1;
    }
    let ghost before = v@;
    v.insert(pos, x);
    proof {
        to_multiset_insert_at(before, pos as int, x);
        assert forall|i: int, j: int| 0 <= i < j < v@.len() implies #[trigger] ns_leq()(v@[i], v@[j]) by {
            if j < pos {
                assert(ns_leq()(before[i], before[j]));
            } else if j == pos {
            } else if i < pos {
                assert(ns_leq()(before[i], before[j - 1]));
            } else if i == pos {
                assert(ns_leq()(before[pos as int], before[j - 1]) || pos as int == j - 1);
            } else {
                assert(ns_leq()(before[i - 1], before[j - 1]));
            }
        }
    }
}

proof fn to_multiset_insert_at(s: Seq<u64>, i: int, x: u64)
    requires
        0 <= i <= s.len(),
    ensures
        s.insert(i, x).to_multiset() == s.to_multiset().insert(x),
{
    vstd::seq_lib::to_multiset_insert(s, i, x);
}

/// A copy of `v` in ascending order.
pub(crate) fn sorted_copy(v: &Vec<u64>) -> (r: Vec<u64>)
    ensures
        r@ == sorted_samples(v@),
{
    let mut r: Vec<u64> = Vec::new();
    for i in 0..v.len()
        invariant
            sorted_by(r@, ns_leq()),
            r@.to_multiset() == v@.subrange(0, i as int).to_multiset(),
    {
        proof {
            assert(v@.subrange(0, i + 1) =~= v@.subrange(0, i as int).push(v@[i as int]));
        }
        insert_sorted(&mut r, v[i]);
    }
    proof {
        assert(v@.subrange(0, v@.len() as int) =~= v@);
        assert(total_ordering(ns_leq()));
        v@.lemma_sort_by_ensures(ns_leq());
        vstd::seq_lib::lemma_sorted_unique(r@, sorted_samples(v@), ns_leq());
    }
    r
}

/// Latency statistics (nanoseconds).
#[derive(Debug, Clone)]
pub struct LatencyStats {
    pub count: usize,
    pub min_ns: u64,
    pub max_ns: u64,
    pub sum_ns: u64,
    pub p50_ns: u64,
    pub p95_ns: u64,
    pub p99_ns: u64,
}

impl Default for LatencyStats {
    /// All-zero statistics: nothing recorded.
    fn default() -> (r: Self)
        ensures
            r.count == 0,
            r.min_ns == 0,
            r.max_ns == 0,
            r.sum_ns == 0,
            r.p50_ns == 0,
            r.p95_ns == 0,
            r.p99_ns == 0,
    {
        LatencyStats { count: 0, min_ns: 0, max_ns: 0, sum_ns: 0, p50_ns: 0, p95_ns: 0, p99_ns: 0 }
    }
}

impl LatencyStats {
    /// Mean latency in whole nanoseconds (0 when nothing was recorded).
    pub fn avg_ns(&self) -> (r: u64)
        ensures
            self.count == 0 ==> r == 0,
            self.count > 0 ==> r == self.sum_ns / (self.count as u64),
    {
        if self.count == 0 {
            0
        } else {
            self.sum_ns / (self.count as u64)
        }
    }
}

/// Default number of samples kept for percentiles.
pub const DEFAULT_MAX_SAMPLES: usize = 10000;

/// Latency monitor: running count, sum, minimum and maximum over every
/// recorded sample, and the most recent `max_samples` samples for
/// percentiles. Count and sum wrap around like the hardware counters they
/// mirror.
#[derive(Debug)]
pub struct LatencyMonitor {
    samples: Vec<u64>,
    max_samples: usize,
    count: usize,
    sum_ns: u64,
    min_ns: u64,
    max_ns: u64,
}

impl LatencyMonitor {
    pub closed spec fn spec_samples(&self) -> Seq<u64> {
        self.samples@
    }

    pub closed spec fn spec_max_samples(&self) -> nat {
        self.max_samples as nat
    }

    pub closed spec fn spec_count(&self) -> usize {
        self.count
    }

    pub closed spec fn spec_sum_ns(&self) -> u64 {
        self.sum_ns
    }

    pub closed spec fn spec_min_ns(&self) -> u64 {
        self.min_ns
    }

    pub closed spec fn spec_max_ns(&self) -> u64 {
        self.max_ns
    }

    /// The statistics reported for the current state: all zero when nothing
    /// was recorded, otherwise the running count, sum and extremes with the
    /// 50th/95th/99th percentiles of the retained samples.
    pub open spec fn spec_stats(&self) -> LatencyStats {
        if self.spec_count() == 0 || self.spec_samples().len() == 0 {
            LatencyStats { count: 0, min_ns: 0, max_ns: 0, sum_ns: 0, p50_ns: 0, p95_ns: 0, p99_ns: 0 }
        } else {
            let s = sorted_samples(self.spec_samples());
            let n = self.spec_samples().len();
            LatencyStats {
                count: self.spec_count(),
                min_ns: self.spec_min_ns(),
                max_ns: self.spec_max_ns(),
                sum_ns: self.spec_sum_ns(),
                p50_ns: s[percentile_index(n, 50) as int],
                p95_ns: s[percentile_index(n, 95) as int],
                p99_ns: s[percentile_index(n, 99) as int],
            }
        }
    }

    /// A monitor keeping 10 000 samples.
    pub fn new() -> (r: Self)
        ensures
            r.spec_max_samples() == DEFAULT_MAX_SAMPLES,
            r.spec_samples() == Seq::<u64>::empty(),
            r.spec_count() == 0,
            r.spec_sum_ns() == 0,
            r.spec_min_ns() == u64::MAX,
            r.spec_max_ns() == 0,
    {
        Self::with_capacity(DEFAULT_MAX_SAMPLES)
    }

    /// A monitor keeping the last `max_samples` samples.
    pub fn with_capacity(max_samples: usize) -> (r: Self)
        ensures
            r.spec_max_samples() == max_samples,
            r.spec_samples() == Seq::<u64>::empty(),
            r.spec_count() == 0,
            r.spec_sum_ns() == 0,
            r.spec_min_ns() == u64::MAX,
            r.spec_max_ns() == 0,
    {
        LatencyMonitor {
            samples: Vec::new(),
            max_samples,
            count: 0,
            sum_ns: 0,
            min_ns: u64::MAX,
            max_ns: 0,
        }
    }

    /// Record a latency sample of `ns` nanoseconds.
    pub fn record(&mut self, ns: u64)
        requires
            old(self).spec_max_samples() > 0 || old(self).spec_samples().len() > 0,
        ensures
            final(self).spec_count() == old(self).spec_count().wrapping_add(1),
            final(self).spec_sum_ns() == old(self).spec_sum_ns().wrapping_add(ns),
            final(self).spec_min_ns() == (if ns < old(self).spec_min_ns() { ns } else { old(self).spec_min_ns() }),
            final(self).spec_max_ns() == (if ns > old(self).spec_max_ns() { ns } else { old(self).spec_max_ns() }),
            final(self).spec_max_samples() == old(self).spec_max_samples(),
            final(self).spec_samples() == (if old(self).spec_samples().len() >= old(self).spec_max_samples() {
                old(self).spec_samples().drop_first()
            } else {
                old(self).spec_samples()
            }).push(ns),
    {
        self.count = self.count.wrapping_add(1);
        self.sum_ns = self.sum_ns.wrapping_add(ns);
        if ns < self.min_ns {
            self.min_ns = ns;
        }
        if ns > self.max_ns {
            self.max_ns = ns;
        }
        let ghost before = self.samples@;
        if self.samples.len() >= self.max_samples {
            self.samples.remove(0);
        }
        self.samples.push(ns);
        proof {
            if before.len() >= self.max_samples {
                assert(self.samples@ =~= before.drop_first().push(ns));
            }
        }
    }

    /// Current statistics: zero when nothing was recorded, otherwise the
    /// running count, sum, extremes, and the 50th/95th/99th percentiles of
    /// the retained samples.
    pub fn stats(&self) -> (r: LatencyStats)
        ensures
            r == self.spec_stats(),
            self.spec_count() == 0 || self.spec_samples().len() == 0 ==> {
                &&& r.count == 0 && r.min_ns == 0 && r.max_ns == 0 && r.sum_ns == 0
                &&& r.p50_ns == 0 && r.p95_ns == 0 && r.p99_ns == 0
            },
            self.spec_count() > 0 && self.spec_samples().len() > 0 ==> {
                let s = sorted_samples(self.spec_samples());
                let n = self.spec_samples().len();
                &&& r.count == self.spec_count()
                &&& r.min_ns == self.spec_min_ns()
                &&& r.max_ns == self.spec_max_ns()
                &&& r.sum_ns == self.spec_sum_ns()
                &&& r.p50_ns == s[percentile_index(n, 50) as int]
                &&& r.p95_ns == s[percentile_index(n, 95) as int]
                &&& r.p99_ns == s[percentile_index(n, 99) as int]
            },
    {
        if self.count == 0 || self.samples.len() == 0 {
            return LatencyStats::default();
        }
        let sorted = sorted_copy(&self.samples);
        let n = sorted.len();
        proof {
            self.samples@.lemma_sort_by_ensures(ns_leq());
            vstd::seq_lib::to_multiset_len(self.samples@);
            vstd::seq_lib::to_multiset_len(sorted@);
        }
        let i50 = percentile_at(n, 50);
        let i95 = percentile_at(n, 95);
        let i99 = percentile_at(n, 99);
        LatencyStats {
            count: self.count,
            min_ns: self.min_ns,
            max_ns: self.max_ns,
            sum_ns: self.sum_ns,
            p50_ns: sorted[i50],
            p95_ns: sorted[i95],
            p99_ns: sorted[i99],
        }
    }

    /// Forget every sample and statistic.
    pub fn reset(&mut self)
        ensures
            final(self).spec_max_samples() == old(self).spec_max_samples(),
            final(self).spec_samples() == Seq::<u64>::empty(),
            final(self).spec_count() == 0,
            final(self).spec_sum_ns() == 0,
            final(self).spec_min_ns() == u64::MAX,
            final(self).spec_max_ns() == 0,
    {
        self.count = 0;
        self.sum_ns = 0;
        self.min_ns = u64::MAX;
        self.max_ns = 0;
        self.samples.clear();
    }

    /// Does the 95th percentile exceed `target_ns`?
    pub fn exceeds_target(&self, target_ns: u64) -> (r: bool)
        ensures
            self.spec_count() == 0 || self.spec_samples().len() == 0 ==> !r,
            self.spec_count() > 0 && self.spec_samples().len() > 0 ==> r == (sorted_samples(
                self.spec_samples(),
            )[percentile_index(self.spec_samples().len(), 95) as int] > target_ns),
    {
        let stats = self.stats();
        stats.p95_ns > target_ns
    }
}

/// Performance metrics collector: latency plus per-stage event counters.
#[derive(Debug)]
pub struct MetricsCollector {
    pub latency: LatencyMonitor,
    pub rf_capture_count: usize,
    pub audio_capture_count: usize,
    pub mamba_inference_count: usize,
    pub control_update_count: usize,
    pub forensics_logged_count: usize,
}

/// Summary of all metrics.
#[derive(Debug, Clone)]
pub struct MetricsSummary {
    pub latency: LatencyStats,
    pub rf_captures: usize,
    pub audio_captures: usize,
    pub mamba_inferences: usize,
    pub control_updates: usize,
    pub forensics_logged: usize,
}

impl MetricsCollector {
    /// A collector with a fresh latency monitor and zero counters.
    pub fn new() -> (r: Self)
        ensures
            r.latency.spec_max_samples() == DEFAULT_MAX_SAMPLES,
            r.latency.spec_samples() == Seq::<u64>::empty(),
            r.latency.spec_count() == 0,
            r.latency.spec_sum_ns() == 0,
            r.latency.spec_min_ns() == u64::MAX,
            r.latency.spec_max_ns() == 0,
            r.rf_capture_count == 0,
            r.audio_capture_count == 0,
            r.mamba_inference_count == 0,
            r.control_update_count == 0,
            r.forensics_logged_count == 0,
    {
        MetricsCollector {
            latency: LatencyMonitor::new(),
            rf_capture_count: 0,
            audio_capture_count: 0,
            mamba_inference_count: 0,
            control_update_count: 0,
            forensics_logged_count: 0,
        }
    }

    /// Snapshot of the latency statistics and the counters.
    pub fn summary(&self) -> (r: MetricsSummary)
        ensures
            r.latency == self.latency.spec_stats(),
            r.rf_captures == self.rf_capture_count,
            r.audio_captures == self.audio_capture_count,
            r.mamba_inferences == self.mamba_inference_count,
            r.control_updates == self.control_update_count,
            r.forensics_logged == self.forensics_logged_count,
    {
        MetricsSummary {
            latency: self.latency.stats(),
            rf_captures: self.rf_capture_count,
            audio_captures: self.audio_capture_count,
            mamba_inferences: self.mamba_inference_count,
            control_updates: self.control_update_count,
            forensics_logged: self.forensics_logged_count,
        }
    }
}

/// SNR statistics, stored in fixed point as thousandths of a dB.
#[derive(Debug)]
pub struct SNRMetrics {
    current_snr_db: u64,
    min_snr_db: u64,
    max_snr_db: u64,
    sum_snr_db: u64,
    count: usize,
}

impl SNRMetrics {
    pub closed spec fn spec_current(&self) -> u64 {
        self.current_snr_db
    }

    pub closed spec fn spec_min(&self) -> u64 {
        self.min_snr_db
    }

    pub closed spec fn spec_max(&self) -> u64 {
        self.max_snr_db
    }

    pub closed spec fn spec_sum(&self) -> u64 {
        self.sum_snr_db
    }

    pub closed spec fn spec_count(&self) -> usize {
        self.count
    }

    /// No measurement yet: the minimum starts at the top of the range.
    pub fn new() -> (r: Self)
        ensures
            r.spec_current() == 0,
            r.spec_min() == u64::MAX,
            r.spec_max() == 0,
            r.spec_sum() == 0,
            r.spec_count() == 0,
    {
        SNRMetrics { current_snr_db: 0, min_snr_db: u64::MAX, max_snr_db: 0, sum_snr_db: 0, count: 0 }
    }

    /// Record a measurement of `fixed` thousandths of a dB.
    pub fn update_milli_db(&mut self, fixed: u64)
        ensures
            final(self).spec_current() == fixed,
            final(self).spec_count() == old(self).spec_count().wrapping_add(1),
            final(self).spec_sum() == old(self).spec_sum().wrapping_add(fixed),
            final(self).spec_min() == (if fixed < old(self).spec_min() { fixed } else { old(self).spec_min() }),
            final(self).spec_max() == (if fixed > old(self).spec_max() { fixed } else { old(self).spec_max() }),
            final(self).spec_min() <= final(self).spec_current() <= final(self).spec_max(),
    {
        self.current_snr_db = fixed;
        self.count = self.count.wrapping_add(1);
        self.sum_snr_db = self.sum_snr_db.wrapping_add(fixed);
        if fixed < self.min_snr_db {
            self.min_snr_db = fixed;
        }
        if fixed > self.max_snr_db {
            self.max_snr_db = fixed;
        }
    }

    /// Latest measurement (thousandths of a dB).
    pub fn current_milli_db(&self) -> (r: u64)
        ensures
            r == self.spec_current(),
    {
        self.current_snr_db
    }

    /// Integer mean of the measurements (0 when there are none).
    pub fn average_milli_db(&self) -> (r: u64)
        ensures
            self.spec_count() == 0 ==> r == 0,
            self.spec_count() > 0 ==> r == self.spec_sum() / (self.spec_count() as u64),
    {
        if self.count == 0 {
            0
        } else {
            self.sum_snr_db / (self.count as u64)
        }
    }

    /// Smallest measurement (0 when there are none).
    pub fn min_milli_db(&self) -> (r: u64)
        ensures
            r == (if self.spec_min() == u64::MAX { 0 } else { self.spec_min() }),
    {
        if self.min_snr_db == u64::MAX {
            0
        } else {
            self.min_snr_db
        }
    }

    /// Largest measurement.
    pub fn max_milli_db(&self) -> (r: u64)
        ensures
            r == self.spec_max(),
    {
        self.max_snr_db
    }
}

/// The percentiles reported by `stats` are ordered (p50 ≤ p95 ≤ p99) and
/// lie between the smallest and the largest retained sample.
pub proof fn law_percentiles_ordered(samples: Seq<u64>)
    requires
        samples.len() > 0,
    ensures
        ({
            let s = sorted_samples(samples);
            let n = samples.len();
            &&& s[percentile_index(n, 50) as int] <= s[percentile_index(n, 95) as int]
            &&& s[percentile_index(n, 95) as int] <= s[percentile_index(n, 99) as int]
            &&& samples.contains(s[percentile_index(n, 50) as int])
            &&& samples.contains(s[percentile_index(n, 99) as int])
        }),
{
    let s = sorted_samples(samples);
    let n = samples.len();
    assert(total_ordering(ns_leq()));
    samples.lemma_sort_by_ensures(ns_leq());
    vstd::seq_lib::to_multiset_len(samples);
    vstd::seq_lib::to_multiset_len(s);
    let i50 = percentile_index(n, 50);
    let i95 = percentile_index(n, 95);
    let i99 = percentile_index(n, 99);
    assert(i50 <= i95 && i95 <= i99 && i99 < n) by (nonlinear_arith)
        requires
            i50 == n * 50 / 100,
            i95 == n * 95 / 100,
            i99 == n * 99 / 100,
            n > 0,
    {
        vstd::arithmetic::div_mod::lemma_div_is_ordered((n * 50) as int, (n * 95) as int, 100);
        vstd::arithmetic::div_mod::lemma_div_is_ordered((n * 95) as int, (n * 99) as int, 100);
    }
    if i50 < i95 {
        assert(ns_leq()(s[i50 as int], s[i95 as int]));
    }
    if i95 < i99 {
        assert(ns_leq()(s[i95 as int], s[i99 as int]));
    }
    assert(s.contains(s[i50 as int]));
    assert(s.contains(s[i99 as int]));
    vstd::seq_lib::to_multiset_contains(s, s[i50 as int]);
    vstd::seq_lib::to_multiset_contains(samples, s[i50 as int]);
    vstd::seq_lib::to_multiset_contains(s, s[i99 as int]);
    vstd::seq_lib::to_multiset_contains(samples, s[i99 as int]);
}

} // verus!
