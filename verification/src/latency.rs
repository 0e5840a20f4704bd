//! Pipeline latency tracking: whole-frame latency through a
//! `LatencyMonitor`, a bounded log of per-stage latencies, per-stage
//! statistics and the latency budget. Durations are integer nanoseconds.

use vstd::prelude::*;
use std::time::Instant;
use crate::memo::{retaining_push, str_equals};
use crate::metrics::{
    percentile_at, percentile_index, sorted_copy, sorted_samples, ns_leq, LatencyMonitor, LatencyStats,
};
use crate::sync::{instant_now, nanos_since};
use crate::text::{append_decimal_u64, decimal_digits, digit_char};

verus! {

broadcast use vstd::seq_lib::group_to_multiset_ensures;

/// Most stage records kept; the oldest is dropped beyond this.
pub const STAGE_LOG_CAPACITY: usize = 1000;

/// Latency budget allocation (milliseconds).
#[derive(Debug, Clone)]
pub struct LatencyBudget {
    /// RF capture budget (ms)
    pub rf_capture_ms: u32,
    /// Audio capture budget (ms)
    pub audio_capture_ms: u32,
    /// DSP processing budget (ms)
    pub dsp_processing_ms: u32,
    /// ML inference budget (ms)
    pub ml_inference_ms: u32,
    /// Control policy budget (ms)
    pub control_ms: u32,
    /// Output budget (ms)
    pub output_ms: u32,
    /// Total budget (ms)
    pub total_ms: u32,
}

impl Default for LatencyBudget {
    /// 5 + 5 + 10 + 8 + 2 + 5 = 35 ms end to end.
    fn default() -> (r: Self)
        ensures
            r.rf_capture_ms == 5,
            r.audio_capture_ms == 5,
            r.dsp_processing_ms == 10,
            r.ml_inference_ms == 8,
            r.control_ms == 2,
            r.output_ms == 5,
            r.total_ms == 35,
            r.total_ms == r.rf_capture_ms + r.audio_capture_ms + r.dsp_processing_ms + r.ml_inference_ms
                + r.control_ms + r.output_ms,
    {
        LatencyBudget {
            rf_capture_ms: 5,
            audio_capture_ms: 5,
            dsp_processing_ms: 10,
            ml_inference_ms: 8,
            control_ms: 2,
            output_ms: 5,
            total_ms: 35,
        }
    }
}

/// Latency of one pass through a stage.
#[derive(Debug, Clone)]
pub struct StageLatency {
    /// Stage name
    pub name: String,
    /// Latency in nanoseconds
    pub latency_ns: u64,
    /// When it was recorded (nanoseconds since the tracker was created)
    pub timestamp_ns: u64,
}

/// Statistics of one stage (nanoseconds).
#[derive(Debug, Clone)]
pub struct StageStats {
    pub count: usize,
    pub min_ns: u64,
    pub max_ns: u64,
    pub avg_ns: u64,
    pub p50_ns: u64,
    pub p95_ns: u64,
    pub p99_ns: u64,
}

impl Default for StageStats {
    /// All zero: the stage was never recorded.
    fn default() -> (r: Self)
        ensures
            r.count == 0 && r.min_ns == 0 && r.max_ns == 0 && r.avg_ns == 0,
            r.p50_ns == 0 && r.p95_ns == 0 && r.p99_ns == 0,
    {
        StageStats { count: 0, min_ns: 0, max_ns: 0, avg_ns: 0, p50_ns: 0, p95_ns: 0, p99_ns: 0 }
    }
}

/// Two decimal digits of `d` (< 100), with a leading zero.
pub open spec fn two_digits(d: nat) -> Seq<char> {
    seq![digit_char(d / 10), digit_char(d % 10)]
}

/// `ns` nanoseconds in milliseconds, rounded half up to two decimals, with
/// the unit: 10 000 000 ns is "10.00ms".
pub open spec fn ms_text(ns: nat) -> Seq<char> {
    let h = (ns + 5000) / 10000;
    decimal_digits(h / 100) + seq!['.'] + two_digits(h % 100) + seq!['m', 's']
}

/// Append `ns` in milliseconds with two decimals and the unit.
fn append_ms(s: &mut String, ns: u64)
    ensures
        final(s)@ == old(s)@ + ms_text(ns as nat),
{
    let h: u64 = ns / 10000 + if ns % 10000 >= 5000 { 1 } else { 0 };
    assert(h == (ns + 5000) / 10000) by (nonlinear_arith)
        requires
            h == ns / 10000 + if ns % 10000 >= 5000 { 1int } else { 0int },
    {
        vstd::arithmetic::div_mod::lemma_fundamental_div_mod(ns as int, 10000);
        vstd::arithmetic::div_mod::lemma_fundamental_div_mod(ns + 5000, 10000);
    }
    append_decimal_u64(s, h / 100);
    let frac = h % 100;
    let d1 = frac / 10;
    let d2 = frac % 10;
    s.append(".");
    append_decimal_u64(s, d1);
    append_decimal_u64(s, d2);
    s.append("ms");
    proof {
        reveal_strlit(".");
        reveal_strlit("ms");
        assert(decimal_digits(d1 as nat) =~= seq![digit_char(d1 as nat)]);
        assert(decimal_digits(d2 as nat) =~= seq![digit_char(d2 as nat)]);
        assert(final(s)@ =~= old(s)@ + ms_text(ns as nat));
    }
}

/// The text of a stage's statistics, as shown in the console.
pub open spec fn stage_stats_text(st: StageStats) -> Seq<char> {
    "StageStats { count: "@ + decimal_digits(st.count as nat) + ", min: "@ + ms_text(st.min_ns as nat)
        + ", max: "@ + ms_text(st.max_ns as nat) + ", avg: "@ + ms_text(st.avg_ns as nat) + ", p50: "@
        + ms_text(st.p50_ns as nat) + ", p95: "@ + ms_text(st.p95_ns as nat) + ", p99: "@ + ms_text(
        st.p99_ns as nat,
    ) + " }"@
}

impl StageStats {
    /// Format as text, durations in milliseconds with two decimals.
    pub fn to_string(&self) -> (r: String)
        ensures
            r@ == stage_stats_text(*self),
    {
        let mut s = String::from_str("StageStats { count: ");
        append_decimal_u64(&mut s, self.count as u64);
        s.append(", min: ");
        append_ms(&mut s, self.min_ns);
        s.append(", max: ");
        append_ms(&mut s, self.max_ns);
        s.append(", avg: ");
        append_ms(&mut s, self.avg_ns);
        s.append(", p50: ");
        append_ms(&mut s, self.p50_ns);
        s.append(", p95: ");
        append_ms(&mut s, self.p95_ns);
        s.append(", p99: ");
        append_ms(&mut s, self.p99_ns);
        s.append(" }");
        assert(s@ =~= stage_stats_text(*self));
        s
    }
}

/// The latencies recorded for stage `name`, oldest first.
pub open spec fn stage_samples(stages: Seq<StageLatency>, name: Seq<char>) -> Seq<u64>
    decreases stages.len(),
{
    if stages.len() == 0 {
        Seq::empty()
    } else {
        let rest = stage_samples(stages.drop_last(), name);
        if stages.last().name@ == name {
            rest.push(stages.last().latency_ns)
        } else {
            rest
        }
    }
}

/// Sum of the samples.
pub open spec fn total(s: Seq<u64>) -> nat
    decreases s.len(),
{
    if s.len() == 0 {
        0
    } else {
        total(s.drop_last()) + s.last() as nat
    }
}

/// The statistics reported for samples `s` (all zero when empty): the
/// count, the smallest and largest sample, the integer mean, and the
/// 50th/95th/99th percentiles.
pub open spec fn stats_of(s: Seq<u64>) -> StageStats {
    if s.len() == 0 {
        StageStats { count: 0, min_ns: 0, max_ns: 0, avg_ns: 0, p50_ns: 0, p95_ns: 0, p99_ns: 0 }
    } else {
        let sorted = sorted_samples(s);
        let n = s.len();
        StageStats {
            count: n as usize,
            min_ns: sorted[0],
            max_ns: sorted[n - 1],
            avg_ns: (total(s) / n) as u64,
            p50_ns: sorted[percentile_index(n, 50) as int],
            p95_ns: sorted[percentile_index(n, 95) as int],
            p99_ns: sorted[percentile_index(n, 99) as int],
        }
    }
}

/// The sum of `n` samples is at most `n` times the largest `u64`.
proof fn lemma_total_bound(s: Seq<u64>)
    ensures
        total(s) <= s.len() * 0xffff_ffff_ffff_ffffnat,
    decreases s.len(),
{
    if s.len() > 0 {
        lemma_total_bound(s.drop_last());
    }
}

/// The mean of samples lies between their extremes.
proof fn lemma_mean_between(s: Seq<u64>)
    requires
        s.len() > 0,
    ensures
        sorted_samples(s)[0] * s.len() <= total(s) <= sorted_samples(s)[s.len() - 1] * s.len(),
{
    let sorted = sorted_samples(s);
    s.lemma_sort_by_ensures(ns_leq());
    vstd::seq_lib::to_multiset_len(s);
    vstd::seq_lib::to_multiset_len(sorted);
    assert(vstd::relations::total_ordering(ns_leq()));
    assert forall|i: int| 0 <= i < s.len() implies sorted[0] <= #[trigger] s[i] && s[i] <= sorted[s.len() - 1] by {
        assert(s.to_multiset().count(s[i]) > 0);
        assert(sorted.to_multiset().contains(s[i]));
        let k = choose|k: int| 0 <= k < sorted.len() && sorted[k] == s[i];
        assert(ns_leq()(sorted[0], sorted[k]) || k == 0);
        assert(ns_leq()(sorted[k], sorted[s.len() - 1]) || k == s.len() - 1);
    }
    lemma_total_between(s, sorted[0], sorted[s.len() - 1]);
}

/// The statistics of any non-empty set of stage latencies are ordered:
/// min ≤ p50 ≤ p95 ≤ p99 ≤ max, and the mean lies between min and max.
pub proof fn law_stage_stats_ordered(s: Seq<u64>)
    requires
        s.len() > 0,
    ensures
        ({
            let st = stats_of(s);
            &&& st.min_ns <= st.p50_ns <= st.p95_ns <= st.p99_ns <= st.max_ns
            &&& st.min_ns <= st.avg_ns <= st.max_ns
        }),
{
    let sorted = sorted_samples(s);
    let n = s.len();
    s.lemma_sort_by_ensures(ns_leq());
    vstd::seq_lib::to_multiset_len(s);
    vstd::seq_lib::to_multiset_len(sorted);
    let i50 = percentile_index(n, 50) as int;
    let i95 = percentile_index(n, 95) as int;
    let i99 = percentile_index(n, 99) as int;
    assert(0 <= i50 <= i95 <= i99 < n) by (nonlinear_arith)
        requires
            i50 == n * 50 / 100,
            i95 == n * 95 / 100,
            i99 == n * 99 / 100,
            n > 0,
    ;
    assert(ns_leq()(sorted[0], sorted[i50]) || i50 == 0);
    assert(ns_leq()(sorted[i50], sorted[i95]) || i50 == i95);
    assert(ns_leq()(sorted[i95], sorted[i99]) || i95 == i99);
    assert(ns_leq()(sorted[i99], sorted[n - 1]) || i99 == n - 1);
    lemma_mean_between(s);
    lemma_total_bound(s);
    assert(sorted[0] <= total(s) / n <= sorted[n - 1]) by (nonlinear_arith)
        requires
            sorted[0] * n <= total(s) <= sorted[n - 1] * n,
            n > 0,
    ;
}

proof fn lemma_total_between(s: Seq<u64>, lo: u64, hi: u64)
    requires
        forall|i: int| 0 <= i < s.len() ==> lo <= #[trigger] s[i] && s[i] <= hi,
    ensures
        lo * s.len() <= total(s) <= hi * s.len(),
    decreases s.len(),
{
    if s.len() > 0 {
        let t = s.drop_last();
        assert forall|i: int| 0 <= i < t.len() implies lo <= #[trigger] t[i] && t[i] <= hi by {
            assert(t[i] == s[i]);
        }
        lemma_total_between(t, lo, hi);
        assert(lo * s.len() == lo * t.len() + lo) by (nonlinear_arith)
            requires
                s.len() == t.len() + 1,
        ;
        assert(hi * s.len() == hi * t.len() + hi) by (nonlinear_arith)
            requires
                s.len() == t.len() + 1,
        ;
    }
}


/// Lexicographic order on byte strings: `a` sorts strictly before `b`.
pub open spec fn bytes_lt(a: Seq<u8>, b: Seq<u8>) -> bool
    decreases a.len(),
{
    if a.len() == 0 {
        b.len() > 0
    } else if b.len() == 0 {
        false
    } else if a[0] != b[0] {
        a[0] < b[0]
    } else {
        bytes_lt(a.drop_first(), b.drop_first())
    }
}

/// The order of `String`: byte-wise on the UTF-8 encoding.
pub open spec fn name_lt(a: Seq<char>, b: Seq<char>) -> bool {
    bytes_lt(vstd::utf8::encode_utf8(a), vstd::utf8::encode_utf8(b))
}

proof fn lemma_bytes_lt_irreflexive(a: Seq<u8>)
    ensures
        !bytes_lt(a, a),
    decreases a.len(),
{
    if a.len() > 0 {
        lemma_bytes_lt_irreflexive(a.drop_first());
    }
}

proof fn lemma_bytes_lt_transitive(a: Seq<u8>, b: Seq<u8>, c: Seq<u8>)
    requires
        bytes_lt(a, b),
        bytes_lt(b, c),
    ensures
        bytes_lt(a, c),
    decreases a.len(),
{
    if a.len() > 0 && b.len() > 0 && c.len() > 0 && a[0] == b[0] && b[0] == c[0] {
        lemma_bytes_lt_transitive(a.drop_first(), b.drop_first(), c.drop_first());
    }
}

proof fn lemma_bytes_lt_total(a: Seq<u8>, b: Seq<u8>)
    requires
        a != b,
    ensures
        bytes_lt(a, b) || bytes_lt(b, a),
    decreases a.len(),
{
    if a.len() > 0 && b.len() > 0 && a[0] == b[0] {
        if a.drop_first() == b.drop_first() {
            assert(a =~= seq![a[0]] + a.drop_first());
            assert(b =~= seq![b[0]] + b.drop_first());
        }
        lemma_bytes_lt_total(a.drop_first(), b.drop_first());
    } else if a.len() == 0 && b.len() == 0 {
        assert(a =~= b);
    }
}

proof fn lemma_name_lt_transitive(a: Seq<char>, b: Seq<char>, c: Seq<char>)
    requires
        name_lt(a, b),
        name_lt(b, c),
    ensures
        name_lt(a, c),
{
    lemma_bytes_lt_transitive(
        vstd::utf8::encode_utf8(a),
        vstd::utf8::encode_utf8(b),
        vstd::utf8::encode_utf8(c),
    );
}

proof fn lemma_name_lt_total(a: Seq<char>, b: Seq<char>)
    requires
        a != b,
    ensures
        name_lt(a, b) || name_lt(b, a),
{
    vstd::utf8::encode_utf8_decode_utf8(a);
    vstd::utf8::encode_utf8_decode_utf8(b);
    lemma_bytes_lt_total(vstd::utf8::encode_utf8(a), vstd::utf8::encode_utf8(b));
}

/// Does `a` sort strictly before `b` (byte-wise)?
fn bytes_less(a: &[u8], b: &[u8]) -> (r: bool)
    ensures
        r == bytes_lt(a@, b@),
{
    let mut i: usize = 0;
    assert(a@.skip(0) =~= a@);
    assert(b@.skip(0) =~= b@);
    while i < a.len() && i < b.len()
        invariant
            i <= a@.len(),
            i <= b@.len(),
            bytes_lt(a@, b@) == bytes_lt(a@.skip(i as int), b@.skip(i as int)),
        decreases a@.len() - i,
    {
        if a[i] != b[i] {
            return a[i] < b[i];
        }
        assert(a@.skip(i as int).drop_first() =~= a@.skip(i + 1));
        assert(b@.skip(i as int).drop_first() =~= b@.skip(i + 1));
        i += 1;
    }
    i == a.len() && i < b.len()
}

/// Does name `a` sort strictly before name `b`?
fn name_less(a: &str, b: &str) -> (r: bool)
    ensures
        r == name_lt(a@, b@),
{
    bytes_less(a.as_bytes(), b.as_bytes())
}

/// Names in strictly ascending order (hence distinct).
pub open spec fn strictly_ascending(r: Seq<String>) -> bool {
    forall|i: int, j: int| 0 <= i < j < r.len() ==> name_lt(#[trigger] r[i]@, #[trigger] r[j]@)
}

/// Some entry of `r` is the name `x`.
pub open spec fn lists_name(r: Seq<String>, x: Seq<char>) -> bool {
    exists|i: int| 0 <= i < r.len() && r[i]@ == x
}

/// Some record of `stages` belongs to stage `x`.
pub open spec fn has_stage(stages: Seq<StageLatency>, x: Seq<char>) -> bool {
    exists|k: int| 0 <= k < stages.len() && stages[k].name@ == x
}

/// First position in the ascending `r` whose name does not sort before `name`.
fn insert_position(r: &Vec<String>, name: &str) -> (pos: usize)
    ensures
        pos <= r@.len(),
        forall|q: int| 0 <= q < pos ==> name_lt(#[trigger] r@[q]@, name@),
        pos < r@.len() ==> !name_lt(r@[pos as int]@, name@),
{
    let mut pos: usize = 0;
    while pos < r.len() && name_less(r[pos].as_str(), name)
        invariant
            pos <= r@.len(),
            forall|q: int| 0 <= q < pos ==> name_lt(#[trigger] r@[q]@, name@),
        decreases r@.len() - pos,
    {
        pos += 1;
    }
    pos
}

/// Add `name` to the strictly ascending `r` unless it is already there.
fn insert_name(r: &mut Vec<String>, name: &String)
    requires
        strictly_ascending(old(r)@),
    ensures
        strictly_ascending(final(r)@),
        forall|x: Seq<char>| #[trigger] lists_name(final(r)@, x) <==> (lists_name(old(r)@, x) || x == name@),
{
    let pos = insert_position(r, name.as_str());
    let ghost before = r@;
    if pos < r.len() && str_equals(r[pos].as_str(), name.as_str()) {
        assert forall|x: Seq<char>| #[trigger] lists_name(r@, x) <==> (lists_name(before, x) || x == name@) by {
            if x == name@ {
                assert(r@[pos as int]@ == x);
            }
        }
        return;
    }
    proof {
        if pos < r@.len() {
            lemma_name_lt_total(r@[pos as int]@, name@);
        }
    }
    r.insert(pos, name.clone());
    assert(r@ == before.insert(pos as int, *name));
    assert forall|i: int, j: int| 0 <= i < j < r@.len() implies name_lt(#[trigger] r@[i]@, #[trigger] r@[j]@) by {
        if j < pos {
            assert(name_lt(before[i]@, before[j]@));
        } else if j == pos {
        } else if i < pos {
            assert(name_lt(before[i]@, before[j - 1]@));
        } else if i == pos {
            if j - 1 > pos {
                assert(name_lt(before[pos as int]@, before[j - 1]@));
                lemma_name_lt_transitive(name@, before[pos as int]@, before[j - 1]@);
            }
        } else {
            assert(name_lt(before[i - 1]@, before[j - 1]@));
        }
    }
    assert forall|x: Seq<char>| #[trigger] lists_name(r@, x) <==> (lists_name(before, x) || x == name@) by {
        if lists_name(r@, x) {
            let i = choose|i: int| 0 <= i < r@.len() && r@[i]@ == x;
            if i < pos {
                assert(before[i]@ == x);
            } else if i > pos {
                assert(before[i - 1]@ == x);
            }
        }
        if lists_name(before, x) {
            let i = choose|i: int| 0 <= i < before.len() && before[i]@ == x;
            if i < pos {
                assert(r@[i]@ == x);
            } else {
                assert(r@[i + 1]@ == x);
            }
        }
        if x == name@ {
            assert(r@[pos as int]@ == x);
        }
    }
}

/// Pipeline latency tracker.
pub struct PipelineLatency {
    monitor: LatencyMonitor,
    stages: Vec<StageLatency>,
    target_ms: u32,
    epoch: Instant,
}

impl PipelineLatency {
    pub closed spec fn spec_monitor(&self) -> LatencyMonitor {
        self.monitor
    }

    /// The stage records, oldest first.
    pub closed spec fn spec_stages(&self) -> Seq<StageLatency> {
        self.stages@
    }

    pub closed spec fn spec_target_ms(&self) -> u32 {
        self.target_ms
    }

    /// The stage log holds at most `STAGE_LOG_CAPACITY` records and the
    /// frame monitor can take samples.
    pub open spec fn wf(&self) -> bool {
        &&& self.spec_stages().len() <= STAGE_LOG_CAPACITY
        &&& self.spec_monitor().spec_max_samples() > 0
    }

    /// A tracker with target latency `target_ms` and nothing recorded.
    pub fn new(target_ms: u32) -> (r: Self)
        ensures
            r.wf(),
            r.spec_target_ms() == target_ms,
            r.spec_stages() == Seq::<StageLatency>::empty(),
            r.spec_monitor().spec_samples() == Seq::<u64>::empty(),
            r.spec_monitor().spec_count() == 0,
    {
        PipelineLatency { monitor: LatencyMonitor::new(), stages: Vec::new(), target_ms, epoch: instant_now() }
    }

    /// Record the latency of a whole frame.
    pub fn record_frame(&mut self, ns: u64)
        requires
            old(self).wf(),
        ensures
            final(self).wf(),
            final(self).spec_stages() == old(self).spec_stages(),
            final(self).spec_target_ms() == old(self).spec_target_ms(),
            final(self).spec_monitor().spec_count() == old(self).spec_monitor().spec_count().wrapping_add(1),
            final(self).spec_monitor().spec_samples() == (if old(self).spec_monitor().spec_samples().len()
                >= old(self).spec_monitor().spec_max_samples() {
                old(self).spec_monitor().spec_samples().drop_first()
            } else {
                old(self).spec_monitor().spec_samples()
            }).push(ns),
    {
        self.monitor.record(ns);
    }

    /// Record that stage `name` took `ns` at time `timestamp_ns`; the log
    /// keeps the most recent 1000 records.
    pub fn record_stage_at(&mut self, name: &str, ns: u64, timestamp_ns: u64)
        requires
            old(self).wf(),
        ensures
            final(self).wf(),
            final(self).spec_stages().len() > 0,
            final(self).spec_stages().last().name@ == name@,
            final(self).spec_stages().last().latency_ns == ns,
            final(self).spec_stages().last().timestamp_ns == timestamp_ns,
            final(self).spec_stages() == retaining_push(
                old(self).spec_stages(),
                STAGE_LOG_CAPACITY as nat,
                final(self).spec_stages().last(),
            ),
            final(self).spec_monitor() == old(self).spec_monitor(),
            final(self).spec_target_ms() == old(self).spec_target_ms(),
    {
        let rec = StageLatency { name: String::from_str(name), latency_ns: ns, timestamp_ns };
        let ghost before = self.stages@;
        let ghost pushed = rec;
        self.stages.push(rec);
        if self.stages.len() > STAGE_LOG_CAPACITY {
            self.stages.remove(0);
        }
        proof {
            let t = before.push(pushed);
            if t.len() > STAGE_LOG_CAPACITY {
                assert(self.stages@ =~= t.subrange(t.len() - STAGE_LOG_CAPACITY, t.len() as int));
            } else {
                assert(self.stages@ =~= t);
            }
        }
    }

    /// Record that stage `name` took `ns`, timestamped now.
    pub fn record_stage(&mut self, name: &str, ns: u64)
        requires
            old(self).wf(),
        ensures
            final(self).wf(),
            final(self).spec_stages().len() > 0,
            final(self).spec_stages().last().name@ == name@,
            final(self).spec_stages().last().latency_ns == ns,
            final(self).spec_stages() == retaining_push(
                old(self).spec_stages(),
                STAGE_LOG_CAPACITY as nat,
                final(self).spec_stages().last(),
            ),
            final(self).spec_monitor() == old(self).spec_monitor(),
            final(self).spec_target_ms() == old(self).spec_target_ms(),
    {
        let now = nanos_since(&self.epoch);
        self.record_stage_at(name, ns, now);
    }

    /// Statistics of the whole-frame latencies.
    pub fn stats(&self) -> (r: LatencyStats)
        ensures
            self.spec_monitor().spec_count() == 0 || self.spec_monitor().spec_samples().len() == 0 ==> r.count == 0
                && r.p95_ns == 0,
            self.spec_monitor().spec_count() > 0 && self.spec_monitor().spec_samples().len() > 0 ==> {
                let s = sorted_samples(self.spec_monitor().spec_samples());
                let n = self.spec_monitor().spec_samples().len();
                &&& r.count == self.spec_monitor().spec_count()
                &&& r.min_ns == self.spec_monitor().spec_min_ns()
                &&& r.max_ns == self.spec_monitor().spec_max_ns()
                &&& r.sum_ns == self.spec_monitor().spec_sum_ns()
                &&& r.p50_ns == s[percentile_index(n, 50) as int]
                &&& r.p95_ns == s[percentile_index(n, 95) as int]
                &&& r.p99_ns == s[percentile_index(n, 99) as int]
            },
    {
        self.monitor.stats()
    }

    /// Does the 95th percentile of the frame latency exceed the target?
    pub fn exceeds_target(&self) -> (r: bool)
        ensures
            self.spec_monitor().spec_count() == 0 || self.spec_monitor().spec_samples().len() == 0 ==> !r,
            self.spec_monitor().spec_count() > 0 && self.spec_monitor().spec_samples().len() > 0 ==> r == (
            sorted_samples(self.spec_monitor().spec_samples())[percentile_index(
                self.spec_monitor().spec_samples().len(),
                95,
            ) as int] > self.spec_target_ms() * 1_000_000),
    {
        let stats = self.monitor.stats();
        stats.p95_ns > self.target_ms as u64 * 1_000_000
    }

    /// Target minus the 95th percentile of the frame latency, in
    /// nanoseconds (negative when over budget).
    pub fn margin(&self) -> (r: i128)
        ensures
            self.spec_monitor().spec_count() == 0 || self.spec_monitor().spec_samples().len() == 0 ==> r
                == self.spec_target_ms() * 1_000_000,
            self.spec_monitor().spec_count() > 0 && self.spec_monitor().spec_samples().len() > 0 ==> r
                == self.spec_target_ms() * 1_000_000 - sorted_samples(self.spec_monitor().spec_samples())[percentile_index(
                self.spec_monitor().spec_samples().len(),
                95,
            ) as int],
    {
        let stats = self.monitor.stats();
        self.target_ms as i128 * 1_000_000 - stats.p95_ns as i128
    }

    /// The latencies recorded for stage `name`, oldest first.
    fn samples_of(&self, name: &str) -> (r: Vec<u64>)
        ensures
            r@ == stage_samples(self.spec_stages(), name@),
            r@.len() <= self.spec_stages().len(),
    {
        let mut r: Vec<u64> = Vec::new();
        let n = self.stages.len();
        for i in 0..n
            invariant
                n == self.spec_stages().len(),
                r@ == stage_samples(self.spec_stages().take(i as int), name@),
                r@.len() <= i,
        {
            proof {
                assert(self.spec_stages().take(i + 1).drop_last() =~= self.spec_stages().take(i as int));
            }
            if str_equals(self.stages[i].name.as_str(), name) {
                r.push(self.stages[i].latency_ns);
            }
        }
        assert(self.spec_stages().take(n as int) =~= self.spec_stages());
        r
    }

    /// Statistics of stage `stage_name`: count, extremes, integer mean and
    /// percentiles of its recorded latencies (all zero if it never ran).
    pub fn stage_stats(&self, stage_name: &str) -> (r: StageStats)
        requires
            self.wf(),
        ensures
            r == stats_of(stage_samples(self.spec_stages(), stage_name@)),
    {
        let latencies = self.samples_of(stage_name);
        let n = latencies.len();
        if n == 0 {
            return StageStats::default();
        }
        let sorted = sorted_copy(&latencies);
        proof {
            latencies@.lemma_sort_by_ensures(ns_leq());
            vstd::seq_lib::to_multiset_len(latencies@);
            vstd::seq_lib::to_multiset_len(sorted@);
        }
        let mut sum: u128 = 0;
        for i in 0..n
            invariant
                n == latencies@.len(),
                n <= STAGE_LOG_CAPACITY,
                sum == total(latencies@.take(i as int)),
        {
            proof {
                assert(latencies@.take(i + 1).drop_last() =~= latencies@.take(i as int));
                lemma_total_bound(latencies@.take(i as int));
                assert(i * 0xffff_ffff_ffff_ffffnat <= 1000 * 0xffff_ffff_ffff_ffffnat) by (nonlinear_arith)
                    requires
                        i <= 1000,
                ;
            }
            sum = sum + latencies[i] as u128;
        }
        assert(latencies@.take(n as int) =~= latencies@);
        proof {
            lemma_mean_between(latencies@);
            assert(total(latencies@) / (n as nat) <= sorted@[n - 1]) by (nonlinear_arith)
                requires
                    total(latencies@) <= sorted@[n - 1] * n,
                    n > 0,
            ;
        }
        let avg = (sum / n as u128) as u64;
        StageStats {
            count: n,
            min_ns: sorted[0],
            max_ns: sorted[n - 1],
            avg_ns: avg,
            p50_ns: sorted[percentile_at(n, 50)],
            p95_ns: sorted[percentile_at(n, 95)],
            p99_ns: sorted[percentile_at(n, 99)],
        }
    }

    /// The distinct stage names in the log, in ascending order.
    pub fn stage_names(&self) -> (r: Vec<String>)
        ensures
            strictly_ascending(r@),
            forall|x: Seq<char>| #[trigger] lists_name(r@, x) <==> has_stage(self.spec_stages(), x),
    {
        let mut r: Vec<String> = Vec::new();
        let n = self.stages.len();
        for k in 0..n
            invariant
                n == self.spec_stages().len(),
                strictly_ascending(r@),
                forall|x: Seq<char>| #[trigger] lists_name(r@, x) <==> has_stage(self.spec_stages().take(k as int), x),
        {
            let ghost seen = self.spec_stages().take(k as int);
            let ghost seen2 = self.spec_stages().take(k + 1);
            insert_name(&mut r, &self.stages[k].name);
            assert forall|x: Seq<char>| has_stage(seen2, x) <==> (has_stage(seen, x) || x == self.spec_stages()[k as int].name@) by {
                if has_stage(seen2, x) {
                    let q = choose|q: int| 0 <= q < seen2.len() && seen2[q].name@ == x;
                    if q < k {
                        assert(seen[q] == seen2[q]);
                    }
                }
                if has_stage(seen, x) {
                    let q = choose|q: int| 0 <= q < seen.len() && seen[q].name@ == x;
                    assert(seen2[q] == seen[q]);
                }
                if x == self.spec_stages()[k as int].name@ {
                    assert(seen2[k as int] == self.spec_stages()[k as int]);
                }
            }
        }
        assert(self.spec_stages().take(n as int) =~= self.spec_stages());
        r
    }

    /// Forget all frame and stage latencies.
    pub fn reset(&mut self)
        requires
            old(self).wf(),
        ensures
            final(self).wf(),
            final(self).spec_stages() == Seq::<StageLatency>::empty(),
            final(self).spec_monitor().spec_samples() == Seq::<u64>::empty(),
            final(self).spec_monitor().spec_count() == 0,
            final(self).spec_target_ms() == old(self).spec_target_ms(),
    {
        self.monitor.reset();
        self.stages.clear();
    }

    /// Nanoseconds since the tracker was created.
    pub fn uptime(&self) -> u64 {
        nanos_since(&self.epoch)
    }

    /// Target latency in milliseconds.
    pub fn target(&self) -> (r: u32)
        ensures
            r == self.spec_target_ms(),
    {
        self.target_ms
    }
}

} // verus!
