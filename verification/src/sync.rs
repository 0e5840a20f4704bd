//! Pipeline synchronisation: frame sequence numbers, the bounded log of
//! stage sync points, stage-to-stage latency, frame scheduling and
//! per-device clock offsets.
//!
//! Timestamps are nanoseconds on the monotonic clock, counted from the
//! moment the synchroniser was created.

use vstd::prelude::*;
use std::time::{Duration, Instant};
use crate::memo::{retaining_push, str_equals};
use crate::config::saturate_to_u64;

verus! {

#[verifier::external_type_specification]
#[verifier::external_body]
pub struct ExInstant(std::time::Instant);

/// `std::time::Instant::now`: a reading of the monotonic clock. Nothing is
/// claimed about the value.
#[verifier::external_body]
pub(crate) fn instant_now() -> Instant {
    Instant::now()
}

/// `std::time::Instant::elapsed`: the time that has passed since `since`.
/// Nothing is claimed about the value.
#[verifier::external_body]
pub(crate) fn instant_elapsed(since: &Instant) -> Duration {
    since.elapsed()
}

/// `std::time::Duration::as_nanos`: the whole number of nanoseconds in `d`.
/// Nothing is claimed about the value.
#[verifier::external_body]
pub(crate) fn duration_as_nanos(d: &Duration) -> u128 {
    d.as_nanos()
}

/// Nanoseconds elapsed since `epoch` on the monotonic clock, saturated to
/// the range of a `u64` (about 584 years).
pub(crate) fn nanos_since(epoch: &Instant) -> u64 {
    let d = instant_elapsed(epoch);
    let n = duration_as_nanos(&d);
    saturate_to_u64(n)
}

/// Most sync points kept; the oldest is dropped beyond this.
pub const SYNC_LOG_CAPACITY: usize = 1000;

/// Sync point recorded when a frame passes a pipeline stage.
#[derive(Debug, Clone)]
pub struct SyncPoint {
    /// Stage name
    pub stage: String,
    /// Nanoseconds since the synchroniser was created
    pub timestamp_ns: u64,
    /// Sequence number of the frame
    pub sequence: u64,
}

/// Timing of one frame through the pipeline (nanoseconds since the
/// synchroniser was created).
#[derive(Debug, Clone, Copy)]
pub struct FrameTiming {
    /// Frame sequence number
    pub sequence: u64,
    /// Capture start time
    pub capture_start_ns: u64,
    /// Processing start time
    pub processing_start_ns: u64,
    /// Output time
    pub output_time_ns: u64,
}

/// Does `p` belong to frame `sequence`?
pub open spec fn of_sequence(sequence: u64) -> spec_fn(SyncPoint) -> bool {
    |p: SyncPoint| p.sequence == sequence
}

/// `i` is the position of the first point of stage `stage` in `s`.
pub open spec fn is_first_of_stage(s: Seq<SyncPoint>, stage: Seq<char>, i: int) -> bool {
    &&& 0 <= i < s.len()
    &&& s[i].stage@ == stage
    &&& forall|j: int| 0 <= j < i ==> s[j].stage@ != stage
}

/// Position of the first point of stage `stage` in `s`, if there is one.
pub open spec fn first_of_stage(s: Seq<SyncPoint>, stage: Seq<char>) -> Option<int> {
    if exists|i: int| is_first_of_stage(s, stage, i) {
        Some(choose|i: int| is_first_of_stage(s, stage, i))
    } else {
        None
    }
}

/// `a - b`, or 0 when `b` is later than `a`.
pub open spec fn saturating_diff(a: u64, b: u64) -> u64 {
    if a >= b {
        (a - b) as u64
    } else {
        0
    }
}

/// Time from the first `from` point to the first `to` point among `points`,
/// when both stages occur.
pub open spec fn latency_between(points: Seq<SyncPoint>, from: Seq<char>, to: Seq<char>) -> Option<u64> {
    match (first_of_stage(points, from), first_of_stage(points, to)) {
        (Some(i), Some(j)) => Some(saturating_diff(points[j].timestamp_ns, points[i].timestamp_ns)),
        _ => None,
    }
}

/// There is only one first point of a stage.
proof fn lemma_first_unique(s: Seq<SyncPoint>, stage: Seq<char>, i: int, k: int)
    requires
        is_first_of_stage(s, stage, i),
        is_first_of_stage(s, stage, k),
    ensures
        i == k,
{
    if i < k {
        assert(s[i].stage@ != stage);
    } else if k < i {
        assert(s[k].stage@ != stage);
    }
}

/// Position of the first point of stage `stage`.
fn find_stage(points: &Vec<SyncPoint>, stage: &str) -> (r: Option<usize>)
    ensures
        match r {
            Some(i) => first_of_stage(points@, stage@) == Some(i as int),
            None => first_of_stage(points@, stage@) is None,
        },
{
    let n = points.len();
    for i in 0..n
        invariant
            n == points@.len(),
            forall|j: int| 0 <= j < i ==> points@[j].stage@ != stage@,
    {
        if str_equals(points[i].stage.as_str(), stage) {
            assert(is_first_of_stage(points@, stage@, i as int));
            proof {
                let k = choose|k: int| is_first_of_stage(points@, stage@, k);
                lemma_first_unique(points@, stage@, i as int, k);
            }
            return Some(i);
        }
    }
    assert(!exists|i: int| is_first_of_stage(points@, stage@, i));
    None
}

/// Pipeline synchroniser: hands out frame sequence numbers and logs the
/// moments at which frames pass the stages.
pub struct PipelineSynchronizer {
    sequence: u64,
    sync_points: Vec<SyncPoint>,
    target_frame_ns: u64,
    epoch: Instant,
}

impl PipelineSynchronizer {
    pub closed spec fn spec_sequence(&self) -> u64 {
        self.sequence
    }

    /// The logged sync points, oldest first.
    pub closed spec fn spec_points(&self) -> Seq<SyncPoint> {
        self.sync_points@
    }

    pub closed spec fn spec_target_ns(&self) -> u64 {
        self.target_frame_ns
    }

    /// The log never holds more than `SYNC_LOG_CAPACITY` points.
    pub open spec fn wf(&self) -> bool {
        self.spec_points().len() <= SYNC_LOG_CAPACITY
    }

    /// A synchroniser at sequence 0 with an empty log and a frame budget of
    /// `target_latency_ms` milliseconds.
    pub fn new(target_latency_ms: u32) -> (r: Self)
        ensures
            r.wf(),
            r.spec_sequence() == 0,
            r.spec_points() == Seq::<SyncPoint>::empty(),
            r.spec_target_ns() == target_latency_ms * 1_000_000,
    {
        PipelineSynchronizer {
            sequence: 0,
            sync_points: Vec::new(),
            target_frame_ns: target_latency_ms as u64 * 1_000_000,
            epoch: instant_now(),
        }
    }

    /// Advance to the next frame and return its sequence number.
    pub fn next_sequence(&mut self) -> (r: u64)
        requires
            old(self).spec_sequence() < u64::MAX,
        ensures
            r == old(self).spec_sequence() + 1,
            final(self).spec_sequence() == r,
            final(self).spec_points() == old(self).spec_points(),
            final(self).spec_target_ns() == old(self).spec_target_ns(),
    {
        self.sequence = self.sequence + 1;
        self.sequence
    }

    /// Current sequence number.
    pub fn current_sequence(&self) -> (r: u64)
        ensures
            r == self.spec_sequence(),
    {
        self.sequence
    }

    /// Nanoseconds on the synchroniser's clock now.
    pub fn now_ns(&self) -> u64 {
        nanos_since(&self.epoch)
    }

    /// Log that the current frame passed `stage` at `timestamp_ns`; the log
    /// keeps the most recent 1000 points.
    pub fn record_sync_at(&mut self, stage: &str, timestamp_ns: u64) -> (r: SyncPoint)
        requires
            old(self).wf(),
        ensures
            final(self).wf(),
            r.stage@ == stage@,
            r.timestamp_ns == timestamp_ns,
            r.sequence == old(self).spec_sequence(),
            final(self).spec_points() == retaining_push(old(self).spec_points(), SYNC_LOG_CAPACITY as nat, r),
            final(self).spec_sequence() == old(self).spec_sequence(),
            final(self).spec_target_ns() == old(self).spec_target_ns(),
    {
        let name = String::from_str(stage);
        let point = SyncPoint { stage: name.clone(), timestamp_ns, sequence: self.sequence };
        let logged = SyncPoint { stage: name, timestamp_ns, sequence: self.sequence };
        let ghost before = self.sync_points@;
        self.sync_points.push(logged);
        if self.sync_points.len() > SYNC_LOG_CAPACITY {
            self.sync_points.remove(0);
        }
        proof {
            let t = before.push(point);
            if t.len() > SYNC_LOG_CAPACITY {
                assert(self.sync_points@ =~= t.subrange(t.len() - SYNC_LOG_CAPACITY, t.len() as int));
            } else {
                assert(self.sync_points@ =~= t);
            }
        }
        point
    }

    /// Log that the current frame passed `stage` now.
    pub fn record_sync(&mut self, stage: &str) -> (r: SyncPoint)
        requires
            old(self).wf(),
        ensures
            final(self).wf(),
            r.stage@ == stage@,
            r.sequence == old(self).spec_sequence(),
            final(self).spec_points() == retaining_push(old(self).spec_points(), SYNC_LOG_CAPACITY as nat, r),
            final(self).spec_sequence() == old(self).spec_sequence(),
            final(self).spec_target_ns() == old(self).spec_target_ns(),
    {
        let now = nanos_since(&self.epoch);
        self.record_sync_at(stage, now)
    }

    /// The logged points of frame `sequence`, oldest first.
    pub fn get_sequence_points(&self, sequence: u64) -> (r: Vec<SyncPoint>)
        ensures
            r@ == self.spec_points().filter(of_sequence(sequence)),
    {
        let mut r: Vec<SyncPoint> = Vec::new();
        let n = self.sync_points.len();
        for i in 0..n
            invariant
                n == self.spec_points().len(),
                r@ == self.spec_points().take(i as int).filter(of_sequence(sequence)),
        {
            proof {
                assert(self.spec_points().take(i + 1) =~= self.spec_points().take(i as int).push(
                    self.spec_points()[i as int],
                ));
                self.spec_points().take(i as int).lemma_filter_push(self.spec_points()[i as int], of_sequence(sequence));
            }
            let p = &self.sync_points[i];
            if p.sequence == sequence {
                let copy = SyncPoint { stage: p.stage.clone(), timestamp_ns: p.timestamp_ns, sequence: p.sequence };
                r.push(copy);
            }
        }
        assert(self.spec_points().take(n as int) =~= self.spec_points());
        r
    }

    /// Time from stage `from_stage` to stage `to_stage` within frame
    /// `sequence` (the first point of each stage counts), or `None` when
    /// either stage was not logged for that frame.
    pub fn stage_latency(&self, from_stage: &str, to_stage: &str, sequence: u64) -> (r: Option<u64>)
        ensures
            r == latency_between(self.spec_points().filter(of_sequence(sequence)), from_stage@, to_stage@),
    {
        let points = self.get_sequence_points(sequence);
        let from = find_stage(&points, from_stage);
        let to = find_stage(&points, to_stage);
        match (from, to) {
            (Some(i), Some(j)) => {
                let a = points[i].timestamp_ns;
                let b = points[j].timestamp_ns;
                Some(if b >= a { b - a } else { 0 })
            },
            _ => None,
        }
    }

    /// Time from capture to output of frame `sequence`.
    pub fn total_latency(&self, sequence: u64) -> (r: Option<u64>)
        ensures
            r == latency_between(self.spec_points().filter(of_sequence(sequence)), "capture"@, "output"@),
    {
        self.stage_latency("capture", "output", sequence)
    }

    /// How long to wait, after `elapsed_ns` of a frame have passed, for the
    /// next frame boundary (0 when the frame overran its budget).
    pub fn frame_slack_ns(&self, elapsed_ns: u64) -> (r: u64)
        ensures
            r == saturating_diff(self.spec_target_ns(), elapsed_ns),
    {
        if elapsed_ns < self.target_frame_ns {
            self.target_frame_ns - elapsed_ns
        } else {
            0
        }
    }

    /// Is a frame that has run for `elapsed_ns` still within its budget?
    pub fn within_budget(&self, elapsed_ns: u64) -> (r: bool)
        ensures
            r == (elapsed_ns < self.spec_target_ns()),
    {
        elapsed_ns < self.target_frame_ns
    }

    /// Is the frame that started at `frame_start_ns` still on schedule? It
    /// is when the time from its start to the clock's current reading (0 if
    /// the reading is earlier) is within the frame budget.
    pub fn is_on_schedule(&self, frame_start_ns: u64) -> (r: bool)
        ensures
            exists|now_ns: u64| r == (#[trigger] saturating_diff(now_ns, frame_start_ns) < self.spec_target_ns()),
    {
        let now = nanos_since(&self.epoch);
        let elapsed = if now >= frame_start_ns { now - frame_start_ns } else { 0 };
        let r = self.within_budget(elapsed);
        assert(r == (saturating_diff(now, frame_start_ns) < self.spec_target_ns()));
        r
    }

    /// Frame budget in nanoseconds.
    pub fn target_duration(&self) -> (r: u64)
        ensures
            r == self.spec_target_ns(),
    {
        self.target_frame_ns
    }

    /// Back to sequence 0 with an empty log.
    pub fn reset(&mut self)
        ensures
            final(self).wf(),
            final(self).spec_sequence() == 0,
            final(self).spec_points() == Seq::<SyncPoint>::empty(),
            final(self).spec_target_ns() == old(self).spec_target_ns(),
    {
        self.sequence = 0;
        self.sync_points.clear();
    }
}

/// Per-device clock offsets (microseconds) for multi-device capture.
pub struct ClockSync {
    offsets: Vec<i64>,
}

impl ClockSync {
    pub closed spec fn spec_offsets(&self) -> Seq<i64> {
        self.offsets@
    }

    /// Offsets for `num_devices` devices, all zero.
    pub fn new(num_devices: usize) -> (r: Self)
        ensures
            r.spec_offsets() == Seq::new(num_devices as nat, |i: int| 0i64),
    {
        let mut offsets: Vec<i64> = Vec::new();
        for i in 0..num_devices
            invariant
                offsets@ == Seq::new(i as nat, |k: int| 0i64),
        {
            offsets.push(0);
            assert(offsets@ =~= Seq::new((i + 1) as nat, |k: int| 0i64));
        }
        ClockSync { offsets }
    }

    /// Set the offset of device `device_idx`; unknown devices are ignored.
    pub fn set_offset(&mut self, device_idx: usize, offset_us: i64)
        ensures
            final(self).spec_offsets() == (if device_idx < old(self).spec_offsets().len() {
                old(self).spec_offsets().update(device_idx as int, offset_us)
            } else {
                old(self).spec_offsets()
            }),
    {
        if device_idx < self.offsets.len() {
            self.offsets.set(device_idx, offset_us);
        }
    }

    /// Offset of device `device_idx` (0 for unknown devices).
    pub fn offset(&self, device_idx: usize) -> (r: i64)
        ensures
            r == (if device_idx < self.spec_offsets().len() { self.spec_offsets()[device_idx as int] } else { 0 }),
    {
        if device_idx < self.offsets.len() {
            self.offsets[device_idx]
        } else {
            0
        }
    }

    /// Number of devices.
    pub fn num_devices(&self) -> (r: usize)
        ensures
            r == self.spec_offsets().len(),
    {
        self.offsets.len()
    }
}

} // verus!
