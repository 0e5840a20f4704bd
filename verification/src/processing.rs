//! Frame bookkeeping of the capture → features → inference → control
//! processing loop: the run flag, the per-run frame counter, the running
//! event count, when a forensic snapshot is taken and when a frame missed
//! its latency budget.

use vstd::prelude::*;
use std::time::Instant;
use crate::config::ProcessorConfig;
use crate::sync::{instant_now, nanos_since};

verus! {

/// A forensic snapshot is taken on every this-many-th frame of a run.
pub const FORENSIC_SNAPSHOT_INTERVAL: u64 = 100;

/// Nanoseconds in a millisecond.
pub const NANOS_PER_MS: u64 = 1_000_000;

/// What the loop does once a frame has been processed.
#[derive(Debug, Clone, Copy, PartialEq, Eq, Structural)]
pub struct FrameReport {
    /// Sequence number recorded in a forensic snapshot of this frame
    /// (events processed before it).
    pub sequence: u64,
    /// Take a forensic snapshot of this frame.
    pub forensic_snapshot: bool,
    /// The frame took longer than the latency target.
    pub over_budget: bool,
}

/// Counters of the processing loop.
pub struct ProcessingLoop {
    config: ProcessorConfig,
    running: bool,
    frame_count: u64,
    events_processed: u64,
    started: Instant,
}

/// Is a frame of `elapsed_ns` nanoseconds over a target of `target_ms`
/// milliseconds?
pub open spec fn over_budget(elapsed_ns: u64, target_ms: u32) -> bool {
    elapsed_ns > target_ms * 1_000_000
}

impl ProcessingLoop {
    pub closed spec fn spec_config(&self) -> ProcessorConfig {
        self.config
    }

    pub closed spec fn spec_running(&self) -> bool {
        self.running
    }

    /// Frames processed in the current run.
    pub closed spec fn spec_frame_count(&self) -> u64 {
        self.frame_count
    }

    /// Frames processed over all runs.
    pub closed spec fn spec_events_processed(&self) -> u64 {
        self.events_processed
    }

    /// A stopped loop that has processed nothing.
    pub fn new(config: ProcessorConfig) -> (r: Self)
        ensures
            r.spec_config() == config,
            !r.spec_running(),
            r.spec_frame_count() == 0,
            r.spec_events_processed() == 0,
    {
        ProcessingLoop { config, running: false, frame_count: 0, events_processed: 0, started: instant_now() }
    }

    /// Nanoseconds since the loop was created, on the monotonic clock.
    pub fn uptime_ns(&self) -> u64 {
        nanos_since(&self.started)
    }

    /// Start a run: the loop runs and the frame counter starts from zero.
    pub fn begin(&mut self)
        ensures
            final(self).spec_running(),
            final(self).spec_frame_count() == 0,
            final(self).spec_events_processed() == old(self).spec_events_processed(),
            final(self).spec_config() == old(self).spec_config(),
    {
        self.running = true;
        self.frame_count = 0;
    }

    /// Ask the loop to stop after the current frame.
    pub fn stop(&mut self)
        ensures
            !final(self).spec_running(),
            final(self).spec_frame_count() == old(self).spec_frame_count(),
            final(self).spec_events_processed() == old(self).spec_events_processed(),
            final(self).spec_config() == old(self).spec_config(),
    {
        self.running = false;
    }

    /// Does the loop go on to another frame?
    pub fn is_running(&self) -> (r: bool)
        ensures
            r == self.spec_running(),
    {
        self.running
    }

    /// Frames processed over all runs.
    pub fn events_processed(&self) -> (r: u64)
        ensures
            r == self.spec_events_processed(),
    {
        self.events_processed
    }

    /// Frames processed in the current run.
    pub fn frame_count(&self) -> (r: u64)
        ensures
            r == self.spec_frame_count(),
    {
        self.frame_count
    }

    /// The latency target in milliseconds.
    pub fn target_latency_ms(&self) -> (r: u32)
        ensures
            r == self.spec_config().target_latency_ms,
    {
        self.config.target_latency_ms
    }

    /// Count a frame that took `elapsed_ns` nanoseconds. A forensic
    /// snapshot is due, when forensics are enabled, on the first frame of a
    /// run and every 100th frame after it; the frame is over budget when it
    /// took longer than the target.
    pub fn frame_done(&mut self, elapsed_ns: u64) -> (r: FrameReport)
        requires
            old(self).spec_events_processed() < u64::MAX,
            old(self).spec_frame_count() < u64::MAX,
        ensures
            r.sequence == old(self).spec_events_processed(),
            r.forensic_snapshot == (old(self).spec_config().enable_forensics
                && old(self).spec_frame_count() % FORENSIC_SNAPSHOT_INTERVAL == 0),
            r.over_budget == over_budget(elapsed_ns, old(self).spec_config().target_latency_ms),
            final(self).spec_events_processed() == old(self).spec_events_processed() + 1,
            final(self).spec_frame_count() == old(self).spec_frame_count() + 1,
            final(self).spec_running() == old(self).spec_running(),
            final(self).spec_config() == old(self).spec_config(),
    {
        let forensic_snapshot = self.config.enable_forensics && self.frame_count % FORENSIC_SNAPSHOT_INTERVAL == 0;
        let target_ns: u64 = (self.config.target_latency_ms as u64) * NANOS_PER_MS;
        let report = FrameReport {
            sequence: self.events_processed,
            forensic_snapshot,
            over_budget: elapsed_ns > target_ns,
        };
        self.events_processed = self.events_processed + 1;
        self.frame_count = self.frame_count + 1;
        report
    }
}

} // verus!
