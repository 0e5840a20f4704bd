//! The pipeline run state: running flag, event counter, and the periodic
//! latency measurement (elapsed time per processed event) that decides
//! between ANC and bypass. Clock readings are nanoseconds on the
//! processor's monotonic clock.

use vstd::prelude::*;
use std::time::Instant;
use crate::sync::{instant_now, nanos_since};

verus! {

/// How often the latency is re-measured.
pub const LATENCY_CHECK_INTERVAL_NS: u64 = 100_000_000;

/// Pipeline configuration.
#[derive(Debug, Clone)]
pub struct PipelineConfig {
    pub target_latency_ms: u32,
    pub buffer_size: usize,
    pub enable_forensics: bool,
}

impl Default for PipelineConfig {
    /// 35 ms target, 1024-sample buffers, forensics on.
    fn default() -> (r: Self)
        ensures
            r.target_latency_ms == 35,
            r.buffer_size == 1024,
            r.enable_forensics,
    {
        PipelineConfig { target_latency_ms: 35, buffer_size: 1024, enable_forensics: true }
    }
}

/// Pipeline run state.
pub struct PipelineProcessor {
    config: PipelineConfig,
    running: bool,
    events_processed: u64,
    start_ns: Option<u64>,
    last_latency_check_ns: Option<u64>,
    /// Whole milliseconds elapsed at the last measurement.
    measured_elapsed_ms: u64,
    /// Events counted at the last measurement (at least 1).
    measured_events: u64,
    epoch: Instant,
}

/// Is a latency of `elapsed_ms / events` milliseconds within `target_ms`?
pub open spec fn latency_within(elapsed_ms: nat, events: nat, target_ms: nat) -> bool {
    elapsed_ms <= target_ms * events
}

/// The latency is within target exactly when the mean time per event,
/// `elapsed_ms / events` taken as an exact fraction, is at most the target:
/// its whole part is below the target, or equals it with nothing left
/// over. A mean of exactly the target passes, one millisecond more over
/// the run fails, and less elapsed time never turns a pass into a failure.
pub proof fn law_latency_is_mean_within_target(elapsed_ms: nat, events: nat, target_ms: nat)
    requires
        events > 0,
    ensures
        latency_within(elapsed_ms, events, target_ms) <==> (elapsed_ms / events < target_ms || (elapsed_ms / events
            == target_ms && elapsed_ms % events == 0)),
        latency_within(target_ms * events, events, target_ms),
        !latency_within(target_ms * events + 1, events, target_ms),
        forall|less: nat|
            less <= elapsed_ms && latency_within(elapsed_ms, events, target_ms) ==> #[trigger] latency_within(
                less,
                events,
                target_ms,
            ),
{
    let q = elapsed_ms / events;
    let r = elapsed_ms % events;
    vstd::arithmetic::div_mod::lemma_fundamental_div_mod(elapsed_ms as int, events as int);
    assert(elapsed_ms == events * q + r && 0 <= r < events);
    assert((elapsed_ms <= target_ms * events) <==> (q < target_ms || (q == target_ms && r == 0))) by (nonlinear_arith)
        requires
            elapsed_ms == events * q + r,
            0 <= r < events,
            events > 0,
            q >= 0,
    {
        if q < target_ms {
            assert(events * q + r < events * q + events);
            assert(events * (q + 1) <= events * target_ms);
        } else if q == target_ms {
        } else {
            assert(events * q >= events * (target_ms + 1));
        }
    }
}

/// `after` is `before` after counting one event at `now_ns`: nothing
/// changes while stopped; while running the count goes up by one and, when
/// at least 100 ms have passed since the last check, the latency is
/// re-measured as the time since start per event.
pub open spec fn event_step(before: PipelineProcessor, after: PipelineProcessor, now_ns: u64) -> bool {
    &&& after.spec_config() == before.spec_config()
    &&& after.spec_running() == before.spec_running()
    &&& after.spec_start() == before.spec_start()
    &&& !before.spec_running() ==> after.spec_events() == before.spec_events()
            && after.spec_last_check() == before.spec_last_check() && after.spec_measured()
            == before.spec_measured()
    &&& before.spec_running() ==> {
            let events = (before.spec_events() + 1) as u64;
            let due = match before.spec_last_check() {
                Some(last) => now_ns >= last && now_ns - last >= LATENCY_CHECK_INTERVAL_NS,
                None => false,
            };
            &&& after.spec_events() == events
            &&& due ==> after.spec_last_check() == Some(now_ns)
            &&& !due ==> after.spec_last_check() == before.spec_last_check()
            &&& (due && before.spec_start() is Some) ==> {
                let start = before.spec_start()->0;
                after.spec_measured() == (
                    ((if now_ns >= start { now_ns - start } else { 0 }) / 1_000_000) as u64,
                    events,
                )
            }
            &&& !(due && before.spec_start() is Some) ==> after.spec_measured() == before.spec_measured()
        }
}

impl PipelineProcessor {
    pub closed spec fn spec_config(&self) -> PipelineConfig {
        self.config
    }

    pub closed spec fn spec_running(&self) -> bool {
        self.running
    }

    pub closed spec fn spec_events(&self) -> u64 {
        self.events_processed
    }

    pub closed spec fn spec_start(&self) -> Option<u64> {
        self.start_ns
    }

    pub closed spec fn spec_last_check(&self) -> Option<u64> {
        self.last_latency_check_ns
    }

    /// The last measured latency as (elapsed ms, events).
    pub closed spec fn spec_measured(&self) -> (u64, u64) {
        (self.measured_elapsed_ms, self.measured_events)
    }

    /// A stopped pipeline with nothing processed and nothing measured.
    pub fn new(config: PipelineConfig) -> (r: Self)
        ensures
            r.spec_config() == config,
            !r.spec_running(),
            r.spec_events() == 0,
            r.spec_start() is None,
            r.spec_last_check() is None,
            r.spec_measured() == (0u64, 1u64),
    {
        PipelineProcessor {
            config,
            running: false,
            events_processed: 0,
            start_ns: None,
            last_latency_check_ns: None,
            measured_elapsed_ms: 0,
            measured_events: 1,
            epoch: instant_now(),
        }
    }

    /// Target latency in milliseconds.
    pub fn target_latency(&self) -> (r: u64)
        ensures
            r == self.spec_config().target_latency_ms,
    {
        self.config.target_latency_ms as u64
    }

    pub fn buffer_size(&self) -> (r: usize)
        ensures
            r == self.spec_config().buffer_size,
    {
        self.config.buffer_size
    }

    pub fn forensics_enabled(&self) -> (r: bool)
        ensures
            r == self.spec_config().enable_forensics,
    {
        self.config.enable_forensics
    }

    /// Nanoseconds on the processor's clock now.
    pub fn now_ns(&self) -> u64 {
        nanos_since(&self.epoch)
    }

    /// Start running at `now_ns`; the latency clock starts too.
    pub fn start_at(&mut self, now_ns: u64)
        ensures
            final(self).spec_running(),
            final(self).spec_start() == Some(now_ns),
            final(self).spec_last_check() == Some(now_ns),
            final(self).spec_events() == old(self).spec_events(),
            final(self).spec_measured() == old(self).spec_measured(),
            final(self).spec_config() == old(self).spec_config(),
    {
        self.running = true;
        self.start_ns = Some(now_ns);
        self.last_latency_check_ns = Some(now_ns);
    }

    /// Start running now.
    pub fn start(&mut self) -> (r: Result<(), ()>)
        ensures
            r is Ok,
            final(self).spec_running(),
            final(self).spec_start() is Some,
            final(self).spec_start() == final(self).spec_last_check(),
            final(self).spec_events() == old(self).spec_events(),
            final(self).spec_measured() == old(self).spec_measured(),
            final(self).spec_config() == old(self).spec_config(),
    {
        let now = nanos_since(&self.epoch);
        self.start_at(now);
        Ok(())
    }

    /// Stop running; the latency clock stops.
    pub fn stop(&mut self)
        ensures
            !final(self).spec_running(),
            final(self).spec_start() is None,
            final(self).spec_last_check() == old(self).spec_last_check(),
            final(self).spec_events() == old(self).spec_events(),
            final(self).spec_measured() == old(self).spec_measured(),
            final(self).spec_config() == old(self).spec_config(),
    {
        self.running = false;
        self.start_ns = None;
    }

    /// Count one processed event at `now_ns`. At least every 100 ms the
    /// latency is re-measured as the time since start per event. Nothing
    /// happens while stopped.
    pub fn process_event_at(&mut self, now_ns: u64)
        requires
            old(self).spec_events() < u64::MAX,
        ensures
            event_step(*old(self), *final(self), now_ns),
    {
        if !self.running {
            return;
        }
        self.events_processed = self.events_processed + 1;
        if let Some(last) = self.last_latency_check_ns {
            if now_ns >= last && now_ns - last >= LATENCY_CHECK_INTERVAL_NS {
                if let Some(start) = self.start_ns {
                    let elapsed = if now_ns >= start { now_ns - start } else { 0 };
                    self.measured_elapsed_ms = elapsed / 1_000_000;
                    self.measured_events = self.events_processed;
                }
                self.last_latency_check_ns = Some(now_ns);
            }
        }
    }

    /// Count one processed event now, as `process_event_at` does.
    pub fn process_event(&mut self)
        requires
            old(self).spec_events() < u64::MAX,
        ensures
            exists|now_ns: u64| event_step(*old(self), *final(self), now_ns),
    {
        let now = nanos_since(&self.epoch);
        self.process_event_at(now);
    }

    /// Is the measured latency within the target?
    pub fn latency_ok(&self) -> (r: bool)
        ensures
            r == latency_within(
                self.spec_measured().0 as nat,
                self.spec_measured().1 as nat,
                self.spec_config().target_latency_ms as nat,
            ),
    {
        let target = self.config.target_latency_ms as u128;
        let events = self.measured_events as u128;
        assert(target * events <= 0xffff_ffff * 0xffff_ffff_ffff_ffff) by (nonlinear_arith)
            requires
                target <= 0xffff_ffff,
                events <= 0xffff_ffff_ffff_ffff,
        ;
        (self.measured_elapsed_ms as u128) <= target * events
    }

    /// The last measurement as (elapsed ms, events): the latency is their
    /// quotient.
    pub fn measured_latency(&self) -> (r: (u64, u64))
        ensures
            r == self.spec_measured(),
    {
        (self.measured_elapsed_ms, self.measured_events)
    }

    /// Processing mode shown for the current latency: "ANC" within target,
    /// "BYPASS" otherwise.
    pub fn mode(&self) -> (r: &'static str)
        ensures
            latency_within(
                self.spec_measured().0 as nat,
                self.spec_measured().1 as nat,
                self.spec_config().target_latency_ms as nat,
            ) ==> r@ == "ANC"@,
            !latency_within(
                self.spec_measured().0 as nat,
                self.spec_measured().1 as nat,
                self.spec_config().target_latency_ms as nat,
            ) ==> r@ == "BYPASS"@,
    {
        if self.latency_ok() {
            "ANC"
        } else {
            "BYPASS"
        }
    }

    pub fn is_running(&self) -> (r: bool)
        ensures
            r == self.spec_running(),
    {
        self.running
    }

    pub fn events_processed(&self) -> (r: u64)
        ensures
            r == self.spec_events(),
    {
        self.events_processed
    }
}

} // verus!
