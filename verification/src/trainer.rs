//! Bookkeeping of the online training loop: the capped replay buffer of
//! training windows, the mini-batch draw, and the training schedule
//! (warm-up, logging and autosave epochs).

use vstd::prelude::*;
use crate::config::{duration_since_epoch, system_now, truncate_to_u64};
use crate::sync::duration_as_nanos;

verus! {

/// Most windows kept in the replay buffer.
pub const REPLAY_CAP: usize = 4096;
/// Windows needed before training starts.
pub const MIN_WINDOWS: usize = 32;
/// Windows per mini-batch.
pub const BATCH_SIZE: usize = 8;
/// Gradient steps per batch.
pub const STEPS_PER_BATCH: usize = 1;
/// Pause between batches (ms).
pub const TRAIN_SLEEP_MS: u64 = 20;
/// Epochs between automatic saves.
pub const SAVE_INTERVAL_EPOCHS: u32 = 50;
/// Epochs between progress reports.
pub const LOG_INTERVAL_EPOCHS: u32 = 10;

/// A pseudo-random number from the system clock: nanoseconds since the
/// Unix epoch, truncated to 64 bits (0 before 1970).
fn clock_seed() -> u64 {
    let now = system_now();
    match duration_since_epoch(&now) {
        Ok(d) => truncate_to_u64(duration_as_nanos(&d)),
        Err(_) => 0,
    }
}

/// The replay buffer after offering window `w` with replacement slot
/// `seed % REPLAY_CAP`: short windows are ignored, windows are appended
/// until the buffer is full, then they replace the entry at that slot.
pub open spec fn replay_after<W>(replay: Seq<Vec<W>>, w: Vec<W>, required: nat, seed: u64) -> Seq<Vec<W>> {
    if w@.len() < required {
        replay
    } else if replay.len() < REPLAY_CAP {
        replay.push(w)
    } else {
        replay.update((seed % (REPLAY_CAP as u64)) as int, w)
    }
}

/// Is `pick` a copy of one of `windows`?
pub open spec fn copies_held_window<W: Clone>(windows: Seq<Vec<W>>, pick: Vec<W>) -> bool {
    exists|i: int| 0 <= i < windows.len() && #[trigger] cloned(windows[i], pick)
}

/// Capped replay buffer of training windows.
pub struct ReplayBuffer<W> {
    windows: Vec<Vec<W>>,
}

impl<W> ReplayBuffer<W> {
    /// The windows held.
    pub closed spec fn spec_windows(&self) -> Seq<Vec<W>> {
        self.windows@
    }

    /// Never more than `REPLAY_CAP` windows.
    pub open spec fn wf(&self) -> bool {
        self.spec_windows().len() <= REPLAY_CAP
    }

    pub fn new() -> (r: Self)
        ensures
            r.wf(),
            r.spec_windows() == Seq::<Vec<W>>::empty(),
    {
        ReplayBuffer { windows: Vec::new() }
    }

    pub fn len(&self) -> (r: usize)
        ensures
            r == self.spec_windows().len(),
    {
        self.windows.len()
    }

    pub fn is_empty(&self) -> (r: bool)
        ensures
            r == (self.spec_windows().len() == 0),
    {
        self.windows.len() == 0
    }

    /// Offer window `w`, to replace slot `seed % REPLAY_CAP` once full.
    pub fn ingest_at(&mut self, w: Vec<W>, required: usize, seed: u64)
        requires
            old(self).wf(),
        ensures
            final(self).wf(),
            final(self).spec_windows() == replay_after(old(self).spec_windows(), w, required as nat, seed),
    {
        if w.len() < required {
            return;
        }
        if self.windows.len() < REPLAY_CAP {
            self.windows.push(w);
        } else {
            let idx = (seed % (REPLAY_CAP as u64)) as usize;
            self.windows.set(idx, w);
        }
    }

    /// Offer window `w`; once the buffer is full it replaces an entry
    /// chosen from the clock.
    pub fn ingest(&mut self, w: Vec<W>, required: usize)
        requires
            old(self).wf(),
        ensures
            final(self).wf(),
            exists|seed: u64| final(self).spec_windows() == replay_after(old(self).spec_windows(), w, required as nat, seed),
    {
        let seed = clock_seed();
        self.ingest_at(w, required, seed);
    }

    /// Is the buffer warm enough to train while training is `active`?
    pub fn ready_to_train(&self, active: bool) -> (r: bool)
        ensures
            r == (active && self.spec_windows().len() >= MIN_WINDOWS),
    {
        active && self.windows.len() >= MIN_WINDOWS
    }

    /// The newest window, if any.
    pub fn newest(&self) -> (r: Option<&Vec<W>>)
        ensures
            self.spec_windows().len() == 0 ==> r is None,
            self.spec_windows().len() > 0 ==> r == Some(&self.spec_windows().last()),
    {
        if self.windows.len() == 0 {
            None
        } else {
            Some(&self.windows[self.windows.len() - 1])
        }
    }
}

impl<W: Clone> ReplayBuffer<W> {
    /// A mini-batch of `min(BATCH_SIZE, len)` windows: pick `k` copies the
    /// window at `seeds[k] % len`.
    pub fn sample_batch_at(&self, seeds: &Vec<u64>) -> (r: Vec<Vec<W>>)
        requires
            seeds@.len() >= BATCH_SIZE,
        ensures
            r@.len() == (if self.spec_windows().len() < BATCH_SIZE { self.spec_windows().len() } else { BATCH_SIZE as nat }),
            forall|k: int|
                0 <= k < r@.len() ==> cloned(
                    #[trigger] self.spec_windows()[(seeds@[k] % (self.spec_windows().len() as u64)) as int],
                    r@[k],
                ),
    {
        let n = self.windows.len();
        let count = if n < BATCH_SIZE { n } else { BATCH_SIZE };
        let mut batch: Vec<Vec<W>> = Vec::new();
        for k in 0..count
            invariant
                n == self.spec_windows().len(),
                count <= n,
                count <= BATCH_SIZE,
                seeds@.len() >= BATCH_SIZE,
                batch@.len() == k,
                forall|j: int|
                    0 <= j < k ==> cloned(
                        #[trigger] self.spec_windows()[(seeds@[j] % (n as u64)) as int],
                        batch@[j],
                    ),
        {
            let idx = (seeds[k] % (n as u64)) as usize;
            batch.push(self.windows[idx].clone());
        }
        batch
    }

    /// A mini-batch whose picks are drawn from the clock: each pick copies
    /// some window held.
    pub fn sample_batch(&self) -> (r: Vec<Vec<W>>)
        ensures
            r@.len() == (if self.spec_windows().len() < BATCH_SIZE { self.spec_windows().len() } else { BATCH_SIZE as nat }),
            forall|k: int| 0 <= k < r@.len() ==> copies_held_window(self.spec_windows(), #[trigger] r@[k]),
    {
        let mut seeds: Vec<u64> = Vec::new();
        for k in 0..BATCH_SIZE
            invariant
                seeds@.len() == k,
        {
            seeds.push(clock_seed());
        }
        let held = self.windows.len();
        let batch = self.sample_batch_at(&seeds);
        assert forall|k: int| 0 <= k < batch@.len() implies copies_held_window(self.spec_windows(), #[trigger] batch@[k]) by {
            let i = (seeds@[k] % (held as u64)) as int;
            assert(cloned(self.spec_windows()[i], batch@[k]));
        }
        batch
    }
}

/// What to do after a successful training step.
#[derive(Debug, Clone, Copy, PartialEq, Eq, Structural)]
pub struct StepOutcome {
    /// The epoch just completed.
    pub epoch: u32,
    /// Report progress (every 10 epochs).
    pub report: bool,
    /// Save the weights (every 50 epochs).
    pub autosave: bool,
}

/// Epoch counter of the training loop.
#[derive(Debug, Clone, Copy)]
pub struct TrainingSchedule {
    pub epoch: u32,
}

impl TrainingSchedule {
    pub fn new() -> (r: Self)
        ensures
            r.epoch == 0,
    {
        TrainingSchedule { epoch: 0 }
    }

    /// Count a completed training step.
    pub fn step_done(&mut self) -> (r: StepOutcome)
        requires
            old(self).epoch < u32::MAX,
        ensures
            final(self).epoch == old(self).epoch + 1,
            r.epoch == final(self).epoch,
            r.report == (final(self).epoch % LOG_INTERVAL_EPOCHS == 0),
            r.autosave == (final(self).epoch % SAVE_INTERVAL_EPOCHS == 0),
    {
        self.epoch = self.epoch + 1;
        StepOutcome {
            epoch: self.epoch,
            report: self.epoch % LOG_INTERVAL_EPOCHS == 0,
            autosave: self.epoch % SAVE_INTERVAL_EPOCHS == 0,
        }
    }
}

} // verus!
