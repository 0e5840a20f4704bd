//! Decisions of the RTL-SDR capture loop: when to open the device, which
//! band to configure, when and where to retune, and what to do after each
//! driver call. The loop itself (driver calls, sleeping, FFT of the IQ
//! block) is run by the host; frequencies here are whole hertz.

use vstd::prelude::*;

verus! {

/// FFT length used on each IQ block.
pub const SDR_FFT_SIZE: usize = 2048;
/// IQ samples read per block.
pub const SDR_BLOCK_SAMPLES: usize = 16384;
/// Default sample rate (2.048 MS/s).
pub const SDR_DEFAULT_RATE: u32 = 2_048_000;
/// Below this center frequency the tuner runs in HF (direct sampling) mode.
pub const HF_CEILING_HZ: u64 = 24_000_000;
/// Auto-tune snaps the center frequency to multiples of this step.
pub const AUTO_TUNE_STEP_HZ: u64 = 192_000;
/// A requested center frequency closer than this to the current one does
/// not cause a retune.
pub const RETUNE_THRESHOLD_HZ: u64 = 10;
/// Highest frequency the SDR can tune to.
pub const SDR_MAX_HZ: u64 = 1_766_000_000;
/// Largest requested center frequency whose auto-tune snap fits in 64
/// bits (`u64::MAX` less half a step).
pub const MAX_REQUEST_HZ: u64 = 18_446_744_073_709_455_615;
/// Pause while capture is switched off (ms).
pub const IDLE_SLEEP_MS: u32 = 200;
/// Pause before retrying a device that failed to open (ms).
pub const OPEN_RETRY_SLEEP_MS: u32 = 2000;

/// Tuner front-end mode.
#[derive(Debug, Clone, Copy, PartialEq, Eq, Structural)]
pub enum SdrBand {
    /// Direct sampling, below 24 MHz.
    Hf,
    /// Quadrature mode, 24 MHz and above.
    VhfUhf,
}

/// Band of a center frequency.
pub open spec fn band_of(hz: u64) -> SdrBand {
    if hz < HF_CEILING_HZ {
        SdrBand::Hf
    } else {
        SdrBand::VhfUhf
    }
}

/// The band to configure for `center_hz`.
pub fn band_for(center_hz: u64) -> (r: SdrBand)
    ensures
        r == band_of(center_hz),
{
    if center_hz < HF_CEILING_HZ {
        SdrBand::Hf
    } else {
        SdrBand::VhfUhf
    }
}

/// Nearest multiple of the auto-tune step (halves round up).
pub open spec fn snapped(hz: nat) -> nat {
    ((hz + 96_000nat) / 192_000nat) * 192_000nat
}

/// Center frequency to tune to for a requested one: snapped to the
/// auto-tune grid when auto-tune is on, as requested otherwise.
pub fn retune_target(auto_tune: bool, requested_hz: u64) -> (r: u64)
    requires
        requested_hz <= MAX_REQUEST_HZ,
    ensures
        auto_tune ==> r == snapped(requested_hz as nat),
        !auto_tune ==> r == requested_hz,
{
    if auto_tune {
        let k = (requested_hz + AUTO_TUNE_STEP_HZ / 2) / AUTO_TUNE_STEP_HZ;
        assert(k * AUTO_TUNE_STEP_HZ <= requested_hz + AUTO_TUNE_STEP_HZ / 2) by (nonlinear_arith)
            requires
                k == (requested_hz + 96000) / 192000,
        {
            vstd::arithmetic::div_mod::lemma_fundamental_div_mod(requested_hz + 96000, 192000);
        }
        k * AUTO_TUNE_STEP_HZ
    } else {
        requested_hz
    }
}

/// A retune decided by the tuner: the new center frequency and, when the
/// band changed, the band to reconfigure first.
#[derive(Debug, Clone, Copy, PartialEq, Eq, Structural)]
pub struct TunePlan {
    pub center_hz: u64,
    pub reconfigure: Option<SdrBand>,
}

/// Center frequency bookkeeping of an open device.
#[derive(Debug, Clone, Copy)]
pub struct SdrTuner {
    pub center_hz: u64,
    pub last_center_hz: u64,
}

/// Do two frequencies lie in different 24 MHz bands?
pub open spec fn crosses_band(a: u64, b: u64) -> bool {
    a / HF_CEILING_HZ != b / HF_CEILING_HZ
}

/// `a` and `b` differ by more than the retune threshold.
pub open spec fn moved(a: u64, b: u64) -> bool {
    if a >= b {
        a - b > RETUNE_THRESHOLD_HZ
    } else {
        b - a > RETUNE_THRESHOLD_HZ
    }
}

impl SdrTuner {
    /// State right after the device opened at `center_hz`.
    pub fn open(center_hz: u64) -> (r: Self)
        ensures
            r.center_hz == center_hz,
            r.last_center_hz == center_hz,
    {
        SdrTuner { center_hz, last_center_hz: center_hz }
    }

    /// Follow the requested center frequency: retune when the target moved
    /// by more than 10 Hz, reconfiguring the band when the 24 MHz band
    /// changes; otherwise keep the current tuning.
    pub fn follow(&mut self, auto_tune: bool, requested_hz: u64) -> (r: Option<TunePlan>)
        requires
            requested_hz <= MAX_REQUEST_HZ,
        ensures
            ({
                let target = if auto_tune { snapped(requested_hz as nat) as u64 } else { requested_hz };
                if moved(target, old(self).center_hz) {
                    &&& r == Some(
                        TunePlan {
                            center_hz: target,
                            reconfigure: if crosses_band(old(self).last_center_hz, target) {
                                Some(band_of(target))
                            } else {
                                None
                            },
                        },
                    )
                    &&& final(self).center_hz == target
                    &&& final(self).last_center_hz == target
                } else {
                    &&& r is None
                    &&& *final(self) == *old(self)
                }
            }),
    {
        let target = retune_target(auto_tune, requested_hz);
        let diff = if target >= self.center_hz { target - self.center_hz } else { self.center_hz - target };
        if diff > RETUNE_THRESHOLD_HZ {
            let reconfigure = if self.last_center_hz / HF_CEILING_HZ != target / HF_CEILING_HZ {
                Some(band_for(target))
            } else {
                None
            };
            self.center_hz = target;
            self.last_center_hz = target;
            Some(TunePlan { center_hz: target, reconfigure })
        } else {
            None
        }
    }
}

/// Where the capture loop is.
#[derive(Debug, Clone, Copy, PartialEq, Eq, Structural)]
pub enum SdrPhase {
    /// No device open.
    Idle,
    /// Waiting for the device to open.
    Opening,
    /// Device open, a retune is in flight.
    Tuning,
    /// Device open and tuned, a read is in flight.
    Reading,
    /// Device open and tuned, between blocks.
    Streaming,
}

/// What the host reports to the capture loop.
#[derive(Debug, Clone, Copy, PartialEq, Eq, Structural)]
pub enum SdrEvent {
    /// Start of an iteration: is capture on, is auto-tune on, and the
    /// requested center frequency.
    Poll { active: bool, auto_tune: bool, requested_hz: u64 },
    /// The device opened; it is to be configured for `center_hz`.
    Opened { center_hz: u64 },
    /// The device could not be opened.
    OpenFailed,
    /// The retune succeeded or failed.
    Tuned { ok: bool },
    /// The read succeeded (possibly with an empty block) or failed.
    Read { ok: bool, empty: bool },
}

/// What the capture loop asks the host to do next.
#[derive(Debug, Clone, Copy, PartialEq, Eq, Structural)]
pub enum SdrAction {
    /// Sleep for `ms` milliseconds, then poll.
    Sleep { ms: u32 },
    /// Open the device (and set sample rate and gain).
    Open,
    /// Configure `band` and tune to `center_hz`, then poll.
    Configure { band: SdrBand, center_hz: u64 },
    /// Reconfigure the band if given, tune to `center_hz`, report the result.
    Retune { reconfigure: Option<SdrBand>, center_hz: u64 },
    /// Read an IQ block and report the result.
    ReadBlock,
    /// Process and publish the block just read, then poll.
    Publish,
    /// Poll again.
    Poll,
}

/// The capture loop's state.
#[derive(Debug, Clone, Copy)]
pub struct SdrLoop {
    pub phase: SdrPhase,
    pub tuner: SdrTuner,
}

impl SdrLoop {
    /// Nothing open yet; the tuner's bookkeeping starts at 0 Hz.
    pub fn new() -> (r: Self)
        ensures
            r.phase == SdrPhase::Idle,
            r.tuner.center_hz == 0,
            r.tuner.last_center_hz == 0,
    {
        SdrLoop { phase: SdrPhase::Idle, tuner: SdrTuner::open(0) }
    }

    /// Advance the loop on `event` and say what to do next. Events that do
    /// not fit the current phase are answered with `Poll` and change
    /// nothing.
    pub fn step(&mut self, event: SdrEvent) -> (r: SdrAction)
        requires
            event matches SdrEvent::Poll { requested_hz, .. } ==> requested_hz <= MAX_REQUEST_HZ,
        ensures
            // a band is only ever configured for the frequency it covers
            r matches SdrAction::Configure { band, center_hz } ==> band == band_of(center_hz),
            r matches SdrAction::Retune { reconfigure, center_hz } ==> (reconfigure matches Some(b) ==> b
                == band_of(center_hz)),
            match event {
                SdrEvent::Poll { active, auto_tune, requested_hz } => if !active {
                    // capture switched off: close and idle
                    &&& final(self).phase == SdrPhase::Idle
                    &&& final(self).tuner == old(self).tuner
                    &&& r == (SdrAction::Sleep { ms: IDLE_SLEEP_MS })
                } else if old(self).phase == SdrPhase::Idle {
                    // capture on while idle: open the device
                    &&& final(self).phase == SdrPhase::Opening
                    &&& final(self).tuner == old(self).tuner
                    &&& r == SdrAction::Open
                } else if old(self).phase == SdrPhase::Streaming {
                    // capture on while streaming: retune if the target moved, else read
                    let target = if auto_tune { snapped(requested_hz as nat) as u64 } else { requested_hz };
                    if moved(target, old(self).tuner.center_hz) {
                        &&& final(self).phase == SdrPhase::Tuning
                        &&& final(self).tuner.center_hz == target
                        &&& final(self).tuner.last_center_hz == target
                        &&& r == (SdrAction::Retune {
                            reconfigure: if crosses_band(old(self).tuner.last_center_hz, target) {
                                Some(band_of(target))
                            } else {
                                None
                            },
                            center_hz: target,
                        })
                    } else {
                        &&& final(self).phase == SdrPhase::Reading
                        &&& final(self).tuner == old(self).tuner
                        &&& r == SdrAction::ReadBlock
                    }
                } else {
                    r == SdrAction::Poll && *final(self) == *old(self)
                },
                SdrEvent::Opened { center_hz } => if old(self).phase == SdrPhase::Opening {
                    // the device opened: configure its band and tune
                    &&& final(self).phase == SdrPhase::Streaming
                    &&& final(self).tuner.center_hz == center_hz
                    &&& final(self).tuner.last_center_hz == center_hz
                    &&& r == (SdrAction::Configure { band: band_of(center_hz), center_hz })
                } else {
                    r == SdrAction::Poll && *final(self) == *old(self)
                },
                SdrEvent::OpenFailed => if old(self).phase == SdrPhase::Opening {
                    // the device failed to open: wait and start over
                    &&& final(self).phase == SdrPhase::Idle
                    &&& final(self).tuner == old(self).tuner
                    &&& r == (SdrAction::Sleep { ms: OPEN_RETRY_SLEEP_MS })
                } else {
                    r == SdrAction::Poll && *final(self) == *old(self)
                },
                SdrEvent::Tuned { ok } => if old(self).phase == SdrPhase::Tuning {
                    // a retune answered: on success carry on, on failure reopen
                    &&& final(self).phase == (if ok { SdrPhase::Streaming } else { SdrPhase::Idle })
                    &&& final(self).tuner == old(self).tuner
                    &&& r == SdrAction::Poll
                } else {
                    r == SdrAction::Poll && *final(self) == *old(self)
                },
                SdrEvent::Read { ok, empty } => if old(self).phase == SdrPhase::Reading {
                    // a read answered: publish a block, skip an empty one, reopen on failure
                    &&& final(self).phase == (if ok { SdrPhase::Streaming } else { SdrPhase::Idle })
                    &&& final(self).tuner == old(self).tuner
                    &&& r == (if ok && !empty { SdrAction::Publish } else { SdrAction::Poll })
                } else {
                    r == SdrAction::Poll && *final(self) == *old(self)
                },
            },
    {
        match event {
            SdrEvent::Poll { active, auto_tune, requested_hz } => {
                if !active {
                    self.phase = SdrPhase::Idle;
                    SdrAction::Sleep { ms: IDLE_SLEEP_MS }
                } else {
                    match self.phase {
                        SdrPhase::Idle => {
                            self.phase = SdrPhase::Opening;
                            SdrAction::Open
                        },
                        SdrPhase::Streaming => {
                            match self.tuner.follow(auto_tune, requested_hz) {
                                Some(plan) => {
                                    self.phase = SdrPhase::Tuning;
                                    SdrAction::Retune { reconfigure: plan.reconfigure, center_hz: plan.center_hz }
                                },
                                None => {
                                    self.phase = SdrPhase::Reading;
                                    SdrAction::ReadBlock
                                },
                            }
                        },
                        _ => SdrAction::Poll,
                    }
                }
            },
            SdrEvent::Opened { center_hz } => {
                if self.phase == SdrPhase::Opening {
                    self.tuner = SdrTuner::open(center_hz);
                    self.phase = SdrPhase::Streaming;
                    SdrAction::Configure { band: band_for(center_hz), center_hz }
                } else {
                    SdrAction::Poll
                }
            },
            SdrEvent::OpenFailed => {
                if self.phase == SdrPhase::Opening {
                    self.phase = SdrPhase::Idle;
                    SdrAction::Sleep { ms: OPEN_RETRY_SLEEP_MS }
                } else {
                    SdrAction::Poll
                }
            },
            SdrEvent::Tuned { ok } => {
                if self.phase == SdrPhase::Tuning {
                    self.phase = if ok { SdrPhase::Streaming } else { SdrPhase::Idle };
                }
                SdrAction::Poll
            },
            SdrEvent::Read { ok, empty } => {
                if self.phase == SdrPhase::Reading {
                    self.phase = if ok { SdrPhase::Streaming } else { SdrPhase::Idle };
                    if ok && !empty {
                        SdrAction::Publish
                    } else {
                        SdrAction::Poll
                    }
                } else {
                    SdrAction::Poll
                }
            },
        }
    }
}

/// How many soundcard harmonics (3rd upward, at most 8) lie within the
/// SDR's range for an audio rate of `rate` Hz.
pub open spec fn harmonic_count(rate: nat) -> nat {
    if rate == 0 {
        8
    } else {
        let top = (SDR_MAX_HZ as nat) / rate;
        if top < 3 {
            0
        } else if top - 2 > 8 {
            8
        } else {
            (top - 2) as nat
        }
    }
}

/// Candidate tuning frequencies for soundcard harmonic hunting: the 3rd,
/// 4th, … harmonics of `audio_rate_hz` that the SDR can reach, at most 8.
pub fn soundcard_harmonic_candidates(audio_rate_hz: u32) -> (r: Vec<u64>)
    ensures
        r@.len() == harmonic_count(audio_rate_hz as nat),
        forall|i: int| 0 <= i < r@.len() ==> #[trigger] r@[i] == (i + 3) * audio_rate_hz,
        forall|i: int| 0 <= i < r@.len() ==> #[trigger] r@[i] <= SDR_MAX_HZ,
{
    let mut out: Vec<u64> = Vec::new();
    let rate = audio_rate_hz as u64;
    let mut n: u64 = 3;
    let mut prod: u64 = 3 * rate;
    while prod <= SDR_MAX_HZ
        invariant
            3 <= n <= 10,
            prod == n * rate,
            out@.len() == n - 3,
            rate == audio_rate_hz,
            forall|m: nat| 3 <= m < n ==> #[trigger] (m * rate) <= SDR_MAX_HZ,
            forall|i: int| 0 <= i < out@.len() ==> #[trigger] out@[i] == (i + 3) * rate,
            forall|i: int| 0 <= i < out@.len() ==> #[trigger] out@[i] <= SDR_MAX_HZ,
        decreases 10 - n,
    {
        out.push(prod);
        if out.len() >= 8 {
            assert(harmonic_count(rate as nat) == 8) by (nonlinear_arith)
                requires
                    10 * rate <= 1_766_000_000,
            ;
            return out;
        }
        proof {
            vstd::arithmetic::mul::lemma_mul_is_distributive_add_other_way(rate as int, n as int, 1);
        }
        n += 1;
        prod = prod + rate;
    }
    proof {
        if n > 3 {
            assert(((n - 1) as nat) * rate <= SDR_MAX_HZ);
        }
    }
    assert(harmonic_count(rate as nat) == n - 3) by (nonlinear_arith)
        requires
            n * rate > 1_766_000_000,
            3 <= n <= 10,
            (n - 1) * rate <= 1_766_000_000 || n == 3,
    ;
    out
}

} // verus!
