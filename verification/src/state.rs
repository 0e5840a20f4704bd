//! Shared application state that does not involve floating point: feature
//! flags, the manual-recording state machine, synthesis modes and the
//! waterfall display buffer.

use vstd::prelude::*;

verus! {

// ── Feature flags ────────────────────────────────────────────────────────────

/// Optional processing features that can be switched on at runtime.
#[derive(Clone, Debug)]
pub struct FeatureFlags {
    pub enhanced_audio: bool,
    pub sparse_pdm: bool,
    pub coherence: bool,
    pub mamba_siren: bool,
}

impl Default for FeatureFlags {
    /// Enhanced audio on, every experimental feature off.
    fn default() -> (r: Self)
        ensures
            r.enhanced_audio,
            !r.sparse_pdm,
            !r.coherence,
            !r.mamba_siren,
    {
        FeatureFlags { enhanced_audio: true, sparse_pdm: false, coherence: false, mamba_siren: false }
    }
}

// ── Manual recording state machine ───────────────────────────────────────────

/// Length of a manual recording window in milliseconds.
pub const RECORDING_WINDOW_MS: u32 = 30000;

/// Manual REC button state: IDLE → RECORDING → SAVING.
#[derive(Debug, Clone, Copy, PartialEq, Eq, Structural)]
pub enum RecordingStateEnum {
    /// Not recording
    Idle,
    /// Recording with countdown timer active (0-30000 ms)
    Recording,
    /// Recording complete, saving samples
    Saving,
}

/// Manual REC button state and timer management for a 30-second
/// recording session with sample counting.
#[derive(Debug, Clone)]
pub struct RecordingState {
    /// Current state (IDLE, RECORDING, SAVING)
    pub state: RecordingStateEnum,
    /// Remaining time in milliseconds (counts down from 30000 to 0)
    pub remaining_ms: u32,
    /// Total samples captured
    pub sample_count: usize,
}

/// Remaining time after `elapsed` milliseconds: counts down, never below 0.
pub open spec fn countdown(remaining: u32, elapsed: u32) -> u32 {
    if remaining > elapsed {
        (remaining - elapsed) as u32
    } else {
        0
    }
}

/// A call that changes a recording state machine.
pub enum RecordingCall {
    Start,
    Stop,
    /// `update_timer_ms` with the elapsed milliseconds.
    Tick(u32),
    /// `add_samples` with the number of samples.
    AddSamples(usize),
    Reset,
}

/// The state after call `c`.
pub open spec fn recording_step(s: RecordingState, c: RecordingCall) -> RecordingState {
    match c {
        RecordingCall::Start => RecordingState {
            state: RecordingStateEnum::Recording,
            remaining_ms: RECORDING_WINDOW_MS,
            sample_count: 0,
        },
        RecordingCall::Stop => RecordingState { state: RecordingStateEnum::Saving, ..s },
        RecordingCall::Tick(e) => RecordingState { remaining_ms: countdown(s.remaining_ms, e), ..s },
        RecordingCall::AddSamples(n) => RecordingState { sample_count: (s.sample_count + n) as usize, ..s },
        RecordingCall::Reset => RecordingState { state: RecordingStateEnum::Idle, remaining_ms: 0, sample_count: 0 },
    }
}

/// The state after the calls `cs`, in order.
pub open spec fn recording_run(s: RecordingState, cs: Seq<RecordingCall>) -> RecordingState
    decreases cs.len(),
{
    if cs.len() == 0 {
        s
    } else {
        recording_step(recording_run(s, cs.drop_last()), cs.last())
    }
}

/// The timer is within the 30-second window, and 0 while idle.
pub open spec fn timer_ok(s: RecordingState) -> bool {
    &&& s.remaining_ms <= RECORDING_WINDOW_MS
    &&& s.state == RecordingStateEnum::Idle ==> s.remaining_ms == 0
}

/// A recording reached from a fresh state machine through any sequence of
/// calls keeps its timer at or below 30 000 ms, and at 0 while idle.
pub proof fn law_timer_bounded(s: RecordingState, cs: Seq<RecordingCall>)
    requires
        timer_ok(s),
    ensures
        timer_ok(recording_run(s, cs)),
    decreases cs.len(),
{
    if cs.len() > 0 {
        law_timer_bounded(s, cs.drop_last());
    }
}

impl RecordingState {
    /// A new state machine in IDLE with no time and no samples.
    pub fn new() -> (r: Self)
        ensures
            r.state == RecordingStateEnum::Idle,
            r.remaining_ms == 0,
            r.sample_count == 0,
            timer_ok(r),
    {
        RecordingState { state: RecordingStateEnum::Idle, remaining_ms: 0, sample_count: 0 }
    }

    /// Start recording: RECORDING with a full 30-second window and no samples.
    pub fn start_recording(&mut self)
        ensures
            final(self).state == RecordingStateEnum::Recording,
            final(self).remaining_ms == RECORDING_WINDOW_MS,
            final(self).sample_count == 0,
            *final(self) == recording_step(*old(self), RecordingCall::Start),
    {
        self.state = RecordingStateEnum::Recording;
        self.remaining_ms = RECORDING_WINDOW_MS;
        self.sample_count = 0;
    }

    /// Stop recording: SAVING; timer and samples are kept.
    pub fn stop_recording(&mut self)
        ensures
            final(self).state == RecordingStateEnum::Saving,
            final(self).remaining_ms == old(self).remaining_ms,
            final(self).sample_count == old(self).sample_count,
            *final(self) == recording_step(*old(self), RecordingCall::Stop),
    {
        self.state = RecordingStateEnum::Saving;
    }

    /// Count the timer down by `elapsed_ms`, stopping at 0.
    pub fn update_timer_ms(&mut self, elapsed_ms: u32)
        ensures
            final(self).remaining_ms == countdown(old(self).remaining_ms, elapsed_ms),
            final(self).state == old(self).state,
            final(self).sample_count == old(self).sample_count,
            *final(self) == recording_step(*old(self), RecordingCall::Tick(elapsed_ms)),
    {
        if self.remaining_ms > elapsed_ms {
            self.remaining_ms -= elapsed_ms;
        } else {
            self.remaining_ms = 0;
        }
    }

    /// Add `count` captured samples.
    pub fn add_samples(&mut self, count: usize)
        requires
            old(self).sample_count + count <= usize::MAX,
        ensures
            final(self).sample_count == old(self).sample_count + count,
            final(self).state == old(self).state,
            final(self).remaining_ms == old(self).remaining_ms,
            *final(self) == recording_step(*old(self), RecordingCall::AddSamples(count)),
    {
        self.sample_count += count;
    }

    /// Is the machine IDLE?
    pub fn is_idle(&self) -> (r: bool)
        ensures
            r == (self.state == RecordingStateEnum::Idle),
    {
        self.state == RecordingStateEnum::Idle
    }

    /// Is the machine RECORDING?
    pub fn is_recording(&self) -> (r: bool)
        ensures
            r == (self.state == RecordingStateEnum::Recording),
    {
        self.state == RecordingStateEnum::Recording
    }

    /// Is the machine SAVING?
    pub fn is_saving(&self) -> (r: bool)
        ensures
            r == (self.state == RecordingStateEnum::Saving),
    {
        self.state == RecordingStateEnum::Saving
    }

    /// Remaining time in milliseconds.
    pub fn get_remaining_ms(&self) -> (r: u32)
        ensures
            r == self.remaining_ms,
    {
        self.remaining_ms
    }

    /// Total samples captured.
    pub fn get_sample_count(&self) -> (r: usize)
        ensures
            r == self.sample_count,
    {
        self.sample_count
    }

    /// The timer has run out while recording.
    pub fn is_expired(&self) -> (r: bool)
        ensures
            r == (self.remaining_ms == 0 && self.state == RecordingStateEnum::Recording),
    {
        self.remaining_ms == 0 && self.state == RecordingStateEnum::Recording
    }

    /// Back to IDLE with no time and no samples, ready for the next session.
    pub fn reset(&mut self)
        ensures
            final(self).state == RecordingStateEnum::Idle,
            final(self).remaining_ms == 0,
            final(self).sample_count == 0,
            *final(self) == recording_step(*old(self), RecordingCall::Reset),
    {
        self.state = RecordingStateEnum::Idle;
        self.remaining_ms = 0;
        self.sample_count = 0;
    }
}

/// The countdown never increases the remaining time, and enough elapsed
/// time always brings it to zero.
pub proof fn law_countdown_monotone(remaining: u32, elapsed: u32)
    ensures
        countdown(remaining, elapsed) <= remaining,
        elapsed >= remaining ==> countdown(remaining, elapsed) == 0,
        countdown(countdown(remaining, elapsed), 0) == countdown(remaining, elapsed),
{
}

/// Splitting elapsed time into two ticks counts down exactly as one tick
/// of the total would.
pub proof fn law_countdown_additive(remaining: u32, e1: u32, e2: u32)
    requires
        e1 + e2 <= u32::MAX,
    ensures
        countdown(countdown(remaining, e1), e2) == countdown(remaining, (e1 + e2) as u32),
{
}

// ── Synthesis modes ──────────────────────────────────────────────────────────

/// Waveshaping transfer function applied to the synthesis output.
#[derive(Debug, Clone, Copy, PartialEq, Eq, Structural)]
pub enum WaveshapeMode {
    Sine,
    Square,
    Triangle,
    Sawtooth,
    SoftClip,
}

/// Numeric code of a waveshape mode, as stored in the shared atomic state.
pub open spec fn waveshape_code(m: WaveshapeMode) -> u32 {
    match m {
        WaveshapeMode::Sine => 0,
        WaveshapeMode::Square => 1,
        WaveshapeMode::Triangle => 2,
        WaveshapeMode::Sawtooth => 3,
        WaveshapeMode::SoftClip => 4,
    }
}

impl WaveshapeMode {
    /// Decode a stored mode; unknown codes fall back to `Sine`.
    pub fn from_u32(v: u32) -> (r: Self)
        ensures
            v <= 4 ==> waveshape_code(r) == v,
            v > 4 ==> r == WaveshapeMode::Sine,
    {
        match v {
            1 => WaveshapeMode::Square,
            2 => WaveshapeMode::Triangle,
            3 => WaveshapeMode::Sawtooth,
            4 => WaveshapeMode::SoftClip,
            _ => WaveshapeMode::Sine,
        }
    }

    /// The numeric code under which the mode is stored.
    pub fn to_u32(self) -> (r: u32)
        ensures
            r == waveshape_code(self),
    {
        match self {
            WaveshapeMode::Sine => 0,
            WaveshapeMode::Square => 1,
            WaveshapeMode::Triangle => 2,
            WaveshapeMode::Sawtooth => 3,
            WaveshapeMode::SoftClip => 4,
        }
    }
}

/// Active-denial strategy.
#[derive(Debug, Clone, Copy, PartialEq, Eq, Structural)]
pub enum DenialMode {
    Off,
    AntiPhase,
    NoiseMask,
    PureTone,
    Sweep,
}

/// Numeric code of a denial mode, as stored in the shared atomic state.
pub open spec fn denial_code(m: DenialMode) -> u32 {
    match m {
        DenialMode::Off => 0,
        DenialMode::AntiPhase => 1,
        DenialMode::NoiseMask => 2,
        DenialMode::PureTone => 3,
        DenialMode::Sweep => 4,
    }
}

impl DenialMode {
    /// Decode a stored mode; unknown codes fall back to `Off`.
    pub fn from_u32(v: u32) -> (r: Self)
        ensures
            v <= 4 ==> denial_code(r) == v,
            v > 4 ==> r == DenialMode::Off,
    {
        match v {
            1 => DenialMode::AntiPhase,
            2 => DenialMode::NoiseMask,
            3 => DenialMode::PureTone,
            4 => DenialMode::Sweep,
            _ => DenialMode::Off,
        }
    }

    /// The numeric code under which the mode is stored.
    pub fn to_u32(self) -> (r: u32)
        ensures
            r == denial_code(self),
    {
        match self {
            DenialMode::Off => 0,
            DenialMode::AntiPhase => 1,
            DenialMode::NoiseMask => 2,
            DenialMode::PureTone => 3,
            DenialMode::Sweep => 4,
        }
    }
}

/// Storing a mode as its code and decoding it gives the mode back, and
/// distinct modes have distinct codes.
pub proof fn law_mode_codes_roundtrip(w: WaveshapeMode, w2: WaveshapeMode, d: DenialMode, d2: DenialMode)
    ensures
        waveshape_code(w) <= 4,
        denial_code(d) <= 4,
        waveshape_code(w) == waveshape_code(w2) ==> w == w2,
        denial_code(d) == denial_code(d2) ==> d == d2,
{
}

// ── Display constants ────────────────────────────────────────────────────────

pub const WATERFALL_DISPLAY_COLS: usize = 512;
pub const WATERFALL_DISPLAY_ROWS: usize = 128;
pub const WATERFALL_DISPLAY_CELLS: usize = WATERFALL_DISPLAY_COLS * WATERFALL_DISPLAY_ROWS;

/// Rows of the GPU waterfall texture.
pub const WATERFALL_ROWS: usize = 128;
/// Frequency bins per row of the GPU waterfall texture.
pub const WATERFALL_BINS: usize = 512;
/// Cells of the GPU waterfall texture.
pub const WATERFALL_CELLS: usize = WATERFALL_BINS * WATERFALL_ROWS;

/// Copy a GPU waterfall frame (RGBA cells, `WATERFALL_BINS` columns ×
/// `WATERFALL_ROWS` rows) into the display buffer, which maps it 1:1. A
/// frame too short to hold the texture is ignored.
pub fn update_waterfall(display: &mut Vec<u32>, gpu_rgba: &[u32])
    ensures
        gpu_rgba@.len() < WATERFALL_CELLS ==> final(display)@ == old(display)@,
        gpu_rgba@.len() >= WATERFALL_CELLS ==> final(display)@ == gpu_rgba@.subrange(0, WATERFALL_DISPLAY_CELLS as int),
{
    if gpu_rgba.len() < WATERFALL_CELLS {
        return;
    }
    display.clear();
    for i in 0..WATERFALL_DISPLAY_CELLS
        invariant
            gpu_rgba@.len() >= WATERFALL_CELLS,
            display@ == gpu_rgba@.subrange(0, i as int),
    {
        display.push(gpu_rgba[i]);
        assert(display@ =~= gpu_rgba@.subrange(0, i + 1));
    }
}

} // verus!
