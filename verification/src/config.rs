//! Integer configuration records with their defaults, the control modes,
//! the error type and the microsecond timer.

use vstd::prelude::*;

verus! {

/// Audio capture configuration.
#[derive(Debug, Clone)]
pub struct AudioConfig {
    pub sample_rate: u32,
    pub channels: u16,
    pub buffer_size: usize,
}

impl Default for AudioConfig {
    /// 192 kHz, three channels, 1024-sample buffers.
    fn default() -> (r: Self)
        ensures
            r.sample_rate == 192000,
            r.channels == 3,
            r.buffer_size == 1024,
    {
        AudioConfig { sample_rate: 192_000, channels: 3, buffer_size: 1024 }
    }
}

/// Control mode of the output stage.
#[derive(Debug, Clone, Copy, PartialEq, Eq, Structural)]
pub enum ControlMode {
    ANC,
    Silence,
    Music,
}

/// Pipeline processor configuration.
#[derive(Debug, Clone)]
pub struct ProcessorConfig {
    /// Target latency (ms)
    pub target_latency_ms: u32,
    /// Buffer size (samples)
    pub buffer_size: usize,
    /// Enable forensics logging
    pub enable_forensics: bool,
    /// Enable metrics collection
    pub enable_metrics: bool,
}

impl Default for ProcessorConfig {
    /// 35 ms target, 1024-sample buffers, forensics and metrics on.
    fn default() -> (r: Self)
        ensures
            r.target_latency_ms == 35,
            r.buffer_size == 1024,
            r.enable_forensics,
            r.enable_metrics,
    {
        ProcessorConfig { target_latency_ms: 35, buffer_size: 1024, enable_forensics: true, enable_metrics: true }
    }
}

/// Configuration for the Chronos widget.
#[derive(Clone, Debug)]
pub struct ChronosWidgetConfig {
    pub update_interval_ms: u64,
}

impl Default for ChronosWidgetConfig {
    /// Refresh every 16 ms (~60 FPS).
    fn default() -> (r: Self)
        ensures
            r.update_interval_ms == 16,
    {
        ChronosWidgetConfig { update_interval_ms: 16 }
    }
}

/// Errors of the processing pipeline, each with a message.
#[derive(Debug)]
pub enum Error {
    Hardware(String),
    DSP(String),
    Pipeline(String),
    Unknown(String),
}

impl Error {
    /// The message shown to the user: the category followed by the detail.
    pub fn to_message(&self) -> (r: String)
        ensures
            self matches Error::Hardware(m) ==> r@ == "Hardware error: "@ + m@,
            self matches Error::DSP(m) ==> r@ == "DSP error: "@ + m@,
            self matches Error::Pipeline(m) ==> r@ == "Pipeline error: "@ + m@,
            self matches Error::Unknown(m) ==> r@ == "Error: "@ + m@,
    {
        match self {
            Error::Hardware(msg) => {
                let mut s = String::from_str("Hardware error: ");
                s.append(msg.as_str());
                s
            },
            Error::DSP(msg) => {
                let mut s = String::from_str("DSP error: ");
                s.append(msg.as_str());
                s
            },
            Error::Pipeline(msg) => {
                let mut s = String::from_str("Pipeline error: ");
                s.append(msg.as_str());
                s
            },
            Error::Unknown(msg) => {
                let mut s = String::from_str("Error: ");
                s.append(msg.as_str());
                s
            },
        }
    }
}

#[verifier::external_type_specification]
#[verifier::external_body]
pub struct ExSystemTime(std::time::SystemTime);

#[verifier::external_type_specification]
#[verifier::external_body]
pub struct ExSystemTimeError(std::time::SystemTimeError);

/// `std::time::SystemTime::now`: the current wall-clock time. Nothing is
/// claimed about the value.
#[verifier::external_body]
pub(crate) fn system_now() -> std::time::SystemTime {
    std::time::SystemTime::now()
}

/// `std::time::SystemTime::duration_since` applied to the Unix epoch: the
/// time elapsed since 1970, or an error when `t` lies before it. Nothing is
/// claimed about the value.
#[verifier::external_body]
pub(crate) fn duration_since_epoch(
    t: &std::time::SystemTime,
) -> Result<std::time::Duration, std::time::SystemTimeError> {
    t.duration_since(std::time::UNIX_EPOCH)
}

/// `std::time::Duration::as_micros`: the whole number of microseconds in
/// `d`. Nothing is claimed about the value.
#[verifier::external_body]
pub(crate) fn duration_as_micros(d: &std::time::Duration) -> u128 {
    d.as_micros()
}

/// `std::time::Duration::as_secs`: the whole seconds in `d`. Nothing is
/// claimed about the value.
#[verifier::external_body]
pub(crate) fn duration_as_secs(d: &std::time::Duration) -> u64 {
    d.as_secs()
}

/// `std::time::Duration::subsec_nanos`: the fractional part of `d` in
/// nanoseconds, which the documentation gives as less than one billion.
#[verifier::external_body]
pub(crate) fn duration_subsec_nanos(d: &std::time::Duration) -> (r: u32)
    ensures
        r < 1_000_000_000,
{
    d.subsec_nanos()
}

/// The low 64 bits of `n` (what `n as u64` keeps).
pub fn truncate_to_u64(n: u128) -> (r: u64)
    ensures
        r == n % 0x1_0000_0000_0000_0000,
{
    (n % 0x1_0000_0000_0000_0000u128) as u64
}

/// `n`, or `u64::MAX` when it does not fit in 64 bits.
pub fn saturate_to_u64(n: u128) -> (r: u64)
    ensures
        r == (if n > u64::MAX { u64::MAX as u128 } else { n }),
{
    if n > 0xffff_ffff_ffff_ffffu128 {
        0xffff_ffff_ffff_ffffu64
    } else {
        n as u64
    }
}

/// Monotonic microsecond timer for forensic timestamps.
pub struct QpcTimer {
    epoch_qpc: u64,
    frequency: u64,
}

impl QpcTimer {
    pub closed spec fn spec_epoch(&self) -> u64 {
        self.epoch_qpc
    }

    pub closed spec fn spec_frequency(&self) -> u64 {
        self.frequency
    }

    /// A timer counting microseconds (1 MHz tick, epoch 0).
    pub fn new() -> (r: Self)
        ensures
            r.spec_epoch() == 0,
            r.spec_frequency() == 1_000_000,
    {
        QpcTimer { epoch_qpc: 0, frequency: 1_000_000 }
    }

    /// Current time in microseconds since the Unix epoch, read from the
    /// system clock (0 when the clock is set before 1970).
    pub fn now_us(&self) -> u64 {
        let now = system_now();
        match duration_since_epoch(&now) {
            Ok(since) => {
                let micros = duration_as_micros(&since);
                truncate_to_u64(micros)
            },
            Err(_) => 0,
        }
    }
}

} // verus!
