//! The RTL-SDR radio tuner: demodulation modes and the keyboard controls
//! (tuning 10 kHz – 300 MHz in 100 Hz or 1 MHz steps, RF gain, audio gain).

use vstd::prelude::*;

verus! {

/// Demodulation scheme selected in the tuner.
#[derive(Debug, Clone, Copy, PartialEq, Eq, Structural)]
pub enum Modulation {
    AM,
    NFM,
    WFM,
    LSB,
    USB,
}

impl Modulation {
    /// Short display label of the scheme.
    pub fn as_str(&self) -> (r: &'static str)
        ensures
            *self == Modulation::AM ==> r@ == "AM"@,
            *self == Modulation::NFM ==> r@ == "NFM"@,
            *self == Modulation::WFM ==> r@ == "WFM"@,
            *self == Modulation::LSB ==> r@ == "LSB"@,
            *self == Modulation::USB ==> r@ == "USB"@,
    {
        match self {
            Modulation::AM => "AM",
            Modulation::NFM => "NFM",
            Modulation::WFM => "WFM",
            Modulation::LSB => "LSB",
            Modulation::USB => "USB",
        }
    }

    /// Channel bandwidth of the scheme in Hz.
    pub fn bandwidth(&self) -> (r: u32)
        ensures
            r == match *self {
                Modulation::AM => 10000u32,
                Modulation::NFM => 12500u32,
                Modulation::WFM => 200000u32,
                Modulation::LSB | Modulation::USB => 3000u32,
            },
    {
        match self {
            Modulation::AM => 10_000,
            Modulation::NFM => 12_500,
            Modulation::WFM => 200_000,
            Modulation::LSB | Modulation::USB => 3_000,
        }
    }
}

/// Lowest tunable frequency (10 kHz).
pub const MIN_FREQ_HZ: u64 = 10_000;
/// Highest tunable frequency (300 MHz).
pub const MAX_FREQ_HZ: u64 = 300_000_000;
/// Fine tuning step (100 Hz).
pub const STEP_FINE_HZ: u64 = 100;
/// Coarse tuning step (1 MHz).
pub const STEP_COARSE_HZ: u64 = 1_000_000;
/// Highest RF gain (dB).
pub const MAX_GAIN_DB: u32 = 50;
/// Highest audio gain, in tenths (3.0).
pub const MAX_AUDIO_GAIN_TENTHS: u32 = 30;

/// A key press as the tuner sees it.
#[derive(Debug, Clone, Copy, PartialEq, Eq, Structural)]
pub enum TunerKey {
    Char { c: char, shift: bool },
    Right,
    Left,
    Up,
    Down,
    Other,
}

/// What the host has to do after a key press.
#[derive(Debug, Clone, Copy, PartialEq, Eq, Structural)]
pub enum TunerEffect {
    /// Nothing to tell the device.
    Nothing,
    /// Retune the device to the new frequency.
    SetFrequency,
    /// Set the device gain to the current gain.
    SetGain,
    /// Log the device information.
    ShowDeviceInfo,
}

/// The tuner's controls.
#[derive(Debug, Clone, Copy)]
pub struct TunerControls {
    pub frequency_hz: u64,
    pub modulation: Modulation,
    pub gain_db: u32,
    /// Audio gain in tenths (10 = unity).
    pub audio_gain_tenths: u32,
    pub running: bool,
}

/// `f` clamped to the tunable range.
pub open spec fn clamp_freq(f: int) -> int {
    if f < MIN_FREQ_HZ {
        MIN_FREQ_HZ as int
    } else if f > MAX_FREQ_HZ {
        MAX_FREQ_HZ as int
    } else {
        f
    }
}

impl TunerControls {
    /// Start-up state: 101.1 MHz WFM, 30 dB gain, unity audio gain.
    pub fn new() -> (r: Self)
        ensures
            r.frequency_hz == 101_100_000,
            r.modulation == Modulation::WFM,
            r.gain_db == 30,
            r.audio_gain_tenths == 10,
            r.running,
    {
        TunerControls { frequency_hz: 101_100_000, modulation: Modulation::WFM, gain_db: 30, audio_gain_tenths: 10, running: true }
    }

    /// Move the frequency by `delta_hz` (up or down), staying within
    /// 10 kHz – 300 MHz.
    pub fn tune(&mut self, delta_hz: u64, up: bool)
        requires
            old(self).frequency_hz <= MAX_FREQ_HZ,
            delta_hz <= MAX_FREQ_HZ,
        ensures
            final(self).frequency_hz == clamp_freq(
                if up { old(self).frequency_hz + delta_hz } else { old(self).frequency_hz - delta_hz },
            ),
            final(self).modulation == old(self).modulation,
            final(self).gain_db == old(self).gain_db,
            final(self).audio_gain_tenths == old(self).audio_gain_tenths,
            final(self).running == old(self).running,
    {
        let f = if up {
            self.frequency_hz + delta_hz
        } else if self.frequency_hz >= delta_hz {
            self.frequency_hz - delta_hz
        } else {
            0
        };
        self.frequency_hz = if f < MIN_FREQ_HZ {
            MIN_FREQ_HZ
        } else if f > MAX_FREQ_HZ {
            MAX_FREQ_HZ
        } else {
            f
        };
    }

    /// Change the RF gain by one dB up or down, within 0 – 50 dB.
    pub fn adjust_gain(&mut self, up: bool)
        requires
            old(self).gain_db <= MAX_GAIN_DB,
        ensures
            final(self).gain_db == (if up {
                if old(self).gain_db < MAX_GAIN_DB { old(self).gain_db + 1 } else { MAX_GAIN_DB as int }
            } else {
                if old(self).gain_db > 0 { old(self).gain_db - 1 } else { 0 }
            }),
            final(self).frequency_hz == old(self).frequency_hz,
            final(self).modulation == old(self).modulation,
            final(self).audio_gain_tenths == old(self).audio_gain_tenths,
            final(self).running == old(self).running,
    {
        if up {
            if self.gain_db < MAX_GAIN_DB {
                self.gain_db = self.gain_db + 1;
            }
        } else if self.gain_db > 0 {
            self.gain_db = self.gain_db - 1;
        }
    }

    /// React to a key press: q quits; → / l and ← / h tune by 100 Hz;
    /// shifted L or H tune up by 1 MHz; ↑ / k and ↓ / j change the gain;
    /// 1–5 select AM, NFM, WFM, LSB, USB; a / z raise and lower the audio
    /// gain by a tenth (0 – 3.0); r asks for the device information.
    pub fn on_key(&mut self, key: TunerKey) -> (r: TunerEffect)
        requires
            old(self).frequency_hz <= MAX_FREQ_HZ,
            old(self).gain_db <= MAX_GAIN_DB,
            old(self).audio_gain_tenths <= MAX_AUDIO_GAIN_TENTHS,
        ensures
            final(self).frequency_hz <= MAX_FREQ_HZ,
            old(self).frequency_hz >= MIN_FREQ_HZ ==> final(self).frequency_hz >= MIN_FREQ_HZ,
            final(self).gain_db <= MAX_GAIN_DB,
            final(self).audio_gain_tenths <= MAX_AUDIO_GAIN_TENTHS,
            match key {
                TunerKey::Char { c, shift } => if c == 'q' {
                    !final(self).running && r == TunerEffect::Nothing && final(self).frequency_hz == old(
                        self,
                    ).frequency_hz
                } else if c == 'l' {
                    r == TunerEffect::SetFrequency && final(self).frequency_hz == clamp_freq(
                        old(self).frequency_hz + STEP_FINE_HZ,
                    )
                } else if c == 'h' {
                    r == TunerEffect::SetFrequency && final(self).frequency_hz == clamp_freq(
                        old(self).frequency_hz - STEP_FINE_HZ,
                    )
                } else if c == 'L' || c == 'H' {
                    if shift {
                        r == TunerEffect::SetFrequency && final(self).frequency_hz == clamp_freq(
                            old(self).frequency_hz + STEP_COARSE_HZ,
                        )
                    } else {
                        r == TunerEffect::Nothing && *final(self) == *old(self)
                    }
                } else if c == 'k' || c == 'j' {
                    r == TunerEffect::SetGain && final(self).gain_db == (if c == 'k' {
                        if old(self).gain_db < MAX_GAIN_DB { old(self).gain_db + 1 } else { MAX_GAIN_DB as int }
                    } else {
                        if old(self).gain_db > 0 { old(self).gain_db - 1 } else { 0 }
                    })
                } else if c == '1' || c == '2' || c == '3' || c == '4' || c == '5' {
                    &&& r == TunerEffect::SetGain
                    &&& final(self).modulation == (if c == '1' {
                        Modulation::AM
                    } else if c == '2' {
                        Modulation::NFM
                    } else if c == '3' {
                        Modulation::WFM
                    } else if c == '4' {
                        Modulation::LSB
                    } else {
                        Modulation::USB
                    })
                    &&& final(self).frequency_hz == old(self).frequency_hz
                } else if c == 'a' {
                    r == TunerEffect::Nothing && final(self).audio_gain_tenths == (if old(self).audio_gain_tenths
                        < MAX_AUDIO_GAIN_TENTHS {
                        old(self).audio_gain_tenths + 1
                    } else {
                        MAX_AUDIO_GAIN_TENTHS as int
                    })
                } else if c == 'z' {
                    r == TunerEffect::Nothing && final(self).audio_gain_tenths == (if old(self).audio_gain_tenths
                        > 0 {
                        old(self).audio_gain_tenths - 1
                    } else {
                        0
                    })
                } else if c == 'r' {
                    r == TunerEffect::ShowDeviceInfo && *final(self) == *old(self)
                } else {
                    r == TunerEffect::Nothing && *final(self) == *old(self)
                },
                TunerKey::Right => r == TunerEffect::SetFrequency && final(self).frequency_hz == clamp_freq(
                    old(self).frequency_hz + STEP_FINE_HZ,
                ),
                TunerKey::Left => r == TunerEffect::SetFrequency && final(self).frequency_hz == clamp_freq(
                    old(self).frequency_hz - STEP_FINE_HZ,
                ),
                TunerKey::Up => r == TunerEffect::SetGain && final(self).gain_db == (if old(self).gain_db
                    < MAX_GAIN_DB {
                    old(self).gain_db + 1
                } else {
                    MAX_GAIN_DB as int
                }),
                TunerKey::Down => r == TunerEffect::SetGain && final(self).gain_db == (if old(self).gain_db > 0 {
                    old(self).gain_db - 1
                } else {
                    0
                }),
                TunerKey::Other => r == TunerEffect::Nothing && *final(self) == *old(self),
            },
    {
        match key {
            TunerKey::Char { c, shift } => {
                if c == 'q' {
                    self.running = false;
                    TunerEffect::Nothing
                } else if c == 'l' {
                    self.tune(STEP_FINE_HZ, true);
                    TunerEffect::SetFrequency
                } else if c == 'h' {
                    self.tune(STEP_FINE_HZ, false);
                    TunerEffect::SetFrequency
                } else if c == 'L' || c == 'H' {
                    if shift {
                        self.tune(STEP_COARSE_HZ, true);
                        TunerEffect::SetFrequency
                    } else {
                        TunerEffect::Nothing
                    }
                } else if c == 'k' {
                    self.adjust_gain(true);
                    TunerEffect::SetGain
                } else if c == 'j' {
                    self.adjust_gain(false);
                    TunerEffect::SetGain
                } else if c == '1' {
                    self.modulation = Modulation::AM;
                    TunerEffect::SetGain
                } else if c == '2' {
                    self.modulation = Modulation::NFM;
                    TunerEffect::SetGain
                } else if c == '3' {
                    self.modulation = Modulation::WFM;
                    TunerEffect::SetGain
                } else if c == '4' {
                    self.modulation = Modulation::LSB;
                    TunerEffect::SetGain
                } else if c == '5' {
                    self.modulation = Modulation::USB;
                    TunerEffect::SetGain
                } else if c == 'a' {
                    if self.audio_gain_tenths < MAX_AUDIO_GAIN_TENTHS {
                        self.audio_gain_tenths = self.audio_gain_tenths + 1;
                    }
                    TunerEffect::Nothing
                } else if c == 'z' {
                    if self.audio_gain_tenths > 0 {
                        self.audio_gain_tenths = self.audio_gain_tenths - 1;
                    }
                    TunerEffect::Nothing
                } else if c == 'r' {
                    TunerEffect::ShowDeviceInfo
                } else {
                    TunerEffect::Nothing
                }
            },
            TunerKey::Right => {
                self.tune(STEP_FINE_HZ, true);
                TunerEffect::SetFrequency
            },
            TunerKey::Left => {
                self.tune(STEP_FINE_HZ, false);
                TunerEffect::SetFrequency
            },
            TunerKey::Up => {
                self.adjust_gain(true);
                TunerEffect::SetGain
            },
            TunerKey::Down => {
                self.adjust_gain(false);
                TunerEffect::SetGain
            },
            TunerKey::Other => TunerEffect::Nothing,
        }
    }
}

} // verus!
