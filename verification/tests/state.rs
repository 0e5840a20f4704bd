use synesthesia::config::{AudioConfig, ChronosWidgetConfig, ControlMode, Error, ProcessorConfig, QpcTimer};
use synesthesia::memo::{
    check_memo, delete_at, push_evicting_oldest, push_retaining_latest, MemoError, MEMO_CAPACITY,
    MEMO_MAX_CONTENT_CHARS,
};
use synesthesia::state::{
    DenialMode, FeatureFlags, RecordingState, RecordingStateEnum, WaveshapeMode, RECORDING_WINDOW_MS,
    WATERFALL_DISPLAY_CELLS, WATERFALL_DISPLAY_COLS, WATERFALL_DISPLAY_ROWS,
};
use synesthesia::text::{append_decimal_i64, append_decimal_u64};
use synesthesia::tuner::Modulation;
use synesthesia::twister::{midi_note_name, ChordMode};
use std::collections::VecDeque;

#[test]
fn recording_state_machine() {
    let mut rec = RecordingState::new();
    assert!(rec.is_idle());
    assert_eq!(rec.get_remaining_ms(), 0);
    rec.start_recording();
    assert!(rec.is_recording());
    assert_eq!(rec.get_remaining_ms(), RECORDING_WINDOW_MS);
    assert_eq!(rec.get_remaining_ms(), 30000);
    rec.add_samples(100);
    rec.add_samples(28);
    assert_eq!(rec.get_sample_count(), 128);
    rec.update_timer_ms(10_000);
    assert_eq!(rec.get_remaining_ms(), 20_000);
    assert!(!rec.is_expired());
    rec.update_timer_ms(25_000);
    assert_eq!(rec.get_remaining_ms(), 0);
    assert!(rec.is_expired());
    rec.stop_recording();
    assert!(rec.is_saving());
    assert_eq!(rec.state, RecordingStateEnum::Saving);
    assert_eq!(rec.get_sample_count(), 128);
    rec.reset();
    assert!(rec.is_idle());
    assert_eq!(rec.get_sample_count(), 0);
}

#[test]
fn countdown_in_two_steps_equals_one() {
    let mut a = RecordingState::new();
    let mut b = RecordingState::new();
    a.start_recording();
    b.start_recording();
    a.update_timer_ms(1200);
    a.update_timer_ms(3400);
    b.update_timer_ms(4600);
    assert_eq!(a.get_remaining_ms(), b.get_remaining_ms());
    assert_eq!(a.get_remaining_ms(), 25_400);
}

#[test]
fn mode_codes() {
    assert_eq!(WaveshapeMode::from_u32(0), WaveshapeMode::Sine);
    assert_eq!(WaveshapeMode::from_u32(1), WaveshapeMode::Square);
    assert_eq!(WaveshapeMode::from_u32(2), WaveshapeMode::Triangle);
    assert_eq!(WaveshapeMode::from_u32(3), WaveshapeMode::Sawtooth);
    assert_eq!(WaveshapeMode::from_u32(4), WaveshapeMode::SoftClip);
    assert_eq!(WaveshapeMode::from_u32(99), WaveshapeMode::Sine);
    assert_eq!(DenialMode::from_u32(0), DenialMode::Off);
    assert_eq!(DenialMode::from_u32(1), DenialMode::AntiPhase);
    assert_eq!(DenialMode::from_u32(2), DenialMode::NoiseMask);
    assert_eq!(DenialMode::from_u32(3), DenialMode::PureTone);
    assert_eq!(DenialMode::from_u32(4), DenialMode::Sweep);
    assert_eq!(DenialMode::from_u32(5), DenialMode::Off);
    for v in 0..5u32 {
        assert_eq!(WaveshapeMode::from_u32(v).to_u32(), v);
        assert_eq!(DenialMode::from_u32(v).to_u32(), v);
    }
}

#[test]
fn defaults() {
    let f = FeatureFlags::default();
    assert!(f.enhanced_audio && !f.sparse_pdm && !f.coherence && !f.mamba_siren);
    let a = AudioConfig::default();
    assert_eq!((a.sample_rate, a.channels, a.buffer_size), (192_000, 3, 1024));
    let p = ProcessorConfig::default();
    assert_eq!(p.target_latency_ms, 35);
    assert_eq!(p.buffer_size, 1024);
    assert!(p.enable_forensics && p.enable_metrics);
    assert_eq!(ChronosWidgetConfig::default().update_interval_ms, 16);
    assert_ne!(ControlMode::ANC, ControlMode::Music);
    assert_eq!(WATERFALL_DISPLAY_CELLS, WATERFALL_DISPLAY_COLS * WATERFALL_DISPLAY_ROWS);
}

#[test]
fn error_messages() {
    assert_eq!(Error::Hardware("no dongle".to_string()).to_message(), "Hardware error: no dongle");
    assert_eq!(Error::DSP("fft".to_string()).to_message(), "DSP error: fft");
    assert_eq!(Error::Pipeline("stall".to_string()).to_message(), "Pipeline error: stall");
    assert_eq!(Error::Unknown("?".to_string()).to_message(), "Error: ?");
}

#[test]
fn qpc_timer_reads_the_clock() {
    let t = QpcTimer::new();
    let a = t.now_us();
    // After 2001-09-09 in microseconds since the Unix epoch.
    assert!(a > 1_000_000_000_000_000);
    let b = t.now_us();
    assert!(b + 1_000_000 >= a);
}

#[test]
fn memo_validation() {
    assert_eq!(check_memo("NOTE", "hello"), Ok(()));
    assert_eq!(check_memo("EVIDENCE", ""), Ok(()));
    assert_eq!(check_memo("MANUAL-REC", "x"), Ok(()));
    assert_eq!(check_memo("ANALYSIS", "y"), Ok(()));
    assert_eq!(check_memo("note", "hello"), Err(MemoError::InvalidTag));
    assert_eq!(check_memo("", "hello"), Err(MemoError::InvalidTag));
    let long = "a".repeat(MEMO_MAX_CONTENT_CHARS + 1);
    assert_eq!(check_memo("NOTE", &long), Err(MemoError::ContentTooLong { len: 81 }));
    assert_eq!(check_memo("BOGUS", &long), Err(MemoError::ContentTooLong { len: 81 }));
    let exact = "b".repeat(80);
    assert_eq!(check_memo("NOTE", &exact), Ok(()));
    assert_eq!(MEMO_CAPACITY, 10000);
}

#[test]
fn bounded_stores() {
    let mut s: VecDeque<u32> = VecDeque::new();
    for i in 0..5u32 {
        push_evicting_oldest(&mut s, i, 3);
    }
    assert_eq!(s.iter().copied().collect::<Vec<u32>>(), vec![2, 3, 4]);
    let mut t: VecDeque<u32> = VecDeque::new();
    for i in 0..5u32 {
        push_retaining_latest(&mut t, i, 3);
    }
    assert_eq!(t, s);
    assert_eq!(delete_at(&mut s, 1), Ok(()));
    assert_eq!(s.iter().copied().collect::<Vec<u32>>(), vec![2, 4]);
    assert_eq!(delete_at(&mut s, 2), Err(MemoError::IndexOutOfBounds { index: 2, len: 2 }));
}

#[test]
fn decimal_text() {
    let mut s = String::from("x=");
    append_decimal_u64(&mut s, 0);
    assert_eq!(s, "x=0");
    let mut s = String::new();
    append_decimal_u64(&mut s, u64::MAX);
    assert_eq!(s, "18446744073709551615");
    let mut s = String::new();
    append_decimal_i64(&mut s, -42);
    assert_eq!(s, "-42");
    let mut s = String::new();
    append_decimal_i64(&mut s, i64::MIN);
    assert_eq!(s, "-9223372036854775808");
}

#[test]
fn note_names() {
    assert_eq!(midi_note_name(69), "A4");
    assert_eq!(midi_note_name(60), "C4");
    assert_eq!(midi_note_name(61), "C#4");
    assert_eq!(midi_note_name(0), "C-1");
    assert_eq!(midi_note_name(127), "G9");
    assert_eq!(midi_note_name(-1), "B-2");
    assert_eq!(midi_note_name(-12), "C-2");
    assert_eq!(midi_note_name(200), "G#15");
}

#[test]
fn chord_offsets() {
    assert_eq!(ChordMode::Major.semitone_offsets(), [0, 4, 7]);
    assert_eq!(ChordMode::Minor.semitone_offsets(), [0, 3, 7]);
    assert_eq!(ChordMode::Unison.semitone_offsets(), [0, 0, 0]);
}

#[test]
fn modulation_labels_and_bandwidths() {
    assert_eq!(Modulation::AM.as_str(), "AM");
    assert_eq!(Modulation::NFM.as_str(), "NFM");
    assert_eq!(Modulation::WFM.as_str(), "WFM");
    assert_eq!(Modulation::LSB.as_str(), "LSB");
    assert_eq!(Modulation::USB.as_str(), "USB");
    assert_eq!(Modulation::AM.bandwidth(), 10_000);
    assert_eq!(Modulation::NFM.bandwidth(), 12_500);
    assert_eq!(Modulation::WFM.bandwidth(), 200_000);
    assert_eq!(Modulation::LSB.bandwidth(), 3_000);
    assert_eq!(Modulation::USB.bandwidth(), 3_000);
}

use synesthesia::tuner::{TunerControls, TunerEffect, TunerKey, MAX_FREQ_HZ, MIN_FREQ_HZ};

#[test]
fn tuner_keys() {
    let mut t = TunerControls::new();
    assert_eq!(t.frequency_hz, 101_100_000);
    assert_eq!(t.on_key(TunerKey::Right), TunerEffect::SetFrequency);
    assert_eq!(t.frequency_hz, 101_100_100);
    assert_eq!(t.on_key(TunerKey::Char { c: 'h', shift: false }), TunerEffect::SetFrequency);
    assert_eq!(t.frequency_hz, 101_100_000);
    assert_eq!(t.on_key(TunerKey::Char { c: 'L', shift: false }), TunerEffect::Nothing);
    assert_eq!(t.frequency_hz, 101_100_000);
    assert_eq!(t.on_key(TunerKey::Char { c: 'H', shift: true }), TunerEffect::SetFrequency);
    assert_eq!(t.frequency_hz, 102_100_000);
    assert_eq!(t.on_key(TunerKey::Char { c: '1', shift: false }), TunerEffect::SetGain);
    assert_eq!(t.modulation, Modulation::AM);
    assert_eq!(t.on_key(TunerKey::Char { c: '5', shift: false }), TunerEffect::SetGain);
    assert_eq!(t.modulation, Modulation::USB);
    for _ in 0..30 {
        t.on_key(TunerKey::Up);
    }
    assert_eq!(t.gain_db, 50);
    t.on_key(TunerKey::Char { c: 'j', shift: false });
    assert_eq!(t.gain_db, 49);
    for _ in 0..40 {
        t.on_key(TunerKey::Char { c: 'a', shift: false });
    }
    assert_eq!(t.audio_gain_tenths, 30);
    for _ in 0..40 {
        t.on_key(TunerKey::Char { c: 'z', shift: false });
    }
    assert_eq!(t.audio_gain_tenths, 0);
    assert_eq!(t.on_key(TunerKey::Char { c: 'r', shift: false }), TunerEffect::ShowDeviceInfo);
    assert_eq!(t.on_key(TunerKey::Other), TunerEffect::Nothing);
    assert!(t.running);
    t.on_key(TunerKey::Char { c: 'q', shift: false });
    assert!(!t.running);
}

#[test]
fn tuner_frequency_limits() {
    let mut t = TunerControls::new();
    t.frequency_hz = MIN_FREQ_HZ + 50;
    t.on_key(TunerKey::Left);
    assert_eq!(t.frequency_hz, MIN_FREQ_HZ);
    t.frequency_hz = MAX_FREQ_HZ - 10;
    t.on_key(TunerKey::Char { c: 'L', shift: true });
    assert_eq!(t.frequency_hz, MAX_FREQ_HZ);
    t.frequency_hz = 50;
    t.tune(100, false);
    assert_eq!(t.frequency_hz, MIN_FREQ_HZ);
}

#[test]
fn tx_delta_history_keeps_last_hundred() {
    let mut history: VecDeque<f32> = VecDeque::new();
    push_retaining_latest(&mut history, 12.5f32, 100);
    assert_eq!(history.len(), 1);
    assert_eq!(history[0], 12.5);
    let mut history: VecDeque<f32> = VecDeque::new();
    for i in 0..105 {
        push_retaining_latest(&mut history, i as f32, 100);
    }
    assert_eq!(history.len(), 100);
    assert_eq!(history[0], 5.0);
    assert_eq!(history[99], 104.0);
}

#[test]
fn recording_timer_stays_in_window() {
    let mut r = RecordingState::new();
    let check = |r: &RecordingState| {
        assert!(r.get_remaining_ms() <= RECORDING_WINDOW_MS);
        if r.is_idle() {
            assert_eq!(r.get_remaining_ms(), 0);
        }
    };
    check(&r);
    r.update_timer_ms(5);
    check(&r);
    r.stop_recording();
    check(&r);
    r.start_recording();
    check(&r);
    r.update_timer_ms(10_000);
    r.add_samples(7);
    check(&r);
    assert_eq!(r.get_remaining_ms(), 20_000);
    r.stop_recording();
    r.update_timer_ms(u32::MAX);
    check(&r);
    r.reset();
    check(&r);
}
