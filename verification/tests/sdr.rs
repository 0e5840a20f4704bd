use synesthesia::sdr::{
    band_for, retune_target, soundcard_harmonic_candidates, SdrAction, SdrBand, SdrEvent, SdrLoop, SdrPhase,
    SdrTuner, TunePlan, IDLE_SLEEP_MS, MAX_REQUEST_HZ, OPEN_RETRY_SLEEP_MS, SDR_DEFAULT_RATE, SDR_FFT_SIZE,
};
use synesthesia::voxel::{room_shell, MaterialKind};

#[test]
fn bands_and_targets() {
    assert_eq!(band_for(23_999_999), SdrBand::Hf);
    assert_eq!(band_for(24_000_000), SdrBand::VhfUhf);
    assert_eq!(retune_target(false, 100_000_123), 100_000_123);
    assert_eq!(retune_target(true, 100_000_000), 100_032_000);
    assert_eq!(retune_target(true, 96_000), 192_000);
    assert_eq!(retune_target(true, 95_999), 0);
    assert_eq!(retune_target(true, 5_000_000_000), 5_000_064_000);
    assert_eq!(retune_target(false, 5_000_000_000), 5_000_000_000);
    assert_eq!(retune_target(true, MAX_REQUEST_HZ), 18_446_744_073_709_440_000);
    assert_eq!(SDR_DEFAULT_RATE, 2_048_000);
    assert_eq!(SDR_FFT_SIZE, 2048);
}

#[test]
fn tuner_follows_requests() {
    let mut t = SdrTuner::open(100_000_000);
    assert_eq!(t.follow(false, 100_000_010), None);
    assert_eq!(t.follow(false, 100_000_011), Some(TunePlan { center_hz: 100_000_011, reconfigure: None }));
    assert_eq!(t.center_hz, 100_000_011);
    assert_eq!(t.follow(false, 7_000_000), Some(TunePlan { center_hz: 7_000_000, reconfigure: Some(SdrBand::Hf) }));
    assert_eq!(t.last_center_hz, 7_000_000);
    assert_eq!(
        t.follow(false, 30_000_000),
        Some(TunePlan { center_hz: 30_000_000, reconfigure: Some(SdrBand::VhfUhf) })
    );
    assert_eq!(
        t.follow(false, 50_000_000),
        Some(TunePlan { center_hz: 50_000_000, reconfigure: Some(SdrBand::VhfUhf) })
    );
}

#[test]
fn capture_loop_lifecycle() {
    let mut l = SdrLoop::new();
    assert_eq!(l.phase, SdrPhase::Idle);
    assert_eq!((l.tuner.center_hz, l.tuner.last_center_hz), (0, 0));
    let off = SdrEvent::Poll { active: false, auto_tune: false, requested_hz: 0 };
    let on = SdrEvent::Poll { active: true, auto_tune: false, requested_hz: 7_100_000 };
    assert_eq!(l.step(off), SdrAction::Sleep { ms: IDLE_SLEEP_MS });
    assert_eq!(l.step(on), SdrAction::Open);
    assert_eq!(l.phase, SdrPhase::Opening);
    assert_eq!(l.step(SdrEvent::OpenFailed), SdrAction::Sleep { ms: OPEN_RETRY_SLEEP_MS });
    assert_eq!(l.phase, SdrPhase::Idle);
    assert_eq!(l.step(on), SdrAction::Open);
    assert_eq!(
        l.step(SdrEvent::Opened { center_hz: 7_100_000 }),
        SdrAction::Configure { band: SdrBand::Hf, center_hz: 7_100_000 }
    );
    assert_eq!(l.step(on), SdrAction::ReadBlock);
    assert_eq!(l.step(SdrEvent::Read { ok: true, empty: false }), SdrAction::Publish);
    assert_eq!(l.step(on), SdrAction::ReadBlock);
    assert_eq!(l.step(SdrEvent::Read { ok: true, empty: true }), SdrAction::Poll);
    let moved = SdrEvent::Poll { active: true, auto_tune: true, requested_hz: 100_000_000 };
    assert_eq!(
        l.step(moved),
        SdrAction::Retune { reconfigure: Some(SdrBand::VhfUhf), center_hz: 100_032_000 }
    );
    assert_eq!(l.step(SdrEvent::Tuned { ok: true }), SdrAction::Poll);
    assert_eq!(l.phase, SdrPhase::Streaming);
    assert_eq!(l.step(moved), SdrAction::ReadBlock);
    assert_eq!(l.step(SdrEvent::Read { ok: false, empty: true }), SdrAction::Poll);
    assert_eq!(l.phase, SdrPhase::Idle);
    // out-of-turn events change nothing
    assert_eq!(l.step(SdrEvent::Tuned { ok: true }), SdrAction::Poll);
    assert_eq!(l.phase, SdrPhase::Idle);
}

#[test]
fn failed_retune_reopens() {
    let mut l = SdrLoop::new();
    let on = SdrEvent::Poll { active: true, auto_tune: false, requested_hz: 90_000_000 };
    l.step(on);
    l.step(SdrEvent::Opened { center_hz: 90_000_000 });
    let far = SdrEvent::Poll { active: true, auto_tune: false, requested_hz: 91_000_000 };
    assert_eq!(l.step(far), SdrAction::Retune { reconfigure: None, center_hz: 91_000_000 });
    assert_eq!(l.step(SdrEvent::Tuned { ok: false }), SdrAction::Poll);
    assert_eq!(l.phase, SdrPhase::Idle);
    assert_eq!(l.step(far), SdrAction::Open);
}

#[test]
fn harmonic_candidates() {
    assert_eq!(
        soundcard_harmonic_candidates(48_000),
        vec![144_000, 192_000, 240_000, 288_000, 336_000, 384_000, 432_000, 480_000]
    );
    assert_eq!(soundcard_harmonic_candidates(500_000_000), vec![1_500_000_000]);
    assert!(soundcard_harmonic_candidates(600_000_000).is_empty());
    assert_eq!(soundcard_harmonic_candidates(200_000_000), vec![600_000_000, 800_000_000, 1_000_000_000, 1_200_000_000, 1_400_000_000, 1_600_000_000]);
    assert_eq!(soundcard_harmonic_candidates(0), vec![0; 8]);
}

#[test]
fn room_shell_materials() {
    let g = room_shell(4, 3, 5);
    assert_eq!(g.dimensions(), (4, 3, 5));
    assert_eq!(*g.get_ref(1, 0, 2).unwrap(), MaterialKind::Concrete);
    assert_eq!(*g.get_ref(1, 2, 2).unwrap(), MaterialKind::Concrete);
    assert_eq!(*g.get_ref(0, 1, 2).unwrap(), MaterialKind::Drywall);
    assert_eq!(*g.get_ref(3, 1, 2).unwrap(), MaterialKind::Drywall);
    assert_eq!(*g.get_ref(1, 1, 0).unwrap(), MaterialKind::Drywall);
    assert_eq!(*g.get_ref(2, 1, 4).unwrap(), MaterialKind::Drywall);
    assert_eq!(*g.get_ref(1, 1, 2).unwrap(), MaterialKind::Air);
    assert_eq!(*g.get_ref(2, 1, 3).unwrap(), MaterialKind::Air);
    let empty = room_shell(0, 3, 3);
    assert_eq!(empty.dimensions(), (0, 3, 3));
}
