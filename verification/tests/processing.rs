use synesthesia::config::ProcessorConfig;
use synesthesia::processing::{FrameReport, ProcessingLoop};

#[test]
fn loop_starts_stopped_and_empty() {
    let l = ProcessingLoop::new(ProcessorConfig::default());
    assert!(!l.is_running());
    assert_eq!(l.events_processed(), 0);
    assert_eq!(l.frame_count(), 0);
    assert_eq!(l.target_latency_ms(), 35);
}

#[test]
fn snapshots_every_hundredth_frame() {
    let mut l = ProcessingLoop::new(ProcessorConfig::default());
    l.begin();
    assert!(l.is_running());
    let mut snapshots = Vec::new();
    for _ in 0..250 {
        let r = l.frame_done(1_000_000);
        if r.forensic_snapshot {
            snapshots.push(r.sequence);
        }
    }
    assert_eq!(snapshots, vec![0, 100, 200]);
    assert_eq!(l.events_processed(), 250);
    // A new run restarts the frame counter but keeps the event count.
    l.stop();
    assert!(!l.is_running());
    l.begin();
    let r = l.frame_done(0);
    assert_eq!(r, FrameReport { sequence: 250, forensic_snapshot: true, over_budget: false });
    assert_eq!(l.frame_count(), 1);
    assert_eq!(l.events_processed(), 251);
}

#[test]
fn latency_budget_is_strict() {
    let mut l = ProcessingLoop::new(ProcessorConfig::default());
    l.begin();
    assert!(!l.frame_done(35_000_000).over_budget);
    assert!(l.frame_done(35_000_001).over_budget);
}

#[test]
fn forensics_off_takes_no_snapshot() {
    let config = ProcessorConfig { target_latency_ms: 10, buffer_size: 512, enable_forensics: false, enable_metrics: true };
    let mut l = ProcessingLoop::new(config);
    l.begin();
    let r = l.frame_done(10_000_001);
    assert_eq!(r, FrameReport { sequence: 0, forensic_snapshot: false, over_budget: true });
}

#[test]
fn test_processor_creation() {
    let config = ProcessorConfig::default();
    let processor = ProcessingLoop::new(config);

    assert!(!processor.is_running());
    assert_eq!(processor.events_processed(), 0);
}

#[test]
fn test_processor_state() {
    let config = ProcessorConfig::default();
    let processor = ProcessingLoop::new(config);

    assert_eq!(processor.events_processed(), 0);
    let first = processor.uptime_ns();
    assert!(processor.uptime_ns() >= first);
}

#[test]
fn test_processor_stop() {
    let config = ProcessorConfig::default();
    let mut processor = ProcessingLoop::new(config);

    processor.stop();

    assert!(!processor.is_running());
}
