use synesthesia::latency::{LatencyBudget, PipelineLatency, StageStats};
use synesthesia::sync::{ClockSync, FrameTiming, PipelineSynchronizer};

#[test]
fn test_synchronizer_creation() {
    let sync = PipelineSynchronizer::new(35);
    assert_eq!(sync.current_sequence(), 0);
    assert_eq!(sync.target_duration(), 35_000_000);
}

#[test]
fn test_sequence_generation() {
    let mut sync = PipelineSynchronizer::new(35);

    let seq1 = sync.next_sequence();
    let seq2 = sync.next_sequence();
    let seq3 = sync.next_sequence();

    assert_eq!(seq1, 1);
    assert_eq!(seq2, 2);
    assert_eq!(seq3, 3);
}

#[test]
fn sync_points_and_stage_latency() {
    let mut sync = PipelineSynchronizer::new(35);
    let _ = sync.next_sequence();
    let point1 = sync.record_sync_at("capture", 1_000);
    let point2 = sync.record_sync_at("processing", 11_000_000);
    assert_eq!(point1.sequence, point2.sequence);
    assert_eq!(point1.stage, "capture");
    assert!(point2.timestamp_ns > point1.timestamp_ns);

    let latency = sync.stage_latency("capture", "processing", 1);
    assert_eq!(latency, Some(10_999_000));
    assert_eq!(sync.stage_latency("processing", "capture", 1), Some(0));
    assert_eq!(sync.stage_latency("capture", "output", 1), None);
    assert_eq!(sync.stage_latency("capture", "processing", 2), None);

    let _ = sync.record_sync_at("output", 20_000_000);
    assert_eq!(sync.total_latency(1), Some(19_999_000));
    let _ = sync.next_sequence();
    let _ = sync.record_sync_at("capture", 30_000_000);
    assert_eq!(sync.get_sequence_points(1).len(), 3);
    assert_eq!(sync.get_sequence_points(2).len(), 1);
    assert_eq!(sync.get_sequence_points(2)[0].timestamp_ns, 30_000_000);
    sync.reset();
    assert_eq!(sync.current_sequence(), 0);
    assert!(sync.get_sequence_points(1).is_empty());
}

#[test]
fn first_point_of_a_stage_counts() {
    let mut sync = PipelineSynchronizer::new(10);
    let _ = sync.next_sequence();
    let _ = sync.record_sync_at("capture", 100);
    let _ = sync.record_sync_at("capture", 500);
    let _ = sync.record_sync_at("output", 900);
    assert_eq!(sync.total_latency(1), Some(800));
}

#[test]
fn sync_log_keeps_last_thousand_points() {
    let mut sync = PipelineSynchronizer::new(35);
    let _ = sync.next_sequence();
    for t in 0..1005u64 {
        let _ = sync.record_sync_at("tick", t);
    }
    let pts = sync.get_sequence_points(1);
    assert_eq!(pts.len(), 1000);
    assert_eq!(pts[0].timestamp_ns, 5);
    assert_eq!(pts[999].timestamp_ns, 1004);
}

#[test]
fn recorded_clock_points_move_forward() {
    let mut sync = PipelineSynchronizer::new(35);
    let _ = sync.next_sequence();
    let a = sync.record_sync("capture");
    let b = sync.record_sync("processing");
    assert!(b.timestamp_ns >= a.timestamp_ns);
    assert!(sync.stage_latency("capture", "processing", 1).is_some());
    let start = sync.now_ns();
    assert!(sync.is_on_schedule(start));
}

#[test]
fn frame_budget() {
    let sync = PipelineSynchronizer::new(35);
    assert_eq!(sync.frame_slack_ns(5_000_000), 30_000_000);
    assert_eq!(sync.frame_slack_ns(40_000_000), 0);
    assert!(sync.within_budget(34_999_999));
    assert!(!sync.within_budget(35_000_000));
}

#[test]
fn test_clock_sync() {
    let mut clock = ClockSync::new(3);

    clock.set_offset(0, 100);
    clock.set_offset(1, -50);

    assert_eq!(clock.offset(0), 100);
    assert_eq!(clock.offset(1), -50);
    assert_eq!(clock.offset(2), 0);
    clock.set_offset(7, 1);
    assert_eq!(clock.offset(7), 0);
    assert_eq!(clock.num_devices(), 3);
}

#[test]
fn frame_timing_carries_sequence() {
    let timing = FrameTiming { sequence: 1, capture_start_ns: 0, processing_start_ns: 5, output_time_ns: 9 };
    let copy = timing;
    assert_eq!(copy.sequence, 1);
}

#[test]
fn test_latency_tracker_creation() {
    let tracker = PipelineLatency::new(35);
    assert_eq!(tracker.target(), 35);
    assert!(!tracker.exceeds_target());
}

#[test]
fn test_latency_recording() {
    let mut tracker = PipelineLatency::new(35);

    tracker.record_frame(10_000_000);
    tracker.record_frame(20_000_000);
    tracker.record_frame(30_000_000);

    let stats = tracker.stats();
    assert_eq!(stats.count, 3);
    assert!((stats.min_ns as f64 / 1_000_000.0 - 10.0).abs() < 0.01);
    assert!((stats.max_ns as f64 / 1_000_000.0 - 30.0).abs() < 0.01);
}

#[test]
fn test_stage_recording() {
    let mut tracker = PipelineLatency::new(35);

    tracker.record_stage("rf_capture", 5_000_000);
    tracker.record_stage("dsp", 10_000_000);
    tracker.record_stage("rf_capture", 6_000_000);

    let names = tracker.stage_names();
    assert!(names.contains(&"rf_capture".to_string()));
    assert!(names.contains(&"dsp".to_string()));

    let stats = tracker.stage_stats("rf_capture");
    assert_eq!(stats.count, 2);
}

#[test]
fn test_latency_budget() {
    let budget = LatencyBudget::default();
    assert_eq!(budget.total_ms, 35);
    assert!(budget.rf_capture_ms > 0);
    assert!(budget.ml_inference_ms > 0);
}

#[test]
fn test_stage_stats() {
    let stats = StageStats {
        count: 100,
        min_ns: 1_000_000,
        max_ns: 50_000_000,
        avg_ns: 10_000_000,
        p50_ns: 8_000_000,
        p95_ns: 30_000_000,
        p99_ns: 45_000_000,
    };

    let s = stats.to_string();
    assert!(s.contains("count: 100"));
    assert!(s.contains("avg: 10.00ms"));
    assert_eq!(
        s,
        "StageStats { count: 100, min: 1.00ms, max: 50.00ms, avg: 10.00ms, p50: 8.00ms, p95: 30.00ms, p99: 45.00ms }"
    );
}

#[test]
fn stage_stats_values_and_rounding() {
    let mut tracker = PipelineLatency::new(35);
    for ns in [3u64, 1, 2, 10, 4] {
        tracker.record_stage_at("dsp", ns, 0);
    }
    tracker.record_stage_at("other", 1_000, 0);
    let st = tracker.stage_stats("dsp");
    assert_eq!(st.count, 5);
    assert_eq!((st.min_ns, st.max_ns, st.avg_ns), (1, 10, 4));
    assert_eq!((st.p50_ns, st.p95_ns, st.p99_ns), (3, 10, 10));
    let none = tracker.stage_stats("missing");
    assert_eq!(none.count, 0);
    assert_eq!(none.max_ns, 0);
    let t = StageStats { count: 1, min_ns: 1_234_999, max_ns: 1_235_000, avg_ns: 999_995_000, p50_ns: 0, p95_ns: 5_000, p99_ns: 4_999 };
    let text = t.to_string();
    assert!(text.contains("min: 1.23ms"));
    assert!(text.contains("max: 1.24ms"));
    assert!(text.contains("avg: 1000.00ms"));
    assert!(text.contains("p50: 0.00ms"));
    assert!(text.contains("p95: 0.01ms"));
    assert!(text.contains("p99: 0.00ms"));
}

#[test]
fn stage_names_sorted_and_distinct() {
    let mut tracker = PipelineLatency::new(35);
    for name in ["output", "dsp", "rf_capture", "dsp", "audio", "output"] {
        tracker.record_stage_at(name, 1, 0);
    }
    assert_eq!(tracker.stage_names(), vec!["audio", "dsp", "output", "rf_capture"]);
    tracker.reset();
    assert!(tracker.stage_names().is_empty());
    assert_eq!(tracker.stats().count, 0);
}

#[test]
fn margin_and_target() {
    let mut tracker = PipelineLatency::new(35);
    assert_eq!(tracker.margin(), 35_000_000);
    for _ in 0..20 {
        tracker.record_frame(40_000_000);
    }
    assert!(tracker.exceeds_target());
    assert_eq!(tracker.margin(), -5_000_000);
    let _ = tracker.uptime();
}

use synesthesia::pipeline::{PipelineConfig, PipelineProcessor};

#[test]
fn pipeline_processor_runs_and_measures() {
    let cfg = PipelineConfig::default();
    assert_eq!((cfg.target_latency_ms, cfg.buffer_size, cfg.enable_forensics), (35, 1024, true));
    let mut p = PipelineProcessor::new(cfg);
    assert!(!p.is_running());
    assert_eq!(p.target_latency(), 35);
    assert_eq!(p.buffer_size(), 1024);
    assert!(p.forensics_enabled());
    p.process_event_at(5);
    assert_eq!(p.events_processed(), 0);
    assert_eq!(p.mode(), "ANC");

    p.start_at(1_000_000_000);
    assert!(p.is_running());
    p.process_event_at(1_050_000_000);
    assert_eq!(p.events_processed(), 1);
    assert_eq!(p.measured_latency(), (0, 1));
    p.process_event_at(1_100_000_000);
    assert_eq!(p.measured_latency(), (100, 2));
    assert!(!p.latency_ok());
    assert_eq!(p.mode(), "BYPASS");
    for k in 0..8u64 {
        p.process_event_at(1_100_000_001 + k);
    }
    p.process_event_at(1_200_000_000);
    assert_eq!(p.events_processed(), 11);
    assert_eq!(p.measured_latency(), (200, 11));
    assert!(p.latency_ok());
    p.stop();
    assert!(!p.is_running());
    p.process_event_at(2_000_000_000);
    assert_eq!(p.events_processed(), 11);
}

#[test]
fn pipeline_processor_with_clock() {
    let mut p = PipelineProcessor::new(PipelineConfig::default());
    assert!(p.start().is_ok());
    p.process_event();
    p.process_event();
    assert_eq!(p.events_processed(), 2);
    let _ = p.now_ns();
}

#[test]
fn clock_events_count_while_running() {
    let mut p = PipelineProcessor::new(PipelineConfig::default());
    p.process_event();
    assert_eq!(p.events_processed(), 0);
    assert!(p.start().is_ok());
    for _ in 0..5 {
        p.process_event();
    }
    assert_eq!(p.events_processed(), 5);
    let (_elapsed_ms, events) = p.measured_latency();
    assert!(events == 1 || events <= 5);
}
