use synesthesia::metrics::{LatencyMonitor, MetricsCollector, SNRMetrics};

#[test]
fn test_latency_monitor() {
    let mut monitor = LatencyMonitor::new();

    monitor.record(10_000_000);
    monitor.record(20_000_000);
    monitor.record(30_000_000);

    let stats = monitor.stats();
    assert_eq!(stats.count, 3);
    assert!((stats.min_ns as f64 / 1_000_000.0 - 10.0).abs() < 0.01);
    assert!((stats.max_ns as f64 / 1_000_000.0 - 30.0).abs() < 0.01);
    assert!((stats.avg_ns() as f64 / 1_000_000.0 - 20.0).abs() < 0.01);
}

#[test]
fn test_snr_metrics() {
    let mut metrics = SNRMetrics::new();

    metrics.update_milli_db((50.0f32 * 1000.0) as u64);
    metrics.update_milli_db((60.0f32 * 1000.0) as u64);
    metrics.update_milli_db((55.0f32 * 1000.0) as u64);

    assert!((metrics.current_milli_db() as f32 / 1000.0 - 55.0).abs() < 0.01);
    assert!((metrics.average_milli_db() as f32 / 1000.0 - 55.0).abs() < 0.01);
    assert!((metrics.min_milli_db() as f32 / 1000.0 - 50.0).abs() < 0.01);
    assert!((metrics.max_milli_db() as f32 / 1000.0 - 60.0).abs() < 0.01);
}

#[test]
fn latency_percentiles_of_hundred_samples() {
    let mut monitor = LatencyMonitor::with_capacity(100);
    for i in (1..=100u64).rev() {
        monitor.record(i);
    }
    let s = monitor.stats();
    assert_eq!(s.count, 100);
    assert_eq!((s.min_ns, s.max_ns, s.sum_ns), (1, 100, 5050));
    assert_eq!((s.p50_ns, s.p95_ns, s.p99_ns), (51, 96, 100));
    assert_eq!(s.avg_ns(), 50);
    assert!(monitor.exceeds_target(95));
    assert!(!monitor.exceeds_target(96));
}

#[test]
fn latency_window_drops_oldest_but_keeps_extremes() {
    let mut monitor = LatencyMonitor::with_capacity(2);
    monitor.record(5);
    monitor.record(7);
    monitor.record(9);
    let s = monitor.stats();
    assert_eq!(s.count, 3);
    assert_eq!(s.min_ns, 5);
    assert_eq!(s.p50_ns, 9);
    monitor.reset();
    let z = monitor.stats();
    assert_eq!((z.count, z.min_ns, z.max_ns, z.p99_ns), (0, 0, 0, 0));
    assert!(!monitor.exceeds_target(0));
}

#[test]
fn metrics_summary_starts_empty() {
    let m = MetricsCollector::new();
    let s = m.summary();
    assert_eq!(s.rf_captures, 0);
    assert_eq!(s.audio_captures, 0);
    assert_eq!(s.mamba_inferences, 0);
    assert_eq!(s.control_updates, 0);
    assert_eq!(s.forensics_logged, 0);
    assert_eq!(s.latency.count, 0);
    let mut m = m;
    m.latency.record(5);
    let s = m.summary();
    assert_eq!((s.latency.min_ns, s.latency.max_ns, s.latency.sum_ns), (5, 5, 5));
}

#[test]
fn snr_without_measurements() {
    let m = SNRMetrics::new();
    assert_eq!(m.current_milli_db(), 0);
    assert_eq!(m.average_milli_db(), 0);
    assert_eq!(m.min_milli_db(), 0);
    assert_eq!(m.max_milli_db(), 0);
}
