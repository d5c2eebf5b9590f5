use termgate::monitor::PerformanceMonitor;

#[test]
fn test_performance_monitor_creation() {
    let monitor = PerformanceMonitor::new();
    assert_eq!(monitor.total_connections, 0);
    assert_eq!(monitor.failed_connections, 0);
}

#[test]
fn test_metric_updates() {
    let mut monitor = PerformanceMonitor::new();

    monitor.increment_connections();
    assert_eq!(monitor.total_connections, 1);

    monitor.increment_failed_connections();
    assert_eq!(monitor.failed_connections, 1);

    monitor.add_bytes_sent(1024);
    assert_eq!(monitor.bytes_sent, 1024);

    monitor.add_bytes_received(512);
    assert_eq!(monitor.bytes_received, 512);

    monitor.increment_completed_transfers();
    assert_eq!(monitor.completed_transfers, 1);

    monitor.increment_failed_transfers();
    assert_eq!(monitor.failed_transfers, 1);

    monitor.set_websocket_connections(5);
    assert_eq!(monitor.websocket_connections, 5);
}

#[test]
fn total_memory_is_eight_gib() {
    let monitor = PerformanceMonitor::new();
    assert_eq!(monitor.get_total_memory(), 8 * 1024 * 1024 * 1024);
}
