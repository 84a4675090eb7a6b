use echokit::metrics::{DownloadMetrics, Speed, BYTES_PER_SECOND, SPEED_VALID_SECS};

#[test]
fn fresh_estimator_is_stale() {
    let m = DownloadMetrics::new(400000);
    assert_eq!(m.start_ms, 100000);
    assert_eq!(m.data_size, 0);
    assert_eq!(m.timeout_sec, SPEED_VALID_SECS);
    assert!(m.is_timeout(400000));
}

#[test]
fn fresh_estimator_near_clock_start_is_stale() {
    // Backdating saturates at zero when the clock has run less than the
    // backdate window; 400 s of elapsed time still reads as stale.
    let m = DownloadMetrics::new(100000);
    assert_eq!(m.start_ms, 0);
    assert!(m.is_timeout(400000));
}

#[test]
fn reset_starts_a_fresh_measurement() {
    let mut m = DownloadMetrics::new(400000);
    m.add_data(1234);
    m.reset(500000);
    assert_eq!(m.start_ms, 500000);
    assert_eq!(m.data_size, 0);
    assert_eq!(m.elapsed(500000), 0);
    assert_eq!(m.elapsed(500250), 250);
    assert!(!m.is_timeout(500000));
}

#[test]
fn timeout_boundary_is_strictly_more_than_the_window() {
    let mut m = DownloadMetrics::new(400000);
    m.reset(0);
    assert!(!m.is_timeout(30999));
    assert!(m.is_timeout(31000));
}

#[test]
fn add_data_accumulates() {
    let mut m = DownloadMetrics::new(0);
    m.reset(0);
    m.add_data(100);
    m.add_data(28);
    assert_eq!(m.data_size, 128);
}

#[test]
fn speed_of_two_seconds_for_two_seconds_of_audio_is_one() {
    // Two seconds of wall-clock time for 64000 bytes, which is two seconds
    // of audio at 32000 bytes per second: the factor is exactly 1.0, and
    // the boundary case still takes the streamed, non-buffered path.
    assert_eq!(BYTES_PER_SECOND, 32000);
    let mut m = DownloadMetrics::new(0);
    m.reset(1000);
    m.add_data(64000);
    let s = m.speed(3000);
    assert_eq!(s.num, 64000);
    assert_eq!(s.den, 64000);
    assert!(!s.slower_than_realtime());
    assert_eq!(s.centi(), Some(100));
}

#[test]
fn slow_delivery_is_classified_as_slower_than_realtime() {
    // Three seconds of wall-clock time for two seconds of audio: 1.5.
    let mut m = DownloadMetrics::new(0);
    m.reset(0);
    m.add_data(64000);
    let s = m.speed(3000);
    assert_eq!(s.num, 96000);
    assert_eq!(s.den, 64000);
    assert!(s.slower_than_realtime());
    assert_eq!(s.centi(), Some(150));
}

#[test]
fn fast_delivery_is_classified_as_streamable() {
    // One second of wall-clock time for two seconds of audio: 0.5.
    let mut m = DownloadMetrics::new(0);
    m.reset(0);
    m.add_data(64000);
    let s = m.speed(1000);
    assert!(!s.slower_than_realtime());
    assert_eq!(s.centi(), Some(50));
}

#[test]
fn speed_without_data_has_no_finite_factor() {
    let mut m = DownloadMetrics::new(0);
    m.reset(0);
    let s = m.speed(2000);
    assert_eq!(s.den, 0);
    assert!(s.slower_than_realtime());
    assert_eq!(s.centi(), None);
}

#[test]
fn initial_speed_is_optimistic() {
    let s = Speed::initial();
    assert!(!s.slower_than_realtime());
    assert_eq!(s.centi(), Some(80));
}

#[test]
fn clock_readings_before_the_start_count_as_zero_elapsed() {
    let mut m = DownloadMetrics::new(0);
    m.reset(5000);
    assert_eq!(m.elapsed(4000), 0);
    assert!(!m.is_timeout(4000));
}
