use nexus_rt::clock::{capped_span, extrapolate, needs_resync, pick_attempt, signed_epoch_nanos};
use nexus_rt::clock::{Calibration, Clock, ConfigError, Duration, HistoricalClock, RealtimeClock, TestClock};
use std::time::{Instant, SystemTime, UNIX_EPOCH};

// =========================================================================
// Clock struct
// =========================================================================

#[test]
fn clock_default() {
    let clock = Clock::default();
    assert_eq!(clock.unix_nanos, 0);
}

#[test]
fn clock_fields_writable() {
    let mut clock = Clock::default();
    clock.unix_nanos = 42;
    clock.instant = Instant::now();
    assert_eq!(clock.unix_nanos, 42);
}

// =========================================================================
// RealtimeClock
// =========================================================================

#[test]
fn realtime_sync_produces_valid_nanos() {
    let mut rt = RealtimeClock::default();
    let mut clock = Clock::default();
    rt.sync(&mut clock, Instant::now());
    let expected = SystemTime::now().duration_since(UNIX_EPOCH).unwrap().as_nanos() as i128;
    let diff = (clock.unix_nanos - expected).unsigned_abs();
    assert!(diff < 1_000_000_000, "nanos should be close to now, diff={diff}ns");
}

#[test]
fn realtime_sync_sets_instant() {
    let mut rt = RealtimeClock::default();
    let mut clock = Clock::default();
    let now = Instant::now();
    rt.sync(&mut clock, now);
    assert_eq!(clock.instant, now);
}

#[test]
fn realtime_builder() {
    let rt = RealtimeClock::builder()
        .threshold(Duration::from_micros(10))
        .max_retries(5)
        .resync_interval(Duration::from_secs(60))
        .build()
        .unwrap();
    assert!(rt.calibration_gap().as_nanos() < Duration::from_secs(1).as_nanos());
}

#[test]
fn realtime_resync_no_panic() {
    let mut rt = RealtimeClock::builder().resync_interval(Duration::zero()).build().unwrap();
    let mut clock = Clock::default();
    let now = Instant::now();
    rt.sync(&mut clock, now);
    assert!(clock.unix_nanos > 0);
}

#[test]
fn realtime_zero_retries_rejected() {
    let result = RealtimeClock::builder().max_retries(0).build();
    assert!(matches!(result, Err(ConfigError::Invalid(_))));
}

#[test]
fn realtime_threshold_below_minimum_still_builds() {
    // A threshold under the floor is raised to it, not rejected.
    let ok = RealtimeClock::builder().threshold(Duration::from_nanos(1)).build();
    assert!(ok.is_ok());
}

#[test]
fn config_error_text_names_the_reason() {
    let err = ConfigError::Invalid("max_retries must be > 0");
    assert_eq!(err.to_text(), "clock configuration error: max_retries must be > 0");
}

// =========================================================================
// TestClock
// =========================================================================

#[test]
fn test_clock_starts_at_zero() {
    let tc = TestClock::new();
    let mut clock = Clock::default();
    tc.sync(&mut clock);
    assert_eq!(clock.unix_nanos, 0);
}

#[test]
fn test_clock_starting_at() {
    let tc = TestClock::starting_at(1_000_000_000);
    let mut clock = Clock::default();
    tc.sync(&mut clock);
    assert_eq!(clock.unix_nanos, 1_000_000_000);
}

#[test]
fn test_clock_advance() {
    let mut tc = TestClock::new();
    let mut clock = Clock::default();
    tc.advance(Duration::from_millis(100));
    tc.sync(&mut clock);
    assert_eq!(clock.unix_nanos, 100_000_000);
}

#[test]
fn test_clock_set_nanos() {
    let mut tc = TestClock::new();
    let mut clock = Clock::default();
    tc.set_nanos(42);
    tc.sync(&mut clock);
    assert_eq!(clock.unix_nanos, 42);
}

#[test]
fn test_clock_reset() {
    let mut tc = TestClock::new();
    let mut clock = Clock::default();
    tc.advance(Duration::from_secs(10));
    tc.reset();
    tc.sync(&mut clock);
    assert_eq!(clock.unix_nanos, 0);
}

#[test]
fn test_clock_instant_advances() {
    let mut tc = TestClock::new();
    let mut clock = Clock::default();
    tc.sync(&mut clock);
    let i1 = clock.instant;
    tc.advance(Duration::from_millis(100));
    tc.sync(&mut clock);
    assert_eq!(clock.instant.duration_since(i1), std::time::Duration::from_millis(100));
}

#[test]
fn test_clock_direct_write() {
    let mut clock = Clock::default();
    clock.unix_nanos = 999;
    assert_eq!(clock.unix_nanos, 999);
}

#[test]
fn test_clock_elapsed_accumulates() {
    let mut tc = TestClock::starting_at(5);
    tc.advance(Duration::from_nanos(10));
    tc.advance(Duration::from_micros(1));
    assert_eq!(tc.elapsed().as_nanos(), 1_010);
    let mut clock = Clock::default();
    tc.sync(&mut clock);
    assert_eq!(clock.unix_nanos, 1_015);
}

#[test]
fn duration_conversions() {
    assert_eq!(Duration::from_secs(2).as_nanos(), 2_000_000_000);
    assert_eq!(Duration::from_millis(3).as_nanos(), 3_000_000);
    assert_eq!(Duration::from_micros(4).as_nanos(), 4_000);
    assert!(Duration::zero().is_zero());
    assert!(!Duration::from_nanos(1).is_zero());
}

// =========================================================================
// HistoricalClock
// =========================================================================

#[test]
fn historical_starts_at_start() {
    let hc = HistoricalClock::new(1000, 2000, Duration::from_nanos(100)).unwrap();
    assert_eq!(hc.current_nanos(), 1000);
    assert!(!hc.is_exhausted());
}

#[test]
fn historical_sync_writes_and_advances() {
    let mut hc = HistoricalClock::new(0, 1000, Duration::from_nanos(100)).unwrap();
    let mut clock = Clock::default();
    hc.sync(&mut clock);
    assert_eq!(clock.unix_nanos, 0);
    assert_eq!(hc.current_nanos(), 100);
    hc.sync(&mut clock);
    assert_eq!(clock.unix_nanos, 100);
    assert_eq!(hc.current_nanos(), 200);
}

#[test]
fn historical_exhausts() {
    let mut hc = HistoricalClock::new(0, 200, Duration::from_nanos(100)).unwrap();
    let mut clock = Clock::default();
    hc.sync(&mut clock);
    hc.sync(&mut clock);
    assert!(hc.is_exhausted());
    assert_eq!(hc.current_nanos(), 200);
    hc.sync(&mut clock);
    assert_eq!(clock.unix_nanos, 200);
}

#[test]
fn historical_reset() {
    let mut hc = HistoricalClock::new(100, 500, Duration::from_nanos(100)).unwrap();
    let mut clock = Clock::default();
    for _ in 0..10 {
        hc.sync(&mut clock);
    }
    assert!(hc.is_exhausted());
    hc.reset();
    assert!(!hc.is_exhausted());
    assert_eq!(hc.current_nanos(), 100);
}

#[test]
fn historical_rejects_bad_config() {
    assert!(HistoricalClock::new(1000, 1000, Duration::from_nanos(100)).is_err());
    assert!(HistoricalClock::new(2000, 1000, Duration::from_nanos(100)).is_err());
    assert!(HistoricalClock::new(0, 1000, Duration::zero()).is_err());
}

#[test]
fn historical_never_passes_end() {
    // A step that does not divide the span: the clock stops at the end.
    let mut hc = HistoricalClock::new(0, 250, Duration::from_nanos(100)).unwrap();
    let mut clock = Clock::default();
    for _ in 0..5 {
        hc.sync(&mut clock);
        assert!(hc.current_nanos() <= 250);
    }
    assert!(hc.is_exhausted());
    assert_eq!(hc.current_nanos(), 250);
}

#[test]
fn capped_span_saturates_at_u64_max() {
    assert_eq!(capped_span(0), 0);
    assert_eq!(capped_span(1_500), 1_500);
    assert_eq!(capped_span(u64::MAX as u128), u64::MAX);
    assert_eq!(capped_span(u64::MAX as u128 + 1), u64::MAX);
}

#[test]
fn signed_epoch_nanos_sign_follows_side_of_epoch() {
    assert_eq!(signed_epoch_nanos(Ok(42)), 42);
    assert_eq!(signed_epoch_nanos(Err(42)), -42);
    assert_eq!(signed_epoch_nanos(Ok(0)), 0);
}

#[test]
fn pick_attempt_keeps_first_smallest_gap_and_stops_within_threshold() {
    // Stops at the first gap within 100: considers 300, 200, 90.
    assert_eq!(pick_attempt(&vec![300, 200, 90, 10], 100, 10), (3, 2));
    // None within the threshold: all considered, first of the smallest kept.
    assert_eq!(pick_attempt(&vec![300, 150, 400, 150], 100, 10), (4, 1));
    // The retry limit caps the attempts.
    assert_eq!(pick_attempt(&vec![300, 200, 50], 100, 2), (2, 1));
}

#[test]
fn resync_decision_and_extrapolation() {
    assert!(needs_resync(60, Duration::from_nanos(60)));
    assert!(!needs_resync(59, Duration::from_nanos(60)));
    assert!(needs_resync(0, Duration::zero()));
    assert_eq!(extrapolate(1_000, 234), 1_234);
    assert_eq!(extrapolate(-500, 200), -300);
}

#[test]
fn build_from_and_apply_calibration_set_base_gap_and_accuracy() {
    let now = Instant::now();
    let mut rc = RealtimeClock::builder()
        .threshold(Duration::from_nanos(500))
        .build_from(Calibration { instant: now, nanos: 1_000, gap: Duration::from_nanos(300) });
    assert!(rc.is_accurate());
    assert_eq!(rc.calibration_gap(), Duration::from_nanos(300));
    let mut clock = Clock::default();
    rc.sync(&mut clock, now);
    assert_eq!(clock.unix_nanos, 1_000);

    rc.apply_calibration(Calibration { instant: now, nanos: 5_000, gap: Duration::from_nanos(900) }, now, 10);
    assert!(!rc.is_accurate());
    assert_eq!(rc.calibration_gap(), Duration::from_nanos(900));
    rc.sync(&mut clock, now);
    assert_eq!(clock.unix_nanos, 5_010);
}

#[test]
fn zero_retries_reports_the_reason() {
    match RealtimeClock::builder().max_retries(0).build() {
        Err(e) => assert_eq!(e, ConfigError::Invalid("max_retries must be > 0")),
        Ok(_) => panic!("expected an error"),
    }
}
