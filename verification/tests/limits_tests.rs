use meshops::config::RetryConfig;
use meshops::limits::{may_retry, retry_delay_ms, RateWindow};

#[test]
fn backoff_doubles_up_to_the_maximum() {
    let r = RetryConfig { max_attempts: 3, base_delay_ms: 300, max_delay_ms: 5_000 };
    let delays: Vec<u64> = (0..6).map(|a| retry_delay_ms(&r, a)).collect();
    assert_eq!(delays, vec![300, 600, 1_200, 2_400, 4_800, 5_000]);
    assert_eq!(retry_delay_ms(&r, u32::MAX), 5_000);
    let small_max = RetryConfig { max_attempts: 3, base_delay_ms: 300, max_delay_ms: 100 };
    assert_eq!(retry_delay_ms(&small_max, 0), 100);
    let huge = RetryConfig { max_attempts: 3, base_delay_ms: u64::MAX / 2 + 1, max_delay_ms: u64::MAX };
    assert_eq!(retry_delay_ms(&huge, 1), u64::MAX);
}

#[test]
fn attempts_include_the_first() {
    let r = RetryConfig { max_attempts: 3, base_delay_ms: 300, max_delay_ms: 5_000 };
    assert!(may_retry(&r, 1));
    assert!(may_retry(&r, 2));
    assert!(!may_retry(&r, 3));
    let none = RetryConfig { max_attempts: 0, base_delay_ms: 1, max_delay_ms: 1 };
    assert!(!may_retry(&none, 1));
}

#[test]
fn rate_window_lets_in_at_most_the_limit_per_minute() {
    let mut w = RateWindow::new();
    assert!(w.try_enter(1_000, 2));
    assert!(w.try_enter(1_010, 2));
    assert!(!w.try_enter(1_059, 2));
    assert_eq!(w.admitted, 2);
    assert!(w.try_enter(1_060, 2));
    assert_eq!((w.start_secs, w.admitted), (1_060, 1));
    assert!(w.try_enter(5, 2));
    assert_eq!((w.start_secs, w.admitted), (5, 1));
    assert!(!RateWindow::new().try_enter(10, 0));
}
