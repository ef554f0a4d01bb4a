use presence_dimmer::status::status_log_due;
use presence_dimmer::STATUS_LOG_INTERVAL_MS;

#[test]
fn status_interval_is_two_seconds() {
    assert_eq!(STATUS_LOG_INTERVAL_MS, 2000);
}

#[test]
fn status_is_not_due_before_the_interval_has_passed() {
    let mut last = 1_000u64;
    assert!(!status_log_due(&mut last, 1_000));
    assert_eq!(last, 1_000);
    assert!(!status_log_due(&mut last, 2_999));
    assert_eq!(last, 1_000);
}

#[test]
fn status_is_due_once_the_interval_has_passed() {
    let mut last = 1_000u64;
    assert!(status_log_due(&mut last, 3_000));
    assert_eq!(last, 3_000);
    assert!(!status_log_due(&mut last, 4_999));
    assert_eq!(last, 3_000);
    assert!(status_log_due(&mut last, 60_000));
    assert_eq!(last, 60_000);
}

#[test]
fn status_is_not_due_when_the_clock_reads_earlier() {
    let mut last = 10_000u64;
    assert!(!status_log_due(&mut last, 0));
    assert_eq!(last, 10_000);
}

#[test]
fn status_is_never_due_after_the_last_moments_of_the_clock() {
    let mut last = u64::MAX - 1_999;
    assert!(!status_log_due(&mut last, u64::MAX));
    assert_eq!(last, u64::MAX - 1_999);
    let mut earlier = u64::MAX - 2_000;
    assert!(status_log_due(&mut earlier, u64::MAX));
    assert_eq!(earlier, u64::MAX);
}
