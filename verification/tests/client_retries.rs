use amagi::client::{request_attempts, retry_after_failure};

#[test]
fn attempts_are_one_more_than_retries() {
    assert_eq!(request_attempts(0), 1);
    assert_eq!(request_attempts(3), 4);
    assert_eq!(request_attempts(u32::MAX), u32::MAX);
}

#[test]
fn only_transient_failures_with_attempts_left_are_retried() {
    assert!(retry_after_failure(0, 2, true));
    assert!(retry_after_failure(1, 2, true));
    assert!(!retry_after_failure(2, 2, true));
    assert!(!retry_after_failure(0, 2, false));
    assert!(!retry_after_failure(0, 0, true));
    assert!(!retry_after_failure(u32::MAX - 1, u32::MAX, true));
    assert!(retry_after_failure(u32::MAX - 2, u32::MAX, true));
}
