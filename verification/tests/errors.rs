use adventure::error::{BackoffError, RetryError};
use adventure::numbers::ShutdownTimer;
use adventure::poll::Poll;
use adventure::response::Response;
use adventure::retry::Timer;

#[test]
fn retry_error_wraps_the_operation_error() {
    let err: RetryError<&str> = RetryError::from_err("boom");
    assert!(err.is_aborted());
    assert!(!err.is_timeout());
    assert!(!err.is_shutdown());
    assert_eq!(err.as_inner(), Some(&"boom"));
    assert_eq!(err.into_inner(), Some("boom"));
}

#[test]
fn backoff_error_constructors_report_their_cause() {
    let t = BackoffError::timeout();
    assert!(t.is_timeout());
    assert!(!t.is_shutdown());
    let s = BackoffError::shutdown();
    assert!(s.is_shutdown());
    assert!(!s.is_timeout());
}

#[test]
fn backoff_error_reports_the_shutdown_cause() {
    let mut timer = ShutdownTimer { issued: 0 };
    let mut delay = timer.expires_in(25);
    assert_eq!(timer.issued, 1);
    match delay.poll() {
        Poll::Ready(Err(be)) => {
            assert!(be.is_shutdown());
            assert!(!be.is_timeout());
        },
        other => panic!("a shutdown timer's delay must fail, got {:?}", other),
    }
}
