use adventure::numbers::{
    retry_numbers_exhausted, retry_numbers_refused, retry_numbers_to_success, Counter,
    CountingTimer, LimitedBackoff, NeverRetry, NumbersRetrial, RetryNumbers, ShutdownTimer,
};
use adventure::poll::Poll;
use adventure::request::{OneshotRequest, RepeatableRequest};
use adventure::response::Response;
use adventure::retry::{Retrial, Retrying};
use adventure::error::RetryError;
use adventure::request::RetriableRequest;
use adventure::strategy::DefaultBackoff;
use adventure::timer::SystemTimer;

fn block_on(retrial: &mut NumbersRetrial<()>) -> Result<u64, RetryError<u64>> {
    loop {
        match retrial.poll() {
            Poll::Ready(r) => return r,
            Poll::Pending => continue,
        }
    }
}

fn numbers(end: u64) -> Retrying<RetryNumbers, CountingTimer, LimitedBackoff, ()> {
    let request = RetryNumbers { end };
    let timer = CountingTimer { issued: 0 };
    let strategy = LimitedBackoff { budget: 100, step_ms: 1 };
    Retrying::new(request, timer, strategy)
}

#[test]
fn retry_send_once() {
    let mut res = numbers(5).send_once(Counter { current: 1 });
    assert_eq!(block_on(&mut res).unwrap(), 5);
}

#[test]
fn retry_clone() {
    let cloned = numbers(5).clone();
    let mut res = cloned.send_once(Counter { current: 1 });
    assert_eq!(block_on(&mut res).unwrap(), 5);
}

#[test]
fn retry_send() {
    let req = numbers(5);
    let mut client = Counter { current: 1 };
    let mut res = req.send(&mut client);
    assert_eq!(block_on(&mut res).unwrap(), 5);
}

#[test]
fn retry_simple() {
    let mut res = numbers(5).send_once(Counter { current: 1 });
    assert_eq!(block_on(&mut res).unwrap(), 5);
}

#[test]
fn retry_success_run() {
    let (v, retrial) = retry_numbers_to_success(1, 5, 100, 1);
    assert_eq!(v, 5);
    assert_eq!(retrial.client.current, 6);
    assert_eq!(retrial.request.timer.issued, 4);
    assert_eq!(retrial.request.backoff.budget, 96);
}

#[test]
fn retry_predicate_refusal_run() {
    let (err, retrial) = retry_numbers_refused(1, 5, 100, 1);
    assert!(err.is_aborted());
    assert!(!err.is_timeout());
    assert!(!err.is_shutdown());
    assert_eq!(err.as_inner(), Some(&1));
    assert_eq!(err.into_inner(), Some(1));
    assert_eq!(retrial.client.current, 2);
    assert_eq!(retrial.request.timer.issued, 0);
}

#[test]
fn retry_backoff_exhaustion_run() {
    let (err, retrial) = retry_numbers_exhausted(1, 20, 3, 1);
    assert!(err.is_timeout());
    assert!(!err.is_aborted());
    assert!(!err.is_shutdown());
    assert_eq!(err.into_inner(), None);
    assert_eq!(retrial.client.current, 5);
    assert_eq!(retrial.request.timer.issued, 3);
}

#[test]
fn retry_timer_shutdown() {
    let request = RetryNumbers { end: 5 };
    let timer = ShutdownTimer { issued: 0 };
    let strategy = LimitedBackoff { budget: 100, step_ms: 1 };
    let mut res: Retrial<Counter, RetryNumbers, ShutdownTimer, LimitedBackoff, ()> =
        Retrying::new(request, timer, strategy).send_once(Counter { current: 1 });
    match res.poll() {
        Poll::Ready(Err(e)) => {
            assert!(e.is_shutdown());
            assert!(!e.is_timeout());
            assert!(!e.is_aborted());
        },
        other => panic!("expected the timer's shutdown to surface, got {:?}", other),
    }
}

#[test]
fn retry_method_uses_the_system_defaults() {
    let mut res: Retrial<Counter, RetryNumbers, SystemTimer, DefaultBackoff, ()> =
        RetryNumbers { end: 3 }.retry().send_once(Counter { current: 1 });
    loop {
        match res.poll() {
            Poll::Ready(r) => {
                assert_eq!(r.unwrap(), 3);
                break;
            },
            Poll::Pending => continue,
        }
    }
    assert_eq!(res.client.current, 4);
}

#[test]
fn retry_declined_by_predicate_directly() {
    let request = RetryNumbers { end: 5 };
    let timer = CountingTimer { issued: 0 };
    let strategy = LimitedBackoff { budget: 100, step_ms: 1 };
    let mut res = Retrying::new(request, timer, strategy)
        .with_predicate(NeverRetry)
        .send_once(Counter { current: 2 });
    match res.poll() {
        Poll::Ready(Err(e)) => assert_eq!(e.into_inner(), Some(2)),
        other => panic!("expected an immediate abort, got {:?}", other),
    }
}
