use adventure::poll::Poll;

#[test]
fn poll_map_changes_the_ready_value() {
    let p: Poll<u64> = Poll::Ready(20);
    assert_eq!(p.map(|v| v + 1), Poll::Ready(21));
    let q: Poll<u64> = Poll::Pending;
    assert_eq!(q.map(|v| v + 1), Poll::Pending);
}

#[test]
fn poll_readiness_queries() {
    let p: Poll<u64> = Poll::Ready(1);
    assert!(p.is_ready());
    assert!(!p.is_pending());
    let q: Poll<u64> = Poll::Pending;
    assert!(q.is_pending());
    assert!(!q.is_ready());
}

#[test]
fn poll_map_ok_touches_only_the_success() {
    let p: Poll<Result<u64, &str>> = Poll::Ready(Ok(2));
    assert_eq!(p.map_ok(|v| v * 10), Poll::Ready(Ok(20)));
    let q: Poll<Result<u64, &str>> = Poll::Ready(Err("e"));
    assert_eq!(q.map_ok(|v| v * 10), Poll::Ready(Err("e")));
    let r: Poll<Result<u64, &str>> = Poll::Pending;
    assert_eq!(r.map_ok(|v| v * 10), Poll::Pending);
}

#[test]
fn poll_map_err_touches_only_the_failure() {
    let p: Poll<Result<u64, u64>> = Poll::Ready(Err(3));
    assert_eq!(p.map_err(|e| e + 1), Poll::Ready(Err(4)));
    let q: Poll<Result<u64, u64>> = Poll::Ready(Ok(5));
    assert_eq!(q.map_err(|e| e + 1), Poll::Ready(Ok(5)));
    let r: Poll<Result<u64, u64>> = Poll::Pending;
    assert_eq!(r.map_err(|e| e + 1), Poll::Pending);
}
