use adventure::numbers::{paginate_numbers, Numbers, NumbersClient};
use adventure::paginator::Paginator;
use adventure::poll::Poll;
use adventure::retry::Retrying;
use adventure::numbers::{CountingTimer, LimitedBackoff};

type NumbersPaginator = Paginator<NumbersClient, Numbers>;

fn collect(paginator: &mut NumbersPaginator) -> Result<Vec<u64>, ()> {
    let mut pages = Vec::new();
    loop {
        match paginator.poll_next() {
            Poll::Ready(None) => return Ok(pages),
            Poll::Ready(Some(Ok(page))) => pages.push(page),
            Poll::Ready(Some(Err(e))) => return Err(e),
            Poll::Pending => panic!("the canonical fixture is never pending"),
        }
    }
}

fn next(paginator: &mut NumbersPaginator) -> Option<Result<u64, ()>> {
    match paginator.poll_next() {
        Poll::Ready(item) => item,
        Poll::Pending => panic!("the canonical fixture is never pending"),
    }
}

#[test]
fn paginator_basic() {
    let client = NumbersClient { called: 0, cutoff: u64::MAX };
    let numbers = Numbers { current: 1, end: 5 };
    let mut paginator = Paginator::new(client, numbers);

    let responses = collect(&mut paginator);
    assert_eq!(Ok(vec![1, 2, 3, 4, 5]), responses);
    assert_eq!(paginator.request.current, 5);
    assert_eq!(paginator.request.end, 5);
    assert_eq!(paginator.client.called, 5);
}

#[test]
fn paginator_basic_2() {
    let client = NumbersClient { called: 0, cutoff: 7 };
    let numbers = Numbers { current: 1, end: 20 };
    let mut paginator = Paginator::new(client, numbers);

    let responses = collect(&mut paginator);
    assert_eq!(Err(()), responses);
    assert_eq!(paginator.request.current, 7);
    assert_eq!(paginator.client.called, 7);
}

#[test]
fn paginator_step() {
    let client = NumbersClient { called: 0, cutoff: u64::MAX };
    let numbers = Numbers { current: 1, end: 3 };
    let mut paginator = Paginator::new(client, numbers);

    assert_eq!(next(&mut paginator), Some(Ok(1)));
    assert_eq!(paginator.request.current, 2);
    assert_eq!(paginator.client.called, 1);

    assert_eq!(next(&mut paginator), Some(Ok(2)));
    assert_eq!(paginator.request.current, 3);
    assert_eq!(paginator.client.called, 2);

    assert_eq!(next(&mut paginator), Some(Ok(3)));
    assert_eq!(paginator.request.current, 3);
    assert_eq!(paginator.client.called, 3);

    assert_eq!(next(&mut paginator), None);
    assert_eq!(paginator.request.current, 3);
    assert_eq!(paginator.client.called, 3);

    assert_eq!(next(&mut paginator), None);
    assert_eq!(paginator.request.current, 3);
    assert_eq!(paginator.client.called, 3);
}

// A failed page ends the sequence for good: the error is yielded once,
// and later polls yield nothing and send nothing.
#[test]
fn paginator_step_with_error() {
    let client = NumbersClient { called: 0, cutoff: 3 };
    let numbers = Numbers { current: 1, end: 3 };
    let mut paginator = Paginator::new(client, numbers);

    assert_eq!(next(&mut paginator), Some(Ok(1)));
    assert_eq!(paginator.request.current, 2);
    assert_eq!(paginator.client.called, 1);

    assert_eq!(next(&mut paginator), Some(Ok(2)));
    assert_eq!(paginator.request.current, 3);
    assert_eq!(paginator.client.called, 2);

    assert_eq!(next(&mut paginator), Some(Err(())));
    assert_eq!(paginator.request.current, 3);
    assert_eq!(paginator.client.called, 3);

    assert_eq!(next(&mut paginator), None);
    assert_eq!(paginator.request.current, 3);
    assert_eq!(paginator.client.called, 3);
}

#[test]
fn paginator_completeness_run() {
    let (pages, err, p) = paginate_numbers(1, 5, u64::MAX);
    assert_eq!(pages, vec![1, 2, 3, 4, 5]);
    assert_eq!(err, None);
    assert_eq!(p.client.called, 5);
    assert_eq!(p.request.current, 5);
}

#[test]
fn paginator_short_circuit_run() {
    let (pages, err, p) = paginate_numbers(1, 20, 7);
    assert_eq!(pages, vec![1, 2, 3, 4, 5, 6]);
    assert_eq!(err, Some(()));
    assert_eq!(p.client.called, 7);
    assert_eq!(p.request.current, 7);
}

#[test]
fn paginator_over_retry() {
    let client = NumbersClient { called: 0, cutoff: u64::MAX };
    let numbers = Numbers { current: 1, end: 4 };
    let timer = CountingTimer { issued: 0 };
    let strategy = LimitedBackoff { budget: 10, step_ms: 1 };
    let request = Retrying::new(numbers, timer, strategy);
    let mut paginator = Paginator::new(client, request);

    let mut pages = Vec::new();
    loop {
        match paginator.poll_next() {
            Poll::Ready(None) => break,
            Poll::Ready(Some(Ok(page))) => pages.push(page),
            Poll::Ready(Some(Err(_))) => panic!("no page of this run fails"),
            Poll::Pending => continue,
        }
    }
    assert_eq!(pages, vec![1, 2, 3, 4]);
}
