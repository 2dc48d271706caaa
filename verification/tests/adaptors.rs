use adventure::numbers::{Numbers, NumbersClient};
use adventure::oneshot::Oneshot;
use adventure::poll::Poll;
use adventure::repeat::Repeat;
use adventure::request::{OneshotRequest, RepeatableRequest};
use adventure::response::Response;

#[test]
fn oneshot_sends_through_a_consumed_client() {
    let req = Oneshot::from(Numbers { current: 3, end: 9 });
    let mut rsp = req.send_once(NumbersClient { called: 0, cutoff: u64::MAX });
    assert_eq!(rsp.poll(), Poll::Ready(Ok(3)));
    // a drained single-shot response has nothing further to report
    assert_eq!(rsp.poll(), Poll::Pending);
}

#[test]
fn repeat_sends_clones_of_the_wrapped_request() {
    let req = Repeat::from(Oneshot::from(Numbers { current: 4, end: 9 }));
    let mut client = NumbersClient { called: 0, cutoff: u64::MAX };
    let mut first = req.send(&mut client);
    let mut second = req.send(&mut client);
    assert_eq!(first.poll(), Poll::Ready(Ok(4)));
    assert_eq!(second.poll(), Poll::Ready(Ok(4)));
    // each send consumed a clone of the client; the borrowed one is untouched
    assert_eq!(client.called, 0);
}
