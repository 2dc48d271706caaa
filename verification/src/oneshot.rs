//! The send-once adaptor over a repeatable request.

use vstd::prelude::*;

use crate::request::{BaseRequest, OneshotRequest, RepeatableRequest, RetriableRequest};

verus! {

/// A send-once adaptor for types that implement [`RepeatableRequest`]:
/// the one send it performs borrows the client value it was handed, which
/// is then dropped.
#[derive(Clone, Copy, Debug)]
pub struct Oneshot<R> {
    pub inner: R,
}

impl<R> From<R> for Oneshot<R> {
    fn from(req: R) -> (r: Oneshot<R>)
        ensures
            r == (Oneshot { inner: req }),
    {
        Oneshot { inner: req }
    }
}

impl<R> vstd::std_specs::convert::FromSpecImpl<R> for Oneshot<R> {
    open spec fn obeys_from_spec() -> bool {
        true
    }

    open spec fn from_spec(req: R) -> Oneshot<R> {
        Oneshot { inner: req }
    }
}

impl<R: BaseRequest> BaseRequest for Oneshot<R> {
    type Ok = R::Ok;

    type Error = R::Error;
}

impl<C, R: RepeatableRequest<C>> OneshotRequest<C> for Oneshot<R> {
    type Response = R::Response;

    open spec fn send_once_rel(req: Self, client: C, rsp: R::Response) -> bool {
        exists|c_post: C| req.inner.send_rel(client, c_post, rsp)
    }

    fn send_once(self, client: C) -> (rsp: R::Response) {
        let mut client = client;
        self.inner.send(&mut client)
    }
}

impl<R: RetriableRequest> RetriableRequest for Oneshot<R> {
    open spec fn retry_spec(&self, error: R::Error, next_interval_ms: u64) -> bool {
        self.inner.retry_spec(error, next_interval_ms)
    }

    fn should_retry(&self, error: &R::Error, next_interval_ms: u64) -> (r: bool) {
        self.inner.should_retry(error, next_interval_ms)
    }
}

} // verus!
