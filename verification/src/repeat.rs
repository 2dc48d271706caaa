//! The repeat-send adaptor over a send-once request.

use vstd::prelude::*;

use crate::request::{BaseRequest, OneshotRequest, PagedRequest, RepeatableRequest, RetriableRequest};

verus! {

/// A repeat-send adaptor for types that implement [`OneshotRequest`], by
/// cloning itself.
///
/// Each `send` consumes a clone of the wrapped request and a clone of the
/// client, so the borrowed client itself is left unchanged. Since Rust
/// promises nothing about what `clone` returns for an arbitrary type, the
/// send relation of this adaptor can only say that the response came from
/// some send of some request of the wrapped type.
#[derive(Clone, Debug)]
pub struct Repeat<R> {
    pub inner: R,
}

impl<R: Clone> From<R> for Repeat<R> {
    fn from(req: R) -> (r: Repeat<R>)
        ensures
            r == (Repeat { inner: req }),
    {
        Repeat { inner: req }
    }
}

impl<R: Clone> vstd::std_specs::convert::FromSpecImpl<R> for Repeat<R> {
    open spec fn obeys_from_spec() -> bool {
        true
    }

    open spec fn from_spec(req: R) -> Repeat<R> {
        Repeat { inner: req }
    }
}

impl<R: BaseRequest> BaseRequest for Repeat<R> {
    type Ok = R::Ok;

    type Error = R::Error;
}

impl<C: Clone, R: OneshotRequest<C> + Clone> RepeatableRequest<C> for Repeat<R> {
    type Response = R::Response;

    open spec fn send_rel(&self, c_pre: C, c_post: C, rsp: R::Response) -> bool {
        c_post == c_pre && exists|req: R, client: C| R::send_once_rel(req, client, rsp)
    }

    fn send(&self, client: &mut C) -> (rsp: R::Response) {
        self.inner.clone().send_once(client.clone())
    }
}

impl<R: RetriableRequest> RetriableRequest for Repeat<R> {
    open spec fn retry_spec(&self, error: R::Error, next_interval_ms: u64) -> bool {
        self.inner.retry_spec(error, next_interval_ms)
    }

    fn should_retry(&self, error: &R::Error, next_interval_ms: u64) -> (r: bool) {
        self.inner.should_retry(error, next_interval_ms)
    }
}

impl<C: Clone, R: OneshotRequest<C> + PagedRequest<C> + Clone> PagedRequest<C> for Repeat<R> {
    open spec fn advance_rel(pre: Self, post: Self, page: R::Ok, more: bool) -> bool {
        R::advance_rel(pre.inner, post.inner, page, more)
    }

    fn advance(&mut self, page: &R::Ok) -> (more: bool) {
        self.inner.advance(page)
    }
}

} // verus!
