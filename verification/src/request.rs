//! The request capabilities, from send-once to paged.

use vstd::prelude::*;

use crate::response::Response;
use crate::retry::Retrying;
use crate::strategy::DefaultBackoff;
use crate::timer::SystemTimer;

verus! {

/// Types of a request, together with the expected output and error types
/// of its eventual response.
pub trait BaseRequest {
    /// The type of successful values from the corresponding response.
    type Ok;

    /// The type of failures from the corresponding response.
    type Error;
}

/// A request that can be sent just once, by consuming itself and the
/// client handle.
///
/// Issuing the call must not fail synchronously: an error in sending
/// surfaces as the terminal `Err` of the returned response, never as a
/// failure of `send_once` itself.
pub trait OneshotRequest<C>: BaseRequest + Sized {
    /// The type of corresponding responses of this request.
    type Response: Response<Ok = Self::Ok, Error = Self::Error>;

    /// Which responses sending `req` with `client` admits.
    spec fn send_once_rel(req: Self, client: C, rsp: Self::Response) -> bool;

    /// Send this request to the given client, by consuming itself.
    fn send_once(self, client: C) -> (rsp: Self::Response)
        ensures
            Self::send_once_rel(self, client, rsp),
    ;
}

/// A request that can be sent repeatedly, through a borrow of the client.
///
/// Combinators that re-issue an operation (retrial, pagination) need this
/// capability; the client is handed over mutably for the duration of one
/// send, so its observable state (a connection pool, a call counter) can
/// advance with each issue.
pub trait RepeatableRequest<C>: BaseRequest + Sized {
    /// The type of corresponding responses of this request.
    type Response: Response<Ok = Self::Ok, Error = Self::Error>;

    /// Which responses and client transitions sending `self` admits.
    spec fn send_rel(&self, c_pre: C, c_post: C, rsp: Self::Response) -> bool;

    /// Send this request using the given client.
    fn send(&self, client: &mut C) -> (rsp: Self::Response)
        ensures
            self.send_rel(*old(client), *final(client), rsp),
    ;
}

/// A request able to decide whether to send itself again after the
/// previous attempt failed.
pub trait RetriableRequest: BaseRequest {
    /// What `should_retry` decides, as a function of the failure and the
    /// interval the next attempt would wait.
    spec fn retry_spec(&self, error: Self::Error, next_interval_ms: u64) -> bool;

    /// Decide whether the given failure, at the given next interval (in
    /// milliseconds), should be retried.
    fn should_retry(&self, error: &Self::Error, next_interval_ms: u64) -> (r: bool)
        ensures
            r == self.retry_spec(*error, next_interval_ms),
    ;

    /// Wrap this request to retry itself on failure, over the system
    /// timer and the default exponential backoff policy.
    fn retry(self) -> (r: Retrying<Self, SystemTimer, DefaultBackoff, ()>) where Self: Sized
        ensures
            r.inner == self,
            r.timer == SystemTimer,
            r.pred == (),
    {
        Retrying::new(self, SystemTimer, DefaultBackoff::new())
    }
}

/// A request able to send subsequent requests to enumerate the entire
/// result, page by page.
pub trait PagedRequest<C>: RepeatableRequest<C> {
    /// Which transitions `advance` admits: from the request that obtained
    /// `page` to the request for the next page, with `more == false` when
    /// `page` was the last one.
    spec fn advance_rel(pre: Self, post: Self, page: Self::Ok, more: bool) -> bool;

    /// Modify itself to retrieve the next response, or return `false` if
    /// the given response was the last one.
    fn advance(&mut self, page: &Self::Ok) -> (more: bool)
        ensures
            Self::advance_rel(*old(self), *final(self), *page, more),
    ;
}

} // verus!
