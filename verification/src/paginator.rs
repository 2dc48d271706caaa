//! The paginator combinator: a pollable stream of pages.

use vstd::prelude::*;

use crate::poll::Poll;
use crate::request::PagedRequest;
use crate::response::Response;

verus! {

/// What a paginator is currently doing: about to issue the active
/// request, holding an in-flight response, or finished for good.
///
/// The tag makes the machine's invariant structural: a paginator never
/// holds an in-flight response while exhausted, and never more than one
/// in-flight response at a time.
pub enum PageState<Rsp> {
    /// No response is in flight; the active request will be issued on the
    /// next poll.
    Idle,
    /// One response is in flight.
    Flight(Rsp),
    /// The sequence is over: no further response is ever issued.
    Done,
}

/// A pollable stream over the pages that make up the entire result of a
/// paged request.
///
/// The paginator issues the request, yields each page as it arrives,
/// feeds the page back into the request through [`PagedRequest::advance`]
/// to form the next request, and finishes when `advance` reports that the
/// page yielded was the last one, or when an attempt fails. Pages are
/// strictly sequential: a second request is never issued while one is in
/// flight.
pub struct Paginator<C, R> where R: PagedRequest<C> {
    /// The client handle, passed to every send.
    pub client: C,
    /// The request for the next page. Kept after exhaustion (its final
    /// state remains observable), but never issued again once `state` is
    /// `Done`.
    pub request: R,
    /// What the paginator is currently doing.
    pub state: PageState<R::Response>,
}

/// What one `poll_next` call admits once the in-flight response has been
/// polled: a pending response is kept, a ready page is folded back into
/// the request through `advance`, and a ready error finishes the sequence
/// for good.
pub open spec fn paginate_outcome_rel<C, R: PagedRequest<C>>(
    pre: Paginator<C, R>,
    post: Paginator<C, R>,
    out: Poll<Option<Result<R::Ok, R::Error>>>,
    r1: R::Response,
    p: Poll<Result<R::Ok, R::Error>>,
) -> bool {
    match p {
        Poll::Pending => out is Pending && post == Paginator {
            state: PageState::<R::Response>::Flight(r1),
            ..pre
        },
        Poll::Ready(Ok(page)) => exists|req2: R, more: bool|
            #[trigger] R::advance_rel(pre.request, req2, page, more) && out == Poll::Ready(
                Some(Result::<R::Ok, R::Error>::Ok(page)),
            ) && post == Paginator {
                request: req2,
                state: if more {
                    PageState::<R::Response>::Idle
                } else {
                    PageState::<R::Response>::Done
                },
                ..pre
            },
        Poll::Ready(Err(e)) => out == Poll::Ready(Some(Result::<R::Ok, R::Error>::Err(e))) && post
            == Paginator { state: PageState::<R::Response>::Done, ..pre },
    }
}

/// What one `poll_next` call on a paginator in the `Flight` state admits,
/// for some outcome of polling the in-flight response.
pub open spec fn paginate_flight_rel<C, R: PagedRequest<C>>(
    pre: Paginator<C, R>,
    post: Paginator<C, R>,
    out: Poll<Option<Result<R::Ok, R::Error>>>,
) -> bool {
    exists|r0: R::Response, r1: R::Response, p: Poll<Result<R::Ok, R::Error>>|
        pre.state == PageState::<R::Response>::Flight(r0) && #[trigger] R::Response::poll_rel(
            r0,
            r1,
            p,
        ) && paginate_outcome_rel(pre, post, out, r1, p)
}

/// What one `poll_next` call admits: nothing once the sequence is over;
/// otherwise the active request is issued if none is in flight, the
/// in-flight response is polled, and a ready page is folded back into the
/// request.
pub open spec fn paginate_rel<C, R: PagedRequest<C>>(
    pre: Paginator<C, R>,
    post: Paginator<C, R>,
    out: Poll<Option<Result<R::Ok, R::Error>>>,
) -> bool {
    match pre.state {
        PageState::Done => post == pre && out == Poll::Ready(
            Option::<Result<R::Ok, R::Error>>::None,
        ),
        PageState::Idle => exists|c2: C, r0: R::Response|
            #[trigger] pre.request.send_rel(pre.client, c2, r0) && paginate_flight_rel(
                Paginator { client: c2, state: PageState::<R::Response>::Flight(r0), ..pre },
                post,
                out,
            ),
        PageState::Flight(_) => paginate_flight_rel(pre, post, out),
    }
}

impl<C, R: PagedRequest<C>> Paginator<C, R> {
    /// A paginator over the pages of `request`, sent through `client`,
    /// starting with the request as given.
    pub fn new(client: C, request: R) -> (p: Paginator<C, R>)
        ensures
            p == (Paginator { client, request, state: PageState::<R::Response>::Idle }),
    {
        Paginator { client, request, state: PageState::Idle }
    }

    /// Drive the paginator by one step: issue the active request if no
    /// response is in flight, poll the in-flight response, and yield the
    /// next page, the terminal error, or `None` once the sequence is
    /// over.
    ///
    /// The last clause states idempotent termination on its own: once the
    /// sequence is over — a page was the last one, or an attempt failed —
    /// every further poll yields `None`, issues nothing, and leaves the
    /// paginator (client and request included) exactly as it was.
    pub fn poll_next(&mut self) -> (out: Poll<Option<Result<R::Ok, R::Error>>>)
        ensures
            paginate_rel(*old(self), *final(self), out),
            old(self).state is Done ==> *final(self) == *old(self) && out == Poll::Ready(
                Option::<Result<R::Ok, R::Error>>::None,
            ),
    {
        let mut st: PageState<R::Response> = PageState::Done;
        core::mem::swap(&mut self.state, &mut st);
        let mut rsp: R::Response = match st {
            PageState::Done => {
                self.state = PageState::Done;
                return Poll::Ready(None);
            },
            PageState::Idle => self.request.send(&mut self.client),
            PageState::Flight(r) => r,
        };
        match rsp.poll() {
            Poll::Pending => {
                self.state = PageState::Flight(rsp);
                Poll::Pending
            },
            Poll::Ready(Ok(page)) => {
                let more = self.request.advance(&page);
                self.state = if more {
                    PageState::Idle
                } else {
                    PageState::Done
                };
                Poll::Ready(Some(Ok(page)))
            },
            Poll::Ready(Err(e)) => {
                self.state = PageState::Done;
                Poll::Ready(Some(Err(e)))
            },
        }
    }
}

} // verus!
