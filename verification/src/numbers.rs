//! The canonical counting fixtures, and the end-to-end laws of both
//! combinators proved on them.

use vstd::prelude::*;

use crate::error::{BackoffError, RetryError};
use crate::paginator::{PageState, Paginator, paginate_flight_rel, paginate_outcome_rel, paginate_rel};
use crate::poll::Poll;
use crate::request::{BaseRequest, OneshotRequest, PagedRequest, RepeatableRequest, RetriableRequest};
use crate::response::Response;
use crate::retry::{
    lemma_retry_reaches_preserves, retry_accept_arm_step, retry_accept_decision_step,
    retry_accept_step, retry_arm_emit_rel, retry_decision_emit_rel, retry_delay_done,
    retry_emit_step, retry_flight_emit_rel, retry_reaches, retry_rel, retry_send_step,
    retry_silent_step, Retrial, RetrialPredicate, RetryState, Retrying,
    Timer,
};
use crate::strategy::Backoff;

verus! {

/// A counter that stops one step short of wrapping around; the fixtures
/// below count attempts and pages with it, so that their contracts stay
/// total without a precondition on every trait method.
pub open spec fn sat_inc(n: u64) -> u64 {
    if n == u64::MAX {
        n
    } else {
        (n + 1) as u64
    }
}

/// A response whose outcome is fixed at send time and handed out on the
/// first poll; a single-shot computation that is never pending while it
/// holds a value. The canonical fixtures below answer immediately, which
/// keeps their runs finite and exactly predictable.
#[derive(Debug)]
pub struct ReadyResponse<T, E> {
    pub value: Option<Result<T, E>>,
}

impl<T, E> Response for ReadyResponse<T, E> {
    type Ok = T;

    type Error = E;

    open spec fn poll_rel(pre: Self, post: Self, out: Poll<Result<T, E>>) -> bool {
        match pre.value {
            Some(v) => post.value is None && out == Poll::Ready(v),
            None => post == pre && out is Pending,
        }
    }

    fn poll(&mut self) -> (out: Poll<Result<T, E>>) {
        match self.value.take() {
            Some(v) => Poll::Ready(v),
            None => Poll::Pending,
        }
    }
}

/// The canonical counting client: each send is counted, and succeeds
/// exactly while the page counter of the request sits below `cutoff`.
///
/// With `cutoff == u64::MAX` (and an `end` below it) every send succeeds.
#[derive(Clone, Copy, Debug)]
pub struct NumbersClient {
    /// How many sends this client has performed.
    pub called: u64,
    /// The first page number whose send fails.
    pub cutoff: u64,
}

/// The canonical paged request: pages are consecutive numbers, `current`
/// is the page asked for next, and a page numbered `end` or above is the
/// last one.
#[derive(Clone, Copy, Debug)]
pub struct Numbers {
    /// The number of the page asked for next.
    pub current: u64,
    /// The first page number at which `advance` stops asking for more.
    pub end: u64,
}

impl BaseRequest for Numbers {
    type Ok = u64;

    type Error = ();
}

impl RepeatableRequest<NumbersClient> for Numbers {
    type Response = ReadyResponse<u64, ()>;

    open spec fn send_rel(&self, c_pre: NumbersClient, c_post: NumbersClient, rsp: ReadyResponse<u64, ()>) -> bool {
        c_post == (NumbersClient { called: sat_inc(c_pre.called), cutoff: c_pre.cutoff })
            && rsp == (ReadyResponse {
            value: Some(
                if self.current < c_pre.cutoff {
                    Result::<u64, ()>::Ok(self.current)
                } else {
                    Result::<u64, ()>::Err(())
                },
            ),
        })
    }

    fn send(&self, client: &mut NumbersClient) -> (rsp: ReadyResponse<u64, ()>) {
        if client.called < u64::MAX {
            client.called = client.called + 1;
        }
        if self.current < client.cutoff {
            ReadyResponse { value: Some(Ok(self.current)) }
        } else {
            ReadyResponse { value: Some(Err(())) }
        }
    }
}

impl PagedRequest<NumbersClient> for Numbers {
    open spec fn advance_rel(pre: Self, post: Self, page: u64, more: bool) -> bool {
        if page < pre.end {
            more && post == (Numbers { current: sat_inc(pre.current), end: pre.end })
        } else {
            !more && post == pre
        }
    }

    fn advance(&mut self, page: &u64) -> (more: bool) {
        if *page < self.end {
            if self.current < u64::MAX {
                self.current = self.current + 1;
            }
            true
        } else {
            false
        }
    }
}

impl RetriableRequest for Numbers {
    open spec fn retry_spec(&self, error: (), next_interval_ms: u64) -> bool {
        true
    }

    fn should_retry(&self, error: &(), next_interval_ms: u64) -> (r: bool) {
        true
    }
}

/// The page sequence `start, start + 1, ..., start + count - 1`.
pub open spec fn page_seq(start: u64, count: nat) -> Seq<u64> {
    Seq::new(count, |i: int| (start + i) as u64)
}

/// Pagination, run to exhaustion on the canonical fixture; the contract
/// pins the complete outcome.
///
/// Completeness: when every send succeeds (`end < cutoff`), the paginator
/// yields exactly the pages `start ..= end` in order, with exactly one
/// send per page and no error.
///
/// Short-circuit on error: when the sends fail from page `cutoff` on, the
/// paginator yields exactly the pages `start ..` up to the failing one,
/// then one error, and stops; the failing send is counted, and the
/// request's page counter stays frozen at the failing page.
pub fn paginate_numbers(start: u64, end: u64, cutoff: u64) -> (r: (Vec<u64>, Option<()>, Paginator<NumbersClient, Numbers>))
    requires
        start <= end,
        end < u64::MAX,
    ensures
        r.2.state is Done,
        r.2.request.end == end,
        r.2.client.cutoff == cutoff,
        end < cutoff ==> {
            &&& r.0@ == page_seq(start, (end - start + 1) as nat)
            &&& r.1 is None
            &&& r.2.client.called == end - start + 1
            &&& r.2.request.current == end
        },
        cutoff <= end ==> {
            let stop = if cutoff > start {
                cutoff
            } else {
                start
            };
            &&& r.0@ == page_seq(start, (stop - start) as nat)
            &&& r.1 == Some(())
            &&& r.2.client.called == stop - start + 1
            &&& r.2.request.current == stop
        },
{
    let client = NumbersClient { called: 0, cutoff };
    let request = Numbers { current: start, end };
    let mut p = Paginator::new(client, request);
    let mut pages: Vec<u64> = Vec::new();
    let mut err: Option<()> = None;
    let ghost stop: u64 = if cutoff > start {
        cutoff
    } else {
        start
    };
    loop
        invariant
            start <= end,
            end < u64::MAX,
            stop == (if cutoff > start {
                cutoff
            } else {
                start
            }),
            p.request.end == end,
            p.client.cutoff == cutoff,
            match p.state {
                PageState::Idle => {
                    &&& err is None
                    &&& p.request.current == start + pages@.len()
                    &&& p.client.called == pages@.len()
                    &&& pages@ == page_seq(start, pages@.len())
                    &&& p.request.current <= end
                    &&& (p.request.current == start || p.request.current <= cutoff)
                },
                PageState::Done => {
                    if err is None {
                        &&& end < cutoff
                        &&& pages@ == page_seq(start, (end - start + 1) as nat)
                        &&& p.client.called == end - start + 1
                        &&& p.request.current == end
                    } else {
                        &&& cutoff <= end
                        &&& err == Some(())
                        &&& pages@ == page_seq(start, (stop - start) as nat)
                        &&& p.client.called == stop - start + 1
                        &&& p.request.current == stop
                    }
                },
                PageState::Flight(_) => false,
            },
        ensures
            p.state is Done,
        decreases (if p.state is Done {
            0
        } else {
            end + 2 - p.request.current
        }),
    {
        let ghost pre = p;
        let out = p.poll_next();
        match out {
            Poll::Ready(None) => {
                proof {
                    assert(pre.state is Done);
                    assert(p == pre);
                }
                break;
            },
            Poll::Ready(Some(Ok(v))) => {
                proof {
                    assert(pre.state is Idle);
                    lemma_numbers_idle_step(pre, p, out);
                    assert(v == pre.request.current);
                    assert(pages@.push(v) == page_seq(start, pages@.len() + 1));
                }
                pages.push(v);
            },
            Poll::Ready(Some(Err(e))) => {
                proof {
                    assert(pre.state is Idle);
                    lemma_numbers_idle_step(pre, p, out);
                    assert(pre.request.current >= cutoff);
                    assert(pre.request.current == start + pages@.len());
                    if pre.request.current == start {
                        assert(stop == start);
                    } else {
                        assert(pre.request.current <= cutoff);
                        assert(pre.request.current == cutoff);
                    }
                    assert(pre.request.current == stop);
                }
                err = Some(e);
            },
            Poll::Pending => {
                proof {
                    assert(pre.state is Idle);
                    lemma_numbers_idle_step(pre, p, out);
                    assert(false);
                }
                break;
            },
        }
    }
    (pages, err, p)
}

/// On the canonical fixture, one `poll_next` from the `Idle` state is
/// fully determined: the send is counted, a page below the cutoff is
/// yielded and folded back into the request, any other page yields the
/// one terminal error.
pub proof fn lemma_numbers_idle_step(
    pre: Paginator<NumbersClient, Numbers>,
    post: Paginator<NumbersClient, Numbers>,
    out: Poll<Option<Result<u64, ()>>>,
)
    requires
        pre.state is Idle,
        paginate_rel(pre, post, out),
    ensures
        post.client.cutoff == pre.client.cutoff,
        post.client.called == sat_inc(pre.client.called),
        pre.request.current < pre.client.cutoff ==> {
            &&& out == Poll::Ready(Some(Result::<u64, ()>::Ok(pre.request.current)))
            &&& (pre.request.current < pre.request.end ==> post.request == (Numbers {
                current: sat_inc(pre.request.current),
                end: pre.request.end,
            }) && post.state is Idle)
            &&& (pre.request.current >= pre.request.end ==> post.request == pre.request
                && post.state is Done)
        },
        pre.request.current >= pre.client.cutoff ==> {
            &&& out == Poll::Ready(Some(Result::<u64, ()>::Err(())))
            &&& post.request == pre.request
            &&& post.state is Done
        },
{
    let (c2, r0) = choose|c2: NumbersClient, r0: ReadyResponse<u64, ()>|
        pre.request.send_rel(pre.client, c2, r0) && paginate_flight_rel(
            Paginator { client: c2, state: PageState::<ReadyResponse<u64, ()>>::Flight(r0), ..pre },
            post,
            out,
        );
    let mid = Paginator {
        client: c2,
        state: PageState::<ReadyResponse<u64, ()>>::Flight(r0),
        ..pre
    };
    let (r0b, r1, pp) = choose|r0b: ReadyResponse<u64, ()>, r1: ReadyResponse<u64, ()>, pp: Poll<
        Result<u64, ()>,
    >|
        mid.state == PageState::<ReadyResponse<u64, ()>>::Flight(r0b)
            && ReadyResponse::<u64, ()>::poll_rel(r0b, r1, pp) && paginate_outcome_rel(
            mid,
            post,
            out,
            r1,
            pp,
        );
    assert(r0b == r0);
}


/// The canonical retried request: it asks the client for the next
/// attempt's number, and the attempt succeeds exactly from number `end`
/// on. It is always willing to be retried.
#[derive(Clone, Copy, Debug)]
pub struct RetryNumbers {
    /// The first attempt number that succeeds.
    pub end: u64,
}

/// The canonical retried client: `current` numbers the next attempt and
/// so counts the sends performed through it.
#[derive(Clone, Copy, Debug)]
pub struct Counter {
    /// The number of the next attempt.
    pub current: u64,
}

impl BaseRequest for RetryNumbers {
    type Ok = u64;

    type Error = u64;
}

impl RepeatableRequest<Counter> for RetryNumbers {
    type Response = ReadyResponse<u64, u64>;

    open spec fn send_rel(&self, c_pre: Counter, c_post: Counter, rsp: ReadyResponse<u64, u64>) -> bool {
        c_post == (Counter { current: sat_inc(c_pre.current) }) && rsp == (ReadyResponse {
            value: Some(
                if c_pre.current < self.end {
                    Result::<u64, u64>::Err(c_pre.current)
                } else {
                    Result::<u64, u64>::Ok(c_pre.current)
                },
            ),
        })
    }

    fn send(&self, client: &mut Counter) -> (rsp: ReadyResponse<u64, u64>) {
        let i = client.current;
        if client.current < u64::MAX {
            client.current = client.current + 1;
        }
        if i < self.end {
            ReadyResponse { value: Some(Err(i)) }
        } else {
            ReadyResponse { value: Some(Ok(i)) }
        }
    }
}

impl RetriableRequest for RetryNumbers {
    open spec fn retry_spec(&self, error: u64, next_interval_ms: u64) -> bool {
        true
    }

    fn should_retry(&self, error: &u64, next_interval_ms: u64) -> (r: bool) {
        true
    }
}

/// A predicate that declines every retry.
#[derive(Clone, Copy, Debug)]
pub struct NeverRetry;

impl<R: BaseRequest> RetrialPredicate<R> for NeverRetry {
    open spec fn pred_spec(&self, req: R, err: R::Error, next_interval_ms: u64) -> bool {
        false
    }

    fn should_retry(&self, req: &R, err: &R::Error, next_interval_ms: u64) -> (b: bool) {
        false
    }
}

/// A timer whose delays are already over when first polled, and which
/// counts how many it has handed out.
#[derive(Clone, Copy, Debug)]
pub struct CountingTimer {
    /// How many delays this timer has produced.
    pub issued: u64,
}

impl Timer for CountingTimer {
    type Delay = ReadyResponse<(), BackoffError>;

    open spec fn expires_rel(pre: Self, post: Self, interval_ms: u64, d: ReadyResponse<(), BackoffError>) -> bool {
        post == (CountingTimer { issued: sat_inc(pre.issued) }) && d == (ReadyResponse {
            value: Some(Result::<(), BackoffError>::Ok(())),
        })
    }

    fn expires_in(&mut self, interval_ms: u64) -> (d: ReadyResponse<(), BackoffError>) {
        if self.issued < u64::MAX {
            self.issued = self.issued + 1;
        }
        ReadyResponse { value: Some(Ok(())) }
    }
}

/// A timer whose substrate has shut down: every delay it hands out fails
/// permanently.
#[derive(Clone, Copy, Debug)]
pub struct ShutdownTimer {
    /// How many delays this timer has produced.
    pub issued: u64,
}

impl Timer for ShutdownTimer {
    type Delay = ReadyResponse<(), BackoffError>;

    open spec fn expires_rel(pre: Self, post: Self, interval_ms: u64, d: ReadyResponse<(), BackoffError>) -> bool {
        post == (ShutdownTimer { issued: sat_inc(pre.issued) }) && d == (ReadyResponse {
            value: Some(Result::<(), BackoffError>::Err(BackoffError::spec_shutdown())),
        })
    }

    fn expires_in(&mut self, interval_ms: u64) -> (d: ReadyResponse<(), BackoffError>) {
        if self.issued < u64::MAX {
            self.issued = self.issued + 1;
        }
        ReadyResponse { value: Some(Err(BackoffError::shutdown())) }
    }
}

/// A backoff policy with a fixed interval and a call budget: it hands out
/// `step_ms` exactly `budget` times, then gives up.
#[derive(Clone, Copy, Debug)]
pub struct LimitedBackoff {
    /// How many intervals are left before the policy gives up.
    pub budget: u64,
    /// The interval it hands out, in milliseconds.
    pub step_ms: u64,
}

impl Backoff for LimitedBackoff {
    open spec fn backoff_rel(pre: Self, post: Self, next: Option<u64>) -> bool {
        if pre.budget > 0 {
            next == Some(pre.step_ms) && post == (LimitedBackoff {
                budget: (pre.budget - 1) as u64,
                step_ms: pre.step_ms,
            })
        } else {
            next == Option::<u64>::None && post == pre
        }
    }

    open spec fn reset_rel(pre: Self, post: Self) -> bool {
        post == pre
    }

    open spec fn measure(&self) -> nat {
        self.budget as nat
    }

    proof fn lemma_measure_decreases(pre: Self, post: Self, interval_ms: u64) {
    }

    fn next_backoff(&mut self) -> (next: Option<u64>) {
        if self.budget > 0 {
            self.budget = self.budget - 1;
            Some(self.step_ms)
        } else {
            None
        }
    }

    fn reset(&mut self) {
    }
}

/// The retrial over the canonical fixtures, with a pluggable predicate.
pub type NumbersRetrial<F> = Retrial<Counter, RetryNumbers, CountingTimer, LimitedBackoff, F>;

/// The states a retrial over the canonical fixtures passes through within
/// one poll, relative to the idle state `pre` the poll started from: the
/// attempt counter advances in lock step with the delays issued and the
/// budget consumed, and an in-flight response carries exactly its
/// attempt's outcome.
pub open spec fn numbers_pass_inv<F: RetrialPredicate<RetryNumbers>>(
    pre: NumbersRetrial<F>,
    s: NumbersRetrial<F>,
) -> bool {
    let i0 = pre.client.current;
    let end = pre.request.inner.end;
    let budget0 = pre.request.backoff.budget;
    &&& pre.state is Idle
    &&& pre.request.timer.issued == 0
    &&& i0 <= end
    &&& end < u64::MAX
    &&& s.request.inner == pre.request.inner
    &&& s.request.pred == pre.request.pred
    &&& s.request.backoff.step_ms == pre.request.backoff.step_ms
    &&& match s.state {
        RetryState::Idle => {
            let i = s.client.current;
            &&& i0 <= i <= end
            &&& i - i0 <= budget0
            &&& s.request.timer.issued == i - i0
            &&& s.request.backoff.budget == budget0 - (i - i0)
        },
        RetryState::Flight(r) => {
            let i = (s.client.current - 1) as u64;
            &&& s.client.current >= 1
            &&& i0 <= i <= end
            &&& i - i0 <= budget0
            &&& s.request.timer.issued == i - i0
            &&& s.request.backoff.budget == budget0 - (i - i0)
            &&& r == (ReadyResponse {
                value: Some(
                    if i < end {
                        Result::<u64, u64>::Err(i)
                    } else {
                        Result::<u64, u64>::Ok(i)
                    },
                ),
            })
        },
        RetryState::Waiting(_) => false,
    }
}

/// Every silent transition of a poll's pass preserves the lock-step
/// characterization above.
proof fn lemma_numbers_silent_preserves<F: RetrialPredicate<RetryNumbers>>(
    pre: NumbersRetrial<F>,
    s1: NumbersRetrial<F>,
    s2: NumbersRetrial<F>,
)
    requires
        numbers_pass_inv(pre, s1),
        retry_silent_step(s1, s2),
    ensures
        numbers_pass_inv(pre, s2),
{
    if s1.state is Idle {
        assert(retry_send_step(s1, s2));
        let (c2, r0) = choose|c2: Counter, r0: ReadyResponse<u64, u64>|
            #[trigger] s1.request.inner.send_rel(s1.client, c2, r0) && s2 == (Retrial {
                client: c2,
                state: RetryState::<ReadyResponse<u64, u64>, ReadyResponse<(), BackoffError>>::Flight(
                    r0,
                ),
                ..s1
            });
    } else {
        assert(retry_accept_step(s1, s2));
        let r = s1.state->Flight_0;
        let (r2, pr) = choose|r2: ReadyResponse<u64, u64>, pr: Poll<Result<u64, u64>>|
            #[trigger] ReadyResponse::<u64, u64>::poll_rel(r, r2, pr) && (pr matches Poll::Ready(
                Err(e),
            ) && retry_accept_decision_step(s1, s2, e));
        let e = pr->Ready_0->Err_0;
        let (b2, ms) = choose|b2: LimitedBackoff, ms: u64|
            #[trigger] LimitedBackoff::backoff_rel(s1.request.backoff, b2, Some(ms))
                && s1.request.pred.pred_spec(s1.request.inner, e, ms) && retry_accept_arm_step(
                Retrial { request: Retrying { backoff: b2, ..s1.request }, ..s1 },
                s2,
                ms,
            );
        let s1b = Retrial { request: Retrying { backoff: b2, ..s1.request }, ..s1 };
        let (t2, d) = choose|t2: CountingTimer, d: ReadyResponse<(), BackoffError>|
            #[trigger] CountingTimer::expires_rel(s1b.request.timer, t2, ms, d)
                && retry_delay_done::<CountingTimer>(d) && s2 == (Retrial {
                request: Retrying { timer: t2, ..s1b.request },
                state: RetryState::<ReadyResponse<u64, u64>, ReadyResponse<(), BackoffError>>::Idle,
                ..s1b
            });
    }
}

/// On the canonical fixtures, an accepted retry presupposes that the
/// predicate accepted something.
proof fn lemma_numbers_accept_uses_pred<F: RetrialPredicate<RetryNumbers>>(
    s1: NumbersRetrial<F>,
    s2: NumbersRetrial<F>,
)
    requires
        retry_accept_step(s1, s2),
    ensures
        exists|e: u64, ms: u64| #[trigger] s1.request.pred.pred_spec(s1.request.inner, e, ms),
{
    let r = s1.state->Flight_0;
    let (r2, pr) = choose|r2: ReadyResponse<u64, u64>, pr: Poll<Result<u64, u64>>|
        #[trigger] ReadyResponse::<u64, u64>::poll_rel(r, r2, pr) && (pr matches Poll::Ready(Err(e))
            && retry_accept_decision_step(s1, s2, e));
    let e = pr->Ready_0->Err_0;
    let (b2, ms) = choose|b2: LimitedBackoff, ms: u64|
        #[trigger] LimitedBackoff::backoff_rel(s1.request.backoff, b2, Some(ms))
            && s1.request.pred.pred_spec(s1.request.inner, e, ms) && retry_accept_arm_step(
            Retrial { request: Retrying { backoff: b2, ..s1.request }, ..s1 },
            s2,
            ms,
        );
    assert(s1.request.pred.pred_spec(s1.request.inner, e, ms));
}

/// One poll of a retrial over the canonical fixtures, started idle with a
/// fresh delay counter and a predicate that answers `always` uniformly,
/// is fully determined. A due success is returned, with one delay
/// consumed per failed attempt before it; under an accepting predicate a
/// short budget runs out instead, with the timeout error after exactly
/// `budget` retried attempts; under a declining predicate the first
/// failure aborts with the operation's own error, with no delay observed.
pub proof fn lemma_retry_numbers_run<F: RetrialPredicate<RetryNumbers>>(
    pre: NumbersRetrial<F>,
    post: NumbersRetrial<F>,
    out: Poll<Result<u64, RetryError<u64>>>,
    always: bool,
)
    requires
        retry_rel(pre, post, out),
        pre.state is Idle,
        pre.request.timer.issued == 0,
        pre.client.current <= pre.request.inner.end,
        pre.request.inner.end < u64::MAX,
        forall|req: RetryNumbers, err: u64, ms: u64|
            #[trigger] pre.request.pred.pred_spec(req, err, ms) == always,
    ensures
        ({
            let i0 = pre.client.current;
            let end = pre.request.inner.end;
            let budget0 = pre.request.backoff.budget;
            if i0 == end || (always && budget0 >= end - i0) {
                &&& out == Poll::Ready(Result::<u64, RetryError<u64>>::Ok(end))
                &&& post.client.current == end + 1
                &&& post.request.timer.issued == end - i0
                &&& post.request.backoff.budget == budget0 - (end - i0)
                &&& post.request.inner == pre.request.inner
            } else if always {
                &&& out == Poll::Ready(
                    Result::<u64, RetryError<u64>>::Err(RetryError::<u64>::spec_timeout()),
                )
                &&& post.client.current == i0 + budget0 + 1
                &&& post.request.timer.issued == budget0
                &&& post.request.backoff.budget == 0
                &&& post.request.inner == pre.request.inner
                &&& post.state is Idle
            } else if budget0 == 0 {
                &&& out == Poll::Ready(
                    Result::<u64, RetryError<u64>>::Err(RetryError::<u64>::spec_timeout()),
                )
                &&& post.client.current == i0 + 1
                &&& post.request.timer.issued == 0
                &&& post.state is Idle
            } else {
                &&& out == Poll::Ready(
                    Result::<u64, RetryError<u64>>::Err(RetryError::spec_aborted(i0)),
                )
                &&& post.client.current == i0 + 1
                &&& post.request.timer.issued == 0
                &&& post.request.backoff.budget == budget0 - 1
                &&& post.state is Idle
            }
        }),
{
    let i0 = pre.client.current;
    let end = pre.request.inner.end;
    let budget0 = pre.request.backoff.budget;
    let (mid, n) = choose|mid: NumbersRetrial<F>, n: nat|
        #[trigger] retry_reaches(pre, mid, n) && retry_emit_step(mid, post, out);
    let inv = |s: NumbersRetrial<F>|
        numbers_pass_inv(pre, s) && (!always ==> s.request.timer.issued == 0);
    assert(inv(pre));
    assert forall|s1: NumbersRetrial<F>, s2: NumbersRetrial<F>|
        inv(s1) && #[trigger] retry_silent_step(s1, s2) implies inv(s2) by {
        lemma_numbers_silent_preserves(pre, s1, s2);
        if !always && retry_accept_step(s1, s2) {
            lemma_numbers_accept_uses_pred(s1, s2);
            assert(false);
        }
    }
    lemma_retry_reaches_preserves(inv, pre, mid, n);
    assert(numbers_pass_inv(pre, mid));
    match mid.state {
        RetryState::Idle => {
            assert(false);
        },
        RetryState::Waiting(_) => {
            assert(false);
        },
        RetryState::Flight(r) => {
            let i = (mid.client.current - 1) as u64;
            let (r2, pr) = choose|r2: ReadyResponse<u64, u64>, pr: Poll<Result<u64, u64>>|
                #[trigger] ReadyResponse::<u64, u64>::poll_rel(r, r2, pr) && retry_flight_emit_rel(
                    mid,
                    post,
                    out,
                    r2,
                    pr,
                );
            if i >= end {
                assert(i == end);
                assert(pr == Poll::Ready(Result::<u64, u64>::Ok(i)));
            } else {
                assert(pr == Poll::Ready(Result::<u64, u64>::Err(i)));
                let (b2, nb) = choose|b2: LimitedBackoff, nb: Option<u64>|
                    #[trigger] LimitedBackoff::backoff_rel(mid.request.backoff, b2, nb)
                        && retry_decision_emit_rel(
                        Retrial {
                            request: Retrying { backoff: b2, ..mid.request },
                            state: RetryState::<
                                ReadyResponse<u64, u64>,
                                ReadyResponse<(), BackoffError>,
                            >::Idle,
                            ..mid
                        },
                        post,
                        out,
                        i,
                        nb,
                    );
                let dmid = Retrial {
                    request: Retrying { backoff: b2, ..mid.request },
                    state: RetryState::<
                        ReadyResponse<u64, u64>,
                        ReadyResponse<(), BackoffError>,
                    >::Idle,
                    ..mid
                };
                if mid.request.backoff.budget == 0 {
                    assert(nb is None);
                    assert(i - i0 == budget0);
                } else {
                    assert(nb == Some(pre.request.backoff.step_ms));
                    let ms = pre.request.backoff.step_ms;
                    assert(dmid.request.pred.pred_spec(dmid.request.inner, i, ms) == always);
                    if always {
                        let (t2, d) = choose|t2: CountingTimer, d: ReadyResponse<(), BackoffError>|
                            #[trigger] CountingTimer::expires_rel(dmid.request.timer, t2, ms, d)
                                && retry_arm_emit_rel(
                                Retrial {
                                    request: Retrying { timer: t2, ..dmid.request },
                                    ..dmid
                                },
                                post,
                                out,
                                d,
                            );
                        let amid = Retrial {
                            request: Retrying { timer: t2, ..dmid.request },
                            ..dmid
                        };
                        let (d2, pd) = choose|
                            d2: ReadyResponse<(), BackoffError>,
                            pd: Poll<Result<(), BackoffError>>,
                        |
                            #[trigger] ReadyResponse::<(), BackoffError>::poll_rel(d, d2, pd)
                                && match pd {
                                Poll::Pending => out is Pending && post == (Retrial {
                                    state: RetryState::<
                                        ReadyResponse<u64, u64>,
                                        ReadyResponse<(), BackoffError>,
                                    >::Waiting(d2),
                                    ..amid
                                }),
                                Poll::Ready(Err(be)) => out == Poll::Ready(
                                    Result::<u64, RetryError<u64>>::Err(
                                        RetryError::<u64>::spec_from_backoff(be),
                                    ),
                                ) && post == (Retrial {
                                    state: RetryState::<
                                        ReadyResponse<u64, u64>,
                                        ReadyResponse<(), BackoffError>,
                                    >::Waiting(d2),
                                    ..amid
                                }),
                                Poll::Ready(Ok(_)) => false,
                            };
                        assert(pd == Poll::Ready(d.value->0));
                        assert(false);
                    }
                }
            }
        },
    }
}

/// Retrial on the canonical fixtures with a budget that outlasts the
/// failures; the contract pins the complete outcome of the one poll that
/// runs it.
///
/// Eventual success: an operation that fails its first `end - start`
/// attempts and succeeds on the next one, retried with an
/// always-accepting predicate over immediately-over delays, ends with
/// exactly the successful attempt's value, one send per attempt, and one
/// delay per failure — all within one poll, which re-polls as soon as a
/// delay is over.
pub fn retry_numbers_to_success(start: u64, end: u64, budget: u64, step_ms: u64) -> (r: (
    u64,
    NumbersRetrial<()>,
))
    requires
        start <= end,
        end < u64::MAX,
        budget >= end - start,
    ensures
        r.0 == end,
        r.1.client.current == end + 1,
        r.1.request.timer.issued == end - start,
        r.1.request.backoff.budget == budget - (end - start),
{
    let request = RetryNumbers { end };
    let timer = CountingTimer { issued: 0 };
    let strategy = LimitedBackoff { budget, step_ms };
    let retrying = Retrying::new(request, timer, strategy);
    let mut retrial = retrying.send_once(Counter { current: start });
    let ghost pre = retrial;
    let out = retrial.poll();
    proof {
        lemma_retry_numbers_run(pre, retrial, out, true);
    }
    match out {
        Poll::Ready(Ok(v)) => (v, retrial),
        _ => {
            proof {
                assert(false);
            }
            (0, retrial)
        },
    }
}

/// Retrial on the canonical fixtures with a predicate that declines the
/// first failure; the contract pins the complete outcome.
///
/// Predicate refusal: the retrial ends at once with the wrapped
/// operation's own error — exactly one send, and no delay observed.
pub fn retry_numbers_refused(start: u64, end: u64, budget: u64, step_ms: u64) -> (r: (
    RetryError<u64>,
    NumbersRetrial<NeverRetry>,
))
    requires
        start < end,
        end < u64::MAX,
        budget >= 1,
    ensures
        r.0 == RetryError::spec_aborted(start),
        r.0.is_aborted_spec(),
        !r.0.is_timeout_spec(),
        !r.0.is_shutdown_spec(),
        r.0.as_inner_spec() == Some(start),
        r.1.client.current == start + 1,
        r.1.request.timer.issued == 0,
{
    let request = RetryNumbers { end };
    let timer = CountingTimer { issued: 0 };
    let strategy = LimitedBackoff { budget, step_ms };
    let retrying = Retrying::new(request, timer, strategy).with_predicate(NeverRetry);
    let mut retrial = retrying.send_once(Counter { current: start });
    let ghost pre = retrial;
    let out = retrial.poll();
    proof {
        lemma_retry_numbers_run(pre, retrial, out, false);
        crate::error::lemma_retry_error_flags::<u64>(start);
    }
    match out {
        Poll::Ready(Err(e)) => (e, retrial),
        _ => {
            proof {
                assert(false);
            }
            (RetryError::from_err(0), retrial)
        },
    }
}

/// Retrial on the canonical fixtures with a backoff budget that runs out
/// before the operation can succeed; the contract pins the complete
/// outcome.
///
/// Backoff exhaustion: with a budget of `budget` intervals and an
/// always-accepting predicate, the retrial ends with a timeout-flagged
/// error after exactly `budget` retried sends — `budget + 1` sends and
/// `budget` delays in all — no matter that the operation would have
/// succeeded from attempt `end` on.
pub fn retry_numbers_exhausted(start: u64, end: u64, budget: u64, step_ms: u64) -> (r: (
    RetryError<u64>,
    NumbersRetrial<()>,
))
    requires
        start <= end,
        end < u64::MAX,
        budget < end - start,
    ensures
        r.0 == RetryError::<u64>::spec_timeout(),
        r.0.is_timeout_spec(),
        !r.0.is_aborted_spec(),
        !r.0.is_shutdown_spec(),
        r.1.client.current == start + budget + 1,
        r.1.request.timer.issued == budget,
{
    let request = RetryNumbers { end };
    let timer = CountingTimer { issued: 0 };
    let strategy = LimitedBackoff { budget, step_ms };
    let retrying = Retrying::new(request, timer, strategy);
    let mut retrial = retrying.send_once(Counter { current: start });
    let ghost pre = retrial;
    let out = retrial.poll();
    proof {
        lemma_retry_numbers_run(pre, retrial, out, true);
        crate::error::lemma_retry_error_flags::<u64>(start);
    }
    match out {
        Poll::Ready(Err(e)) => (e, retrial),
        _ => {
            proof {
                assert(false);
            }
            (RetryError::from_err(0), retrial)
        },
    }
}

} // verus!
