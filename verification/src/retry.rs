//! The retrial combinator: re-issuing a failed operation after a
//! backoff delay, under a caller-supplied predicate.

use vstd::prelude::*;

use crate::error::{BackoffError, RetryError};
use crate::poll::Poll;
use crate::request::{BaseRequest, OneshotRequest, PagedRequest, RepeatableRequest, RetriableRequest};
use crate::response::Response;
use crate::strategy::Backoff;

verus! {

/// A caller-supplied decision of whether a given failure, at a given next
/// interval, should be retried.
pub trait RetrialPredicate<R: BaseRequest>: Sized {
    /// What `should_retry` decides.
    spec fn pred_spec(&self, req: R, err: R::Error, next_interval_ms: u64) -> bool;

    /// Decide whether the given failure of `req`, with `next_interval_ms`
    /// milliseconds to wait before the next attempt, should be retried.
    fn should_retry(&self, req: &R, err: &R::Error, next_interval_ms: u64) -> (b: bool)
        ensures
            b == self.pred_spec(*req, *err, next_interval_ms),
    ;
}

/// The default predicate delegates to the retryability flag carried by
/// the request itself.
impl<R: RetriableRequest> RetrialPredicate<R> for () {
    open spec fn pred_spec(&self, req: R, err: R::Error, next_interval_ms: u64) -> bool {
        req.retry_spec(err, next_interval_ms)
    }

    fn should_retry(&self, req: &R, err: &R::Error, next_interval_ms: u64) -> (b: bool) {
        req.should_retry(err, next_interval_ms)
    }
}

/// Converts an interval into a pollable delay: the timer abstraction.
///
/// A delay is a response whose success is `()`; its error tells a
/// permanently unusable timer substrate (`is_shutdown`) apart from an
/// ordinary completion.
pub trait Timer: Sized {
    /// The pollable delay this timer produces.
    type Delay: Response<Ok = (), Error = BackoffError>;

    /// Which delays and timer transitions one `expires_in` call admits.
    spec fn expires_rel(pre: Self, post: Self, interval_ms: u64, d: Self::Delay) -> bool;

    /// A delay that completes `interval_ms` milliseconds from now.
    fn expires_in(&mut self, interval_ms: u64) -> (d: Self::Delay)
        ensures
            Self::expires_rel(*old(self), *final(self), interval_ms, d),
    ;
}

/// A request wrapped to retry itself on failure: the wrapped request
/// together with a timer, a backoff policy, and a retry predicate.
///
/// Sending it produces a [`Retrial`], whose polling re-issues the wrapped
/// request after each retryable failure.
#[derive(Clone, Debug)]
pub struct Retrying<R, T, B, F = ()> {
    /// The wrapped request.
    pub inner: R,
    /// Converts backoff intervals into pollable delays.
    pub timer: T,
    /// Produces the successive wait intervals.
    pub backoff: B,
    /// Decides whether a given failure is retried.
    pub pred: F,
}

impl<R, T, B> Retrying<R, T, B, ()> {
    /// Wrap `req` to retry with the given timer and backoff policy,
    /// consulting the retryability flag of the request itself.
    pub fn new(req: R, timer: T, backoff: B) -> (r: Retrying<R, T, B, ()>)
        ensures
            r == (Retrying { inner: req, timer, backoff, pred: () }),
    {
        Retrying { inner: req, timer, backoff, pred: () }
    }
}

impl<R, T, B, F> Retrying<R, T, B, F> {
    /// The same wrapped request, consulting `pred` instead.
    pub fn with_predicate<F2>(self, pred: F2) -> (r: Retrying<R, T, B, F2>)
        ensures
            r == (Retrying {
                inner: self.inner,
                timer: self.timer,
                backoff: self.backoff,
                pred,
            }),
    {
        Retrying { inner: self.inner, timer: self.timer, backoff: self.backoff, pred }
    }
}

impl<R: BaseRequest, T, B, F> BaseRequest for Retrying<R, T, B, F> {
    type Ok = R::Ok;

    type Error = RetryError<R::Error>;
}

/// What a retrial is currently doing: about to issue the request, holding
/// an in-flight response, or holding an in-flight delay.
///
/// The tag makes the machine's invariant structural: at most one of the
/// in-flight response and the in-flight delay exists at any time.
pub enum RetryState<Rsp, D> {
    /// Nothing in flight; the request will be issued on the next poll.
    Idle,
    /// One response is in flight.
    Flight(Rsp),
    /// One delay is in flight; the request is re-issued once it ends.
    Waiting(D),
}

/// The in-flight state of one retried operation: the wrapped request
/// bundle, the client handle it is issued with, and at most one in-flight
/// response or delay.
pub struct Retrial<C, R, T, B, F> where
    R: RepeatableRequest<C>,
    T: Timer,
    B: Backoff,
    F: RetrialPredicate<R>,
 {
    /// The client handle, passed to every send.
    pub client: C,
    /// The wrapped request with its retry machinery.
    pub request: Retrying<R, T, B, F>,
    /// What the retrial is currently doing.
    pub state: RetryState<R::Response, T::Delay>,
}

/// The rank of a retrial state within one poll's pass: every silent
/// transition either lowers the rank or consumes the backoff measure, so
/// the pass ends.
pub open spec fn retry_state_rank<Rsp, D>(s: RetryState<Rsp, D>) -> int {
    match s {
        RetryState::Waiting(_) => 2,
        RetryState::Idle => 1,
        RetryState::Flight(_) => 0,
    }
}

/// A delay that is already over: some poll of it returns `Ready(Ok(_))`.
pub open spec fn retry_delay_done<T: Timer>(d: T::Delay) -> bool {
    exists|d2: T::Delay, pd: Poll<Result<(), BackoffError>>|
        #[trigger] T::Delay::poll_rel(d, d2, pd) && (pd matches Poll::Ready(Ok(_)))
}

/// A silent transition: the in-flight delay turns out to be over, so the
/// machine falls back to idle and the pass continues.
pub open spec fn retry_wait_done_step<C, R: RepeatableRequest<C>, T: Timer, B: Backoff, F: RetrialPredicate<R>>(
    s1: Retrial<C, R, T, B, F>,
    s2: Retrial<C, R, T, B, F>,
) -> bool {
    s1.state matches RetryState::Waiting(w) && exists|w2: T::Delay, pw: Poll<Result<(), BackoffError>>|
        #[trigger] T::Delay::poll_rel(w, w2, pw) && (pw matches Poll::Ready(Ok(_))) && s2 == Retrial {
            state: RetryState::<R::Response, T::Delay>::Idle,
            ..s1
        }
}

/// A silent transition: nothing is in flight, so the wrapped request is
/// issued once and the pass continues with the fresh response.
pub open spec fn retry_send_step<C, R: RepeatableRequest<C>, T: Timer, B: Backoff, F: RetrialPredicate<R>>(
    s1: Retrial<C, R, T, B, F>,
    s2: Retrial<C, R, T, B, F>,
) -> bool {
    s1.state is Idle && exists|c2: C, r0: R::Response|
        #[trigger] s1.request.inner.send_rel(s1.client, c2, r0) && s2 == Retrial {
            client: c2,
            state: RetryState::<R::Response, T::Delay>::Flight(r0),
            ..s1
        }
}

/// The arming stage of an accepted retry whose delay is already over:
/// the timer produced a finished delay, so the machine falls back to
/// idle and the pass continues with the next attempt.
pub open spec fn retry_accept_arm_step<C, R: RepeatableRequest<C>, T: Timer, B: Backoff, F: RetrialPredicate<R>>(
    s1b: Retrial<C, R, T, B, F>,
    s2: Retrial<C, R, T, B, F>,
    ms: u64,
) -> bool {
    exists|t2: T, d: T::Delay|
        #[trigger] T::expires_rel(s1b.request.timer, t2, ms, d) && retry_delay_done::<T>(d) && s2
            == Retrial {
            request: Retrying { timer: t2, ..s1b.request },
            state: RetryState::<R::Response, T::Delay>::Idle,
            ..s1b
        }
}

/// The decision stage of an accepted retry whose delay is already over:
/// the backoff policy yields an interval and the predicate accepts it.
pub open spec fn retry_accept_decision_step<C, R: RepeatableRequest<C>, T: Timer, B: Backoff, F: RetrialPredicate<R>>(
    s1: Retrial<C, R, T, B, F>,
    s2: Retrial<C, R, T, B, F>,
    e: R::Error,
) -> bool {
    exists|b2: B, ms: u64|
        #[trigger] B::backoff_rel(s1.request.backoff, b2, Some(ms)) && s1.request.pred.pred_spec(
            s1.request.inner,
            e,
            ms,
        ) && retry_accept_arm_step(
            Retrial { request: Retrying { backoff: b2, ..s1.request }, ..s1 },
            s2,
            ms,
        )
}

/// A silent transition: the in-flight response fails, the retry is
/// accepted, and the armed delay is already over, so the next attempt is
/// issued within the same pass — the re-poll-immediately rule.
pub open spec fn retry_accept_step<C, R: RepeatableRequest<C>, T: Timer, B: Backoff, F: RetrialPredicate<R>>(
    s1: Retrial<C, R, T, B, F>,
    s2: Retrial<C, R, T, B, F>,
) -> bool {
    s1.state matches RetryState::Flight(r) && exists|r2: R::Response, pr: Poll<Result<R::Ok, R::Error>>|
        #[trigger] R::Response::poll_rel(r, r2, pr) && (pr matches Poll::Ready(Err(e))
            && retry_accept_decision_step(s1, s2, e))
}

/// One silent transition of a poll's pass: a finished delay, a send, or
/// an accepted retry whose delay is already over. Each one either lowers
/// the state rank or consumes the backoff measure, so a pass is finite.
pub open spec fn retry_silent_step<C, R: RepeatableRequest<C>, T: Timer, B: Backoff, F: RetrialPredicate<R>>(
    s1: Retrial<C, R, T, B, F>,
    s2: Retrial<C, R, T, B, F>,
) -> bool {
    retry_wait_done_step(s1, s2) || retry_send_step(s1, s2) || retry_accept_step(s1, s2)
}

/// A chain of `n` silent transitions from `pre` to `mid`.
pub open spec fn retry_reaches<C, R: RepeatableRequest<C>, T: Timer, B: Backoff, F: RetrialPredicate<R>>(
    pre: Retrial<C, R, T, B, F>,
    mid: Retrial<C, R, T, B, F>,
    n: nat,
) -> bool
    decreases n,
{
    if n == 0 {
        mid == pre
    } else {
        exists|s: Retrial<C, R, T, B, F>|
            retry_reaches(pre, s, (n - 1) as nat) && #[trigger] retry_silent_step(s, mid)
    }
}

/// Silent steps preserve any property they preserve stepwise: the
/// induction principle over a poll's pass.
pub proof fn lemma_retry_reaches_preserves<C, R: RepeatableRequest<C>, T: Timer, B: Backoff, F: RetrialPredicate<R>>(
    inv: spec_fn(Retrial<C, R, T, B, F>) -> bool,
    pre: Retrial<C, R, T, B, F>,
    mid: Retrial<C, R, T, B, F>,
    n: nat,
)
    requires
        inv(pre),
        retry_reaches(pre, mid, n),
        forall|s1: Retrial<C, R, T, B, F>, s2: Retrial<C, R, T, B, F>|
            inv(s1) && #[trigger] retry_silent_step(s1, s2) ==> inv(s2),
    ensures
        inv(mid),
    decreases n,
{
    if n > 0 {
        let s = choose|s: Retrial<C, R, T, B, F>|
            retry_reaches(pre, s, (n - 1) as nat) && #[trigger] retry_silent_step(s, mid);
        lemma_retry_reaches_preserves(inv, pre, s, (n - 1) as nat);
    }
}

/// What a pass emits once the in-flight delay has been polled: a pending
/// delay is kept, a failed one surfaces the timer's error; a finished one
/// emits nothing — the pass continues silently instead.
pub open spec fn retry_wait_emit_rel<C, R: RepeatableRequest<C>, T: Timer, B: Backoff, F: RetrialPredicate<R>>(
    s1: Retrial<C, R, T, B, F>,
    post: Retrial<C, R, T, B, F>,
    out: Poll<Result<R::Ok, RetryError<R::Error>>>,
    w2: T::Delay,
    pw: Poll<Result<(), BackoffError>>,
) -> bool {
    match pw {
        Poll::Pending => out is Pending && post == Retrial {
            state: RetryState::<R::Response, T::Delay>::Waiting(w2),
            ..s1
        },
        Poll::Ready(Err(be)) => out == Poll::Ready(
            Result::<R::Ok, RetryError<R::Error>>::Err(
                RetryError::<R::Error>::spec_from_backoff(be),
            ),
        ) && post == Retrial { state: RetryState::<R::Response, T::Delay>::Waiting(w2), ..s1 },
        Poll::Ready(Ok(_)) => false,
    }
}

/// What a pass emits from the moment a fresh delay `d` has been armed:
/// the delay is polled once; pending keeps it, a failure surfaces the
/// timer's error, and a finished one emits nothing — the pass continues
/// silently.
pub open spec fn retry_arm_emit_rel<C, R: RepeatableRequest<C>, T: Timer, B: Backoff, F: RetrialPredicate<R>>(
    s3: Retrial<C, R, T, B, F>,
    post: Retrial<C, R, T, B, F>,
    out: Poll<Result<R::Ok, RetryError<R::Error>>>,
    d: T::Delay,
) -> bool {
    exists|d2: T::Delay, pd: Poll<Result<(), BackoffError>>|
        #[trigger] T::Delay::poll_rel(d, d2, pd) && match pd {
            Poll::Pending => out is Pending && post == Retrial {
                state: RetryState::<R::Response, T::Delay>::Waiting(d2),
                ..s3
            },
            Poll::Ready(Err(be)) => out == Poll::Ready(
                Result::<R::Ok, RetryError<R::Error>>::Err(
                    RetryError::<R::Error>::spec_from_backoff(be),
                ),
            ) && post == Retrial {
                state: RetryState::<R::Response, T::Delay>::Waiting(d2),
                ..s3
            },
            Poll::Ready(Ok(_)) => false,
        }
}

/// What a pass emits from the retry decision on failure `e`, after the
/// backoff policy answered `nb`: no interval left means a timeout error,
/// a declined retry aborts with the operation's error, an accepted one
/// arms a delay — which emits only if it is not already over.
pub open spec fn retry_decision_emit_rel<C, R: RepeatableRequest<C>, T: Timer, B: Backoff, F: RetrialPredicate<R>>(
    s2: Retrial<C, R, T, B, F>,
    post: Retrial<C, R, T, B, F>,
    out: Poll<Result<R::Ok, RetryError<R::Error>>>,
    e: R::Error,
    nb: Option<u64>,
) -> bool {
    match nb {
        None => post == s2 && out == Poll::Ready(
            Result::<R::Ok, RetryError<R::Error>>::Err(RetryError::<R::Error>::spec_timeout()),
        ),
        Some(ms) => if s2.request.pred.pred_spec(s2.request.inner, e, ms) {
            exists|t2: T, d: T::Delay|
                #[trigger] T::expires_rel(s2.request.timer, t2, ms, d) && retry_arm_emit_rel(
                    Retrial { request: Retrying { timer: t2, ..s2.request }, ..s2 },
                    post,
                    out,
                    d,
                )
        } else {
            post == s2 && out == Poll::Ready(
                Result::<R::Ok, RetryError<R::Error>>::Err(RetryError::spec_aborted(e)),
            )
        },
    }
}

/// What a pass emits once the in-flight response has been polled: a
/// pending or successful response is handed through, a failure goes to
/// the retry decision.
pub open spec fn retry_flight_emit_rel<C, R: RepeatableRequest<C>, T: Timer, B: Backoff, F: RetrialPredicate<R>>(
    s1: Retrial<C, R, T, B, F>,
    post: Retrial<C, R, T, B, F>,
    out: Poll<Result<R::Ok, RetryError<R::Error>>>,
    r2: R::Response,
    pr: Poll<Result<R::Ok, R::Error>>,
) -> bool {
    match pr {
        Poll::Pending => out is Pending && post == Retrial {
            state: RetryState::<R::Response, T::Delay>::Flight(r2),
            ..s1
        },
        Poll::Ready(Ok(v)) => out == Poll::Ready(Result::<R::Ok, RetryError<R::Error>>::Ok(v))
            && post == Retrial { state: RetryState::<R::Response, T::Delay>::Flight(r2), ..s1 },
        Poll::Ready(Err(e)) => exists|b2: B, nb: Option<u64>|
            #[trigger] B::backoff_rel(s1.request.backoff, b2, nb) && retry_decision_emit_rel(
                Retrial {
                    request: Retrying { backoff: b2, ..s1.request },
                    state: RetryState::<R::Response, T::Delay>::Idle,
                    ..s1
                },
                post,
                out,
                e,
                nb,
            ),
    }
}

/// The emitting end of a pass: from the state the silent transitions
/// reached, one more stage hands a value, an error or `Pending` to the
/// caller. A pass never ends while the machine is idle — an idle machine
/// first sends, silently.
pub open spec fn retry_emit_step<C, R: RepeatableRequest<C>, T: Timer, B: Backoff, F: RetrialPredicate<R>>(
    s1: Retrial<C, R, T, B, F>,
    post: Retrial<C, R, T, B, F>,
    out: Poll<Result<R::Ok, RetryError<R::Error>>>,
) -> bool {
    match s1.state {
        RetryState::Idle => false,
        RetryState::Waiting(w) => exists|w2: T::Delay, pw: Poll<Result<(), BackoffError>>|
            #[trigger] T::Delay::poll_rel(w, w2, pw) && retry_wait_emit_rel(s1, post, out, w2, pw),
        RetryState::Flight(r) => exists|r2: R::Response, pr: Poll<Result<R::Ok, R::Error>>|
            #[trigger] R::Response::poll_rel(r, r2, pr) && retry_flight_emit_rel(
                s1,
                post,
                out,
                r2,
                pr,
            ),
    }
}

/// What one poll of a retrial admits: finitely many silent transitions —
/// finished delays, sends, accepted retries whose delay was already over
/// — followed by one emitting stage.
pub open spec fn retry_rel<C, R: RepeatableRequest<C>, T: Timer, B: Backoff, F: RetrialPredicate<R>>(
    pre: Retrial<C, R, T, B, F>,
    post: Retrial<C, R, T, B, F>,
    out: Poll<Result<R::Ok, RetryError<R::Error>>>,
) -> bool {
    exists|mid: Retrial<C, R, T, B, F>, n: nat|
        #[trigger] retry_reaches(pre, mid, n) && retry_emit_step(mid, post, out)
}

impl<C, R, T, B, F> Response for Retrial<C, R, T, B, F> where
    R: RepeatableRequest<C>,
    T: Timer,
    B: Backoff,
    F: RetrialPredicate<R>,
 {
    type Ok = R::Ok;

    type Error = RetryError<R::Error>;

    open spec fn poll_rel(pre: Self, post: Self, out: Poll<Result<R::Ok, RetryError<R::Error>>>) -> bool {
        retry_rel(pre, post, out)
    }

    /// One poll of the retry state machine. An in-flight delay is polled
    /// first; once it is over, the wrapped request is issued (if no
    /// response is in flight) and the in-flight response is polled. A
    /// failure goes to the retry decision: no interval left ends in a
    /// timeout error, a declined retry ends with the operation's error,
    /// an accepted one arms a delay and polls it at once, so that a real
    /// timer is registered with its scheduler — and when that delay is
    /// already over, the pass loops and issues the next attempt within
    /// the same call. The loop ends because every accepted retry consumes
    /// the backoff policy's finite measure.
    fn poll(&mut self) -> (out: Poll<Result<R::Ok, RetryError<R::Error>>>) {
        let ghost pre = *self;
        let ghost mut steps: nat = 0;
        loop
            invariant
                pre == *old(self),
                retry_reaches(pre, *self, steps),
            decreases self.request.backoff.measure(), retry_state_rank(self.state),
        {
            let ghost cur = *self;
            let mut st: RetryState<R::Response, T::Delay> = RetryState::Idle;
            core::mem::swap(&mut self.state, &mut st);
            match st {
                RetryState::Waiting(mut w) => {
                    let pw = w.poll();
                    let ghost pwg = pw;
                    match pw {
                        Poll::Pending => {
                            self.state = RetryState::Waiting(w);
                            proof {
                                assert(retry_wait_emit_rel(cur, *self, Poll::<Result<R::Ok, RetryError<R::Error>>>::Pending, w, pwg));
                                assert(retry_emit_step(cur, *self, Poll::<Result<R::Ok, RetryError<R::Error>>>::Pending));
                                assert(retry_rel(pre, *self, Poll::<Result<R::Ok, RetryError<R::Error>>>::Pending));
                            }
                            return Poll::Pending;
                        },
                        Poll::Ready(Err(be)) => {
                            let r = RetryError::<R::Error>::from_backoff(be);
                            self.state = RetryState::Waiting(w);
                            let out = Poll::Ready(Err(r));
                            proof {
                                assert(retry_wait_emit_rel(cur, *self, out, w, pwg));
                                assert(retry_emit_step(cur, *self, out));
                                assert(retry_rel(pre, *self, out));
                            }
                            return out;
                        },
                        Poll::Ready(Ok(_)) => {
                            self.state = RetryState::Idle;
                            proof {
                                assert(retry_wait_done_step(cur, *self));
                                assert(retry_silent_step(cur, *self));
                                steps = steps + 1;
                                assert(retry_reaches(pre, *self, steps));
                            }
                        },
                    }
                },
                RetryState::Idle => {
                    let rsp = self.request.inner.send(&mut self.client);
                    self.state = RetryState::Flight(rsp);
                    proof {
                        assert(retry_send_step(cur, *self));
                        assert(retry_silent_step(cur, *self));
                        steps = steps + 1;
                        assert(retry_reaches(pre, *self, steps));
                    }
                },
                RetryState::Flight(mut r) => {
                    let pr = r.poll();
                    let ghost prg = pr;
                    let ghost r2g = r;
                    match pr {
                        Poll::Pending => {
                            self.state = RetryState::Flight(r);
                            proof {
                                assert(retry_flight_emit_rel(cur, *self, Poll::<Result<R::Ok, RetryError<R::Error>>>::Pending, r2g, prg));
                                assert(retry_emit_step(cur, *self, Poll::<Result<R::Ok, RetryError<R::Error>>>::Pending));
                                assert(retry_rel(pre, *self, Poll::<Result<R::Ok, RetryError<R::Error>>>::Pending));
                            }
                            return Poll::Pending;
                        },
                        Poll::Ready(Ok(v)) => {
                            self.state = RetryState::Flight(r);
                            let out = Poll::Ready(Ok(v));
                            proof {
                                assert(retry_flight_emit_rel(cur, *self, out, r2g, prg));
                                assert(retry_emit_step(cur, *self, out));
                                assert(retry_rel(pre, *self, out));
                            }
                            return out;
                        },
                        Poll::Ready(Err(e)) => {
                            let ghost b_old = self.request.backoff;
                            let nb = self.request.backoff.next_backoff();
                            let ghost dbase = Retrial {
                                client: self.client,
                                request: Retrying { backoff: self.request.backoff, ..cur.request },
                                state: RetryState::<R::Response, T::Delay>::Idle,
                            };
                            match nb {
                                None => {
                                    self.state = RetryState::Idle;
                                    let out = Poll::Ready(Err(RetryError::<R::Error>::timeout()));
                                    proof {
                                        assert(retry_decision_emit_rel(dbase, *self, out, e, nb));
                                        assert(retry_flight_emit_rel(cur, *self, out, r2g, prg));
                                        assert(retry_emit_step(cur, *self, out));
                                        assert(retry_rel(pre, *self, out));
                                    }
                                    return out;
                                },
                                Some(ms) => {
                                    if self.request.pred.should_retry(&self.request.inner, &e, ms) {
                                        let mut d = self.request.timer.expires_in(ms);
                                        let ghost d0 = d;
                                        let ghost abase = Retrial {
                                            client: dbase.client,
                                            request: Retrying {
                                                timer: self.request.timer,
                                                ..dbase.request
                                            },
                                            state: RetryState::<R::Response, T::Delay>::Idle,
                                        };
                                        let pd = d.poll();
                                        let ghost pdg = pd;
                                        match pd {
                                            Poll::Pending => {
                                                self.state = RetryState::Waiting(d);
                                                proof {
                                                    assert(retry_arm_emit_rel(abase, *self, Poll::<Result<R::Ok, RetryError<R::Error>>>::Pending, d0));
                                                    assert(retry_decision_emit_rel(dbase, *self, Poll::<Result<R::Ok, RetryError<R::Error>>>::Pending, e, nb));
                                                    assert(retry_flight_emit_rel(cur, *self, Poll::<Result<R::Ok, RetryError<R::Error>>>::Pending, r2g, prg));
                                                    assert(retry_emit_step(cur, *self, Poll::<Result<R::Ok, RetryError<R::Error>>>::Pending));
                                                    assert(retry_rel(pre, *self, Poll::<Result<R::Ok, RetryError<R::Error>>>::Pending));
                                                }
                                                return Poll::Pending;
                                            },
                                            Poll::Ready(Err(be)) => {
                                                let rr = RetryError::<R::Error>::from_backoff(be);
                                                self.state = RetryState::Waiting(d);
                                                let out = Poll::Ready(Err(rr));
                                                proof {
                                                    assert(retry_arm_emit_rel(abase, *self, out, d0));
                                                    assert(retry_decision_emit_rel(dbase, *self, out, e, nb));
                                                    assert(retry_flight_emit_rel(cur, *self, out, r2g, prg));
                                                    assert(retry_emit_step(cur, *self, out));
                                                    assert(retry_rel(pre, *self, out));
                                                }
                                                return out;
                                            },
                                            Poll::Ready(Ok(_)) => {
                                                self.state = RetryState::Idle;
                                                proof {
                                                    assert(T::Delay::poll_rel(d0, d, pdg));
                                                    assert(retry_delay_done::<T>(d0));
                                                    assert(retry_accept_arm_step(dbase, *self, ms));
                                                    assert(retry_accept_decision_step(cur, *self, e));
                                                    assert(retry_accept_step(cur, *self));
                                                    assert(retry_silent_step(cur, *self));
                                                    B::lemma_measure_decreases(
                                                        b_old,
                                                        self.request.backoff,
                                                        ms,
                                                    );
                                                    steps = steps + 1;
                                                    assert(retry_reaches(pre, *self, steps));
                                                }
                                            },
                                        }
                                    } else {
                                        self.state = RetryState::Idle;
                                        let out = Poll::Ready(Err(RetryError::from_err(e)));
                                        proof {
                                            assert(retry_decision_emit_rel(dbase, *self, out, e, nb));
                                            assert(retry_flight_emit_rel(cur, *self, out, r2g, prg));
                                            assert(retry_emit_step(cur, *self, out));
                                            assert(retry_rel(pre, *self, out));
                                        }
                                        return out;
                                    }
                                },
                            };
                        },
                    }
                },
            }
        }
    }
}

impl<C, R, T, B, F> OneshotRequest<C> for Retrying<R, T, B, F> where
    R: RepeatableRequest<C>,
    T: Timer,
    B: Backoff,
    F: RetrialPredicate<R>,
 {
    type Response = Retrial<C, R, T, B, F>;

    open spec fn send_once_rel(req: Self, client: C, rsp: Retrial<C, R, T, B, F>) -> bool {
        rsp == (Retrial {
            client,
            request: req,
            state: RetryState::<R::Response, T::Delay>::Idle,
        })
    }

    fn send_once(self, client: C) -> (rsp: Retrial<C, R, T, B, F>) {
        Retrial { client, request: self, state: RetryState::Idle }
    }
}

impl<C, R, T, B, F> RepeatableRequest<C> for Retrying<R, T, B, F> where
    C: Clone,
    R: RepeatableRequest<C> + Clone,
    T: Timer + Clone,
    B: Backoff + Clone,
    F: RetrialPredicate<R> + Clone,
 {
    type Response = Retrial<C, R, T, B, F>;

    /// Each send starts a fresh retrial from clones of the wrapped
    /// request bundle and of the client; since Rust promises nothing
    /// about what `clone` returns for an arbitrary type, only the shape
    /// of the fresh retrial can be stated.
    open spec fn send_rel(&self, c_pre: C, c_post: C, rsp: Retrial<C, R, T, B, F>) -> bool {
        c_post == c_pre && rsp.state is Idle
    }

    fn send(&self, client: &mut C) -> (rsp: Retrial<C, R, T, B, F>) {
        Retrial { client: client.clone(), request: self.clone(), state: RetryState::Idle }
    }
}

impl<C, R, T, B, F> PagedRequest<C> for Retrying<R, T, B, F> where
    C: Clone,
    R: PagedRequest<C> + Clone,
    T: Timer + Clone,
    B: Backoff + Clone,
    F: RetrialPredicate<R> + Clone,
 {
    open spec fn advance_rel(pre: Self, post: Self, page: R::Ok, more: bool) -> bool {
        R::advance_rel(pre.inner, post.inner, page, more) && post.timer == pre.timer
            && post.backoff == pre.backoff && post.pred == pre.pred
    }

    fn advance(&mut self, page: &R::Ok) -> (more: bool) {
        self.inner.advance(page)
    }
}

} // verus!
