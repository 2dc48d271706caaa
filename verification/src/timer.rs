//! A timer backed by the system clock.

use vstd::prelude::*;

use crate::error::{BackoffError, RetryError};
use crate::poll::Poll;
use crate::request::RepeatableRequest;
use crate::response::Response;
use crate::retry::{
    retry_arm_emit_rel, retry_decision_emit_rel, retry_emit_step, retry_flight_emit_rel,
    retry_reaches, retry_rel, retry_wait_emit_rel, Retrial, RetrialPredicate, RetryState,
    Retrying, Timer,
};
use crate::strategy::Backoff;

verus! {

#[verifier::external_type_specification]
#[verifier::external_body]
pub struct ExInstant(std::time::Instant);

/// Relies on `std::time::Instant::now`: an opaque point in time; nothing
/// is promised of it.
#[verifier::external_body]
fn time_now() -> std::time::Instant {
    std::time::Instant::now()
}

/// Relies on `core::time::Duration::from_millis`.
#[verifier::external_body]
fn ms_duration(interval_ms: u64) -> core::time::Duration {
    core::time::Duration::from_millis(interval_ms)
}

/// Relies on `std::time::Instant::checked_add`: the instant a duration
/// later, or `None` where the clock cannot represent it.
#[verifier::external_body]
fn instant_after(t: &std::time::Instant, d: core::time::Duration) -> Option<std::time::Instant> {
    t.checked_add(d)
}

/// Relies on `PartialOrd` of `std::time::Instant`: whether `now` has
/// reached `deadline`.
#[verifier::external_body]
fn instant_reached(now: &std::time::Instant, deadline: &std::time::Instant) -> bool {
    *now >= *deadline
}

/// A delay backed by the system clock: pending until its deadline has
/// passed, then ready, and never failed — this timer substrate cannot
/// shut down. It arranges no wakeup of its own, so its driver must poll
/// again on its own schedule.
pub struct SystemDelay {
    deadline: Option<std::time::Instant>,
}

impl Response for SystemDelay {
    type Ok = ();

    type Error = BackoffError;

    /// When the clock reports readiness is the clock's affair; that the
    /// delay never fails, and is left as it was, is promised.
    open spec fn poll_rel(pre: Self, post: Self, out: Poll<Result<(), BackoffError>>) -> bool {
        post == pre && (out is Pending || out == Poll::Ready(Result::<(), BackoffError>::Ok(())))
    }

    fn poll(&mut self) -> (out: Poll<Result<(), BackoffError>>) {
        match &self.deadline {
            None => Poll::Ready(Ok(())),
            Some(deadline) => {
                let now = time_now();
                if instant_reached(&now, deadline) {
                    Poll::Ready(Ok(()))
                } else {
                    Poll::Pending
                }
            },
        }
    }
}

/// A timer backed by the system clock. A deadline beyond the clock's
/// range is treated as already reached.
#[derive(Clone, Copy, Debug)]
pub struct SystemTimer;

impl Timer for SystemTimer {
    type Delay = SystemDelay;

    /// Which instant the delay ends at is the clock's affair; that the
    /// timer itself is stateless is promised.
    open spec fn expires_rel(pre: Self, post: Self, interval_ms: u64, d: SystemDelay) -> bool {
        post == pre
    }

    fn expires_in(&mut self, interval_ms: u64) -> (d: SystemDelay) {
        let now = time_now();
        let deadline = instant_after(&now, ms_duration(interval_ms));
        SystemDelay { deadline }
    }
}


/// With the system timer, a retrial never reports a timer shutdown: its
/// delays never fail, so every error one poll can yield is either the
/// wrapped operation's own, after a declined retry, or a timeout from an
/// exhausted backoff budget.
pub proof fn lemma_system_timer_never_shuts_down<C, R: RepeatableRequest<C>, B: Backoff, F: RetrialPredicate<R>>(
    pre: Retrial<C, R, SystemTimer, B, F>,
    post: Retrial<C, R, SystemTimer, B, F>,
    out: Poll<Result<R::Ok, RetryError<R::Error>>>,
)
    requires
        retry_rel(pre, post, out),
    ensures
        out matches Poll::Ready(Err(e)) ==> !e.is_shutdown_spec(),
{
    let (mid, n) = choose|mid: Retrial<C, R, SystemTimer, B, F>, n: nat|
        #[trigger] retry_reaches(pre, mid, n) && retry_emit_step(mid, post, out);
    match mid.state {
        RetryState::Idle => {
            assert(false);
        },
        RetryState::Waiting(w) => {
            let (w2, pw) = choose|w2: SystemDelay, pw: Poll<Result<(), BackoffError>>|
                #[trigger] SystemDelay::poll_rel(w, w2, pw) && retry_wait_emit_rel(
                    mid,
                    post,
                    out,
                    w2,
                    pw,
                );
            assert(pw is Pending || pw == Poll::Ready(Result::<(), BackoffError>::Ok(())));
        },
        RetryState::Flight(r) => {
            let (r2, pr) = choose|r2: R::Response, pr: Poll<Result<R::Ok, R::Error>>|
                #[trigger] R::Response::poll_rel(r, r2, pr) && retry_flight_emit_rel(
                    mid,
                    post,
                    out,
                    r2,
                    pr,
                );
            match pr {
                Poll::Pending => {
                },
                Poll::Ready(Ok(_)) => {
                },
                Poll::Ready(Err(e)) => {
                    let (b2, nb) = choose|b2: B, nb: Option<u64>|
                        #[trigger] B::backoff_rel(mid.request.backoff, b2, nb)
                            && retry_decision_emit_rel(
                            Retrial {
                                request: Retrying { backoff: b2, ..mid.request },
                                state: RetryState::<R::Response, SystemDelay>::Idle,
                                ..mid
                            },
                            post,
                            out,
                            e,
                            nb,
                        );
                    let dmid = Retrial {
                        request: Retrying { backoff: b2, ..mid.request },
                        state: RetryState::<R::Response, SystemDelay>::Idle,
                        ..mid
                    };
                    crate::error::lemma_retry_error_flags::<R::Error>(e);
                    match nb {
                        None => {
                        },
                        Some(ms) => {
                            if dmid.request.pred.pred_spec(dmid.request.inner, e, ms) {
                                let (t2, d) = choose|t2: SystemTimer, d: SystemDelay|
                                    #[trigger] SystemTimer::expires_rel(
                                        dmid.request.timer,
                                        t2,
                                        ms,
                                        d,
                                    ) && retry_arm_emit_rel(
                                        Retrial {
                                            request: Retrying { timer: t2, ..dmid.request },
                                            ..dmid
                                        },
                                        post,
                                        out,
                                        d,
                                    );
                                let amid = Retrial {
                                    request: Retrying { timer: t2, ..dmid.request },
                                    ..dmid
                                };
                                let (d2, pd) = choose|
                                    d2: SystemDelay,
                                    pd: Poll<Result<(), BackoffError>>,
                                |
                                    #[trigger] SystemDelay::poll_rel(d, d2, pd) && match pd {
                                        Poll::Pending => out is Pending && post == (Retrial {
                                            state: RetryState::<R::Response, SystemDelay>::Waiting(
                                                d2,
                                            ),
                                            ..amid
                                        }),
                                        Poll::Ready(Err(be)) => out == Poll::Ready(
                                            Result::<R::Ok, RetryError<R::Error>>::Err(
                                                RetryError::<R::Error>::spec_from_backoff(be),
                                            ),
                                        ) && post == (Retrial {
                                            state: RetryState::<R::Response, SystemDelay>::Waiting(
                                                d2,
                                            ),
                                            ..amid
                                        }),
                                        Poll::Ready(Ok(_)) => false,
                                    };
                                assert(pd is Pending || pd == Poll::Ready(
                                    Result::<(), BackoffError>::Ok(()),
                                ));
                            }
                        },
                    }
                },
            }
        },
    }
}

} // verus!
