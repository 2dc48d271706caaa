//! Backoff policies: the abstract contract and the default exponential
//! one.

use vstd::prelude::*;

verus! {

/// A backoff policy for retrying an operation: an abstract generator of
/// successive wait intervals, with a giving-up condition.
///
/// Every policy carries a finite `measure`, an upper bound on how many
/// more intervals it can hand out, and handing one out must consume it.
/// A retrial re-polls immediately when a delay is already over, so one
/// poll may run through many attempts; the measure is what bounds that
/// in-call loop.
pub trait Backoff: Sized {
    /// Which transitions and answers one `next_backoff` call admits.
    spec fn backoff_rel(pre: Self, post: Self, next: Option<u64>) -> bool;

    /// Which transitions one `reset` call admits.
    spec fn reset_rel(pre: Self, post: Self) -> bool;

    /// An upper bound on how many more intervals this policy can hand
    /// out before it gives up.
    spec fn measure(&self) -> nat;

    /// Handing out an interval consumes the measure: a policy retries
    /// only finitely often.
    proof fn lemma_measure_decreases(pre: Self, post: Self, interval_ms: u64)
        requires
            Self::backoff_rel(pre, post, Some(interval_ms)),
        ensures
            post.measure() < pre.measure(),
    ;

    /// The next interval to wait before the next attempt, in
    /// milliseconds, or `None` once the policy decides that the operation
    /// has timed out and no further attempt should be made.
    fn next_backoff(&mut self) -> (next: Option<u64>)
        ensures
            Self::backoff_rel(*old(self), *final(self), next),
    ;

    /// Reset the internal state to the initial value.
    fn reset(&mut self)
        ensures
            Self::reset_rel(*old(self), *final(self)),
    ;
}

#[verifier::external_type_specification]
#[verifier::external_body]
#[verifier::reject_recursive_types(C)]
pub struct ExExponentialBackoffImpl<C>(backoff::exponential::ExponentialBackoff<C>);

#[verifier::external_type_specification]
#[verifier::external_body]
pub struct ExSystemClock(backoff::SystemClock);

/// Relies on `backoff::ExponentialBackoff::default`: a fresh jittered
/// exponential policy with the crate's default settings, anchored to the
/// system clock at the moment of the call.
#[verifier::external_body]
fn exponential_default() -> backoff::ExponentialBackoff {
    backoff::ExponentialBackoff::default()
}

/// Relies on `backoff::exponential::ExponentialBackoff::next_backoff`:
/// the next randomized interval, or `None` once the maximum elapsed time
/// is exceeded. The answer depends on the clock and on randomization, so
/// nothing is promised of it.
#[verifier::external_body]
fn exponential_next(inner: &mut backoff::ExponentialBackoff) -> Option<u64> {
    match backoff::backoff::Backoff::next_backoff(inner) {
        Some(d) => Some(u64::try_from(d.as_millis()).unwrap_or(u64::MAX)),
        None => None,
    }
}

/// Relies on `backoff::exponential::ExponentialBackoff::reset`: restores
/// the initial interval and re-anchors the start time to now.
#[verifier::external_body]
fn exponential_reset(inner: &mut backoff::ExponentialBackoff) {
    backoff::backoff::Backoff::reset(inner)
}

/// Relies on `backoff::exponential::ExponentialBackoff`'s `Clone`, on
/// `backoff::SystemClock::default` and on `std::time::Instant::now`:
/// copies the settings but replaces the clock with a fresh one and
/// re-anchors the start time to now, so the copy inherits neither a stale
/// clock reference nor elapsed time it never saw.
#[verifier::external_body]
fn exponential_clone_fresh(inner: &backoff::ExponentialBackoff) -> backoff::ExponentialBackoff {
    let mut copy = inner.clone();
    copy.clock = backoff::SystemClock::default();
    copy.start_time = std::time::Instant::now();
    copy
}

/// The default backoff policy: a jittered exponential sequence of
/// intervals, bounded by a maximum total elapsed time, after which it
/// gives up. The sequence depends on the wall clock and on
/// randomization, so its contract promises nothing of the intervals;
/// everything built on top is verified for every answer the policy may
/// give.
///
/// On top of the elapsed-time bound, the policy carries an explicit
/// bound on the number of intervals it hands out: the finite measure
/// that every backoff policy owes. A fresh policy's bound is beyond any
/// practical run, so the exponential crate's own giving-up condition is
/// the one that fires.
pub struct DefaultBackoff {
    /// The wrapped exponential policy; opaque to contracts.
    pub inner: backoff::ExponentialBackoff,
    /// How many more intervals this policy will hand out, at most.
    pub attempts_left: u64,
}

impl DefaultBackoff {
    /// A fresh policy with the default settings, anchored to now.
    pub fn new() -> (r: DefaultBackoff)
        ensures
            r.attempts_left == u64::MAX,
    {
        DefaultBackoff { inner: exponential_default(), attempts_left: u64::MAX }
    }
}

impl Backoff for DefaultBackoff {
    open spec fn backoff_rel(pre: Self, post: Self, next: Option<u64>) -> bool {
        if pre.attempts_left == 0 {
            next is None && post.attempts_left == pre.attempts_left
        } else {
            &&& (next is Some ==> post.attempts_left == pre.attempts_left - 1)
            &&& (next is None ==> post.attempts_left == pre.attempts_left)
        }
    }

    open spec fn reset_rel(pre: Self, post: Self) -> bool {
        post.attempts_left == pre.attempts_left
    }

    open spec fn measure(&self) -> nat {
        self.attempts_left as nat
    }

    proof fn lemma_measure_decreases(pre: Self, post: Self, interval_ms: u64) {
    }

    fn next_backoff(&mut self) -> (next: Option<u64>) {
        if self.attempts_left == 0 {
            return None;
        }
        match exponential_next(&mut self.inner) {
            Some(ms) => {
                self.attempts_left = self.attempts_left - 1;
                Some(ms)
            },
            None => None,
        }
    }

    fn reset(&mut self) {
        exponential_reset(&mut self.inner)
    }
}

impl Clone for DefaultBackoff {
    /// Cloning a wall-clock-anchored policy must not blindly copy its
    /// fields: the copy gets the same settings, but a fresh clock and a
    /// start time of its own.
    fn clone(&self) -> DefaultBackoff {
        DefaultBackoff {
            inner: exponential_clone_fresh(&self.inner),
            attempts_left: self.attempts_left,
        }
    }
}

} // verus!
