//! The errors of the retrial combinator and of the timers it waits on.

use vstd::prelude::*;

verus! {

/// Why a wait between two attempts could not be produced or completed:
/// either the backoff budget ran out, or the timer substrate shut down
/// for good.
///
/// The variants are deliberately not exposed; callers distinguish the
/// two causes through `is_timeout` and `is_shutdown`, so the set of
/// causes can grow without breaking them.
#[derive(Clone, Copy, Debug)]
pub struct BackoffError {
    kind: BackoffErrorKind,
}

#[derive(Clone, Copy, Debug)]
enum BackoffErrorKind {
    Timeout,
    TimerShutdown,
}

impl BackoffError {
    /// The error that marks an exhausted backoff budget.
    pub closed spec fn spec_timeout() -> BackoffError {
        BackoffError { kind: BackoffErrorKind::Timeout }
    }

    /// The error that marks a timer that will never fire again.
    pub closed spec fn spec_shutdown() -> BackoffError {
        BackoffError { kind: BackoffErrorKind::TimerShutdown }
    }

    pub closed spec fn is_timeout_spec(&self) -> bool {
        self.kind is Timeout
    }

    pub closed spec fn is_shutdown_spec(&self) -> bool {
        self.kind is TimerShutdown
    }

    /// The error a timer's delay reports when the wait gave up; a timer
    /// implementation constructs it.
    pub fn timeout() -> (r: BackoffError)
        ensures
            r == BackoffError::spec_timeout(),
    {
        BackoffError { kind: BackoffErrorKind::Timeout }
    }

    /// The error a timer's delay reports when its substrate has shut down
    /// for good; a timer implementation constructs it.
    pub fn shutdown() -> (r: BackoffError)
        ensures
            r == BackoffError::spec_shutdown(),
    {
        BackoffError { kind: BackoffErrorKind::TimerShutdown }
    }

    /// Returns `true` if the wait failed because the backoff budget ran out.
    pub fn is_timeout(&self) -> (b: bool)
        ensures
            b == self.is_timeout_spec(),
    {
        match self.kind {
            BackoffErrorKind::Timeout => true,
            BackoffErrorKind::TimerShutdown => false,
        }
    }

    /// Returns `true` if the wait failed because the timer shut down.
    pub fn is_shutdown(&self) -> (b: bool)
        ensures
            b == self.is_shutdown_spec(),
    {
        match self.kind {
            BackoffErrorKind::Timeout => false,
            BackoffErrorKind::TimerShutdown => true,
        }
    }
}

/// A `BackoffError` is exactly one of the two causes, and each cause has
/// exactly one value.
pub proof fn lemma_backoff_error_cases(e: BackoffError)
    ensures
        e.is_timeout_spec() <==> !e.is_shutdown_spec(),
        e.is_timeout_spec() <==> e == BackoffError::spec_timeout(),
        e.is_shutdown_spec() <==> e == BackoffError::spec_shutdown(),
{
}

/// Errors reported by the retrial combinator.
///
/// Exactly one of three independent causes holds, distinguished through
/// `is_aborted`, `is_timeout` and `is_shutdown` rather than through
/// variants, so that the set of causes can grow without breaking callers:
///
/// - the wrapped operation's own error, preserved verbatim when a retry
///   was declined (`is_aborted`, with the error in `as_inner`);
/// - the backoff budget ran out (`is_timeout`); the triggering operation
///   error is deliberately dropped here, per the no-more-budget contract;
/// - the timer substrate shut down for good (`is_shutdown`), so no retry
///   by this combinator instance could ever succeed again.
#[derive(Clone, Copy, Debug)]
pub struct RetryError<E> {
    kind: RetryErrorKind<E>,
}

#[derive(Clone, Copy, Debug)]
enum RetryErrorKind<E> {
    Aborted(E),
    Timeout,
    TimerShutdown,
}

impl<E> RetryError<E> {
    /// The error that wraps the operation's own error `e` after a
    /// declined retry.
    pub closed spec fn spec_aborted(e: E) -> RetryError<E> {
        RetryError { kind: RetryErrorKind::Aborted(e) }
    }

    /// The error that marks an exhausted backoff budget.
    pub closed spec fn spec_timeout() -> RetryError<E> {
        RetryError { kind: RetryErrorKind::Timeout }
    }

    /// The error that marks a timer that will never fire again.
    pub closed spec fn spec_shutdown() -> RetryError<E> {
        RetryError { kind: RetryErrorKind::TimerShutdown }
    }

    /// The retry error carrying the same cause as a failed wait.
    pub open spec fn spec_from_backoff(be: BackoffError) -> RetryError<E> {
        if be.is_timeout_spec() {
            RetryError::spec_timeout()
        } else {
            RetryError::spec_shutdown()
        }
    }

    /// The wrapped operation error, for an aborted retrial.
    pub closed spec fn as_inner_spec(&self) -> Option<E> {
        match self.kind {
            RetryErrorKind::Aborted(e) => Some(e),
            _ => None,
        }
    }

    pub closed spec fn is_aborted_spec(&self) -> bool {
        self.kind is Aborted
    }

    pub closed spec fn is_timeout_spec(&self) -> bool {
        self.kind is Timeout
    }

    pub closed spec fn is_shutdown_spec(&self) -> bool {
        self.kind is TimerShutdown
    }

    /// Wraps the operation's own error after a declined retry.
    pub fn from_err(e: E) -> (r: RetryError<E>)
        ensures
            r == RetryError::spec_aborted(e),
    {
        RetryError { kind: RetryErrorKind::Aborted(e) }
    }

    pub(crate) fn timeout() -> (r: RetryError<E>)
        ensures
            r == RetryError::<E>::spec_timeout(),
    {
        RetryError { kind: RetryErrorKind::Timeout }
    }

    pub(crate) fn shutdown() -> (r: RetryError<E>)
        ensures
            r == RetryError::<E>::spec_shutdown(),
    {
        RetryError { kind: RetryErrorKind::TimerShutdown }
    }

    /// Carries a failed wait's cause over into a retry error.
    pub(crate) fn from_backoff(be: BackoffError) -> (r: RetryError<E>)
        ensures
            r == RetryError::<E>::spec_from_backoff(be),
    {
        if be.is_timeout() {
            RetryError::timeout()
        } else {
            RetryError::shutdown()
        }
    }

    /// A reference to the wrapped operation error, if the retrial was
    /// aborted by the retry predicate.
    pub fn as_inner(&self) -> (r: Option<&E>)
        ensures
            match r {
                Some(e) => self.as_inner_spec() == Some(*e),
                None => self.as_inner_spec() is None,
            },
    {
        match &self.kind {
            RetryErrorKind::Aborted(e) => Some(e),
            _ => None,
        }
    }

    /// The wrapped operation error, if the retrial was aborted by the
    /// retry predicate.
    pub fn into_inner(self) -> (r: Option<E>)
        ensures
            r == self.as_inner_spec(),
    {
        match self.kind {
            RetryErrorKind::Aborted(e) => Some(e),
            _ => None,
        }
    }

    /// Returns `true` if the retrial was aborted by the retry predicate;
    /// the operation's error is then in `as_inner`.
    pub fn is_aborted(&self) -> (b: bool)
        ensures
            b == self.is_aborted_spec(),
    {
        match &self.kind {
            RetryErrorKind::Aborted(_) => true,
            _ => false,
        }
    }

    /// Returns `true` if the retrial stopped because the backoff budget
    /// ran out.
    pub fn is_timeout(&self) -> (b: bool)
        ensures
            b == self.is_timeout_spec(),
    {
        match &self.kind {
            RetryErrorKind::Timeout => true,
            _ => false,
        }
    }

    /// Returns `true` if the timer substrate shut down. This is permanent:
    /// once observed, no retry of the same combinator instance will ever
    /// succeed, so none is attempted again.
    pub fn is_shutdown(&self) -> (b: bool)
        ensures
            b == self.is_shutdown_spec(),
    {
        match &self.kind {
            RetryErrorKind::TimerShutdown => true,
            _ => false,
        }
    }
}

/// A `RetryError` has exactly one of the three causes, and each cause
/// determines the value (up to the wrapped operation error).
pub proof fn lemma_retry_error_cases<E>(r: RetryError<E>)
    ensures
        r.is_aborted_spec() <==> r.as_inner_spec() is Some,
        r.is_aborted_spec() <==> r == RetryError::spec_aborted(r.as_inner_spec()->0),
        r.is_timeout_spec() <==> r == RetryError::<E>::spec_timeout(),
        r.is_shutdown_spec() <==> r == RetryError::<E>::spec_shutdown(),
        r.is_aborted_spec() || r.is_timeout_spec() || r.is_shutdown_spec(),
        r.is_aborted_spec() ==> !r.is_timeout_spec() && !r.is_shutdown_spec(),
        r.is_timeout_spec() ==> !r.is_shutdown_spec(),
{
}

/// What each constructor-shaped value reports.
pub proof fn lemma_retry_error_flags<E>(e: E)
    ensures
        RetryError::spec_aborted(e).as_inner_spec() == Some(e),
        RetryError::spec_aborted(e).is_aborted_spec(),
        !RetryError::spec_aborted(e).is_timeout_spec(),
        !RetryError::spec_aborted(e).is_shutdown_spec(),
        RetryError::<E>::spec_timeout().is_timeout_spec(),
        !RetryError::<E>::spec_timeout().is_aborted_spec(),
        !RetryError::<E>::spec_timeout().is_shutdown_spec(),
        RetryError::<E>::spec_shutdown().is_shutdown_spec(),
        !RetryError::<E>::spec_shutdown().is_aborted_spec(),
        !RetryError::<E>::spec_shutdown().is_timeout_spec(),
{
}

} // verus!
