//! The readiness type that every pollable computation answers with.

use vstd::prelude::*;

verus! {

/// Indicates whether a value is available or whether the current task has
/// been scheduled to receive a wakeup instead.
///
/// A pollable computation returns `Pending` until its value is ready; the
/// driving scheduler polls it again after a wakeup.
#[derive(Clone, Copy, Debug, PartialEq, Eq)]
pub enum Poll<T> {
    /// A value is immediately ready.
    Ready(T),
    /// The value is not ready yet.
    Pending,
}

impl<T> Poll<T> {
    /// Change the ready value of this `Poll` with the closure provided.
    pub fn map<U, F: FnOnce(T) -> U>(self, f: F) -> (r: Poll<U>)
        requires
            self matches Poll::Ready(t) ==> f.requires((t,)),
        ensures
            match (self, r) {
                (Poll::Ready(t), Poll::Ready(u)) => f.ensures((t,), u),
                (Poll::Pending, Poll::Pending) => true,
                _ => false,
            },
    {
        match self {
            Poll::Ready(t) => Poll::Ready(f(t)),
            Poll::Pending => Poll::Pending,
        }
    }

    /// Returns whether this is `Poll::Ready`.
    pub fn is_ready(&self) -> (b: bool)
        ensures
            b == (self is Ready),
    {
        match *self {
            Poll::Ready(_) => true,
            Poll::Pending => false,
        }
    }

    /// Returns whether this is `Poll::Pending`.
    pub fn is_pending(&self) -> (b: bool)
        ensures
            b == (self is Pending),
    {
        !self.is_ready()
    }
}

impl<T, E> Poll<Result<T, E>> {
    /// Change the success value of this `Poll` with the closure provided.
    pub fn map_ok<U, F: FnOnce(T) -> U>(self, f: F) -> (r: Poll<Result<U, E>>)
        requires
            self matches Poll::Ready(Ok(t)) ==> f.requires((t,)),
        ensures
            match (self, r) {
                (Poll::Ready(Ok(t)), Poll::Ready(Ok(u))) => f.ensures((t,), u),
                (Poll::Ready(Err(e)), Poll::Ready(Err(e2))) => e2 == e,
                (Poll::Pending, Poll::Pending) => true,
                _ => false,
            },
    {
        match self {
            Poll::Ready(Ok(t)) => Poll::Ready(Ok(f(t))),
            Poll::Ready(Err(e)) => Poll::Ready(Err(e)),
            Poll::Pending => Poll::Pending,
        }
    }

    /// Change the error value of this `Poll` with the closure provided.
    pub fn map_err<U, F: FnOnce(E) -> U>(self, f: F) -> (r: Poll<Result<T, U>>)
        requires
            self matches Poll::Ready(Err(e)) ==> f.requires((e,)),
        ensures
            match (self, r) {
                (Poll::Ready(Err(e)), Poll::Ready(Err(u))) => f.ensures((e,), u),
                (Poll::Ready(Ok(t)), Poll::Ready(Ok(t2))) => t2 == t,
                (Poll::Pending, Poll::Pending) => true,
                _ => false,
            },
    {
        match self {
            Poll::Ready(Ok(t)) => Poll::Ready(Ok(t)),
            Poll::Ready(Err(e)) => Poll::Ready(Err(f(e))),
            Poll::Pending => Poll::Pending,
        }
    }
}


impl<T> From<T> for Poll<T> {
    /// A value, immediately ready.
    fn from(t: T) -> (r: Poll<T>)
        ensures
            r == Poll::Ready(t),
    {
        Poll::Ready(t)
    }
}

impl<T> vstd::std_specs::convert::FromSpecImpl<T> for Poll<T> {
    open spec fn obeys_from_spec() -> bool {
        true
    }

    open spec fn from_spec(t: T) -> Poll<T> {
        Poll::Ready(t)
    }
}

} // verus!
