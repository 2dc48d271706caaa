//! The contract of a single-shot, pollable, in-flight computation.

use vstd::prelude::*;

use crate::poll::Poll;

verus! {

/// A single-shot, pollable, in-flight computation: the response to one
/// issued request.
///
/// `poll` must not block: it either hands back the terminal value or
/// reports `Pending`, in which case the implementation is responsible for
/// arranging a wakeup through the ambient scheduler. Once a terminal
/// value has been yielded the response must not be polled again; that is
/// the caller's discipline and is not enforced here.
///
/// Each implementation states what its `poll` may do through the
/// `poll_rel` relation over the state before the call, the state after
/// it, and what was returned. A nondeterministic computation (real I/O, a
/// timer) admits many outcomes; code that polls it is verified against
/// all of them.
pub trait Response: Sized {
    /// The type of successful values of this response.
    type Ok;

    /// The type of failures of this response.
    type Error;

    /// Which outcomes one `poll` call admits, from state `pre` to state
    /// `post`.
    spec fn poll_rel(pre: Self, post: Self, out: Poll<Result<Self::Ok, Self::Error>>) -> bool;

    /// Poll this response once.
    fn poll(&mut self) -> (out: Poll<Result<Self::Ok, Self::Error>>)
        ensures
            Self::poll_rel(*old(self), *final(self), out),
    ;
}

} // verus!
