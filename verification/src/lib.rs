//! Composable combinators for the request/response pattern.
//!
//! This crate defines a general interface for operations that turn a
//! request value plus a client handle into a pollable result-or-error
//! computation, and provides two combinators over it: a paginator, which
//! re-issues a page-shaped operation until no further page is available,
//! and a retrial, which re-issues a failed operation after a backoff
//! delay until success, permanent rejection, or an exhausted budget.

pub mod error;
pub mod numbers;
pub mod oneshot;
pub mod paginator;
pub mod poll;
pub mod repeat;
pub mod request;
pub mod response;
pub mod retry;
pub mod sqs;
pub mod strategy;
pub mod timer;
