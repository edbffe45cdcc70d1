//! Memory-limited admission control for a request-handling unit.
//!
//! A [`service::MemoryLimit`] stands in front of a wrapped unit and admits new
//! work only while the available memory, as a pluggable
//! [`memory::AvailableMemory`] provider reports it, is not below a configured
//! [`memory::Threshold`]. It only ever signals "not ready": whether a caller
//! waits, queues or rejects on that signal is the caller's business.
//!
//! The crate holds the decisions of the limiter as a state machine over plain
//! values. It does no waiting and no I/O of its own, so whoever drives it
//!
//! * calls `poll_ready` and acts on the [`service::Readiness`] that comes back:
//!   arms a one-shot timer for the retry interval and reports "pending", asks
//!   the wrapped unit for its own readiness, or reports the failure;
//! * calls `call` once the check has cleared the threshold, invokes the
//!   wrapped unit that `call` hands out, and wraps what that returns as a
//!   [`future::ResponseFuture`].

pub mod error;
pub mod future;
pub mod layer;
pub mod memory;
pub mod service;
