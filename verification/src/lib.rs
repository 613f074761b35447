//! A library for batching outbound HTTP requests under a concurrency limit.
//!
//! Callers describe each call with a [`request::Request`], enqueue the
//! descriptors into a [`rolling::RollingRequests`] executor, and drive the
//! queue in windows: each execution pass dispatches at most the configured
//! number of requests from the head of the queue and returns one outcome per
//! dispatched descriptor, in queue order.
//!
//! The queue bookkeeping — window selection, outcome ordering, and
//! advancement of the queue after a pass — is verified. The HTTP transport
//! itself is the `reqwest` crate, reached through a small set of trusted
//! wrappers in [`transport`].

pub mod request;
pub mod rolling;
pub mod transport;
