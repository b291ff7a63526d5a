//! Request-tracing middleware logic for HTTP and gRPC servers.
//!
//! For every inbound request the middleware describes a span that follows
//! the OpenTelemetry semantic conventions, parents it to the trace context
//! that the request headers propagate, and records the outcome of the call
//! on it when the call completes.
//!
//! The crate decides what a span holds and what is written to it, and proves
//! those decisions with Verus:
//!
//! - [`span`] is the span itself: a name, a severity, the fields declared at
//!   creation, and an optional parent. A value is recorded only on a field
//!   that the span declares.
//! - [`http`] traces plain HTTP requests: a factory that describes the span
//!   of a request, and a recorder that writes the response's status to it
//!   and describes the event that reports the end of the request.
//! - [`grpc`] traces gRPC calls: a middleware that hands out one service
//!   handle per call, and the instrumented call that records how the call
//!   resolved.
//! - [`propagation`] extracts the parent context from request headers
//!   through the propagator that is registered with `opentelemetry`.
//! - [`headers`] reads header maps of the `http` crate, as `hyper` re-exports
//!   it.
//! - [`text`] holds the text helpers: comparison, decimal numerals, port
//!   numbers.
//!
//! Creating spans in a tracing backend, emitting events and driving the
//! wrapped services is left to the layer that embeds this crate.

pub mod grpc;
pub mod headers;
pub mod http;
pub mod propagation;
pub mod span;
pub mod text;
