//! A traced HTTP request/response loop with background batch telemetry
//! export.
//!
//! The library models the observable behaviour of a small demonstration
//! server: every request is answered with an empty `200` response, exactly
//! one span is recorded per handled request, every span carries one fixed
//! resource descriptor, and finished spans are exported to a collector in
//! batches by a background task whose failures never reach the request path.
//!
//! The verified core lives here; the surrounding process (the TCP listener,
//! the async runtime, the wire transport to the collector) drives it from
//! outside.

pub mod config;
pub mod handler;
pub mod pipeline;
