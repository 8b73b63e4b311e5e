//! Host-aware retry decisions for HTTP requests that meet provider rate limits.
//!
//! The crate decides and leaves the transport to its caller, who executes the
//! request, hands each outcome to [`retry::RetryState`], and carries out the
//! action it gets back. Of the outside world the crate reads only the clock.

pub mod backoff;
pub mod error;
pub mod header;
pub mod host;
pub mod prelude;
pub mod retry;
pub mod throttle;

pub use crate::error::ReqwestBackoffError;
