//! The names most callers need.

pub use crate::error::{MetadataFault, ReqwestBackoffError};
pub use crate::host::HostType;
pub use crate::retry::{RetryAction, RetryEvent, RetryState};
pub use crate::throttle::ResponseSummary;
