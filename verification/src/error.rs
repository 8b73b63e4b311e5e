//! The failures a retry sequence can end in.

use vstd::prelude::*;

verus! {

/// Why the wait demanded by a throttled response could not be computed.
#[derive(Debug, Clone, Copy, PartialEq, Eq, Structural)]
pub enum MetadataFault {
    /// The response carries no `Ratelimit-Reset` header.
    HeaderMissing,
    /// The header holds a byte that is neither visible ASCII nor a tab.
    HeaderNotText,
    /// The header is text but not a decimal number that fits in 64 bits.
    HeaderNotNumber,
    /// The number is no point in time that the calendar can represent.
    TimestampOutOfRange,
}

/// The terminal errors of a retry sequence.
#[derive(Debug, Clone, Copy, PartialEq, Eq, Structural)]
pub enum ReqwestBackoffError {
    /// The transport failed while executing the request.
    Reqwest,
    /// A throttle signal was seen, but its metadata was missing or malformed.
    Other(MetadataFault),
    /// The host was still throttling when the attempt ceiling was reached.
    BackoffExceeded { backoff_attempts: u32 },
}

} // verus!
