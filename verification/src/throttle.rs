//! Detecting a throttle signal, and bounding the attempts spent on one request.

use vstd::prelude::*;
use crate::host::HostType;

verus! {

/// The most attempts a request to Twitch may reach and still be retried.
pub const MAX_BACKOFF_ATTEMPTS_TWITCH: u32 = 50;

/// The most attempts a request to Google or Youtube may reach and still be retried.
pub const MAX_BACKOFF_ATTEMPTS_GOOGLE: u32 = 50;

/// The most attempts a request to any other host may reach and still be retried.
pub const MAX_BACKOFF_ATTEMPTS: u32 = 50;

/// What the retry decisions read of an HTTP response.
#[derive(Debug, Clone, PartialEq, Eq)]
pub struct ResponseSummary {
    /// The status code.
    pub status: u16,
    /// The raw value of the `Ratelimit-Reset` header, where the response has one.
    pub ratelimit_reset: Option<Vec<u8>>,
}

/// A status code in the success class, 200 to 299.
pub open spec fn is_success(status: u16) -> bool {
    200 <= status && status < 300
}

/// Whether a status code is a throttle signal under a policy. Success never
/// is; Twitch throttles with 429, Google and Youtube with 403 or 400, and a
/// host without a policy of its own never throttles.
pub open spec fn is_throttle_signal(status: u16, host: HostType) -> bool {
    !is_success(status) && match host {
        HostType::Twitch => status == 429,
        HostType::Google | HostType::Youtube => status == 403 || status == 400,
        HostType::Other => false,
    }
}

/// The attempt ceiling of a policy.
pub open spec fn max_attempts(host: HostType) -> u32 {
    match host {
        HostType::Twitch => MAX_BACKOFF_ATTEMPTS_TWITCH,
        HostType::Google | HostType::Youtube => MAX_BACKOFF_ATTEMPTS_GOOGLE,
        HostType::Other => MAX_BACKOFF_ATTEMPTS,
    }
}

/// Tells whether the retry budget of a policy is spent at this attempt.
pub fn is_backoff_limit_reached(attempt: u32, host: HostType) -> (reached: bool)
    ensures
        reached == (attempt > max_attempts(host)),
{
    match host {
        HostType::Twitch => attempt > MAX_BACKOFF_ATTEMPTS_TWITCH,
        HostType::Google | HostType::Youtube => attempt > MAX_BACKOFF_ATTEMPTS_GOOGLE,
        HostType::Other => attempt > MAX_BACKOFF_ATTEMPTS,
    }
}

/// Tells whether a response is a throttle signal under the policy of its host.
pub fn check_response_is_backoff(response: &ResponseSummary, host: HostType) -> (throttled: bool)
    ensures
        throttled == is_throttle_signal(response.status, host),
{
    let code: u16 = response.status;
    if 200 <= code && code < 300 {
        return false;
    }
    match host {
        HostType::Twitch => code == 429,
        HostType::Google | HostType::Youtube => code == 403 || code == 400,
        HostType::Other => false,
    }
}

/// A request to a host outside the known set is never throttled, whatever the
/// status of the response.
pub proof fn unknown_host_never_throttled(domain: Option<Seq<char>>, status: u16)
    requires
        domain matches Some(name) ==> !crate::host::is_known_domain(name),
    ensures
        crate::host::policy_of(domain) == HostType::Other,
        !is_throttle_signal(status, crate::host::policy_of(domain)),
{
}

/// Under the Twitch policy a response is a throttle signal exactly when its
/// status is 429.
pub proof fn twitch_throttles_on_429_only(status: u16)
    ensures
        is_throttle_signal(status, HostType::Twitch) <==> status == 429,
{
}

/// Under the Google and Youtube policies a response is a throttle signal
/// exactly when its status is 400 or 403; a success status never is one.
pub proof fn google_throttles_on_400_and_403_only(status: u16, host: HostType)
    requires
        host == HostType::Google || host == HostType::Youtube,
    ensures
        is_throttle_signal(status, host) <==> (status == 400 || status == 403),
        is_success(status) ==> !is_throttle_signal(status, host),
{
}

/// Every policy allows a retry up to the fiftieth attempt and none from the
/// fifty-first on.
pub proof fn limit_is_fifty_for_every_host(attempt: u32, host: HostType)
    ensures
        attempt <= 50 ==> !(attempt > max_attempts(host)),
        attempt >= 51 ==> attempt > max_attempts(host),
{
}

} // verus!
