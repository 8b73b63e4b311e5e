//! How long to wait before a throttled request is tried again.

use vstd::prelude::*;
use vstd::arithmetic::power::{pow, lemma_pow_increases, lemma_pow0, lemma_pow1, lemma_pow_adds};
use crate::error::{MetadataFault, ReqwestBackoffError};
use crate::header::{decimal_i64, is_header_text, is_text, parse_decimal};
use crate::host::HostType;
use crate::throttle::ResponseSummary;

verus! {

/// The base of the exponential backoff for Google and Youtube, in seconds.
pub const GOOGLE_BASE_BACKOFF_TIME_S: u64 = 2;

/// The longest wait for Google and Youtube, in seconds.
pub const GOOGLE_MAX_BACKOFF_TIME_S: u64 = 3600;

/// The wait for a host without a policy of its own, in seconds.
pub const DEFAULT_BACKOFF_TIME_S: u64 = 5;

/// Whether `chrono` can represent the point in time that lies this many
/// seconds from the Unix epoch, that is whether `DateTime::from_timestamp`
/// accepts the number with no nanoseconds.
pub uninterp spec fn is_representable_timestamp(seconds: i64) -> bool;

/// Calls `chrono::DateTime::from_timestamp` with the seconds and no
/// nanoseconds, and `DateTime::timestamp` on what comes back. The contract
/// names the decision and relies on the round trip that the crate documents:
/// an accepted number of seconds is the timestamp of the result.
#[verifier::external_body]
fn checked_timestamp(seconds: i64) -> (timestamp: Option<i64>)
    ensures
        timestamp == if is_representable_timestamp(seconds) {
            Some(seconds)
        } else {
            None::<i64>
        },
{
    match chrono::DateTime::from_timestamp(seconds, 0) {
        Some(moment) => Some(moment.timestamp()),
        None => None,
    }
}

/// Calls `chrono::Utc::now` and `DateTime::timestamp` on it: the seconds from
/// the Unix epoch to now. Nothing is claimed of the value. The outside
/// function panics where the system clock stands before 1970.
#[verifier::external_body]
fn unix_now() -> (seconds: i64) {
    chrono::Utc::now().timestamp()
}

/// The reset time that a Twitch response announces, or the reason why it
/// announces none: the header is looked for, read as text, read as a number,
/// and the number as a point in time, in this order.
pub open spec fn rate_limit_reset(response: ResponseSummary) -> Result<i64, ReqwestBackoffError> {
    match response.ratelimit_reset {
        None => Err(ReqwestBackoffError::Other(MetadataFault::HeaderMissing)),
        Some(value) => if !is_header_text(value@) {
            Err(ReqwestBackoffError::Other(MetadataFault::HeaderNotText))
        } else {
            match decimal_i64(value@) {
                None => Err(ReqwestBackoffError::Other(MetadataFault::HeaderNotNumber)),
                Some(seconds) => if is_representable_timestamp(seconds) {
                    Ok(seconds)
                } else {
                    Err(ReqwestBackoffError::Other(MetadataFault::TimestampOutOfRange))
                },
            }
        },
    }
}

/// The seconds from `now` until `reset`, and one second where that is not
/// positive.
pub open spec fn twitch_wait(reset: i64, now: i64) -> int {
    if reset - now > 0 {
        reset - now
    } else {
        1
    }
}

/// Two to the power of the attempt, capped at an hour.
pub open spec fn exponential_wait(attempt: u32) -> int {
    if pow(2, attempt as nat) > 3600 {
        3600
    } else {
        pow(2, attempt as nat)
    }
}

/// The wait that a throttled response asks for at a given time, or the
/// reason why none can be computed.
pub open spec fn backoff_at(
    response: ResponseSummary,
    host: HostType,
    attempt: u32,
    now: i64,
) -> Result<u64, ReqwestBackoffError> {
    match host {
        HostType::Twitch => match rate_limit_reset(response) {
            Ok(reset) => Ok(twitch_wait(reset, now) as u64),
            Err(fault) => Err(fault),
        },
        HostType::Google | HostType::Youtube => Ok(exponential_wait(attempt) as u64),
        HostType::Other => Ok(DEFAULT_BACKOFF_TIME_S),
    }
}

/// Reads the Unix time at which Twitch lifts its rate limit from the
/// `Ratelimit-Reset` header of a response.
pub fn get_twitch_rate_limit_value(response: &ResponseSummary) -> (reset: Result<
    i64,
    ReqwestBackoffError,
>)
    ensures
        reset == rate_limit_reset(*response),
{
    match &response.ratelimit_reset {
        None => Err(ReqwestBackoffError::Other(MetadataFault::HeaderMissing)),
        Some(value) => {
            if !is_text(value.as_slice()) {
                return Err(ReqwestBackoffError::Other(MetadataFault::HeaderNotText));
            }
            match parse_decimal(value.as_slice()) {
                None => Err(ReqwestBackoffError::Other(MetadataFault::HeaderNotNumber)),
                Some(seconds) => match checked_timestamp(seconds) {
                    Some(reset) => Ok(reset),
                    None => Err(ReqwestBackoffError::Other(MetadataFault::TimestampOutOfRange)),
                },
            }
        },
    }
}

/// The wait until a reset time, seen from `now`: never less than a second.
pub fn twitch_wait_seconds(reset: i64, now: i64) -> (wait: u64)
    ensures
        wait == twitch_wait(reset, now),
        wait >= 1,
{
    if reset > now {
        (reset as i128 - now as i128) as u64
    } else {
        1
    }
}

/// The exponential wait for an attempt: 2, 4, 8, ... seconds, capped at 3600.
pub fn exponential_wait_seconds(attempt: u32) -> (wait: u64)
    ensures
        wait == exponential_wait(attempt),
        1 <= wait <= GOOGLE_MAX_BACKOFF_TIME_S,
{
    let mut wait: u64 = 1;
    let mut done: u32 = 0;
    proof {
        lemma_pow0(2);
    }
    while done < attempt && wait <= GOOGLE_MAX_BACKOFF_TIME_S
        invariant
            done <= attempt,
            wait == pow(2, done as nat),
            1 <= wait <= 2 * GOOGLE_MAX_BACKOFF_TIME_S,
        decreases attempt - done,
    {
        proof {
            lemma_pow_adds(2, done as nat, 1);
            lemma_pow1(2);
        }
        wait = wait * GOOGLE_BASE_BACKOFF_TIME_S;
        done = done + 1;
    }
    if wait > GOOGLE_MAX_BACKOFF_TIME_S {
        proof {
            lemma_pow_increases(2, done as nat, attempt as nat);
        }
        GOOGLE_MAX_BACKOFF_TIME_S
    } else {
        wait
    }
}

/// Computes the wait before the next attempt as seen at the time `now`, in
/// whole seconds.
pub fn backoff_time_at(response: &ResponseSummary, host: HostType, attempt: u32, now: i64) -> (wait:
    Result<u64, ReqwestBackoffError>)
    ensures
        wait == backoff_at(*response, host, attempt, now),
        wait matches Ok(seconds) ==> seconds >= 1,
{
    match host {
        HostType::Twitch => match get_twitch_rate_limit_value(response) {
            Ok(reset) => Ok(twitch_wait_seconds(reset, now)),
            Err(fault) => Err(fault),
        },
        HostType::Google | HostType::Youtube => Ok(exponential_wait_seconds(attempt)),
        HostType::Other => Ok(DEFAULT_BACKOFF_TIME_S),
    }
}

/// Computes the wait before the next attempt, in whole seconds, reading the
/// clock for the Twitch policy. The result is that of [`backoff_time_at`] at
/// the time the clock showed.
pub fn get_backoff_time(response: &ResponseSummary, host: HostType, attempt: u32) -> (wait: Result<
    u64,
    ReqwestBackoffError,
>)
    ensures
        exists|now: i64| wait == #[trigger] backoff_at(*response, host, attempt, now),
        host != HostType::Twitch ==> wait == backoff_at(*response, host, attempt, 0),
        wait matches Ok(seconds) ==> seconds >= 1,
{
    match host {
        HostType::Twitch => {
            let now: i64 = unix_now();
            backoff_time_at(response, host, attempt, now)
        },
        _ => backoff_time_at(response, host, attempt, 0),
    }
}

/// Under the Google and Youtube policies the wait at attempt `n` is two to
/// the power of `n` seconds where that is at most 3600, and 3600 seconds
/// beyond, whatever the response and the time.
pub proof fn google_wait_is_capped_power(
    response: ResponseSummary,
    host: HostType,
    attempt: u32,
    now: i64,
)
    requires
        host == HostType::Google || host == HostType::Youtube,
    ensures
        backoff_at(response, host, attempt, now) matches Ok(seconds) && seconds as int
            == vstd::math::min(pow(2, attempt as nat), 3600),
        attempt >= 12 ==> backoff_at(response, host, attempt, now) == Ok::<
            u64,
            ReqwestBackoffError,
        >(3600),
{
    if attempt >= 12 {
        assert(pow(2, 12) == 4096) by {
            reveal_with_fuel(pow, 13);
        }
        lemma_pow_increases(2, 12, attempt as nat);
    }
    if pow(2, attempt as nat) <= 3600 {
        vstd::arithmetic::power::lemma_pow_positive(2, attempt as nat);
    }
}

/// Under the Twitch policy a response that announces a reset time is waited
/// for until that time, and for one second where the time has come or passed.
pub proof fn twitch_wait_is_time_until_reset(
    response: ResponseSummary,
    reset: i64,
    attempt: u32,
    now: i64,
)
    requires
        rate_limit_reset(response) == Ok::<i64, ReqwestBackoffError>(reset),
    ensures
        backoff_at(response, HostType::Twitch, attempt, now) matches Ok(seconds) && seconds as int
            == vstd::math::max(1, reset - now),
        reset <= now ==> backoff_at(response, HostType::Twitch, attempt, now) == Ok::<
            u64,
            ReqwestBackoffError,
        >(1),
{
}

} // verus!
