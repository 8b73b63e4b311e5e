use std::time::{SystemTime, UNIX_EPOCH};

use reqwest_backoff::backoff::{
    backoff_time_at, exponential_wait_seconds, get_backoff_time, get_twitch_rate_limit_value,
    twitch_wait_seconds, DEFAULT_BACKOFF_TIME_S, GOOGLE_BASE_BACKOFF_TIME_S,
    GOOGLE_MAX_BACKOFF_TIME_S,
};
use reqwest_backoff::error::{MetadataFault, ReqwestBackoffError};
use reqwest_backoff::host::HostType;
use reqwest_backoff::throttle::ResponseSummary;

fn throttled(status: u16, reset: Option<&[u8]>) -> ResponseSummary {
    ResponseSummary { status, ratelimit_reset: reset.map(|value| value.to_vec()) }
}

fn clock() -> i64 {
    SystemTime::now().duration_since(UNIX_EPOCH).unwrap().as_secs() as i64
}

#[test]
fn exponential_wait_doubles_from_two() {
    assert_eq!(exponential_wait_seconds(1), 2);
    assert_eq!(exponential_wait_seconds(2), 4);
    assert_eq!(exponential_wait_seconds(3), 8);
    assert_eq!(exponential_wait_seconds(5), 32);
    assert_eq!(exponential_wait_seconds(10), 1024);
    assert_eq!(exponential_wait_seconds(11), 2048);
}

#[test]
fn exponential_wait_is_capped_at_an_hour() {
    assert_eq!(exponential_wait_seconds(12), 3600);
    assert_eq!(exponential_wait_seconds(13), 3600);
    assert_eq!(exponential_wait_seconds(50), 3600);
    assert_eq!(exponential_wait_seconds(63), 3600);
    assert_eq!(exponential_wait_seconds(64), 3600);
    assert_eq!(exponential_wait_seconds(u32::MAX), 3600);
}

#[test]
fn exponential_wait_at_attempt_zero_is_one() {
    assert_eq!(exponential_wait_seconds(0), 1);
}

#[test]
fn backoff_constants() {
    assert_eq!(GOOGLE_BASE_BACKOFF_TIME_S, 2);
    assert_eq!(GOOGLE_MAX_BACKOFF_TIME_S, 3600);
    assert_eq!(DEFAULT_BACKOFF_TIME_S, 5);
}

#[test]
fn google_and_youtube_wait_exponentially() {
    let response = throttled(403, None);
    for host in [HostType::Google, HostType::Youtube] {
        assert_eq!(backoff_time_at(&response, host, 1, 0), Ok(2));
        assert_eq!(backoff_time_at(&response, host, 5, 1_700_000_000), Ok(32));
        assert_eq!(backoff_time_at(&response, host, 12, -5), Ok(3600));
        assert_eq!(get_backoff_time(&response, host, 1), Ok(2));
        assert_eq!(get_backoff_time(&response, host, 5), Ok(32));
        assert_eq!(get_backoff_time(&response, host, 12), Ok(3600));
    }
}

#[test]
fn other_hosts_wait_five_seconds() {
    let response = throttled(500, Some(b"garbage"));
    assert_eq!(backoff_time_at(&response, HostType::Other, 1, 0), Ok(5));
    assert_eq!(backoff_time_at(&response, HostType::Other, 40, 99), Ok(5));
    assert_eq!(get_backoff_time(&response, HostType::Other, 7), Ok(5));
}

#[test]
fn twitch_wait_is_the_time_until_reset() {
    assert_eq!(twitch_wait_seconds(1_700_000_010, 1_700_000_000), 10);
    assert_eq!(twitch_wait_seconds(1_700_000_001, 1_700_000_000), 1);
    assert_eq!(twitch_wait_seconds(3, 0), 3);
    assert_eq!(twitch_wait_seconds(5, -5), 10);
}

#[test]
fn twitch_wait_is_one_second_when_reset_has_passed() {
    assert_eq!(twitch_wait_seconds(1_700_000_000, 1_700_000_000), 1);
    assert_eq!(twitch_wait_seconds(1_699_999_990, 1_700_000_000), 1);
    assert_eq!(twitch_wait_seconds(0, i64::MAX), 1);
    assert_eq!(twitch_wait_seconds(i64::MIN, i64::MAX), 1);
}

#[test]
fn twitch_wait_does_not_overflow() {
    assert_eq!(twitch_wait_seconds(i64::MAX, i64::MIN), u64::MAX);
    assert_eq!(twitch_wait_seconds(i64::MAX, 0), i64::MAX as u64);
    assert_eq!(twitch_wait_seconds(0, i64::MIN), 1u64 << 63);
}

#[test]
fn twitch_backoff_reads_the_reset_header() {
    let response = throttled(429, Some(b"1700000010"));
    assert_eq!(get_twitch_rate_limit_value(&response), Ok(1_700_000_010));
    assert_eq!(backoff_time_at(&response, HostType::Twitch, 1, 1_700_000_000), Ok(10));
    assert_eq!(backoff_time_at(&response, HostType::Twitch, 9, 1_700_000_007), Ok(3));
    assert_eq!(backoff_time_at(&response, HostType::Twitch, 1, 1_700_000_010), Ok(1));
    assert_eq!(backoff_time_at(&response, HostType::Twitch, 1, 1_800_000_000), Ok(1));
}

#[test]
fn twitch_reset_before_the_epoch_is_a_time() {
    let response = throttled(429, Some(b"-86400"));
    assert_eq!(get_twitch_rate_limit_value(&response), Ok(-86_400));
    assert_eq!(backoff_time_at(&response, HostType::Twitch, 1, -86_410), Ok(10));
}

#[test]
fn missing_header_is_a_metadata_error() {
    let response = throttled(429, None);
    let fault = Err(ReqwestBackoffError::Other(MetadataFault::HeaderMissing));
    assert_eq!(get_twitch_rate_limit_value(&response), fault);
    assert_eq!(backoff_time_at(&response, HostType::Twitch, 1, 0), fault.map(|_| 0));
    assert_eq!(get_backoff_time(&response, HostType::Twitch, 1), fault.map(|_| 0));
}

#[test]
fn unreadable_header_is_a_metadata_error() {
    let response = throttled(429, Some(&[49, 55, 0xff]));
    assert_eq!(
        get_twitch_rate_limit_value(&response),
        Err(ReqwestBackoffError::Other(MetadataFault::HeaderNotText))
    );
    assert_eq!(
        get_backoff_time(&response, HostType::Twitch, 1),
        Err(ReqwestBackoffError::Other(MetadataFault::HeaderNotText))
    );
}

#[test]
fn non_numeric_header_is_a_metadata_error() {
    for value in [&b"soon"[..], b"", b"12.5", b" 12", b"99999999999999999999"] {
        let response = throttled(429, Some(value));
        assert_eq!(
            get_twitch_rate_limit_value(&response),
            Err(ReqwestBackoffError::Other(MetadataFault::HeaderNotNumber))
        );
        assert_eq!(
            backoff_time_at(&response, HostType::Twitch, 1, 0),
            Err(ReqwestBackoffError::Other(MetadataFault::HeaderNotNumber))
        );
    }
}

#[test]
fn timestamp_beyond_the_calendar_is_a_metadata_error() {
    for value in [&b"9223372036854775807"[..], b"-9223372036854775808", b"9000000000000"] {
        let response = throttled(429, Some(value));
        assert_eq!(
            get_twitch_rate_limit_value(&response),
            Err(ReqwestBackoffError::Other(MetadataFault::TimestampOutOfRange))
        );
        assert_eq!(
            get_backoff_time(&response, HostType::Twitch, 1),
            Err(ReqwestBackoffError::Other(MetadataFault::TimestampOutOfRange))
        );
    }
}

#[test]
fn twitch_backoff_by_the_clock_waits_until_reset() {
    let reset = clock() + 10;
    let response = throttled(429, Some(reset.to_string().as_bytes()));
    let wait = get_backoff_time(&response, HostType::Twitch, 1).unwrap();
    assert!((8..=10).contains(&wait), "waited {wait}");
}

#[test]
fn twitch_backoff_by_the_clock_is_one_second_for_a_past_reset() {
    let reset = clock() - 10;
    let response = throttled(429, Some(reset.to_string().as_bytes()));
    assert_eq!(get_backoff_time(&response, HostType::Twitch, 1), Ok(1));
    let response = throttled(429, Some(b"0"));
    assert_eq!(get_backoff_time(&response, HostType::Twitch, 30), Ok(1));
}
