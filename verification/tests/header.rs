use chrono::DateTime;
use http::header::{HeaderName, DATE, RETRY_AFTER};
use http::{HeaderMap, HeaderValue};
use reessaie::header::{
    parse_retry_after_header, parse_x_rate_limit_reset_header, server_date, RetryAfterHeaderValue,
    X_RATELIMIT_RESET, X_RATE_LIMIT_RESET,
};
use reessaie::time::{SleepDuration, Timestamp, CHRONO_MAX_SECS, CHRONO_MIN_SECS};

fn secs(n: u64) -> SleepDuration {
    SleepDuration { secs: n, nanos: 0 }
}

fn sleep(n: u64) -> Option<RetryAfterHeaderValue> {
    Some(RetryAfterHeaderValue::SleepTime(secs(n)))
}

fn headers(
    retry_after: Option<&str>,
    x_ratelimit_reset: Option<&str>,
    x_rate_limit_reset: Option<&str>,
) -> HeaderMap {
    let mut map = HeaderMap::new();
    if let Some(v) = retry_after {
        map.append(RETRY_AFTER, HeaderValue::from_str(v).unwrap());
    }
    if let Some(v) = x_ratelimit_reset {
        map.append(
            HeaderName::from_bytes(X_RATELIMIT_RESET.as_bytes()).unwrap(),
            HeaderValue::from_str(v).unwrap(),
        );
    }
    if let Some(v) = x_rate_limit_reset {
        map.append(
            HeaderName::from_bytes(X_RATE_LIMIT_RESET.as_bytes()).unwrap(),
            HeaderValue::from_str(v).unwrap(),
        );
    }
    map
}

fn from_response(
    retry_after: Option<&str>,
    x_ratelimit_reset: Option<&str>,
    x_rate_limit_reset: Option<&str>,
) -> Option<RetryAfterHeaderValue> {
    RetryAfterHeaderValue::from_response(&headers(retry_after, x_ratelimit_reset, x_rate_limit_reset))
}

fn rfc2822_timestamp(text: &str) -> Timestamp {
    let date = DateTime::parse_from_rfc2822(text).unwrap();
    Timestamp { secs: date.timestamp(), nanos: date.timestamp_subsec_nanos() }
}

#[test]
fn from_response_no_retry_headers() {
    assert_eq!(from_response(None, None, None), None);
}

#[test]
fn from_response_valid_retry_after_header() {
    assert_eq!(from_response(Some("42"), None, None), sleep(42));
}

#[test]
fn from_response_valid_x_ratelimit_reset_header() {
    assert_eq!(from_response(None, Some("23"), None), sleep(23));
}

#[test]
fn from_response_valid_x_rate_limit_reset_header() {
    assert_eq!(from_response(None, None, Some("66")), sleep(66));
}

#[test]
fn from_response_valid_retry_after_and_x_ratelimit_reset_headers() {
    assert_eq!(from_response(Some("42"), Some("23"), None), sleep(42));
}

#[test]
fn from_response_valid_retry_after_and_x_rate_limit_reset_headers() {
    assert_eq!(from_response(Some("42"), None, Some("66")), sleep(42));
}

#[test]
fn from_response_valid_x_ratelimit_reset_and_x_rate_limit_reset_headers() {
    assert_eq!(from_response(None, Some("23"), Some("66")), sleep(23));
}

#[test]
fn from_response_valid_headers_of_all_types() {
    assert_eq!(from_response(Some("42"), Some("23"), Some("66")), sleep(42));
}

#[test]
fn from_response_invalid_retry_after_and_valid_x_ratelimit_reset_headers() {
    assert_eq!(from_response(Some("quarante-deux"), Some("23"), None), sleep(23));
}

#[test]
fn from_response_invalid_retry_after_and_valid_x_rate_limit_reset_headers() {
    assert_eq!(from_response(Some("quarante-deux"), None, Some("66")), sleep(66));
}

#[test]
fn from_response_invalid_x_ratelimit_reset_and_valid_x_rate_limit_reset_headers() {
    assert_eq!(from_response(None, Some("vingt-trois"), Some("66")), sleep(66));
}

#[test]
fn from_response_valid_retry_after_and_invalid_x_ratelimit_reset_headers() {
    assert_eq!(from_response(Some("42"), Some("vingt-trois"), None), sleep(42));
}

#[test]
fn from_response_valid_retry_after_and_invalid_x_rate_limit_reset_headers() {
    assert_eq!(from_response(Some("42"), None, Some("soixante-six")), sleep(42));
}

#[test]
fn from_response_valid_x_ratelimit_reset_and_invalid_x_rate_limit_reset_headers() {
    assert_eq!(from_response(None, Some("23"), Some("soixante-six")), sleep(23));
}

#[test]
fn from_response_invalid_headers_of_all_type() {
    assert_eq!(from_response(Some("quarante-deux"), Some("vingt-trois"), Some("soixante-six")), None);
}

#[test]
fn from_response_header_names_ignore_case() {
    let mut map = HeaderMap::new();
    map.append(
        HeaderName::from_static("x-ratelimit-reset"),
        HeaderValue::from_static("5"),
    );
    assert_eq!(RetryAfterHeaderValue::from_response(&map), sleep(5));
}

#[test]
fn from_response_first_of_repeated_header() {
    let mut map = HeaderMap::new();
    map.append(RETRY_AFTER, HeaderValue::from_static("7"));
    map.append(RETRY_AFTER, HeaderValue::from_static("9"));
    assert_eq!(RetryAfterHeaderValue::from_response(&map), sleep(7));
}

#[test]
fn parse_retry_after_header_non_negative_integer() {
    assert_eq!(parse_retry_after_header(&HeaderValue::from_static("42")), sleep(42));
}

#[test]
fn parse_retry_after_header_negative_integer() {
    assert_eq!(parse_retry_after_header(&HeaderValue::from_static("-42")), None);
}

#[test]
fn parse_retry_after_header_zero() {
    assert_eq!(parse_retry_after_header(&HeaderValue::from_static("0")), sleep(0));
}

#[test]
fn parse_retry_after_header_rfc2822_date() {
    let expected = rfc2822_timestamp("Wed, 21 Oct 2015 07:28:00 GMT");
    assert_eq!(expected, Timestamp { secs: 1_445_412_480, nanos: 0 });
    assert_eq!(
        parse_retry_after_header(&HeaderValue::from_static("Wed, 21 Oct 2015 07:28:00 GMT")),
        Some(RetryAfterHeaderValue::Timestamp(expected))
    );
}

#[test]
fn parse_retry_after_header_invalid_rfc2822_date() {
    assert_eq!(parse_retry_after_header(&HeaderValue::from_static("Foo, 21 Oct 2015 07:28:00 GMT")), None);
}

#[test]
fn parse_retry_after_header_invalid_string() {
    assert_eq!(
        parse_retry_after_header(&HeaderValue::from_static("The quick brown fox jumped over the lazy dog")),
        None
    );
}

#[test]
fn parse_retry_after_header_empty_string() {
    assert_eq!(parse_retry_after_header(&HeaderValue::from_static("")), None);
}

#[test]
fn parse_retry_after_header_plus_sign_and_overflow() {
    assert_eq!(parse_retry_after_header(&HeaderValue::from_static("+42")), sleep(42));
    assert_eq!(
        parse_retry_after_header(&HeaderValue::from_static("18446744073709551615")),
        sleep(u64::MAX)
    );
    assert_eq!(parse_retry_after_header(&HeaderValue::from_static("18446744073709551616")), None);
    assert_eq!(parse_retry_after_header(&HeaderValue::from_static(" 42")), None);
}

#[test]
fn parse_retry_after_header_not_visible_ascii() {
    let value = HeaderValue::from_bytes(b"4\xc32").unwrap();
    assert_eq!(parse_retry_after_header(&value), None);
}

#[test]
fn parse_x_rate_limit_reset_header_negative_integer() {
    assert_eq!(parse_x_rate_limit_reset_header(&HeaderValue::from_static("-1")), None);
}

#[test]
fn parse_x_rate_limit_reset_header_non_negative_number_of_seconds() {
    assert_eq!(parse_x_rate_limit_reset_header(&HeaderValue::from_static("23")), sleep(23));
}

#[test]
fn parse_x_rate_limit_reset_header_zero() {
    assert_eq!(parse_x_rate_limit_reset_header(&HeaderValue::from_static("0")), sleep(0));
}

#[test]
fn parse_x_rate_limit_reset_header_unix_timestamp() {
    let expected = rfc2822_timestamp("Wed, 21 Oct 2015 07:28:00 GMT");
    let text = DateTime::parse_from_rfc2822("Wed, 21 Oct 2015 07:28:00 GMT").unwrap().timestamp().to_string();
    let value = HeaderValue::from_str(&text).unwrap();
    assert_eq!(
        parse_x_rate_limit_reset_header(&value),
        Some(RetryAfterHeaderValue::Timestamp(expected))
    );
}

#[test]
fn parse_x_rate_limit_reset_header_invalid_string() {
    assert_eq!(
        parse_x_rate_limit_reset_header(&HeaderValue::from_static("The quick brown fox jumped over the lazy dog")),
        None
    );
}

#[test]
fn parse_x_rate_limit_reset_header_empty_string() {
    assert_eq!(parse_x_rate_limit_reset_header(&HeaderValue::from_static("")), None);
}

#[test]
fn parse_x_rate_limit_reset_header_one_day_threshold() {
    assert_eq!(parse_x_rate_limit_reset_header(&HeaderValue::from_static("86399")), sleep(86_399));
    assert_eq!(
        parse_x_rate_limit_reset_header(&HeaderValue::from_static("86400")),
        Some(RetryAfterHeaderValue::Timestamp(Timestamp { secs: 86_400, nanos: 0 }))
    );
    assert_eq!(parse_x_rate_limit_reset_header(&HeaderValue::from_static("-0")), sleep(0));
    assert_eq!(parse_x_rate_limit_reset_header(&HeaderValue::from_static("+7")), sleep(7));
}

#[test]
fn parse_x_rate_limit_reset_header_beyond_chrono_range() {
    assert_eq!(parse_x_rate_limit_reset_header(&HeaderValue::from_static("9223372036854775807")), None);
}

const BASE: i64 = 1_700_000_000;

fn at(offset: i64) -> Timestamp {
    Timestamp { secs: BASE + offset, nanos: 0 }
}

fn date_header(offset: Option<i64>) -> HeaderMap {
    let mut map = HeaderMap::new();
    if let Some(offset) = offset {
        let date = DateTime::from_timestamp(BASE + offset, 0).unwrap().to_rfc2822();
        map.append(DATE, HeaderValue::from_str(&date).unwrap());
    }
    map
}

#[test]
fn into_sleep_time_timestamp_value_no_date_header() {
    let value = RetryAfterHeaderValue::Timestamp(at(42));
    assert_eq!(value.sleep_time_since(at(0)), Some(secs(42)));
}

#[test]
fn into_sleep_time_timestamp_value_no_date_header_and_non_zero_now() {
    let value = RetryAfterHeaderValue::Timestamp(at(42));
    assert_eq!(value.sleep_time_since(at(11)), Some(secs(31)));
}

#[test]
fn into_sleep_time_timestamp_value_with_date_header() {
    let value = RetryAfterHeaderValue::Timestamp(at(42));
    assert_eq!(value.into_sleep_time(&date_header(Some(23))), Some(secs(19)));
}

#[test]
fn into_sleep_time_timestamp_value_in_the_past_no_date_header() {
    let value = RetryAfterHeaderValue::Timestamp(at(7));
    assert_eq!(value.sleep_time_since(at(11)), None);
}

#[test]
fn into_sleep_time_timestamp_value_in_the_past_with_date_header() {
    let value = RetryAfterHeaderValue::Timestamp(at(7));
    assert_eq!(value.into_sleep_time(&date_header(Some(23))), None);
}

#[test]
fn into_sleep_time_sleep_time_value_no_date_header() {
    let value = RetryAfterHeaderValue::SleepTime(secs(42));
    assert_eq!(value.into_sleep_time(&date_header(None)), Some(secs(42)));
}

#[test]
fn into_sleep_time_sleep_time_value_with_date_header() {
    let value = RetryAfterHeaderValue::SleepTime(secs(42));
    assert_eq!(value.into_sleep_time(&date_header(Some(23))), Some(secs(42)));
}

#[test]
fn into_sleep_time_timestamp_value_against_system_clock() {
    let now = chrono::Utc::now().timestamp();
    let value = RetryAfterHeaderValue::Timestamp(Timestamp { secs: now + 42, nanos: 0 });
    let d = value.into_sleep_time(&date_header(None)).unwrap();
    assert!(d.secs >= 40 && d.secs <= 42, "{:?}", d);
    assert!(d.nanos < 1_000_000_000);
}

#[test]
fn into_sleep_time_timestamp_value_in_the_past_against_system_clock() {
    let value = RetryAfterHeaderValue::Timestamp(Timestamp { secs: 7, nanos: 0 });
    assert_eq!(value.into_sleep_time(&date_header(None)), None);
}

#[test]
fn server_date_reads_the_date_header() {
    assert_eq!(server_date(&date_header(Some(23))), Some(at(23)));
    assert_eq!(server_date(&date_header(None)), None);
    let mut map = HeaderMap::new();
    map.append(DATE, HeaderValue::from_static("yesterday"));
    assert_eq!(server_date(&map), None);
}

#[test]
fn sleep_time_since_keeps_sub_second_precision() {
    let value = RetryAfterHeaderValue::Timestamp(Timestamp { secs: 10, nanos: 250_000_000 });
    assert_eq!(
        value.sleep_time_since(Timestamp { secs: 8, nanos: 750_000_000 }),
        Some(SleepDuration { secs: 1, nanos: 500_000_000 })
    );
}

#[test]
fn chrono_range_bounds_match_chrono() {
    assert!(DateTime::from_timestamp(CHRONO_MAX_SECS, 0).is_some());
    assert!(DateTime::from_timestamp(CHRONO_MAX_SECS + 1, 0).is_none());
    assert!(DateTime::from_timestamp(CHRONO_MIN_SECS, 0).is_some());
    assert!(DateTime::from_timestamp(CHRONO_MIN_SECS - 1, 0).is_none());
    assert!(DateTime::from_timestamp(59, 1_500_000_000).is_some());
    assert!(DateTime::from_timestamp(-1, 1_500_000_000).is_some());
    assert!(DateTime::from_timestamp(58, 1_500_000_000).is_none());
    assert!(DateTime::from_timestamp(59, 2_000_000_000).is_none());
}

#[test]
fn parse_x_rate_limit_reset_header_at_the_end_of_chrono_range() {
    let last = HeaderValue::from_str(&CHRONO_MAX_SECS.to_string()).unwrap();
    assert_eq!(
        parse_x_rate_limit_reset_header(&last),
        Some(RetryAfterHeaderValue::Timestamp(Timestamp { secs: CHRONO_MAX_SECS, nanos: 0 }))
    );
    let beyond = HeaderValue::from_str(&(CHRONO_MAX_SECS + 1).to_string()).unwrap();
    assert_eq!(parse_x_rate_limit_reset_header(&beyond), None);
}
