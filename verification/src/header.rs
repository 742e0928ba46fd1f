//! The HTTP headers that say when a request may be retried, and what they mean.

use chrono::DateTime;
use http::{HeaderMap, HeaderValue};
use vstd::prelude::*;
use vstd::string::StringSliceAdditionalSpecFns;

use crate::header_map::{
    ascii_lowercase, first_header_value, header_get, header_value_bytes, header_value_to_str,
    is_plain_header_name,
};
use crate::text::{
    all_visible_ascii, ascii_chars, decimal_digits, law_decimal_reads_back, parse_i64, parse_u64,
    spec_parse_i64, spec_parse_u64,
};
use crate::time::{
    is_clock_reading, spec_duration_since, system_now, SleepDuration, Timestamp, CHRONO_MAX_SECS,
    CHRONO_MIN_SECS, NANOS_PER_SEC,
};

verus! {

/// Name of the non-standard `X-RateLimit-Reset` HTTP header.
///
/// Together with `X-RateLimit-Limit` and `X-RateLimit-Remaining`, this header is
/// widely used to say how many requests are left in a rate-limit window and when
/// to retry once the limit is hit.
pub const X_RATELIMIT_RESET: &'static str = "X-RateLimit-Reset";

/// Alternate name of the `X-RateLimit-Reset` HTTP header, used by some providers.
pub const X_RATE_LIMIT_RESET: &'static str = "X-Rate-Limit-Reset";

/// Name of the standard `Retry-After` HTTP header.
pub const RETRY_AFTER: &'static str = "Retry-After";

/// Name of the standard `Date` HTTP header.
pub const DATE: &'static str = "Date";

/// An `X-RateLimit-Reset` value of at least this many seconds (one day) is read as
/// a Unix timestamp; a smaller one as a number of seconds to wait.
pub const TIMESTAMP_THRESHOLD_SECS: i64 = 86_400;

/// What a header that says when to retry a request can hold.
#[derive(Debug, Clone, Copy, PartialEq, Eq, Hash, Structural)]
pub enum RetryAfterHeaderValue {
    /// The earliest instant at which the client may retry the request.
    ///
    /// It is measured against the response's `Date` header when there is one.
    Timestamp(Timestamp),
    /// How long the client must wait before it retries the request.
    SleepTime(SleepDuration),
}

/// The instant that chrono's `DateTime::parse_from_rfc2822` reads from `text`, in
/// UTC, or `None` where it refuses the text.
pub uninterp spec fn rfc2822_instant(text: Seq<char>) -> Option<Timestamp>;

/// The instant that chrono's `DateTime::<Utc>::from_timestamp` builds from `secs`
/// seconds and `nsecs` nanoseconds after the Unix epoch: that very instant, when
/// its day lies within chrono's years and `nsecs` is a valid fraction (below a
/// billion, or below two billion for a leap second, in the last second of a
/// minute); `None` otherwise.
pub open spec fn spec_utc_from_timestamp(secs: i64, nsecs: u32) -> Option<Timestamp> {
    if CHRONO_MIN_SECS <= secs <= CHRONO_MAX_SECS && (nsecs < 1_000_000_000 || (nsecs
        < 2_000_000_000 && secs % 60 == 59)) {
        Some(Timestamp { secs, nanos: nsecs })
    } else {
        None
    }
}

/// `DateTime::parse_from_rfc2822` (chrono), its result taken as an instant in UTC:
/// the result is [`rfc2822_instant`] of the text, nothing more is stated.
#[verifier::external_body]
fn parse_rfc2822(text: &str) -> (r: Option<Timestamp>)
    ensures
        r == rfc2822_instant(text@),
{
    match DateTime::parse_from_rfc2822(text) {
        Ok(date) => {
            let utc = date.to_utc();
            Some(Timestamp { secs: utc.timestamp(), nanos: utc.timestamp_subsec_nanos() })
        },
        Err(_) => None,
    }
}

/// `DateTime::from_timestamp` (chrono), its result taken as an instant. As
/// chrono's source shows (`from_timestamp` splits `secs` into a day and a second of
/// the day, `NaiveDate::from_num_days_from_ce_opt` accepts the days of the years
/// -262143 to 262142, and `NaiveTime::from_num_seconds_from_midnight_opt` accepts
/// a fraction below a billion, or below two billion in the 59th second of a
/// minute), the result is [`spec_utc_from_timestamp`], and `timestamp` and
/// `timestamp_subsec_nanos` give back `secs` and `nsecs`.
#[verifier::external_body]
fn timestamp_utc(secs: i64, nsecs: u32) -> (r: Option<Timestamp>)
    ensures
        r == spec_utc_from_timestamp(secs, nsecs),
{
    match DateTime::from_timestamp(secs, nsecs) {
        Some(date) => Some(Timestamp { secs: date.timestamp(), nanos: date.timestamp_subsec_nanos() }),
        None => None,
    }
}

/// What a `Retry-After` header value means: a whole number of seconds to wait, or
/// else an HTTP date (RFC 2822); nothing if it is neither, or not visible ASCII.
pub open spec fn spec_parse_retry_after(bytes: Seq<u8>) -> Option<RetryAfterHeaderValue> {
    if !all_visible_ascii(bytes) {
        None
    } else {
        match spec_parse_u64(bytes) {
            Some(secs) => Some(RetryAfterHeaderValue::SleepTime(SleepDuration { secs, nanos: 0 })),
            None => match rfc2822_instant(ascii_chars(bytes)) {
                Some(t) => Some(RetryAfterHeaderValue::Timestamp(t)),
                None => None,
            },
        }
    }
}

/// What an `X-RateLimit-Reset` header value means: a non-negative integer, read as
/// a Unix timestamp from one day up and as a number of seconds to wait below
/// that; nothing if it is anything else, or not visible ASCII.
pub open spec fn spec_parse_x_rate_limit_reset(bytes: Seq<u8>) -> Option<RetryAfterHeaderValue> {
    if !all_visible_ascii(bytes) {
        None
    } else {
        match spec_parse_i64(bytes) {
            Some(v) => if v >= TIMESTAMP_THRESHOLD_SECS {
                match spec_utc_from_timestamp(v, 0) {
                    Some(t) => Some(RetryAfterHeaderValue::Timestamp(t)),
                    None => None,
                }
            } else if v >= 0 {
                Some(RetryAfterHeaderValue::SleepTime(SleepDuration { secs: v as u64, nanos: 0 }))
            } else {
                None
            },
            None => None,
        }
    }
}

/// A header read by `parse`, when the header is present and means something.
pub open spec fn spec_parse_opt(
    bytes: Option<Seq<u8>>,
    parse: spec_fn(Seq<u8>) -> Option<RetryAfterHeaderValue>,
) -> Option<RetryAfterHeaderValue> {
    match bytes {
        Some(b) => parse(b),
        None => None,
    }
}

/// What the headers of a response say of when to retry: `Retry-After` if it means
/// something, else `X-RateLimit-Reset`, else `X-Rate-Limit-Reset`.
pub open spec fn spec_from_headers(headers: HeaderMap) -> Option<RetryAfterHeaderValue> {
    let retry_after = spec_parse_opt(
        first_header_value(headers, RETRY_AFTER@),
        |b: Seq<u8>| spec_parse_retry_after(b),
    );
    let reset = spec_parse_opt(
        first_header_value(headers, X_RATELIMIT_RESET@),
        |b: Seq<u8>| spec_parse_x_rate_limit_reset(b),
    );
    let reset_alt = spec_parse_opt(
        first_header_value(headers, X_RATE_LIMIT_RESET@),
        |b: Seq<u8>| spec_parse_x_rate_limit_reset(b),
    );
    if retry_after is Some {
        retry_after
    } else if reset is Some {
        reset
    } else {
        reset_alt
    }
}

/// The instant in a response's `Date` header, if it has one that reads as an HTTP
/// date.
pub open spec fn spec_server_date(headers: HeaderMap) -> Option<Timestamp> {
    match first_header_value(headers, DATE@) {
        Some(b) => if all_visible_ascii(b) {
            rfc2822_instant(ascii_chars(b))
        } else {
            None
        },
        None => None,
    }
}

/// How long to wait, as `value` says, when it is `server_now` at the server: the
/// span until the timestamp (nothing if that is past), or the sleep time itself.
pub open spec fn spec_sleep_time(value: RetryAfterHeaderValue, server_now: Timestamp) -> Option<
    SleepDuration,
> {
    match value {
        RetryAfterHeaderValue::Timestamp(ts) => spec_duration_since(ts, server_now),
        RetryAfterHeaderValue::SleepTime(d) => Some(d),
    }
}

/// Parses the content of a `Retry-After` HTTP header: a number of seconds to wait
/// or an HTTP date.
pub fn parse_retry_after_header(val: &HeaderValue) -> (r: Option<RetryAfterHeaderValue>)
    ensures
        r == spec_parse_retry_after(header_value_bytes(*val)),
{
    match header_value_to_str(val) {
        None => None,
        Some(text) => {
            let bytes = text.as_bytes();
            match parse_u64(bytes) {
                Some(secs) => Some(RetryAfterHeaderValue::SleepTime(SleepDuration::from_secs(secs))),
                None => match parse_rfc2822(text) {
                    Some(t) => Some(RetryAfterHeaderValue::Timestamp(t)),
                    None => None,
                },
            }
        },
    }
}

/// Parses the content of an `X-RateLimit-Reset` HTTP header.
///
/// The header holds either a Unix timestamp after which the request may be
/// retried, or a number of seconds to wait, and nothing says which. A value of at
/// least one day is taken for a timestamp.
pub fn parse_x_rate_limit_reset_header(val: &HeaderValue) -> (r: Option<RetryAfterHeaderValue>)
    ensures
        r == spec_parse_x_rate_limit_reset(header_value_bytes(*val)),
        r matches Some(RetryAfterHeaderValue::Timestamp(t)) ==> (t.nanos == 0 && spec_parse_i64(
            header_value_bytes(*val),
        ) == Some(t.secs)),
        spec_parse_i64(header_value_bytes(*val)) matches Some(v) ==> ((all_visible_ascii(
            header_value_bytes(*val),
        ) && TIMESTAMP_THRESHOLD_SECS <= v <= CHRONO_MAX_SECS) ==> r == Some(
            RetryAfterHeaderValue::Timestamp((Timestamp { secs: v, nanos: 0 })),
        )),
        spec_parse_i64(header_value_bytes(*val)) matches Some(v) ==> (v > CHRONO_MAX_SECS ==> (r is None)),
{
    match header_value_to_str(val) {
        None => None,
        Some(text) => {
            let bytes = text.as_bytes();
            match parse_i64(bytes) {
                Some(v) => {
                    if v >= TIMESTAMP_THRESHOLD_SECS {
                        match timestamp_utc(v, 0) {
                            Some(t) => Some(RetryAfterHeaderValue::Timestamp(t)),
                            None => None,
                        }
                    } else if v >= 0 {
                        Some(RetryAfterHeaderValue::SleepTime(SleepDuration::from_secs(v as u64)))
                    } else {
                        None
                    }
                },
                None => None,
            }
        },
    }
}

/// The header names that the library looks up are plain names.
proof fn lemma_header_names_are_plain()
    ensures
        is_plain_header_name(RETRY_AFTER@),
        is_plain_header_name(X_RATELIMIT_RESET@),
        is_plain_header_name(X_RATE_LIMIT_RESET@),
        is_plain_header_name(DATE@),
{
    reveal_strlit("Retry-After");
    reveal_strlit("X-RateLimit-Reset");
    reveal_strlit("X-Rate-Limit-Reset");
    reveal_strlit("Date");
}

/// The value of the header `name`, if present, read by `parse_retry_after_header`.
fn parse_retry_after_named(headers: &HeaderMap, name: &str) -> (r: Option<RetryAfterHeaderValue>)
    requires
        is_plain_header_name(name@),
    ensures
        r == spec_parse_opt(first_header_value(*headers, name@), |b: Seq<u8>| spec_parse_retry_after(b)),
{
    match header_get(headers, name) {
        Some(value) => parse_retry_after_header(&value),
        None => None,
    }
}

/// The value of the header `name`, if present, read by
/// `parse_x_rate_limit_reset_header`.
fn parse_x_rate_limit_reset_named(headers: &HeaderMap, name: &str) -> (r: Option<RetryAfterHeaderValue>)
    requires
        is_plain_header_name(name@),
    ensures
        r == spec_parse_opt(first_header_value(*headers, name@), |b: Seq<u8>| spec_parse_x_rate_limit_reset(b)),
{
    match header_get(headers, name) {
        Some(value) => parse_x_rate_limit_reset_header(&value),
        None => None,
    }
}

/// The instant in the response's `Date` header, if it has one that reads as an
/// HTTP date.
pub fn server_date(headers: &HeaderMap) -> (r: Option<Timestamp>)
    ensures
        r == spec_server_date(*headers),
{
    proof {
        lemma_header_names_are_plain();
    }
    match header_get(headers, DATE) {
        Some(value) => match header_value_to_str(&value) {
            Some(text) => parse_rfc2822(text),
            None => None,
        },
        None => None,
    }
}

impl RetryAfterHeaderValue {
    /// Looks in the headers of an HTTP response for one that says when to retry the
    /// request, in this order: `Retry-After`, `X-RateLimit-Reset`, then its alternate
    /// spelling `X-Rate-Limit-Reset`. The first of them that is present and means
    /// something gives the result; `None` if none does.
    pub fn from_response(headers: &HeaderMap) -> (r: Option<RetryAfterHeaderValue>)
        ensures
            r == spec_from_headers(*headers),
    {
        proof {
            lemma_header_names_are_plain();
        }
        let retry_after = parse_retry_after_named(headers, RETRY_AFTER);
        if retry_after.is_some() {
            return retry_after;
        }
        let reset = parse_x_rate_limit_reset_named(headers, X_RATELIMIT_RESET);
        if reset.is_some() {
            return reset;
        }
        parse_x_rate_limit_reset_named(headers, X_RATE_LIMIT_RESET)
    }

    /// How long to wait when it is `server_now` at the server: the span until the
    /// timestamp (nothing if the timestamp is past), or the sleep time itself.
    pub fn sleep_time_since(self, server_now: Timestamp) -> (r: Option<SleepDuration>)
        ensures
            r == spec_sleep_time(self, server_now),
    {
        match self {
            RetryAfterHeaderValue::Timestamp(ts) => ts.duration_since(server_now),
            RetryAfterHeaderValue::SleepTime(d) => Some(d),
        }
    }

    /// How long the client must sleep before it retries the request.
    ///
    /// A timestamp is measured against the response's `Date` header when it has one
    /// that reads as an HTTP date, and against the system clock otherwise.
    pub fn into_sleep_time(self, headers: &HeaderMap) -> (r: Option<SleepDuration>)
        ensures
            self matches RetryAfterHeaderValue::SleepTime(d) ==> r == Some(d),
            spec_server_date(*headers) matches Some(now) ==> r == spec_sleep_time(self, now),
            exists|now: Timestamp|
                {
                    &&& (spec_server_date(*headers) is None ==> is_clock_reading(now))
                    &&& (spec_server_date(*headers) matches Some(d) ==> now == d)
                    &&& r == #[trigger] spec_sleep_time(self, now)
                },
    {
        match self {
            RetryAfterHeaderValue::Timestamp(ts) => {
                let server_now = match server_date(headers) {
                    Some(now) => now,
                    None => system_now(),
                };
                let r = self.sleep_time_since(server_now);
                assert(r == spec_sleep_time(self, server_now));
                r
            },
            RetryAfterHeaderValue::SleepTime(d) => {
                let ghost now = match spec_server_date(*headers) {
                    Some(date) => date,
                    None => Timestamp { secs: 0, nanos: 0 },
                };
                assert(Some(d) == spec_sleep_time(self, now));
                Some(d)
            },
        }
    }
}

/// A `Retry-After` header that means something decides what the response says,
/// whatever the other headers hold; without one, `X-RateLimit-Reset` decides over
/// its alternate spelling; and a response none of whose three headers means
/// anything says nothing.
pub proof fn law_header_precedence(headers: HeaderMap)
    ensures
        ({
            let retry_after = spec_parse_opt(
                first_header_value(headers, RETRY_AFTER@),
                |b: Seq<u8>| spec_parse_retry_after(b),
            );
            let reset = spec_parse_opt(
                first_header_value(headers, X_RATELIMIT_RESET@),
                |b: Seq<u8>| spec_parse_x_rate_limit_reset(b),
            );
            let reset_alt = spec_parse_opt(
                first_header_value(headers, X_RATE_LIMIT_RESET@),
                |b: Seq<u8>| spec_parse_x_rate_limit_reset(b),
            );
            &&& retry_after is Some ==> spec_from_headers(headers) == retry_after
            &&& retry_after is None && reset is Some ==> spec_from_headers(headers) == reset
            &&& retry_after is None && reset is None ==> spec_from_headers(headers) == reset_alt
        }),
{
}

/// A whole number of seconds, written in decimal, is read from `Retry-After` as a
/// wait of that many seconds; from `X-RateLimit-Reset` too when it is less than a
/// day.
pub proof fn law_seconds_header_reads_as_sleep_time(secs: u64)
    ensures
        spec_parse_retry_after(decimal_digits(secs as nat)) == Some(
            RetryAfterHeaderValue::SleepTime(SleepDuration { secs: secs, nanos: 0 }),
        ),
        secs < TIMESTAMP_THRESHOLD_SECS ==> spec_parse_x_rate_limit_reset(decimal_digits(secs as nat))
            == Some(RetryAfterHeaderValue::SleepTime(SleepDuration { secs: secs, nanos: 0 })),
{
    law_decimal_reads_back(secs as nat);
}

/// A sleep time is waited out as it is, whatever the clock reads; a timestamp is
/// waited for from the server's clock, and not at all once it is past.
pub proof fn law_sleep_time(value: RetryAfterHeaderValue, server_now: Timestamp)
    ensures
        value matches RetryAfterHeaderValue::SleepTime(d) ==> spec_sleep_time(value, server_now) == Some(d),
        value matches RetryAfterHeaderValue::Timestamp(ts) ==> {
            &&& ts.nanos_since_epoch() < server_now.nanos_since_epoch() ==> spec_sleep_time(
                value,
                server_now,
            ) is None
            &&& spec_sleep_time(value, server_now) matches Some(d) ==> d.total_nanos()
                == ts.nanos_since_epoch() - server_now.nanos_since_epoch()
        },
{
}

/// An `X-RateLimit-Reset` value, written in decimal, from one day up to the last
/// second that chrono can hold, is read as that Unix timestamp; beyond it, as
/// nothing.
pub proof fn law_large_reset_reads_as_timestamp(secs: i64)
    requires
        secs >= TIMESTAMP_THRESHOLD_SECS,
    ensures
        secs <= CHRONO_MAX_SECS ==> spec_parse_x_rate_limit_reset(decimal_digits(secs as nat)) == Some(
            RetryAfterHeaderValue::Timestamp(Timestamp { secs: secs, nanos: 0 }),
        ),
        secs > CHRONO_MAX_SECS ==> spec_parse_x_rate_limit_reset(decimal_digits(secs as nat)) is None,
{
    law_decimal_reads_back(secs as nat);
}

/// What a `Retry-After` value reads as, over all byte strings: nothing when it is
/// not visible ASCII; a wait of `n` whole seconds when it reads as the number `n`;
/// otherwise the instant of the HTTP date that it reads as, or nothing when it
/// reads as neither.
pub proof fn law_retry_after_reads_number_or_date(bytes: Seq<u8>)
    ensures
        !all_visible_ascii(bytes) ==> spec_parse_retry_after(bytes) is None,
        (all_visible_ascii(bytes) && spec_parse_u64(bytes) is Some) ==> spec_parse_retry_after(bytes) == Some(
            RetryAfterHeaderValue::SleepTime(SleepDuration { secs: spec_parse_u64(bytes).unwrap(), nanos: 0 }),
        ),
        (all_visible_ascii(bytes) && spec_parse_u64(bytes) is None && rfc2822_instant(ascii_chars(bytes)) is Some)
            ==> spec_parse_retry_after(bytes) == Some(
            RetryAfterHeaderValue::Timestamp(rfc2822_instant(ascii_chars(bytes)).unwrap()),
        ),
        (spec_parse_u64(bytes) is None && rfc2822_instant(ascii_chars(bytes)) is None) ==> spec_parse_retry_after(
            bytes,
        ) is None,
{
}

/// What an `X-RateLimit-Reset` value reads as, over all byte strings: for a
/// visible-ASCII integer `v`, a Unix timestamp from one day up to the last second
/// that chrono can hold, a wait of `v` seconds from zero to below a day, and
/// nothing otherwise.
pub proof fn law_x_rate_limit_reset_reads_as_integer(bytes: Seq<u8>)
    ensures
        !all_visible_ascii(bytes) ==> spec_parse_x_rate_limit_reset(bytes) is None,
        spec_parse_i64(bytes) is None ==> spec_parse_x_rate_limit_reset(bytes) is None,
        ({
            let v = spec_parse_i64(bytes).unwrap();
            &&& (all_visible_ascii(bytes) && spec_parse_i64(bytes) is Some && TIMESTAMP_THRESHOLD_SECS <= v
                <= CHRONO_MAX_SECS) ==> spec_parse_x_rate_limit_reset(bytes) == Some(
                RetryAfterHeaderValue::Timestamp(Timestamp { secs: v, nanos: 0 }),
            )
            &&& (all_visible_ascii(bytes) && spec_parse_i64(bytes) is Some && 0 <= v
                < TIMESTAMP_THRESHOLD_SECS) ==> spec_parse_x_rate_limit_reset(bytes) == Some(
                RetryAfterHeaderValue::SleepTime(SleepDuration { secs: v as u64, nanos: 0 }),
            )
            &&& (spec_parse_i64(bytes) is Some && (v < 0 || v > CHRONO_MAX_SECS))
                ==> spec_parse_x_rate_limit_reset(bytes) is None
        }),
{
}

/// What the headers of a response say of when to retry, stated with the headers'
/// own parsers: the `Retry-After` value when it is present and means something;
/// else the `X-RateLimit-Reset` value when present and meaningful; else what the
/// `X-Rate-Limit-Reset` value means, if it is present; else nothing.
pub proof fn law_from_headers_reads_the_first_meaningful_header(headers: HeaderMap)
    ensures
        ({
            let ra = first_header_value(headers, RETRY_AFTER@);
            let xr = first_header_value(headers, X_RATELIMIT_RESET@);
            let xa = first_header_value(headers, X_RATE_LIMIT_RESET@);
            let ra_means = ra is Some && spec_parse_retry_after(ra.unwrap()) is Some;
            let xr_means = xr is Some && spec_parse_x_rate_limit_reset(xr.unwrap()) is Some;
            &&& ra_means ==> spec_from_headers(headers) == spec_parse_retry_after(ra.unwrap())
            &&& (!ra_means && xr_means) ==> spec_from_headers(headers) == spec_parse_x_rate_limit_reset(
                xr.unwrap(),
            )
            &&& (!ra_means && !xr_means && xa is Some) ==> spec_from_headers(headers)
                == spec_parse_x_rate_limit_reset(xa.unwrap())
            &&& (!ra_means && !xr_means && xa is None) ==> spec_from_headers(headers) is None
        }),
{
}

/// A timestamp is waited for exactly as long as it lies after the server's clock:
/// when it is not before `server_now` (and the span's seconds fit in a `u64`),
/// the sleep time is that span, in normal form; when it is before, there is none.
pub proof fn law_timestamp_sleep_time_is_the_span(ts: Timestamp, server_now: Timestamp)
    ensures
        ({
            let diff = ts.nanos_since_epoch() - server_now.nanos_since_epoch();
            let r = spec_sleep_time(RetryAfterHeaderValue::Timestamp(ts), server_now);
            &&& (0 <= diff < (u64::MAX + 1) * 1_000_000_000) ==> (r is Some && r.unwrap().total_nanos()
                == diff && r.unwrap().nanos < NANOS_PER_SEC)
            &&& diff < 0 ==> r is None
        }),
{
    let diff = ts.nanos_since_epoch() - server_now.nanos_since_epoch();
    if 0 <= diff {
        vstd::arithmetic::div_mod::lemma_fundamental_div_mod(diff, 1_000_000_000);
        vstd::arithmetic::div_mod::lemma_mod_bound(diff, 1_000_000_000);
        vstd::arithmetic::div_mod::lemma_div_pos_is_pos(diff, 1_000_000_000);
    }
}

} // verus!
