use http::header::RETRY_AFTER;
use http::{HeaderMap, HeaderValue};
use reessaie::policy::{
    override_decision, retry_at, retry_at_for_outcome, retry_at_with_clock, retryable_str, RetryAtTable, RetryDecision,
    Retryable,
};
use reessaie::time::{SleepDuration, Timestamp};

fn ts(secs: i64) -> Timestamp {
    Timestamp { secs, nanos: 0 }
}

fn secs(n: u64) -> SleepDuration {
    SleepDuration { secs: n, nanos: 0 }
}

#[test]
fn retryable_str_names_each_variant() {
    assert_eq!(retryable_str(&Retryable::Transient), "Retryable::Transient");
    assert_eq!(retryable_str(&Retryable::Fatal), "Retryable::Fatal");
}

#[test]
fn table_reads_back_what_was_set_per_task() {
    let mut table = RetryAtTable::new();
    assert_eq!(table.get(None), None);
    table.set(None, Some(ts(100)));
    assert_eq!(table.get(None), Some(ts(100)));
    table.set(Some(7), Some(ts(107)));
    assert_eq!(table.get(Some(7)), Some(ts(107)));
    assert_eq!(table.get(None), Some(ts(100)));
    assert_eq!(table.get(Some(8)), None);
    table.set(Some(7), Some(ts(200)));
    assert_eq!(table.get(Some(7)), Some(ts(200)));
    table.set(None, None);
    assert_eq!(table.get(None), None);
    assert_eq!(table.get(Some(7)), Some(ts(200)));
    table.set(Some(7), None);
    assert_eq!(table.get(Some(7)), None);
}

#[test]
fn retry_at_only_for_transient_failures_with_a_wait() {
    assert_eq!(retry_at(Some(Retryable::Transient), Some(secs(23)), ts(1000)), Some(ts(1023)));
    assert_eq!(retry_at(Some(Retryable::Fatal), Some(secs(23)), ts(1000)), None);
    assert_eq!(retry_at(None, Some(secs(23)), ts(1000)), None);
    assert_eq!(retry_at(Some(Retryable::Transient), None, ts(1000)), None);
    assert_eq!(retry_at(Some(Retryable::Transient), Some(secs(1)), ts(i64::MAX)), None);
}

#[test]
fn override_decision_replaces_only_the_wait() {
    let inner = RetryDecision::Retry { execute_after: ts(10) };
    assert_eq!(override_decision(inner, Some(ts(23))), RetryDecision::Retry { execute_after: ts(23) });
    assert_eq!(override_decision(inner, None), inner);
    assert_eq!(override_decision(RetryDecision::DoNotRetry, Some(ts(23))), RetryDecision::DoNotRetry);
    assert_eq!(override_decision(RetryDecision::DoNotRetry, None), RetryDecision::DoNotRetry);
}

fn with_retry_after(value: &'static str) -> HeaderMap {
    let mut map = HeaderMap::new();
    map.append(RETRY_AFTER, HeaderValue::from_static(value));
    map
}

#[test]
fn outcome_not_retryable() {
    let headers = HeaderMap::new();
    assert_eq!(retry_at_for_outcome(None, Some(&headers)), None);
}

#[test]
fn outcome_failed_request() {
    assert_eq!(retry_at_for_outcome(Some(Retryable::Fatal), None), None);
    assert_eq!(retry_at_for_outcome(Some(Retryable::Transient), None), None);
}

#[test]
fn outcome_transient_retryable_without_retry_after_header() {
    let headers = HeaderMap::new();
    assert_eq!(retry_at_for_outcome(Some(Retryable::Transient), Some(&headers)), None);
}

#[test]
fn outcome_transient_retryable_with_retry_after_header() {
    let before = chrono::Utc::now().timestamp();
    let headers = with_retry_after("23");
    let at = retry_at_for_outcome(Some(Retryable::Transient), Some(&headers)).unwrap();
    let after = chrono::Utc::now().timestamp();
    assert!(at.secs >= before + 23 && at.secs <= after + 23, "{:?}", at);
    let decision = override_decision(RetryDecision::Retry { execute_after: ts(before + 10) }, Some(at));
    assert_eq!(decision, RetryDecision::Retry { execute_after: at });
}

#[test]
fn outcome_fatal_with_retry_after_header() {
    let headers = with_retry_after("23");
    assert_eq!(retry_at_for_outcome(Some(Retryable::Fatal), Some(&headers)), None);
}

#[test]
fn retry_at_with_clock_adds_the_wait_to_now() {
    let headers = with_retry_after("23");
    assert_eq!(
        retry_at_with_clock(Some(Retryable::Transient), Some(&headers), ts(5), ts(1000)),
        Some(ts(1023))
    );
    assert_eq!(retry_at_with_clock(Some(Retryable::Fatal), Some(&headers), ts(5), ts(1000)), None);
    assert_eq!(retry_at_with_clock(Some(Retryable::Transient), None, ts(5), ts(1000)), None);
}

#[test]
fn retry_at_with_clock_measures_a_timestamp_against_the_date_header() {
    let mut headers = HeaderMap::new();
    headers.append(RETRY_AFTER, HeaderValue::from_static("Wed, 21 Oct 2015 07:28:00 GMT"));
    // Without a Date header, the local clock is the base: 100 seconds before.
    let target = 1_445_412_480;
    assert_eq!(
        retry_at_with_clock(Some(Retryable::Transient), Some(&headers), ts(target - 100), ts(2000)),
        Some(ts(2100))
    );
    headers.append(http::header::DATE, HeaderValue::from_static("Wed, 21 Oct 2015 07:27:00 GMT"));
    assert_eq!(
        retry_at_with_clock(Some(Retryable::Transient), Some(&headers), ts(target - 100), ts(2000)),
        Some(ts(2060))
    );
    // A timestamp already past at the server: no wait is remembered.
    let mut late = HeaderMap::new();
    late.append(RETRY_AFTER, HeaderValue::from_static("Wed, 21 Oct 2015 07:28:00 GMT"));
    late.append(http::header::DATE, HeaderValue::from_static("Wed, 21 Oct 2015 07:29:00 GMT"));
    assert_eq!(retry_at_with_clock(Some(Retryable::Transient), Some(&late), ts(0), ts(2000)), None);
}

#[test]
fn outcome_with_a_huge_wait_is_still_held() {
    let headers = with_retry_after("10000000000000");
    let at = retry_at_for_outcome(Some(Retryable::Transient), Some(&headers)).unwrap();
    assert!(at.secs > 10_000_000_000_000);
}
