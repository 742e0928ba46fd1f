//! The decisions of the retry policy that honours retry-after headers, and the
//! store in which it keeps, for each task, the instant it was told to wait for.

use std::collections::HashMap;

use http::HeaderMap;
use vstd::prelude::*;

use crate::header::{
    server_date, spec_from_headers, spec_server_date, spec_sleep_time, RetryAfterHeaderValue,
};
use crate::time::{
    is_clock_reading, law_duration_since_inverts_checked_add, spec_checked_add, spec_duration_since,
    system_now, SleepDuration, Timestamp, CHRONO_MAX_SECS, NANOS_PER_SEC,
};

verus! {

broadcast use vstd::std_specs::hash::group_hash_axioms;

/// How a failed request is classified by a retryable strategy.
#[derive(Debug, Clone, Copy, PartialEq, Eq, Hash, Structural)]
pub enum Retryable {
    /// The failure might resolve itself later: the request may be retried.
    Transient,
    /// The failure will not resolve itself.
    Fatal,
}

/// What a retry policy decides for a failed request.
#[derive(Debug, Clone, Copy, PartialEq, Eq, Hash, Structural)]
pub enum RetryDecision {
    /// Retry once `execute_after` is past.
    Retry { execute_after: Timestamp },
    /// Give up.
    DoNotRetry,
}

/// Returns a string representation of a [`Retryable`] value.
pub fn retryable_str(retryable: &Retryable) -> (r: &'static str)
    ensures
        *retryable == Retryable::Transient ==> r@ == "Retryable::Transient"@,
        *retryable == Retryable::Fatal ==> r@ == "Retryable::Fatal"@,
{
    match retryable {
        Retryable::Transient => "Retryable::Transient",
        Retryable::Fatal => "Retryable::Fatal",
    }
}

/// The entries of a table whose work outside any task has `outside_task`, and whose
/// tasks have `tasks`.
spec fn combined_entries(outside_task: Option<Timestamp>, tasks: Map<u64, Timestamp>) -> Map<
    Option<u64>,
    Timestamp,
> {
    Map::new(
        |task: Option<u64>|
            match task {
                Some(id) => tasks.contains_key(id),
                None => outside_task.is_some(),
            },
        |task: Option<u64>|
            match task {
                Some(id) => tasks[id],
                None => outside_task.unwrap(),
            },
    )
}

/// What [`combined_entries`] holds, key by key.
proof fn lemma_combined_entries(outside_task: Option<Timestamp>, tasks: Map<u64, Timestamp>)
    ensures
        forall|task: Option<u64>|
            #![trigger combined_entries(outside_task, tasks).contains_key(task)]
            combined_entries(outside_task, tasks).contains_key(task) == match task {
                Some(id) => tasks.contains_key(id),
                None => outside_task is Some,
            },
        forall|id: u64|
            #![trigger combined_entries(outside_task, tasks)[Some(id)]]
            tasks.contains_key(id) ==> combined_entries(outside_task, tasks)[Some(id)] == tasks[id],
        outside_task is Some ==> combined_entries(outside_task, tasks)[None] == outside_task.unwrap(),
{
}

/// The instant stored for `task` in `entries`, if any.
pub open spec fn table_lookup(entries: Map<Option<u64>, Timestamp>, task: Option<u64>) -> Option<Timestamp> {
    if entries.contains_key(task) {
        Some(entries[task])
    } else {
        None
    }
}

/// `entries` after storing `retry_at` for `task`: storing nothing forgets the task.
pub open spec fn table_after_set(
    entries: Map<Option<u64>, Timestamp>,
    task: Option<u64>,
    retry_at: Option<Timestamp>,
) -> Map<Option<u64>, Timestamp> {
    match retry_at {
        Some(t) => entries.insert(task, t),
        None => entries.remove(task),
    }
}

/// For each task, the instant before which its next retry must not start, as the
/// last response it received said. A task is known by its number; `None` stands
/// for work that runs outside any task.
#[derive(Debug)]
pub struct RetryAtTable {
    outside_task: Option<Timestamp>,
    tasks: HashMap<u64, Timestamp>,
}

impl View for RetryAtTable {
    type V = Map<Option<u64>, Timestamp>;

    open spec fn view(&self) -> Map<Option<u64>, Timestamp> {
        self.entries()
    }
}

impl RetryAtTable {
    /// For each task that has one, its instant.
    pub closed spec fn entries(&self) -> Map<Option<u64>, Timestamp> {
        combined_entries(self.outside_task, self.tasks@)
    }
}

impl RetryAtTable {
    /// A table in which no task has an instant.
    pub fn new() -> (table: RetryAtTable)
        ensures
            table@ == Map::<Option<u64>, Timestamp>::empty(),
    {
        let tasks: HashMap<u64, Timestamp> = HashMap::new();
        let table = RetryAtTable { outside_task: None, tasks };
        proof {
            lemma_combined_entries(table.outside_task, table.tasks@);
        }
        assert(table@ =~= Map::<Option<u64>, Timestamp>::empty());
        table
    }

    /// The instant stored for `task`, if any.
    pub fn get(&self, task: Option<u64>) -> (r: Option<Timestamp>)
        ensures
            r == table_lookup(self@, task),
    {
        match task {
            Some(id) => match self.tasks.get(&id) {
                Some(t) => Some(*t),
                None => None,
            },
            None => self.outside_task,
        }
    }

    /// Stores `retry_at` for `task`, or forgets the task when `retry_at` is `None`.
    /// Other tasks keep their instants.
    pub fn set(&mut self, task: Option<u64>, retry_at: Option<Timestamp>)
        ensures
            final(self)@ == table_after_set(old(self)@, task, retry_at),
    {
        match task {
            Some(id) => match retry_at {
                Some(t) => {
                    self.tasks.insert(id, t);
                },
                None => {
                    self.tasks.remove(&id);
                },
            },
            None => {
                self.outside_task = retry_at;
            },
        }
        assert(self@ =~= table_after_set(old(self)@, task, retry_at));
    }
}

/// The instant before which the next retry must not start, after a request whose
/// outcome the inner strategy classified as `retryable`: the instant `sleep_time`
/// after `now`, when the failure is transient and the response said how long to
/// wait; nothing otherwise (nor when that instant cannot be held).
pub open spec fn spec_retry_at(
    retryable: Option<Retryable>,
    sleep_time: Option<SleepDuration>,
    now: Timestamp,
) -> Option<Timestamp> {
    if retryable == Some(Retryable::Transient) && sleep_time is Some {
        spec_checked_add(now, sleep_time.unwrap())
    } else {
        None
    }
}

/// How long the response with headers `headers` says to wait, when the server's
/// clock reads `server_now`, if it says anything.
pub open spec fn spec_response_sleep_time(headers: HeaderMap, server_now: Timestamp) -> Option<
    SleepDuration,
> {
    match spec_from_headers(headers) {
        Some(value) => spec_sleep_time(value, server_now),
        None => None,
    }
}

/// The inner policy's decision, with its wait replaced by `retry_at` when there is
/// one: a decision to retry then waits until `retry_at`; a decision to give up
/// stands.
pub open spec fn spec_override_decision(decision: RetryDecision, retry_at: Option<Timestamp>) -> RetryDecision {
    match (decision, retry_at) {
        (RetryDecision::Retry { .. }, Some(t)) => RetryDecision::Retry { execute_after: t },
        _ => decision,
    }
}

/// The instant before which the next retry must not start, given how long the
/// response said to wait and the instant it is now.
pub fn retry_at(retryable: Option<Retryable>, sleep_time: Option<SleepDuration>, now: Timestamp) -> (r:
    Option<Timestamp>)
    ensures
        r == spec_retry_at(retryable, sleep_time, now),
{
    match (retryable, sleep_time) {
        (Some(Retryable::Transient), Some(d)) => now.checked_add(d),
        _ => None,
    }
}

/// The instant before which the next retry must not start, after a request whose
/// outcome the inner strategy classified as `retryable` and which got a response
/// with headers `headers` (`None` when the request failed without one): the wait
/// that the headers say, measured against the response's `Date` header or else
/// against `local_clock`, added to `now`.
pub open spec fn spec_retry_at_for(
    retryable: Option<Retryable>,
    headers: Option<&HeaderMap>,
    local_clock: Timestamp,
    now: Timestamp,
) -> Option<Timestamp> {
    match headers {
        Some(h) => {
            let server_now = match spec_server_date(*h) {
                Some(date) => date,
                None => local_clock,
            };
            spec_retry_at(retryable, spec_response_sleep_time(*h, server_now), now)
        },
        None => None,
    }
}

/// A wait of at most a trillion seconds, added to a clock reading, can be held.
proof fn lemma_clock_plus_wait_fits(now: Timestamp, d: SleepDuration)
    requires
        is_clock_reading(now),
        d.secs <= 1_000_000_000_000,
        d.nanos < NANOS_PER_SEC,
    ensures
        spec_checked_add(now, d) is Some,
{
    let total = now.nanos_since_epoch() + d.total_nanos();
    assert(total < (i64::MAX + 1) * 1_000_000_000);
    vstd::arithmetic::div_mod::lemma_fundamental_div_mod(total, 1_000_000_000);
    vstd::arithmetic::div_mod::lemma_mod_bound(total, 1_000_000_000);
}

/// The instant before which the next retry must not start, given the clock
/// readings: `local_clock`, against which a timestamp header is measured when the
/// response has no `Date` header, and `now`, to which the wait is added.
pub fn retry_at_with_clock(
    retryable: Option<Retryable>,
    headers: Option<&HeaderMap>,
    local_clock: Timestamp,
    now: Timestamp,
) -> (r: Option<Timestamp>)
    ensures
        r == spec_retry_at_for(retryable, headers, local_clock, now),
{
    match headers {
        None => None,
        Some(h) => match RetryAfterHeaderValue::from_response(h) {
            None => None,
            Some(value) => {
                let server_now = match server_date(h) {
                    Some(date) => date,
                    None => local_clock,
                };
                retry_at(retryable, value.sleep_time_since(server_now), now)
            },
        },
    }
}

/// Waiting from a clock reading `c` until a timestamp `ts` that the clock has not
/// passed, and adding the wait back to `c`, lands on `ts` itself.
proof fn lemma_wait_until_timestamp_from_clock(c: Timestamp, ts: Timestamp)
    requires
        is_clock_reading(c),
        c.nanos_since_epoch() <= ts.nanos_since_epoch(),
        ts.secs <= CHRONO_MAX_SECS,
    ensures
        spec_duration_since(ts, c) is Some,
        spec_checked_add(c, spec_duration_since(ts, c).unwrap()) is Some,
        spec_checked_add(c, spec_duration_since(ts, c).unwrap()).unwrap().nanos_since_epoch()
            == ts.nanos_since_epoch(),
{
    let diff = ts.nanos_since_epoch() - c.nanos_since_epoch();
    vstd::arithmetic::div_mod::lemma_fundamental_div_mod(diff, 1_000_000_000);
    vstd::arithmetic::div_mod::lemma_mod_bound(diff, 1_000_000_000);
    let d = spec_duration_since(ts, c).unwrap();
    assert(d.total_nanos() == diff);
    let total = c.nanos_since_epoch() + d.total_nanos();
    vstd::arithmetic::div_mod::lemma_fundamental_div_mod(total, 1_000_000_000);
    vstd::arithmetic::div_mod::lemma_mod_bound(total, 1_000_000_000);
}

/// What the policy remembers after a request: when the inner strategy found its
/// outcome transient and the request got a response (`headers`, `None` when the
/// request failed without one) whose headers say how long to wait, the instant
/// that long after the system clock's reading; nothing otherwise. A timestamp
/// header is measured against the response's `Date` header, or else against that
/// same reading of the system clock, so that without a `Date` header the instant
/// remembered is the timestamp itself.
pub fn retry_at_for_outcome(retryable: Option<Retryable>, headers: Option<&HeaderMap>) -> (r: Option<
    Timestamp,
>)
    ensures
        exists|now: Timestamp|
            {
                &&& is_clock_reading(now)
                &&& r == #[trigger] spec_retry_at_for(retryable, headers, now, now)
            },
        retryable != Some(Retryable::Transient) ==> r is None,
        headers is None ==> r is None,
        headers matches Some(h) ==> (spec_from_headers(*h) is None ==> r is None),
        retryable == Some(Retryable::Transient) ==> (headers matches Some(h) ==> (spec_from_headers(
            *h,
        ) matches Some(RetryAfterHeaderValue::SleepTime(d)) ==> ((d.secs <= 1_000_000_000_000
            && d.nanos < NANOS_PER_SEC) ==> (r is Some)))),
        retryable == Some(Retryable::Transient) ==> (headers matches Some(h) ==> (spec_server_date(
            *h,
        ) matches Some(date) ==> (spec_response_sleep_time(*h, date) matches Some(d) ==> (
        d.secs <= 1_000_000_000_000 ==> (r is Some))))),
        headers matches Some(h) ==> (spec_from_headers(*h) matches Some(
            RetryAfterHeaderValue::Timestamp(ts),
        ) ==> ((spec_server_date(*h) is None && ts.secs <= CHRONO_MAX_SECS) ==> (r matches Some(t)
            ==> t.nanos_since_epoch() == ts.nanos_since_epoch()))),
{
    let now = system_now();
    let r = retry_at_with_clock(retryable, headers, now, now);
    proof {
        if retryable == Some(Retryable::Transient) && headers is Some {
            let h = headers.unwrap();
            let server_now = match spec_server_date(*h) {
                Some(date) => date,
                None => now,
            };
            if let Some(d) = spec_response_sleep_time(*h, server_now) {
                if d.secs <= 1_000_000_000_000 && d.nanos < NANOS_PER_SEC {
                    lemma_clock_plus_wait_fits(now, d);
                }
            }
            if let Some(RetryAfterHeaderValue::Timestamp(ts)) = spec_from_headers(*h) {
                if spec_server_date(*h) is None && ts.secs <= CHRONO_MAX_SECS && now.nanos_since_epoch()
                    <= ts.nanos_since_epoch() {
                    lemma_wait_until_timestamp_from_clock(now, ts);
                }
            }
        }
    }
    r
}

/// The decision of the inner policy, with its wait replaced by `retry_at` when
/// there is one. A decision to give up is never turned into one to retry.
pub fn override_decision(decision: RetryDecision, retry_at: Option<Timestamp>) -> (r: RetryDecision)
    ensures
        r == spec_override_decision(decision, retry_at),
        (r is Retry) <==> (decision is Retry),
        retry_at is None ==> r == decision,
{
    match (decision, retry_at) {
        (RetryDecision::Retry { .. }, Some(t)) => RetryDecision::Retry { execute_after: t },
        _ => decision,
    }
}

/// What a task stores in the table is what it reads back, and storing for one task
/// leaves what every other task reads unchanged.
pub proof fn law_table_reads_back_what_was_set(
    entries: Map<Option<u64>, Timestamp>,
    task: Option<u64>,
    other: Option<u64>,
    retry_at: Option<Timestamp>,
)
    ensures
        table_lookup(table_after_set(entries, task, retry_at), task) == retry_at,
        other != task ==> table_lookup(table_after_set(entries, task, retry_at), other) == table_lookup(
            entries,
            other,
        ),
{
}

/// When the inner strategy finds a failure transient and the response says how
/// long to wait, a decision of the inner policy to retry is kept, but the retry
/// waits exactly that long from the instant the response was handled.
pub proof fn law_retry_waits_as_the_header_says(
    sleep_time: SleepDuration,
    now: Timestamp,
    decision: RetryDecision,
)
    requires
        sleep_time.is_normalized(),
        spec_checked_add(now, sleep_time) is Some,
        decision is Retry,
    ensures
        ({
            let retry_at = spec_retry_at(Some(Retryable::Transient), Some(sleep_time), now);
            &&& retry_at is Some
            &&& spec_override_decision(decision, retry_at) == (RetryDecision::Retry {
                execute_after: retry_at.unwrap(),
            })
            &&& spec_duration_since(retry_at.unwrap(), now) == Some(sleep_time)
        }),
{
    law_duration_since_inverts_checked_add(now, sleep_time);
}

/// When the failure is not transient, or the response does not say how long to
/// wait, the inner policy's decision stands as it is.
pub proof fn law_inner_decision_stands_without_retry_after(
    retryable: Option<Retryable>,
    sleep_time: Option<SleepDuration>,
    now: Timestamp,
    decision: RetryDecision,
)
    requires
        retryable != Some(Retryable::Transient) || sleep_time is None,
    ensures
        spec_override_decision(decision, spec_retry_at(retryable, sleep_time, now)) == decision,
{
}

/// A decision of the inner policy to give up is never turned into one to retry.
pub proof fn law_giving_up_stands(retry_at: Option<Timestamp>)
    ensures
        spec_override_decision(RetryDecision::DoNotRetry, retry_at) == RetryDecision::DoNotRetry,
{
}

/// After a transient failure whose response says to sleep `d`, the instant that
/// the policy remembers, read against any clock reading `now`, is exactly `d`
/// after `now`, and a decision of the inner policy to retry then waits until that
/// instant.
pub proof fn law_handled_response_sets_the_wait(
    headers: &HeaderMap,
    d: SleepDuration,
    local_clock: Timestamp,
    now: Timestamp,
    decision: RetryDecision,
)
    requires
        spec_from_headers(*headers) == Some(RetryAfterHeaderValue::SleepTime(d)),
        d.is_normalized(),
        d.secs <= 1_000_000_000_000,
        is_clock_reading(now),
        decision is Retry,
    ensures
        ({
            let retry_at = spec_retry_at_for(Some(Retryable::Transient), Some(headers), local_clock, now);
            &&& retry_at is Some
            &&& spec_duration_since(retry_at.unwrap(), now) == Some(d)
            &&& spec_override_decision(decision, retry_at) == (RetryDecision::Retry {
                execute_after: retry_at.unwrap(),
            })
        }),
{
    lemma_clock_plus_wait_fits(now, d);
    law_duration_since_inverts_checked_add(now, d);
}

/// After a transient failure whose response says to sleep `d`, with or without a
/// `Date` header, the instant remembered against a clock reading `now` is `now`
/// plus `d`.
pub proof fn law_remembered_instant_is_reading_plus_wait(
    headers: &HeaderMap,
    d: SleepDuration,
    now: Timestamp,
)
    requires
        spec_from_headers(*headers) == Some(RetryAfterHeaderValue::SleepTime(d)),
        d.secs <= 1_000_000_000_000,
        d.nanos < NANOS_PER_SEC,
        is_clock_reading(now),
    ensures
        ({
            let r = spec_retry_at_for(Some(Retryable::Transient), Some(headers), now, now);
            &&& r is Some
            &&& r.unwrap().nanos_since_epoch() == now.nanos_since_epoch() + d.total_nanos()
        }),
{
    lemma_clock_plus_wait_fits(now, d);
}

/// After a transient failure whose response names an instant `ts` and carries a
/// `Date` header `date` not after it, the instant remembered against a clock
/// reading `now` is `now` plus the span from `date` to `ts`.
pub proof fn law_timestamp_measured_against_the_date_header(
    headers: &HeaderMap,
    ts: Timestamp,
    date: Timestamp,
    now: Timestamp,
)
    requires
        spec_from_headers(*headers) == Some(RetryAfterHeaderValue::Timestamp(ts)),
        spec_server_date(*headers) == Some(date),
        date.nanos_since_epoch() <= ts.nanos_since_epoch(),
        ts.nanos_since_epoch() - date.nanos_since_epoch() < 1_000_000_000_000 * 1_000_000_000,
        is_clock_reading(now),
    ensures
        ({
            let r = spec_retry_at_for(Some(Retryable::Transient), Some(headers), now, now);
            &&& r is Some
            &&& r.unwrap().nanos_since_epoch() == now.nanos_since_epoch() + ts.nanos_since_epoch()
                - date.nanos_since_epoch()
        }),
{
    let diff = ts.nanos_since_epoch() - date.nanos_since_epoch();
    vstd::arithmetic::div_mod::lemma_fundamental_div_mod(diff, 1_000_000_000);
    vstd::arithmetic::div_mod::lemma_mod_bound(diff, 1_000_000_000);
    let d = spec_duration_since(ts, date).unwrap();
    assert(d.total_nanos() == diff);
    assert(d.secs <= 1_000_000_000_000);
    lemma_clock_plus_wait_fits(now, d);
}

/// After a transient failure whose response names an instant `ts` but carries no
/// `Date` header, the instant is measured against the clock reading itself: the
/// instant remembered is `ts`, when the clock has not passed it, and nothing when
/// it has.
pub proof fn law_timestamp_without_date_header_is_remembered_as_is(
    headers: &HeaderMap,
    ts: Timestamp,
    now: Timestamp,
)
    requires
        spec_from_headers(*headers) == Some(RetryAfterHeaderValue::Timestamp(ts)),
        spec_server_date(*headers) is None,
        ts.secs <= CHRONO_MAX_SECS,
        is_clock_reading(now),
    ensures
        ({
            let r = spec_retry_at_for(Some(Retryable::Transient), Some(headers), now, now);
            &&& now.nanos_since_epoch() <= ts.nanos_since_epoch() ==> (r is Some && r.unwrap().nanos_since_epoch()
                == ts.nanos_since_epoch())
            &&& now.nanos_since_epoch() > ts.nanos_since_epoch() ==> r is None
        }),
{
    if now.nanos_since_epoch() <= ts.nanos_since_epoch() {
        lemma_wait_until_timestamp_from_clock(now, ts);
    }
}

} // verus!
