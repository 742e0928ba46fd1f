//! Instants on the UTC time line and non-negative durations.

use vstd::prelude::*;
use vstd::arithmetic::div_mod::lemma_fundamental_div_mod_converse;

verus! {

/// Nanoseconds in one second.
pub const NANOS_PER_SEC: u32 = 1_000_000_000;

/// The earliest second that chrono's `DateTime<Utc>` can hold: the start of
/// January 1st of the year -262143.
pub const CHRONO_MIN_SECS: i64 = -8_334_601_228_800;

/// The latest second that chrono's `DateTime<Utc>` can hold: the last second of
/// December 31st of the year 262142.
pub const CHRONO_MAX_SECS: i64 = 8_210_266_876_799;

/// An instant on the UTC time line: `secs` seconds and `nanos` nanoseconds after
/// the Unix epoch (`secs` may be negative). A `nanos` of a billion or more stands
/// for a leap second, as chrono writes one.
#[derive(Debug, Clone, Copy, PartialEq, Eq, Hash, Structural)]
pub struct Timestamp {
    pub secs: i64,
    pub nanos: u32,
}

/// A non-negative span of time: `secs` seconds and `nanos` nanoseconds.
#[derive(Debug, Clone, Copy, PartialEq, Eq, Hash, Structural)]
pub struct SleepDuration {
    pub secs: u64,
    pub nanos: u32,
}

impl Timestamp {
    /// The instant, in nanoseconds after the Unix epoch.
    pub open spec fn nanos_since_epoch(self) -> int {
        self.secs * 1_000_000_000 + self.nanos
    }
}

impl SleepDuration {
    /// The length of the span, in nanoseconds.
    pub open spec fn total_nanos(self) -> int {
        self.secs * 1_000_000_000 + self.nanos
    }

    /// The span is written in normal form: fewer than a billion nanoseconds.
    pub open spec fn is_normalized(self) -> bool {
        self.nanos < 1_000_000_000
    }

    /// A span of whole seconds.
    pub fn from_secs(secs: u64) -> (d: SleepDuration)
        ensures
            d.secs == secs,
            d.nanos == 0,
            d.total_nanos() == secs * 1_000_000_000,
    {
        SleepDuration { secs, nanos: 0 }
    }
}

/// The instant `d` after `t`, in normal form, when its seconds fit in an `i64`.
pub open spec fn spec_checked_add(t: Timestamp, d: SleepDuration) -> Option<Timestamp> {
    let total = t.nanos_since_epoch() + d.total_nanos();
    if total / 1_000_000_000 <= i64::MAX {
        Some(Timestamp { secs: (total / 1_000_000_000) as i64, nanos: (total % 1_000_000_000) as u32 })
    } else {
        None
    }
}

/// The span from `earlier` to `later`, in normal form, when `later` is not before
/// `earlier` and the span's seconds fit in a `u64`.
pub open spec fn spec_duration_since(later: Timestamp, earlier: Timestamp) -> Option<SleepDuration> {
    let diff = later.nanos_since_epoch() - earlier.nanos_since_epoch();
    if 0 <= diff && diff / 1_000_000_000 <= u64::MAX {
        Some(SleepDuration { secs: (diff / 1_000_000_000) as u64, nanos: (diff % 1_000_000_000) as u32 })
    } else {
        None
    }
}

impl Timestamp {
    /// The instant `d` after `self`: `None` when its seconds do not fit in an `i64`.
    pub fn checked_add(self, d: SleepDuration) -> (r: Option<Timestamp>)
        ensures
            r == spec_checked_add(self, d),
            r matches Some(t) ==> t.nanos_since_epoch() == self.nanos_since_epoch() + d.total_nanos()
                && t.nanos < NANOS_PER_SEC,
            r is None <==> self.nanos_since_epoch() + d.total_nanos() >= (i64::MAX + 1) * 1_000_000_000,
    {
        let nsum: u64 = self.nanos as u64 + d.nanos as u64;
        let carry: u64 = nsum / 1_000_000_000;
        let nanos: u64 = nsum % 1_000_000_000;
        let secs: i128 = self.secs as i128 + d.secs as i128 + carry as i128;
        proof {
            let total = self.nanos_since_epoch() + d.total_nanos();
            assert(nsum == carry * 1_000_000_000 + nanos) by {
                lemma_fundamental_div_mod_converse(nsum as int, 1_000_000_000, carry as int, nanos as int);
            }
            assert(total == secs * 1_000_000_000 + nanos);
            lemma_fundamental_div_mod_converse(total, 1_000_000_000, secs as int, nanos as int);
        }
        if secs > i64::MAX as i128 {
            None
        } else {
            Some(Timestamp { secs: secs as i64, nanos: nanos as u32 })
        }
    }

    /// The span from `earlier` to `self`: `None` when `self` is before `earlier`
    /// (or, beyond any date chrono can hold, when the span's seconds do not fit in
    /// a `u64`).
    pub fn duration_since(self, earlier: Timestamp) -> (r: Option<SleepDuration>)
        ensures
            r == spec_duration_since(self, earlier),
            r matches Some(d) ==> d.total_nanos() == self.nanos_since_epoch() - earlier.nanos_since_epoch()
                && d.is_normalized(),
            self.nanos_since_epoch() < earlier.nanos_since_epoch() ==> r is None,
    {
        let later_n: i128 = self.secs as i128 * 1_000_000_000 + self.nanos as i128;
        let earlier_n: i128 = earlier.secs as i128 * 1_000_000_000 + earlier.nanos as i128;
        let diff: i128 = later_n - earlier_n;
        if diff < 0 {
            return None;
        }
        let udiff: u128 = diff as u128;
        let secs: u128 = udiff / 1_000_000_000;
        let nanos: u128 = udiff % 1_000_000_000;
        proof {
            lemma_fundamental_div_mod_converse(diff as int, 1_000_000_000, secs as int, nanos as int);
        }
        if secs > u64::MAX as u128 {
            None
        } else {
            Some(SleepDuration { secs: secs as u64, nanos: nanos as u32 })
        }
    }
}

/// Whether `t` can be a reading of the system clock as [`system_now`] gives it: in
/// normal form, and within chrono's range of dates (from the year -262143 to the
/// year 262142).
pub open spec fn is_clock_reading(t: Timestamp) -> bool {
    &&& t.nanos < NANOS_PER_SEC
    &&& CHRONO_MIN_SECS <= t.secs <= CHRONO_MAX_SECS
}

/// Reads the system clock: `std::time::SystemTime::now`, turned into seconds and
/// nanoseconds since the Unix epoch by chrono's conversion to `DateTime<Utc>`.
/// What the clock reads is not stated. That conversion gives fewer than a billion
/// nanoseconds and, since it unwraps chrono's `timestamp_opt`, an instant within
/// chrono's range of dates; both are stated.
#[verifier::external_body]
pub(crate) fn system_now() -> (now: Timestamp)
    ensures
        now.nanos < NANOS_PER_SEC,
        CHRONO_MIN_SECS <= now.secs <= CHRONO_MAX_SECS,
{
    let now: chrono::DateTime<chrono::Utc> = std::time::SystemTime::now().into();
    Timestamp { secs: now.timestamp(), nanos: now.timestamp_subsec_nanos() }
}

/// Measuring the span from an instant to the instant a span later gives that span
/// back, whenever the later instant can be held.
pub proof fn law_duration_since_inverts_checked_add(t: Timestamp, d: SleepDuration)
    requires
        d.is_normalized(),
        spec_checked_add(t, d) is Some,
    ensures
        spec_duration_since(spec_checked_add(t, d).unwrap(), t) == Some(d),
{
    let total = t.nanos_since_epoch() + d.total_nanos();
    let later = spec_checked_add(t, d).unwrap();
    vstd::arithmetic::div_mod::lemma_fundamental_div_mod(total, 1_000_000_000);
    vstd::arithmetic::div_mod::lemma_mod_bound(total, 1_000_000_000);
    assert(later.nanos_since_epoch() == total) by (nonlinear_arith)
        requires
            later.secs == total / 1_000_000_000,
            later.nanos == total % 1_000_000_000,
            total == 1_000_000_000 * (total / 1_000_000_000) + (total % 1_000_000_000),
            later.nanos_since_epoch() == later.secs * 1_000_000_000 + later.nanos,
    ;
    lemma_fundamental_div_mod_converse(d.total_nanos(), 1_000_000_000, d.secs as int, d.nanos as int);
}

} // verus!
