//! Instants in UTC, held as a Unix timestamp: whole seconds and the nanoseconds past them.
//!
//! The range is that of `chrono::DateTime<Utc>` (years -262143 to +262142), with the
//! nanosecond part reaching up to two seconds' worth where a leap second is represented (only
//! in the last second of a minute).

use vstd::prelude::*;

verus! {

/// Seconds of the earliest instant `chrono` represents (`DateTime::<Utc>::MIN_UTC`).
pub const MIN_TIMESTAMP_SECS: i64 = -8_334_601_228_800i64;

/// Seconds of the latest second `chrono` represents (`DateTime::<Utc>::MAX_UTC`).
pub const MAX_TIMESTAMP_SECS: i64 = 8_210_266_876_799i64;

/// The pairs that `chrono::DateTime::from_timestamp` accepts.
pub open spec fn valid_timestamp(secs: int, nanos: int) -> bool {
    &&& MIN_TIMESTAMP_SECS <= secs <= MAX_TIMESTAMP_SECS
    &&& 0 <= nanos < 2_000_000_000
    &&& (nanos < 1_000_000_000 || secs % 60 == 59)
}

/// `a` is strictly later than `b` (both `(seconds, nanoseconds)`).
pub open spec fn is_later(a: (int, int), b: (int, int)) -> bool {
    a.0 > b.0 || (a.0 == b.0 && a.1 > b.1)
}

/// Microseconds since the epoch, as `DateTime::timestamp_micros` computes them.
pub open spec fn micros_of(t: (int, int)) -> int {
    t.0 * 1_000_000 + t.1 / 1000
}

/// Nanoseconds since the epoch when they fit in an `i64`, as `DateTime::timestamp_nanos_opt`
/// computes them (for negative seconds it goes by the next second, so that the intermediate
/// product does not leave the `i64` range needlessly).
pub open spec fn nanos_opt_of(t: (int, int)) -> Option<int> {
    let secs = if t.0 < 0 {
        t.0 + 1
    } else {
        t.0
    };
    let frac = if t.0 < 0 {
        t.1 - 1_000_000_000
    } else {
        t.1
    };
    let scaled = secs * 1_000_000_000;
    if i64::MIN <= scaled <= i64::MAX && i64::MIN <= scaled + frac <= i64::MAX {
        Some(scaled + frac)
    } else {
        None
    }
}

/// Law: the nanosecond count of an instant, where it exists, is the instant's seconds and
/// nanoseconds on one scale, and it agrees with the microsecond count (which is the nanosecond
/// count with its last three digits dropped).
pub proof fn law_nanos_agree_with_micros(t: (int, int))
    requires
        valid_timestamp(t.0, t.1),
    ensures
        nanos_opt_of(t) matches Some(n) ==> n == t.0 * 1_000_000_000 + t.1 && n / 1000 == micros_of(
            t,
        ),
{
    if nanos_opt_of(t) is Some {
        let n = t.0 * 1_000_000_000 + t.1;
        assert(n / 1000 == t.0 * 1_000_000 + t.1 / 1000) by (nonlinear_arith)
            requires
                n == t.0 * 1_000_000_000 + t.1,
                0 <= t.1,
        ;
    }
}

/// An instant in UTC.
#[derive(Clone, Copy, Debug, PartialEq, Eq, Structural)]
pub struct UtcTimestamp {
    secs: i64,
    nanos: u32,
}

impl View for UtcTimestamp {
    type V = (int, int);

    /// Seconds since the epoch and the nanoseconds past them.
    closed spec fn view(&self) -> (int, int) {
        (self.secs as int, self.nanos as int)
    }
}

impl UtcTimestamp {
    #[verifier::type_invariant]
    spec fn inv(self) -> bool {
        valid_timestamp(self.secs as int, self.nanos as int)
    }

    /// The instant `secs` seconds and `nanos` nanoseconds after the epoch, where `chrono`
    /// represents it.
    pub fn new(secs: i64, nanos: u32) -> (res: Option<UtcTimestamp>)
        ensures
            res is Some <==> valid_timestamp(secs as int, nanos as int),
            res matches Some(t) ==> t@ == (secs as int, nanos as int),
    {
        if secs < MIN_TIMESTAMP_SECS || secs > MAX_TIMESTAMP_SECS || nanos >= 2_000_000_000 {
            return None;
        }
        // the second within its minute, counted from the start of the minute
        let shifted: i64 = secs - MIN_TIMESTAMP_SECS;
        assert(MIN_TIMESTAMP_SECS % 60 == 0);
        assert(shifted % 60 == secs % 60) by (nonlinear_arith)
            requires
                shifted == secs - MIN_TIMESTAMP_SECS,
                MIN_TIMESTAMP_SECS % 60 == 0,
        ;
        if nanos < 1_000_000_000 || shifted % 60 == 59 {
            Some(UtcTimestamp { secs, nanos })
        } else {
            None
        }
    }

    /// Seconds since the epoch (`DateTime::timestamp`).
    pub fn timestamp(&self) -> (res: i64)
        ensures
            res == self@.0,
            valid_timestamp(self@.0, self@.1),
    {
        proof {
            use_type_invariant(self);
        }
        self.secs
    }

    /// Nanoseconds past the second (`DateTime::timestamp_subsec_nanos`).
    pub fn timestamp_subsec_nanos(&self) -> (res: u32)
        ensures
            res == self@.1,
            valid_timestamp(self@.0, self@.1),
    {
        proof {
            use_type_invariant(self);
        }
        self.nanos
    }

    /// Whether `self` is strictly later than `other` (`>` on `DateTime<Utc>`).
    pub fn is_later_than(&self, other: &UtcTimestamp) -> (res: bool)
        ensures
            res == is_later(self@, other@),
    {
        self.secs > other.secs || (self.secs == other.secs && self.nanos > other.nanos)
    }

    /// Microseconds since the epoch (`DateTime::timestamp_micros`).
    pub fn timestamp_micros(&self) -> (res: i64)
        ensures
            res == micros_of(self@),
    {
        proof {
            use_type_invariant(self);
        }
        let s: i64 = self.secs;
        assert(-9_000_000_000_000_000_000 <= s * 1_000_000 <= 9_000_000_000_000_000_000)
            by (nonlinear_arith)
            requires
                MIN_TIMESTAMP_SECS <= s <= MAX_TIMESTAMP_SECS,
        ;
        s * 1_000_000 + (self.nanos / 1000) as i64
    }

    /// Nanoseconds since the epoch where they fit in an `i64` (`DateTime::timestamp_nanos_opt`).
    pub fn timestamp_nanos_opt(&self) -> (res: Option<i64>)
        ensures
            res matches Some(n) ==> nanos_opt_of(self@) == Some(n as int),
            res is None ==> nanos_opt_of(self@) is None,
    {
        proof {
            use_type_invariant(self);
        }
        let mut secs: i128 = self.secs as i128;
        let mut frac: i128 = self.nanos as i128;
        if secs < 0 {
            frac = frac - 1_000_000_000;
            secs = secs + 1;
        }
        assert(-9_000_000_000_000_000_000_000 <= secs * 1_000_000_000
            <= 9_000_000_000_000_000_000_000) by (nonlinear_arith)
            requires
                MIN_TIMESTAMP_SECS <= secs <= MAX_TIMESTAMP_SECS + 1,
        ;
        let scaled: i128 = secs * 1_000_000_000;
        if scaled < i64::MIN as i128 || scaled > i64::MAX as i128 {
            return None;
        }
        let total: i128 = scaled + frac;
        if total < i64::MIN as i128 || total > i64::MAX as i128 {
            return None;
        }
        Some(total as i64)
    }

    /// The instant as RFC 3339 text with whole seconds and a `Z` suffix
    /// (`DateTime::to_rfc3339_opts(SecondsFormat::Secs, true)`).
    pub fn to_rfc3339_seconds(&self) -> (res: String)
        ensures
            res@ == rfc3339_seconds_text(self@.0, self@.1),
    {
        proof {
            use_type_invariant(self);
        }
        chrono_rfc3339_seconds(self.secs, self.nanos)
    }
}

/// What `chrono` writes for `DateTime::to_rfc3339_opts(SecondsFormat::Secs, true)` on the
/// instant `secs` seconds and `nanos` nanoseconds after the epoch.
pub uninterp spec fn rfc3339_seconds_text(secs: int, nanos: int) -> Seq<char>;

/// `chrono::DateTime::from_timestamp` followed by `to_rfc3339_opts(SecondsFormat::Secs, true)`.
/// Claimed: on a pair that `from_timestamp` accepts (so the `unwrap` does not panic) the text is
/// `rfc3339_seconds_text` of that pair, a function of the pair alone. The calendar arithmetic
/// and the layout of that text are left unsaid.
#[verifier::external_body]
fn chrono_rfc3339_seconds(secs: i64, nanos: u32) -> (res: String)
    requires
        valid_timestamp(secs as int, nanos as int),
    ensures
        res@ == rfc3339_seconds_text(secs as int, nanos as int),
{
    chrono::DateTime::from_timestamp(secs, nanos).unwrap().to_rfc3339_opts(
        chrono::SecondsFormat::Secs,
        true,
    )
}

/// The current instant: the system clock (`std::time::SystemTime::now`) converted by
/// `chrono`'s `From<SystemTime> for DateTime<Utc>`, which also handles a clock set before the
/// epoch (unlike `Utc::now`, which panics there). Claimed, as the source shows it: the
/// nanoseconds are below one second (the conversion takes them from a `Duration`, or one
/// second minus them before the epoch). Which instant it is depends on the clock and is left
/// unsaid. The conversion unwraps `Utc.timestamp_opt`, which only fails for a clock beyond
/// chrono's range of years, one that the system clock cannot be set to.
#[verifier::external_body]
pub(crate) fn utc_now() -> (now: UtcTimestamp)
    ensures
        now@.1 < 1_000_000_000,
{
    let now = chrono::DateTime::<chrono::Utc>::from(std::time::SystemTime::now());
    UtcTimestamp { secs: now.timestamp(), nanos: now.timestamp_subsec_nanos() }
}

} // verus!
