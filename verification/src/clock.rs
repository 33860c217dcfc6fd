//! Instants and spans of time, as whole nanoseconds.
use vstd::prelude::*;

verus! {

/// An instant, as nanoseconds since 1970-01-01T00:00:00Z
/// (`OffsetDateTime::unix_timestamp_nanos`).
#[derive(Clone, Copy, Debug, PartialEq, Eq, Hash, Structural)]
pub struct Timestamp {
    pub unix_nanos: i128,
}

/// A signed span of time, as nanoseconds (`time::Duration::whole_nanoseconds`).
#[derive(Clone, Copy, Debug, PartialEq, Eq, Hash, Structural)]
pub struct Span {
    pub nanos: i128,
}

pub const NANOS_PER_SECOND: i128 = 1_000_000_000;

/// The first instant `time::OffsetDateTime` holds in UTC: -9999-01-01
/// 00:00:00 (`Date::MIN` at midnight), as nanoseconds since the epoch.
pub const MIN_UNIX_NANOS: i128 = -377_705_116_800_000_000_000;

/// The last instant `time::OffsetDateTime` holds in UTC: 9999-12-31
/// 23:59:59.999999999 (`Date::MAX` at `Time::MAX`), as nanoseconds since
/// the epoch.
pub const MAX_UNIX_NANOS: i128 = 253_402_300_799_999_999_999;

impl Timestamp {
    /// Whether `self` comes strictly before `other`; instants are ordered
    /// by the moment they name, whatever offset they were written in.
    pub open spec fn spec_before(self, other: Timestamp) -> bool {
        self.unix_nanos < other.unix_nanos
    }

    pub fn before(&self, other: &Timestamp) -> (b: bool)
        ensures
            b == self.spec_before(*other),
    {
        self.unix_nanos < other.unix_nanos
    }

    /// The instant `span` after `self`.
    pub open spec fn spec_after(self, span: Span) -> Timestamp {
        Timestamp { unix_nanos: (self.unix_nanos + span.nanos) as i128 }
    }

    /// Whether `self` moved by `span` stays within what `i128` holds.
    pub open spec fn can_add(self, span: Span) -> bool {
        i128::MIN <= self.unix_nanos + span.nanos <= i128::MAX
    }

    /// Whether `self` moved by `span` is still an instant
    /// `time::OffsetDateTime` holds; adding the span to a date-time panics
    /// ("resulting value is out of range") where it is not.
    pub open spec fn can_add_within_dates(self, span: Span) -> bool {
        MIN_UNIX_NANOS <= self.unix_nanos + span.nanos <= MAX_UNIX_NANOS
    }

    /// Whether `self` moved by `span` is still an instant
    /// `time::OffsetDateTime` holds.
    pub fn adds_within_dates(&self, span: Span) -> (b: bool)
        ensures
            b == self.can_add_within_dates(span),
    {
        match self.unix_nanos.checked_add(span.nanos) {
            Some(t) => MIN_UNIX_NANOS <= t && t <= MAX_UNIX_NANOS,
            None => false,
        }
    }

    pub fn after(&self, span: Span) -> (t: Timestamp)
        requires
            self.can_add(span),
        ensures
            t == self.spec_after(span),
            t.unix_nanos == self.unix_nanos + span.nanos,
    {
        Timestamp { unix_nanos: self.unix_nanos + span.nanos }
    }

    /// Whole seconds since the epoch, rounded down
    /// (`OffsetDateTime::unix_timestamp`).
    pub open spec fn spec_unix_seconds(self) -> int {
        self.unix_nanos as int / NANOS_PER_SECOND as int
    }

    /// Whether the whole seconds of `self` fit an `i64`.
    pub open spec fn seconds_fit_i64(self) -> bool {
        i64::MIN <= self.spec_unix_seconds() <= i64::MAX
    }

    /// Whether the whole seconds of `self` fit an `i64`.
    pub fn seconds_fit(&self) -> (b: bool)
        ensures
            b == self.seconds_fit_i64(),
    {
        let q = self.unix_nanos / NANOS_PER_SECOND;
        let r = self.unix_nanos % NANOS_PER_SECOND;
        let f = if r < 0 {
            q - 1
        } else {
            q
        };
        proof {
            let n = self.unix_nanos as int;
            let d = NANOS_PER_SECOND as int;
            if r < 0 {
                vstd::arithmetic::div_mod::lemma_fundamental_div_mod_converse(
                    n,
                    d,
                    q as int - 1,
                    r as int + d,
                );
            } else {
                vstd::arithmetic::div_mod::lemma_fundamental_div_mod_converse(n, d, q as int, r as int);
            }
        }
        i64::MIN as i128 <= f && f <= i64::MAX as i128
    }

    pub fn unix_seconds(&self) -> (s: i64)
        requires
            self.seconds_fit_i64(),
        ensures
            s == self.spec_unix_seconds(),
    {
        let q = self.unix_nanos / NANOS_PER_SECOND;
        let r = self.unix_nanos % NANOS_PER_SECOND;
        let f = if r < 0 {
            q - 1
        } else {
            q
        };
        proof {
            let n = self.unix_nanos as int;
            let d = NANOS_PER_SECOND as int;
            assert(n == d * (q as int) + r as int);
            if r < 0 {
                assert(n == d * (q as int - 1) + (r as int + d));
                vstd::arithmetic::div_mod::lemma_fundamental_div_mod_converse(
                    n,
                    d,
                    q as int - 1,
                    r as int + d,
                );
            } else {
                vstd::arithmetic::div_mod::lemma_fundamental_div_mod_converse(
                    n,
                    d,
                    q as int,
                    r as int,
                );
            }
        }
        f as i64
    }

    /// The instant `seconds` whole seconds after the epoch.
    pub open spec fn spec_from_unix_seconds(seconds: i64) -> Timestamp {
        Timestamp { unix_nanos: (seconds * NANOS_PER_SECOND) as i128 }
    }

    pub fn from_unix_seconds(seconds: i64) -> (t: Timestamp)
        ensures
            t == Self::spec_from_unix_seconds(seconds),
            t.unix_nanos == seconds * NANOS_PER_SECOND,
    {
        assert(-10_000_000_000_000_000_000_000_000_000int <= (seconds as int) * 1_000_000_000int
            <= 10_000_000_000_000_000_000_000_000_000int) by (nonlinear_arith)
            requires
                i64::MIN <= seconds <= i64::MAX,
        ;
        Timestamp { unix_nanos: (seconds as i128) * NANOS_PER_SECOND }
    }
}

/// A time of day (`time::Time`), as its clock fields.
#[derive(Clone, Copy, Debug, PartialEq, Eq, Hash, Structural)]
pub struct TimeOfDay {
    pub hour: u8,
    pub minute: u8,
    pub second: u8,
    pub nanosecond: u32,
}

/// Calls `time::OffsetDateTime::now_utc`: the current instant, of which only
/// this is known, that its whole seconds fit an `i64`.
#[verifier::external_body]
pub(crate) fn now_utc() -> (t: Timestamp)
    ensures
        t.seconds_fit_i64(),
{
    Timestamp { unix_nanos: time::OffsetDateTime::now_utc().unix_timestamp_nanos() }
}

/// Whether the instant `seconds` after the Unix epoch lies within the dates
/// `time::Date` represents without its `large-dates` feature: from
/// -9999-01-01 00:00:00 to 9999-12-31 23:59:59 UTC.
pub open spec fn unix_timestamp_in_range(seconds: i64) -> bool {
    -377_705_116_800 <= seconds <= 253_402_300_799
}

/// Calls `time::OffsetDateTime::from_unix_timestamp` and tells whether it
/// succeeded: it accepts exactly the timestamps between those of `Date::MIN`
/// at midnight and `Date::MAX` at `Time::MAX`, in UTC.
#[verifier::external_body]
pub(crate) fn unix_timestamp_representable(seconds: i64) -> (b: bool)
    ensures
        b == unix_timestamp_in_range(seconds),
{
    time::OffsetDateTime::from_unix_timestamp(seconds).is_ok()
}

} // verus!
