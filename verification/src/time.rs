use vstd::prelude::*;

verus! {

/// Nanoseconds in one second.
pub const NANOS_PER_SEC: u32 = 1_000_000_000;

/// The largest magnitude, in whole seconds, of a duration built from seconds
/// (`i64::MAX` milliseconds, rounded down to whole seconds).
pub const MAX_WHOLE_SECONDS: i64 = 9_223_372_036_854_775;

/// Seconds since the Unix epoch of the earliest representable instant
/// (January 1, 262144 BCE, 00:00:00 UTC).
pub const MIN_UTC_SECS: i64 = -8_334_601_228_800;

/// Seconds since the Unix epoch of the last whole second of the latest
/// representable instant (December 31, 262142 CE, 23:59:59.999999999 UTC).
pub const MAX_UTC_SECS: i64 = 8_210_266_876_799;

/// The largest magnitude of a duration, in nanoseconds: `i64::MAX` milliseconds.
pub open spec fn max_duration_nanos() -> int {
    9_223_372_036_854_775_807_000_000
}

/// The earliest representable instant, in nanoseconds since the Unix epoch.
pub open spec fn min_utc_nanos() -> int {
    MIN_UTC_SECS * 1_000_000_000
}

/// The latest representable instant, in nanoseconds since the Unix epoch.
pub open spec fn max_utc_nanos() -> int {
    MAX_UTC_SECS * 1_000_000_000 + 999_999_999
}

/// Whether an instant, counted in nanoseconds since the Unix epoch, is representable.
pub open spec fn in_utc_range(n: int) -> bool {
    min_utc_nanos() <= n <= max_utc_nanos()
}

/// Whether a length of time, in nanoseconds, is a representable duration.
pub open spec fn in_duration_range(n: int) -> bool {
    -max_duration_nanos() <= n <= max_duration_nanos()
}

/// A signed span of time with nanosecond precision, kept as whole seconds
/// (rounded down) and a nanosecond part in `[0, 1_000_000_000)`; its
/// magnitude never exceeds `i64::MAX` milliseconds.
#[derive(Debug, Clone, Copy, PartialEq, Eq, Structural)]
pub struct Duration {
    secs: i64,
    nanos: u32,
}

impl View for Duration {
    type V = int;

    /// The length of the span in nanoseconds.
    closed spec fn view(&self) -> int {
        self.secs * 1_000_000_000 + self.nanos
    }
}

impl Duration {
    #[verifier::type_invariant]
    closed spec fn inv(self) -> bool {
        &&& self.nanos < NANOS_PER_SEC
        &&& in_duration_range(self@)
    }

    /// A duration of `seconds` whole seconds.
    pub fn seconds(seconds: i64) -> (d: Duration)
        requires
            -MAX_WHOLE_SECONDS <= seconds <= MAX_WHOLE_SECONDS,
        ensures
            d@ == seconds * 1_000_000_000,
    {
        assert(-max_duration_nanos() <= seconds * 1_000_000_000 <= max_duration_nanos())
            by (nonlinear_arith)
            requires
                -MAX_WHOLE_SECONDS <= seconds <= MAX_WHOLE_SECONDS,
        ;
        Duration { secs: seconds, nanos: 0 }
    }

    /// A duration of `minutes` minutes.
    pub fn minutes(minutes: i64) -> (d: Duration)
        requires
            -MAX_WHOLE_SECONDS <= minutes * 60 <= MAX_WHOLE_SECONDS,
        ensures
            d@ == minutes * 60 * 1_000_000_000,
    {
        Duration::seconds(minutes * 60)
    }

    /// The duration of `secs` whole seconds plus `nanos` nanoseconds, or `None`
    /// when `nanos` is not below one second or the span is too long.
    pub fn new(secs: i64, nanos: u32) -> (r: Option<Duration>)
        ensures
            r is Some <==> (nanos < NANOS_PER_SEC && in_duration_range(
                secs * 1_000_000_000 + nanos,
            )),
            r matches Some(d) ==> d@ == secs * 1_000_000_000 + nanos && d.secs() == secs
                && d.nanos() == nanos,
    {
        if nanos >= NANOS_PER_SEC {
            return None;
        }
        assert(-9_223_372_036_854_775_808i128 * 1_000_000_000 <= secs * 1_000_000_000
            <= 9_223_372_036_854_775_807i128 * 1_000_000_000) by (nonlinear_arith)
            requires
                i64::MIN <= secs <= i64::MAX,
        ;
        let total: i128 = (secs as i128) * 1_000_000_000 + (nanos as i128);
        if total < -9_223_372_036_854_775_807_000_000i128 || total
            > 9_223_372_036_854_775_807_000_000i128 {
            return None;
        }
        Some(Duration { secs, nanos })
    }

    /// The duration of `secs` seconds plus `nanos` nanoseconds, where `nanos`
    /// may be negative (as in chrono's `num_seconds` and `subsec_nanos`, which
    /// round towards zero), or `None` when `nanos` is a second or more in
    /// magnitude or the span is too long.
    pub fn from_signed_parts(secs: i64, nanos: i32) -> (r: Option<Duration>)
        ensures
            r is Some <==> (-1_000_000_000 < nanos < 1_000_000_000 && in_duration_range(
                secs * 1_000_000_000 + nanos,
            )),
            r matches Some(d) ==> d@ == secs * 1_000_000_000 + nanos,
    {
        if nanos <= -1_000_000_000 || nanos >= 1_000_000_000 {
            return None;
        }
        assert(-9_223_372_036_854_775_808i128 * 1_000_000_000 <= secs * 1_000_000_000
            <= 9_223_372_036_854_775_807i128 * 1_000_000_000) by (nonlinear_arith)
            requires
                i64::MIN <= secs <= i64::MAX,
        ;
        let total: i128 = (secs as i128) * 1_000_000_000 + (nanos as i128);
        if total < -9_223_372_036_854_775_807_000_000i128 || total
            > 9_223_372_036_854_775_807_000_000i128 {
            return None;
        }
        if nanos < 0 {
            assert(secs > i64::MIN) by (nonlinear_arith)
                requires
                    total == secs * 1_000_000_000 + nanos,
                    total >= -9_223_372_036_854_775_807_000_000,
                    nanos < 0,
            ;
            Duration::new(secs - 1, (nanos + 1_000_000_000) as u32)
        } else {
            Duration::new(secs, nanos as u32)
        }
    }

    /// Whole seconds of the span, rounded down.
    pub closed spec fn secs(self) -> i64 {
        self.secs
    }

    /// Nanoseconds past the whole seconds, in `[0, 1_000_000_000)`.
    pub closed spec fn nanos(self) -> u32 {
        self.nanos
    }

    /// Whole seconds of the span, rounded down.
    pub fn whole_seconds(&self) -> (r: i64)
        ensures
            r == self.secs(),
            self@ == self.secs() * 1_000_000_000 + self.nanos(),
    {
        self.secs
    }

    /// Nanoseconds past the whole seconds, in `[0, 1_000_000_000)`.
    pub fn subsec_nanos(&self) -> (r: u32)
        ensures
            r == self.nanos(),
            r < NANOS_PER_SEC,
            self@ == self.secs() * 1_000_000_000 + self.nanos(),
    {
        proof {
            use_type_invariant(self);
        }
        self.nanos
    }
}

/// An instant in UTC with nanosecond precision, kept as whole seconds since
/// the Unix epoch and a nanosecond part below one second (no leap second);
/// it lies between January 1, 262144 BCE and December 31, 262142 CE.
#[derive(Debug, Clone, Copy, PartialEq, Eq, Structural)]
pub struct Timestamp {
    secs: i64,
    nanos: u32,
}

impl View for Timestamp {
    type V = int;

    /// Nanoseconds since the Unix epoch.
    closed spec fn view(&self) -> int {
        self.secs * 1_000_000_000 + self.nanos
    }
}

/// Reads the system clock through `chrono::Utc::now`, which builds the
/// instant with `DateTime::from_timestamp` from the seconds and the
/// sub-second nanoseconds (always below one second) elapsed since the Unix
/// epoch (it panics rather than return an instant before the epoch); the
/// parts are read back with `timestamp` and `timestamp_subsec_nanos`. The
/// instant is thus never before the epoch; which instant it is goes unsaid.
#[verifier::external_body]
fn utc_now() -> (t: Timestamp)
    ensures
        t@ >= 0,
{
    let now = chrono::Utc::now();
    Timestamp { secs: now.timestamp(), nanos: now.timestamp_subsec_nanos() }
}

/// Adds a duration to an instant with `chrono::DateTime::checked_add_signed`,
/// converting both ways through `DateTime::from_timestamp`, `TimeDelta::new`,
/// `timestamp` and `timestamp_subsec_nanos`. For an instant that is not a
/// leap second the sum is exact, and the call gives `None` precisely when
/// the sum falls outside the representable dates.
#[verifier::external_body]
fn chrono_checked_add(t: Timestamp, d: Duration) -> (r: Option<Timestamp>)
    ensures
        r is Some <==> in_utc_range(t@ + d@),
        r matches Some(s) ==> s@ == t@ + d@,
{
    let start = chrono::DateTime::from_timestamp(t.secs, t.nanos)?;
    let delta = chrono::TimeDelta::new(d.secs, d.nanos)?;
    let sum = start.checked_add_signed(delta)?;
    Some(Timestamp { secs: sum.timestamp(), nanos: sum.timestamp_subsec_nanos() })
}

impl Timestamp {
    #[verifier::type_invariant]
    closed spec fn inv(self) -> bool {
        &&& self.nanos < NANOS_PER_SEC
        &&& in_utc_range(self@)
    }

    /// Whole seconds since the Unix epoch, rounded down.
    pub closed spec fn secs(self) -> i64 {
        self.secs
    }

    /// Nanoseconds past the whole seconds, in `[0, 1_000_000_000)`.
    pub closed spec fn nanos(self) -> u32 {
        self.nanos
    }

    /// The current time, as the system clock reads it; never before the
    /// Unix epoch.
    ///
    /// Panics if the system clock reads before the Unix epoch.
    pub fn now() -> (t: Timestamp)
        ensures
            t@ >= 0,
    {
        utc_now()
    }

    /// The instant `secs` seconds and `nanos` nanoseconds after the Unix
    /// epoch, or `None` when `nanos` is not below one second or the instant
    /// is not representable.
    pub fn from_parts(secs: i64, nanos: u32) -> (r: Option<Timestamp>)
        ensures
            r is Some <==> (nanos < NANOS_PER_SEC && in_utc_range(secs * 1_000_000_000 + nanos)),
            r matches Some(t) ==> t@ == secs * 1_000_000_000 + nanos && t.secs() == secs
                && t.nanos() == nanos,
    {
        if nanos >= NANOS_PER_SEC {
            return None;
        }
        if secs < MIN_UTC_SECS || secs > MAX_UTC_SECS {
            assert(!in_utc_range(secs * 1_000_000_000 + nanos)) by (nonlinear_arith)
                requires
                    secs < MIN_UTC_SECS || secs > MAX_UTC_SECS,
                    nanos < 1_000_000_000,
            ;
            return None;
        }
        assert(in_utc_range(secs * 1_000_000_000 + nanos)) by (nonlinear_arith)
            requires
                MIN_UTC_SECS <= secs <= MAX_UTC_SECS,
                nanos < 1_000_000_000,
        ;
        Some(Timestamp { secs, nanos })
    }

    /// This instant moved by `d`, or `None` when the result is not representable.
    pub fn checked_add(&self, d: Duration) -> (r: Option<Timestamp>)
        ensures
            r is Some <==> in_utc_range(self@ + d@),
            r matches Some(s) ==> s@ == self@ + d@,
    {
        chrono_checked_add(*self, d)
    }

    /// Whether this instant comes strictly after `other`.
    pub fn is_after(&self, other: &Timestamp) -> (r: bool)
        ensures
            r == (self@ > other@),
    {
        proof {
            use_type_invariant(self);
            use_type_invariant(other);
        }
        if self.secs != other.secs {
            assert((self.secs > other.secs) == (self@ > other@)) by (nonlinear_arith)
                requires
                    self.secs != other.secs,
                    self.nanos < 1_000_000_000,
                    other.nanos < 1_000_000_000,
                    self@ == self.secs * 1_000_000_000 + self.nanos,
                    other@ == other.secs * 1_000_000_000 + other.nanos,
            ;
            self.secs > other.secs
        } else {
            self.nanos > other.nanos
        }
    }

    /// Whole seconds since the Unix epoch, rounded down.
    pub fn whole_seconds(&self) -> (r: i64)
        ensures
            r == self.secs(),
            self@ == self.secs() * 1_000_000_000 + self.nanos(),
    {
        self.secs
    }

    /// Nanoseconds past the whole seconds, in `[0, 1_000_000_000)`.
    pub fn subsec_nanos(&self) -> (r: u32)
        ensures
            r == self.nanos(),
            r < NANOS_PER_SEC,
            self@ == self.secs() * 1_000_000_000 + self.nanos(),
    {
        proof {
            use_type_invariant(self);
        }
        self.nanos
    }
}

} // verus!
