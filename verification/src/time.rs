//! Points in time, and the calendar readings the renderer takes of them.
//!
//! A `Timestamp` is modelled as an integer: the nanoseconds that have passed since
//! 1970-01-01 00:00:00 UTC, leap seconds not counted. The calendar itself (day of month,
//! weekday, month) is left to `chrono`; this module only says what is taken from it.

use vstd::prelude::*;

verus! {

/// Nanoseconds in one second.
pub const NANOS_PER_SECOND: i64 = 1_000_000_000;

/// Seconds in one day.
pub const SECONDS_PER_DAY: i64 = 86_400;

/// Unix seconds of the first representable instant, -262143-01-01 00:00:00 UTC.
pub const MIN_UNIX_SECONDS: i64 = -8_334_601_228_800;

/// Unix seconds of the last representable second, 262142-12-31 23:59:59 UTC.
pub const MAX_UNIX_SECONDS: i64 = 8_210_266_876_799;

/// The instants a `Timestamp` can hold, as nanoseconds since the epoch.
pub open spec fn is_instant(t: int) -> bool {
    MIN_UNIX_SECONDS * NANOS_PER_SECOND <= t < (MAX_UNIX_SECONDS + 1) * NANOS_PER_SECOND
}

/// Whole Unix seconds of an instant, rounded towards the past.
pub open spec fn unix_seconds(t: int) -> int {
    t / (NANOS_PER_SECOND as int)
}

/// Nanoseconds since the last whole second.
pub open spec fn subsec_nanos(t: int) -> int {
    t % (NANOS_PER_SECOND as int)
}

/// A span of nanoseconds in whole seconds, rounded towards zero.
pub open spec fn whole_seconds(span: int) -> int {
    if span >= 0 {
        span / (NANOS_PER_SECOND as int)
    } else {
        -((-span) / (NANOS_PER_SECOND as int))
    }
}

/// Whole seconds between two instants, without sign.
pub open spec fn seconds_apart(a: int, b: int) -> int {
    if whole_seconds(a - b) >= 0 {
        whole_seconds(a - b)
    } else {
        -whole_seconds(a - b)
    }
}

/// Seconds since the last UTC midnight.
pub open spec fn second_of_day(t: int) -> int {
    unix_seconds(t) % (SECONDS_PER_DAY as int)
}

/// Hour of the UTC day, 0 to 23.
pub open spec fn hour_of_day(t: int) -> int {
    second_of_day(t) / 3600
}

/// Minute of the UTC hour, 0 to 59.
pub open spec fn minute_of_hour(t: int) -> int {
    second_of_day(t) / 60 % 60
}

/// The decimal digit for `d` in 0..=9.
pub open spec fn digit(d: int) -> char {
    if d == 0 {
        '0'
    } else if d == 1 {
        '1'
    } else if d == 2 {
        '2'
    } else if d == 3 {
        '3'
    } else if d == 4 {
        '4'
    } else if d == 5 {
        '5'
    } else if d == 6 {
        '6'
    } else if d == 7 {
        '7'
    } else if d == 8 {
        '8'
    } else {
        '9'
    }
}

/// `n` in 0..=99 as two decimal digits, zero-padded.
pub open spec fn two_digits(n: int) -> Seq<char> {
    seq![digit(n / 10), digit(n % 10)]
}

/// The time of day of an instant as `HH:MM`, in UTC.
pub open spec fn clock_text(t: int) -> Seq<char> {
    two_digits(hour_of_day(t)) + seq![':'] + two_digits(minute_of_hour(t))
}

/// The clock reads as two digits, a colon and two digits: an hour below 24 and a minute
/// below 60.
pub proof fn lemma_clock_text_is_hh_mm(t: int)
    ensures
        0 <= hour_of_day(t) < 24,
        0 <= minute_of_hour(t) < 60,
        clock_text(t) == seq![
            digit(hour_of_day(t) / 10),
            digit(hour_of_day(t) % 10),
            ':',
            digit(minute_of_hour(t) / 10),
            digit(minute_of_hour(t) % 10),
        ],
{
}

/// Two instants are as far apart in one direction as in the other.
pub proof fn lemma_seconds_apart_is_symmetric(a: int, b: int)
    ensures
        seconds_apart(a, b) == seconds_apart(b, a),
        seconds_apart(a, b) >= 0,
        seconds_apart(a, a) == 0,
{
}

/// Day of the month of an instant in UTC, as `chrono` reads the calendar: what
/// `Datelike::day` returns.
pub uninterp spec fn utc_day_of_month(t: int) -> int;

/// Full English weekday name of an instant in UTC: what `chrono` prints for `"%A"`.
pub uninterp spec fn utc_weekday_name(t: int) -> Seq<char>;

/// Weekday, day and month of an instant in UTC, as in "Monday, 15 January": what `chrono`
/// prints for `"%A, %d %B"`.
pub uninterp spec fn utc_long_date(t: int) -> Seq<char>;

/// A point in time with nanosecond precision, within the years -262143 to 262142.
#[derive(Clone, Copy, Debug)]
pub struct Timestamp {
    secs: i64,
    nanos: u32,
}

impl View for Timestamp {
    type V = int;

    closed spec fn view(&self) -> int {
        self.secs * NANOS_PER_SECOND + self.nanos
    }
}

impl Timestamp {
    #[verifier::type_invariant]
    closed spec fn in_range(self) -> bool {
        &&& MIN_UNIX_SECONDS <= self.secs <= MAX_UNIX_SECONDS
        &&& self.nanos < NANOS_PER_SECOND
    }

    /// The instant `nanos` nanoseconds after the Unix second `secs`; `None` when that is
    /// outside the representable years or `nanos` is not below one second.
    pub fn new(secs: i64, nanos: u32) -> (made: Option<Timestamp>)
        ensures
            made is Some <==> MIN_UNIX_SECONDS <= secs <= MAX_UNIX_SECONDS && nanos
                < NANOS_PER_SECOND,
            made matches Some(t) ==> t@ == secs * NANOS_PER_SECOND + nanos && is_instant(t@),
    {
        if MIN_UNIX_SECONDS <= secs && secs <= MAX_UNIX_SECONDS && nanos < 1_000_000_000 {
            Some(Timestamp { secs, nanos })
        } else {
            None
        }
    }

    /// Whole Unix seconds, rounded towards the past.
    pub fn unix_seconds(&self) -> (secs: i64)
        ensures
            secs == unix_seconds(self@),
            is_instant(self@),
    {
        proof {
            use_type_invariant(self);
        }
        self.secs
    }

    /// Nanoseconds since the last whole second.
    pub fn subsec_nanos(&self) -> (nanos: u32)
        ensures
            nanos == subsec_nanos(self@),
            nanos < NANOS_PER_SECOND,
    {
        proof {
            use_type_invariant(self);
        }
        self.nanos
    }

    /// The current time, by `chrono::Utc::now`, taken apart by `DateTime::timestamp` and
    /// `DateTime::timestamp_subsec_nanos`.
    ///
    /// Trusted: which instant comes back depends on the system clock, so the contract says
    /// only that it is one a `Timestamp` can hold. `Utc::now` builds its result from whole
    /// seconds since 1970 and less than a second of nanoseconds, and does not return at all
    /// on a clock set before 1970 or past the year 262142.
    #[verifier::external_body]
    pub(crate) fn now() -> (t: Timestamp)
        ensures
            is_instant(t@),
    {
        let clock = chrono::Utc::now();
        Timestamp { secs: clock.timestamp(), nanos: clock.timestamp_subsec_nanos() }
    }

    /// `self - earlier` in whole seconds, by `chrono`'s subtraction of one `DateTime<Utc>`
    /// from another and `TimeDelta::num_seconds` of the difference.
    ///
    /// Trusted: the subtraction is exact to the nanosecond and stays within `TimeDelta` for
    /// any two instants of the representable years; `num_seconds` drops the fraction of a
    /// second towards zero. Every `Timestamp` is one that `DateTime::from_timestamp` accepts.
    #[verifier::external_body]
    pub(crate) fn seconds_since(&self, earlier: &Timestamp) -> (secs: i64)
        ensures
            secs == whole_seconds(self@ - earlier@),
    {
        let end = chrono::DateTime::from_timestamp(self.secs, self.nanos).unwrap_or_default();
        let start =
            chrono::DateTime::from_timestamp(earlier.secs, earlier.nanos).unwrap_or_default();
        (end - start).num_seconds()
    }

    /// Day of the month in UTC, by `chrono::Datelike::day` of a `DateTime<Utc>`.
    ///
    /// Trusted: the day is a function of the instant alone, named `utc_day_of_month`, and
    /// lies between 1 and 31. Every `Timestamp` is one that `DateTime::from_timestamp`
    /// accepts.
    #[verifier::external_body]
    pub(crate) fn day(&self) -> (day: u32)
        ensures
            day == utc_day_of_month(self@),
            1 <= day <= 31,
    {
        let at = chrono::DateTime::from_timestamp(self.secs, self.nanos).unwrap_or_default();
        chrono::Datelike::day(&at)
    }

    /// Time of day in UTC as `HH:MM`, by `chrono`'s `DateTime::format` with `"%H:%M"`.
    ///
    /// Trusted: `%H` prints the hour and `%M` the minute, each as two digits with a leading
    /// zero. `chrono` takes both from the seconds since midnight, which for a `DateTime<Utc>`
    /// are the Unix seconds modulo 86400. Every `Timestamp` is one that
    /// `DateTime::from_timestamp` accepts.
    #[verifier::external_body]
    pub(crate) fn hour_minute(&self) -> (text: String)
        ensures
            text@ == clock_text(self@),
    {
        let at = chrono::DateTime::from_timestamp(self.secs, self.nanos).unwrap_or_default();
        at.format("%H:%M").to_string()
    }

    /// Full weekday name in UTC, by `chrono`'s `DateTime::format` with `"%A"`.
    ///
    /// Trusted: the name is a function of the instant alone, named `utc_weekday_name`;
    /// `chrono` is built without locales and prints the English names. Every `Timestamp` is
    /// one that `DateTime::from_timestamp` accepts.
    #[verifier::external_body]
    pub(crate) fn weekday_name(&self) -> (text: String)
        ensures
            text@ == utc_weekday_name(self@),
    {
        let at = chrono::DateTime::from_timestamp(self.secs, self.nanos).unwrap_or_default();
        at.format("%A").to_string()
    }

    /// Weekday, day and month in UTC, by `chrono`'s `DateTime::format` with `"%A, %d %B"`.
    ///
    /// Trusted: the text is a function of the instant alone, named `utc_long_date`; `chrono`
    /// is built without locales and prints the English names. Every `Timestamp` is one that
    /// `DateTime::from_timestamp` accepts.
    #[verifier::external_body]
    pub(crate) fn long_date(&self) -> (text: String)
        ensures
            text@ == utc_long_date(self@),
    {
        let at = chrono::DateTime::from_timestamp(self.secs, self.nanos).unwrap_or_default();
        at.format("%A, %d %B").to_string()
    }

    /// Whole seconds between `self` and `other`, without sign.
    pub fn seconds_apart(&self, other: &Timestamp) -> (secs: i64)
        ensures
            secs == seconds_apart(self@, other@),
            secs >= 0,
    {
        proof {
            use_type_invariant(self);
            use_type_invariant(other);
        }
        let signed: i64 = self.seconds_since(other);
        if signed < 0 {
            -signed
        } else {
            signed
        }
    }
}

} // verus!
