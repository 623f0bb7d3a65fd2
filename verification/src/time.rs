//! Instants in time, as seconds since the Unix epoch, and the calendar work
//! that is left to `chrono`.

use chrono::TimeZone;
use vstd::prelude::*;

verus! {

/// The first second of the year 0, in seconds since the Unix epoch.
pub const MIN_SECONDS: i64 = -62_167_219_200;

/// The last second of the year 9999, in seconds since the Unix epoch.
pub const MAX_SECONDS: i64 = 253_402_300_799;

/// The seconds between the Unix epoch and the given date and time of day in
/// UTC, on the proleptic Gregorian calendar; `None` where no such day or time
/// of day exists.
pub uninterp spec fn unix_seconds(
    year: int,
    month: int,
    day: int,
    hour: int,
    minute: int,
    second: int,
) -> Option<int>;

/// The instant `seconds` after the Unix epoch, written as RFC 2822 asks, in
/// UTC.
pub uninterp spec fn rfc2822_text(seconds: int) -> Seq<char>;

/// Calls `TimeZone::with_ymd_and_hms` on `Utc` and reads the timestamp of the
/// date-time that it gives; `None` where it gives none.
#[verifier::external_body]
fn civil_to_unix(year: i32, month: u32, day: u32, hour: u32, minute: u32, second: u32) -> (r:
    Option<i64>)
    ensures
        match (r, unix_seconds(
            year as int,
            month as int,
            day as int,
            hour as int,
            minute as int,
            second as int,
        )) {
            (Some(a), Some(b)) => a == b,
            (None, None) => true,
            _ => false,
        },
{
    chrono::Utc.with_ymd_and_hms(year, month, day, hour, minute, second).single().map(
        |t| t.timestamp(),
    )
}

/// Calls `DateTime::to_rfc2822` on the instant `seconds` after the epoch.
/// Between the years 0 and 9999 `chrono` has such an instant and can write it.
#[verifier::external_body]
fn format_rfc2822(seconds: i64) -> (r: String)
    requires
        MIN_SECONDS <= seconds <= MAX_SECONDS,
    ensures
        r@ == rfc2822_text(seconds as int),
{
    chrono::DateTime::from_timestamp(seconds, 0).map(|t| t.to_rfc2822()).unwrap_or_default()
}

/// Reads the current year from the system clock with `Utc::now`. Nothing is
/// claimed of it.
#[verifier::external_body]
pub(crate) fn current_year() -> i32 {
    chrono::Datelike::year(&chrono::Utc::now())
}

/// Why a text or a number is not a date.
#[derive(Clone, Copy, Debug, PartialEq, Eq, Structural)]
pub enum DateErrorKind {
    /// A field holds a value that it cannot have, such as hour 13 before `pm`.
    OutOfRange,
    /// The fields are each in range and the calendar has no such instant, or
    /// none between the years 0 and 9999.
    Impossible,
    /// The text has none of the shapes that are read.
    Invalid,
    /// The text is not a number of seconds.
    BadFormat,
}

/// An instant between the first second of the year 0 and the last second of
/// the year 9999, the span that the feed's date format can write.
#[derive(Clone, Copy, Debug, PartialEq, Eq, Structural)]
pub struct Timestamp {
    seconds: i64,
}

impl View for Timestamp {
    type V = int;

    closed spec fn view(&self) -> int {
        self.seconds as int
    }
}

impl Timestamp {
    #[verifier::type_invariant]
    spec fn in_range(self) -> bool {
        MIN_SECONDS <= self.seconds <= MAX_SECONDS
    }

    /// Whether an instant `seconds` after the epoch can be held.
    pub open spec fn holds(seconds: int) -> bool {
        MIN_SECONDS <= seconds <= MAX_SECONDS
    }

    /// The instant `seconds` after the Unix epoch, if it lies within the
    /// years 0 to 9999.
    pub fn from_unix(seconds: i64) -> (r: Option<Timestamp>)
        ensures
            Self::holds(seconds as int) <==> r is Some,
            r matches Some(t) ==> t@ == seconds,
    {
        if MIN_SECONDS <= seconds && seconds <= MAX_SECONDS {
            Some(Timestamp { seconds })
        } else {
            None
        }
    }

    /// The instant of the given date and time of day in UTC: `None` where
    /// the calendar has no such day or time, or the year is outside 0 to 9999.
    pub fn from_civil(year: i32, month: u32, day: u32, hour: u32, minute: u32) -> (r: Option<
        Timestamp,
    >)
        ensures
            seconds_of(r) == civil_instant(
                year as int,
                month as int,
                day as int,
                hour as int,
                minute as int,
            ),
    {
        match civil_to_unix(year, month, day, hour, minute, 0) {
            Some(seconds) => Self::from_unix(seconds),
            None => None,
        }
    }

    /// Seconds since the Unix epoch.
    pub fn unix(&self) -> (seconds: i64)
        ensures
            seconds == self@,
            Self::holds(self@),
    {
        proof {
            use_type_invariant(self);
        }
        self.seconds
    }

    /// The instant as RFC 2822 writes it.
    pub fn to_rfc2822(&self) -> (text: String)
        ensures
            text@ == rfc2822_text(self@),
    {
        proof {
            use_type_invariant(self);
        }
        format_rfc2822(self.seconds)
    }
}

/// An optional instant by the seconds it holds.
pub open spec fn seconds_of(t: Option<Timestamp>) -> Option<int> {
    match t {
        Some(t) => Some(t@),
        None => None,
    }
}

/// The instant of a date and time of day in UTC, at second 0, where the
/// calendar has it and it falls within the years 0 to 9999.
pub open spec fn civil_instant(year: int, month: int, day: int, hour: int, minute: int) -> Option<
    int,
> {
    match unix_seconds(year, month, day, hour, minute, 0) {
        Some(seconds) => if Timestamp::holds(seconds) {
            Some(seconds)
        } else {
            None
        },
        None => None,
    }
}

/// Whether the three letters `s` are the given ones, in either case.
pub open spec fn spells(
    s: Seq<char>,
    lower0: char,
    upper0: char,
    lower1: char,
    upper1: char,
    lower2: char,
    upper2: char,
) -> bool {
    &&& s.len() == 3
    &&& (s[0] == lower0 || s[0] == upper0)
    &&& (s[1] == lower1 || s[1] == upper1)
    &&& (s[2] == lower2 || s[2] == upper2)
}

/// The month, from 1, that the three-letter English abbreviation `s` names,
/// in either case.
pub open spec fn month_number(s: Seq<char>) -> Option<nat> {
    if spells(s, 'j', 'J', 'a', 'A', 'n', 'N') {
        Some(1)
    } else if spells(s, 'f', 'F', 'e', 'E', 'b', 'B') {
        Some(2)
    } else if spells(s, 'm', 'M', 'a', 'A', 'r', 'R') {
        Some(3)
    } else if spells(s, 'a', 'A', 'p', 'P', 'r', 'R') {
        Some(4)
    } else if spells(s, 'm', 'M', 'a', 'A', 'y', 'Y') {
        Some(5)
    } else if spells(s, 'j', 'J', 'u', 'U', 'n', 'N') {
        Some(6)
    } else if spells(s, 'j', 'J', 'u', 'U', 'l', 'L') {
        Some(7)
    } else if spells(s, 'a', 'A', 'u', 'U', 'g', 'G') {
        Some(8)
    } else if spells(s, 's', 'S', 'e', 'E', 'p', 'P') {
        Some(9)
    } else if spells(s, 'o', 'O', 'c', 'C', 't', 'T') {
        Some(10)
    } else if spells(s, 'n', 'N', 'o', 'O', 'v', 'V') {
        Some(11)
    } else if spells(s, 'd', 'D', 'e', 'E', 'c', 'C') {
        Some(12)
    } else {
        None
    }
}

fn spells_at(
    v: &Vec<char>,
    from: usize,
    lower0: char,
    upper0: char,
    lower1: char,
    upper1: char,
    lower2: char,
    upper2: char,
) -> (b: bool)
    requires
        from + 3 <= v.len(),
    ensures
        b == spells(
            v@.subrange(from as int, from + 3),
            lower0,
            upper0,
            lower1,
            upper1,
            lower2,
            upper2,
        ),
{
    (v[from] == lower0 || v[from] == upper0) && (v[from + 1] == lower1 || v[from + 1] == upper1)
        && (v[from + 2] == lower2 || v[from + 2] == upper2)
}

/// Reads `v[from..from + n]` as the abbreviation of a month.
pub(crate) fn read_month(v: &Vec<char>, from: usize, n: usize) -> (r: Option<u32>)
    requires
        from + n <= v.len(),
    ensures
        match (r, month_number(v@.subrange(from as int, from + n))) {
            (Some(a), Some(b)) => a == b && 1 <= a <= 12,
            (None, None) => true,
            _ => false,
        },
{
    if n != 3 {
        return None;
    }
    if spells_at(v, from, 'j', 'J', 'a', 'A', 'n', 'N') {
        Some(1)
    } else if spells_at(v, from, 'f', 'F', 'e', 'E', 'b', 'B') {
        Some(2)
    } else if spells_at(v, from, 'm', 'M', 'a', 'A', 'r', 'R') {
        Some(3)
    } else if spells_at(v, from, 'a', 'A', 'p', 'P', 'r', 'R') {
        Some(4)
    } else if spells_at(v, from, 'm', 'M', 'a', 'A', 'y', 'Y') {
        Some(5)
    } else if spells_at(v, from, 'j', 'J', 'u', 'U', 'n', 'N') {
        Some(6)
    } else if spells_at(v, from, 'j', 'J', 'u', 'U', 'l', 'L') {
        Some(7)
    } else if spells_at(v, from, 'a', 'A', 'u', 'U', 'g', 'G') {
        Some(8)
    } else if spells_at(v, from, 's', 'S', 'e', 'E', 'p', 'P') {
        Some(9)
    } else if spells_at(v, from, 'o', 'O', 'c', 'C', 't', 'T') {
        Some(10)
    } else if spells_at(v, from, 'n', 'N', 'o', 'O', 'v', 'V') {
        Some(11)
    } else if spells_at(v, from, 'd', 'D', 'e', 'E', 'c', 'C') {
        Some(12)
    } else {
        None
    }
}

/// The instant of a date and time of day, or why there is none: the
/// calendar does not have the day, or the year is outside 0 to 9999.
pub open spec fn instant_or_impossible(
    year: int,
    month: int,
    day: int,
    hour: int,
    minute: int,
) -> Result<int, DateErrorKind> {
    match civil_instant(year, month, day, hour, minute) {
        Some(seconds) => Ok(seconds),
        None => Err(DateErrorKind::Impossible),
    }
}

/// An instant, or the reason for none, by the seconds it holds.
pub open spec fn seconds_or(r: Result<Timestamp, DateErrorKind>) -> Result<int, DateErrorKind> {
    match r {
        Ok(t) => Ok(t@),
        Err(kind) => Err(kind),
    }
}

impl Timestamp {
    /// The instant of the given date and time of day in UTC, or
    /// `Impossible`.
    pub fn from_civil_or(year: i32, month: u32, day: u32, hour: u32, minute: u32) -> (r: Result<
        Timestamp,
        DateErrorKind,
    >)
        ensures
            seconds_or(r) == instant_or_impossible(
                year as int,
                month as int,
                day as int,
                hour as int,
                minute as int,
            ),
    {
        match Self::from_civil(year, month, day, hour, minute) {
            Some(t) => Ok(t),
            None => Err(DateErrorKind::Impossible),
        }
    }
}

} // verus!
