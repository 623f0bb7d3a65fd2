//! The dates of 1337x listings. Three shapes are read, the longest first:
//!
//! - `Jul. 18th '20`: a day of the year 2000 + 20, at 09:00;
//! - `9pm Mar. 21st`: an hour of a day of the current year;
//! - `9:30am`: a time of day, given on the day of the Unix epoch.
//!
//! Months are three-letter English abbreviations in either case, hours go
//! by the twelve-hour clock, and every number has one or two digits. In the
//! third shape white space may stand before the hour and before the
//! minute.

use crate::text::{
    chars_of, count_digits, count_letters, count_lower, count_spaces, digits_value,
    leading_digits, leading_letters, leading_lower, leading_spaces, lemma_digits_counted,
    lemma_letters_counted, lemma_lower_counted, lemma_run_of_digits, lemma_spaces_counted,
    read_small, small_number,
};
use crate::time::{
    current_year, instant_or_impossible, month_number, read_month, seconds_or, DateErrorKind,
    Timestamp,
};
use vstd::prelude::*;

verus! {

/// The fields of `Jul. 18th '20`.
pub struct WithYear {
    pub month: Seq<char>,
    pub day: Seq<char>,
    pub year: Seq<char>,
}

/// The fields of `9pm Mar. 21st`.
pub struct SameYear {
    pub hour: Seq<char>,
    pub afternoon: bool,
    pub month: Seq<char>,
    pub day: Seq<char>,
}

/// The fields of `9:30am`.
pub struct BareTime {
    pub hour: Seq<char>,
    pub minute: Seq<char>,
    pub afternoon: bool,
}

/// `s` from `at` to `at + n`.
pub open spec fn part(s: Seq<char>, at: int, n: nat) -> Seq<char> {
    s.subrange(at, at + n)
}

/// The fields of `s` where it is letters, `.`, white space, digits, letters,
/// white space, `'` and digits to the end.
pub open spec fn with_year_shape(s: Seq<char>) -> Option<WithYear> {
    let month = leading_letters(s);
    let dot = month as int;
    let gap1 = leading_spaces(s.skip(dot + 1));
    let day_at = dot + 1 + gap1;
    let day = leading_digits(s.skip(day_at));
    let ordinal_at = day_at + day;
    let ordinal = leading_letters(s.skip(ordinal_at));
    let gap2_at = ordinal_at + ordinal;
    let gap2 = leading_spaces(s.skip(gap2_at));
    let tick = gap2_at + gap2;
    let year = leading_digits(s.skip(tick + 1));
    if month > 0 && dot < s.len() && s[dot] == '.' && gap1 > 0 && day > 0 && ordinal > 0 && gap2
        > 0 && tick < s.len() && s[tick] == '\'' && year > 0 && tick + 1 + year == s.len() {
        Some(
            WithYear {
                month: part(s, 0, month),
                day: part(s, day_at, day),
                year: part(s, tick + 1, year),
            },
        )
    } else {
        None
    }
}

/// The fields of `s` where it is digits, `am` or `pm`, white space, letters,
/// `.`, white space, digits and lower-case letters to the end.
pub open spec fn same_year_shape(s: Seq<char>) -> Option<SameYear> {
    let hour = leading_digits(s);
    let half = hour as int;
    let gap1 = leading_spaces(s.skip(half + 2));
    let month_at = half + 2 + gap1;
    let month = leading_letters(s.skip(month_at));
    let dot = month_at + month;
    let gap2 = leading_spaces(s.skip(dot + 1));
    let day_at = dot + 1 + gap2;
    let day = leading_digits(s.skip(day_at));
    let ordinal_at = day_at + day;
    let ordinal = leading_lower(s.skip(ordinal_at));
    if hour > 0 && half + 2 <= s.len() && (s[half] == 'a' || s[half] == 'p') && s[half + 1] == 'm'
        && gap1 > 0 && month > 0 && dot < s.len() && s[dot] == '.' && gap2 > 0 && day > 0
        && ordinal > 0 && ordinal_at + ordinal == s.len() {
        Some(
            SameYear {
                hour: part(s, 0, hour),
                afternoon: s[half] == 'p',
                month: part(s, month_at, month),
                day: part(s, day_at, day),
            },
        )
    } else {
        None
    }
}

/// The fields of `s` where it is digits, `:`, digits and `am` or `pm`, in
/// either case, to the end, with any white space before each run of digits.
pub open spec fn bare_time_shape(s: Seq<char>) -> Option<BareTime> {
    let hour_at = leading_spaces(s) as int;
    let hour = leading_digits(s.skip(hour_at));
    let colon = hour_at + hour;
    let minute_at = colon + 1 + leading_spaces(s.skip(colon + 1));
    let minute = leading_digits(s.skip(minute_at));
    let half = minute_at + minute;
    if hour > 0 && colon < s.len() && s[colon] == ':' && minute > 0 && half + 2 == s.len() && (
    s[half] == 'a' || s[half] == 'A' || s[half] == 'p' || s[half] == 'P') && (s[half + 1] == 'm'
        || s[half + 1] == 'M') {
        Some(
            BareTime {
                hour: part(s, hour_at, hour),
                minute: part(s, minute_at, minute),
                afternoon: s[half] == 'p' || s[half] == 'P',
            },
        )
    } else {
        None
    }
}

/// The hour of the day of an hour of the twelve-hour clock: 12 before noon
/// is 0, 12 after noon is 12.
pub open spec fn hour_of_day(hour: nat, afternoon: bool) -> int {
    if afternoon {
        (hour % 12 + 12) as int
    } else {
        (hour % 12) as int
    }
}

/// The instant that `Jul. 18th '20` names: 09:00 of that day in the year
/// 2000 + 20.
pub open spec fn far_date(fields: WithYear) -> Result<int, DateErrorKind> {
    match (month_number(fields.month), small_number(fields.day), small_number(fields.year)) {
        (Some(month), Some(day), Some(year)) => if 1 <= day <= 31 {
            instant_or_impossible(2000 + year as int, month as int, day as int, 9, 0)
        } else {
            Err(DateErrorKind::OutOfRange)
        },
        _ => Err(DateErrorKind::Invalid),
    }
}

/// The instant that `9pm Mar. 21st` names in the year `year`.
pub open spec fn close_date(fields: SameYear, year: int) -> Result<int, DateErrorKind> {
    match (small_number(fields.hour), month_number(fields.month), small_number(fields.day)) {
        (Some(hour), Some(month), Some(day)) => if 1 <= hour <= 12 && 1 <= day <= 31 {
            instant_or_impossible(
                year,
                month as int,
                day as int,
                hour_of_day(hour, fields.afternoon),
                0,
            )
        } else {
            Err(DateErrorKind::OutOfRange)
        },
        _ => Err(DateErrorKind::Invalid),
    }
}

/// The instant that `9:30am` names on the first of January 1970.
pub open spec fn same_date(fields: BareTime) -> Result<int, DateErrorKind> {
    match (small_number(fields.hour), small_number(fields.minute)) {
        (Some(hour), Some(minute)) => if 1 <= hour <= 12 && minute <= 59 {
            instant_or_impossible(1970, 1, 1, hour_of_day(hour, fields.afternoon), minute as int)
        } else {
            Err(DateErrorKind::OutOfRange)
        },
        _ => Err(DateErrorKind::Invalid),
    }
}

/// The instant that the text `s` names, read in the year `year`.
pub open spec fn date_of(s: Seq<char>, year: int) -> Result<int, DateErrorKind> {
    match with_year_shape(s) {
        Some(fields) => far_date(fields),
        None => match same_year_shape(s) {
            Some(fields) => close_date(fields, year),
            None => match bare_time_shape(s) {
                Some(fields) => same_date(fields),
                None => Err(DateErrorKind::Invalid),
            },
        },
    }
}

fn hour24(hour: u32, afternoon: bool) -> (h: u32)
    requires
        1 <= hour <= 12,
    ensures
        h == hour_of_day(hour as nat, afternoon),
        h <= 23,
{
    if afternoon {
        hour % 12 + 12
    } else {
        hour % 12
    }
}

/// Reads `Jul. 18th '20`; `None` where the text has another shape.
fn parse_far_date(v: &Vec<char>) -> (r: Option<Result<Timestamp, DateErrorKind>>)
    ensures
        match (r, with_year_shape(v@)) {
            (Some(found), Some(fields)) => seconds_or(found) == far_date(fields),
            (None, None) => true,
            _ => false,
        },
{
    let len = v.len();
    assert(v@.skip(0) =~= v@);
    let month = count_letters(v, 0);
    if month == 0 || month >= len || v[month] != '.' {
        return None;
    }
    let gap1 = count_spaces(v, month + 1);
    if gap1 == 0 {
        return None;
    }
    let day_at = month + 1 + gap1;
    let day = count_digits(v, day_at);
    if day == 0 {
        return None;
    }
    let ordinal_at = day_at + day;
    let ordinal = count_letters(v, ordinal_at);
    if ordinal == 0 {
        return None;
    }
    let gap2_at = ordinal_at + ordinal;
    let gap2 = count_spaces(v, gap2_at);
    if gap2 == 0 {
        return None;
    }
    let tick = gap2_at + gap2;
    if tick >= len || v[tick] != '\'' {
        return None;
    }
    let year = count_digits(v, tick + 1);
    if year == 0 || tick + 1 + year != len {
        return None;
    }
    proof {
        lemma_run_of_digits(v@, day_at as int, day as int);
        lemma_run_of_digits(v@, tick + 1, year as int);
    }
    let month_value = read_month(v, 0, month);
    let day_value = read_small(v, day_at, day);
    let year_value = read_small(v, tick + 1, year);
    Some(
        match (month_value, day_value, year_value) {
            (Some(m), Some(d), Some(y)) => {
                if 1 <= d && d <= 31 {
                    Timestamp::from_civil_or(2000 + y as i32, m, d, 9, 0)
                } else {
                    Err(DateErrorKind::OutOfRange)
                }
            },
            _ => Err(DateErrorKind::Invalid),
        },
    )
}

/// Reads `9pm Mar. 21st` in the year `year`; `None` where the text has
/// another shape.
fn parse_close_date(v: &Vec<char>, year: i32) -> (r: Option<Result<Timestamp, DateErrorKind>>)
    ensures
        match (r, same_year_shape(v@)) {
            (Some(found), Some(fields)) => seconds_or(found) == close_date(fields, year as int),
            (None, None) => true,
            _ => false,
        },
{
    let len = v.len();
    assert(v@.skip(0) =~= v@);
    let hour = count_digits(v, 0);
    if hour == 0 || len - hour < 2 || !(v[hour] == 'a' || v[hour] == 'p') || v[hour + 1] != 'm' {
        return None;
    }
    let afternoon = v[hour] == 'p';
    let gap1 = count_spaces(v, hour + 2);
    if gap1 == 0 {
        return None;
    }
    let month_at = hour + 2 + gap1;
    let month = count_letters(v, month_at);
    let dot = month_at + month;
    if month == 0 || dot >= len || v[dot] != '.' {
        return None;
    }
    let gap2 = count_spaces(v, dot + 1);
    if gap2 == 0 {
        return None;
    }
    let day_at = dot + 1 + gap2;
    let day = count_digits(v, day_at);
    if day == 0 {
        return None;
    }
    let ordinal_at = day_at + day;
    let ordinal = count_lower(v, ordinal_at);
    if ordinal == 0 || ordinal_at + ordinal != len {
        return None;
    }
    proof {
        lemma_run_of_digits(v@, 0, hour as int);
        lemma_run_of_digits(v@, day_at as int, day as int);
    }
    let hour_value = read_small(v, 0, hour);
    let month_value = read_month(v, month_at, month);
    let day_value = read_small(v, day_at, day);
    Some(
        match (hour_value, month_value, day_value) {
            (Some(h), Some(m), Some(d)) => {
                if 1 <= h && h <= 12 && 1 <= d && d <= 31 {
                    Timestamp::from_civil_or(year, m, d, hour24(h, afternoon), 0)
                } else {
                    Err(DateErrorKind::OutOfRange)
                }
            },
            _ => Err(DateErrorKind::Invalid),
        },
    )
}

/// Reads `9:30am`; `None` where the text has another shape.
fn parse_same_date(v: &Vec<char>) -> (r: Option<Result<Timestamp, DateErrorKind>>)
    ensures
        match (r, bare_time_shape(v@)) {
            (Some(found), Some(fields)) => seconds_or(found) == same_date(fields),
            (None, None) => true,
            _ => false,
        },
{
    let len = v.len();
    assert(v@.skip(0) =~= v@);
    let hour_at = count_spaces(v, 0);
    let hour = count_digits(v, hour_at);
    let colon = hour_at + hour;
    if hour == 0 || colon >= len || v[colon] != ':' {
        return None;
    }
    let minute_at = colon + 1 + count_spaces(v, colon + 1);
    let minute = count_digits(v, minute_at);
    let half = minute_at + minute;
    if minute == 0 || len - half != 2 {
        return None;
    }
    let first = v[half];
    let second = v[half + 1];
    if !(first == 'a' || first == 'A' || first == 'p' || first == 'P') || !(second == 'm' || second
        == 'M') {
        return None;
    }
    let afternoon = first == 'p' || first == 'P';
    proof {
        lemma_run_of_digits(v@, hour_at as int, hour as int);
        lemma_run_of_digits(v@, minute_at as int, minute as int);
    }
    let hour_value = read_small(v, hour_at, hour);
    let minute_value = read_small(v, minute_at, minute);
    Some(
        match (hour_value, minute_value) {
            (Some(h), Some(m)) => {
                if 1 <= h && h <= 12 && m <= 59 {
                    Timestamp::from_civil_or(1970, 1, 1, hour24(h, afternoon), m)
                } else {
                    Err(DateErrorKind::OutOfRange)
                }
            },
            _ => Err(DateErrorKind::Invalid),
        },
    )
}

/// Reads a date in the year `year`.
pub fn parse_in_year(input: &str, year: i32) -> (r: Result<Timestamp, DateErrorKind>)
    ensures
        seconds_or(r) == date_of(input@, year as int),
{
    let v = chars_of(input);
    match parse_far_date(&v) {
        Some(found) => found,
        None => match parse_close_date(&v, year) {
            Some(found) => found,
            None => match parse_same_date(&v) {
                Some(found) => found,
                None => Err(DateErrorKind::Invalid),
            },
        },
    }
}

/// Reads a date in the year that the system clock shows.
pub fn parse(input: &str) -> (r: Result<Timestamp, DateErrorKind>)
    ensures
        exists|year: i32| seconds_or(r) == date_of(input@, year as int),
{
    let year = current_year();
    parse_in_year(input, year)
}

/// `9pm Mar. 21st`, read in any year, is 21:00 of the 21st of March of that
/// year: the month and the day are the text's, the hour is nine in the
/// evening, and the year is the one given.
pub proof fn lemma_same_year_takes_the_year(year: int)
    ensures
        date_of("9pm Mar. 21st"@, year) == instant_or_impossible(year, 3, 21, 21, 0),
{
    reveal_strlit("9pm Mar. 21st");
    let s = "9pm Mar. 21st"@;
    assert(s.skip(0) =~= s);
    lemma_letters_counted(s, 0, 0);
    assert(with_year_shape(s) is None);
    lemma_digits_counted(s, 0, 1);
    lemma_spaces_counted(s, 3, 1);
    lemma_letters_counted(s, 4, 3);
    lemma_spaces_counted(s, 8, 1);
    lemma_digits_counted(s, 9, 2);
    lemma_lower_counted(s, 11, 2);
    let fields = SameYear {
        hour: part(s, 0, 1),
        afternoon: true,
        month: part(s, 4, 3),
        day: part(s, 9, 2),
    };
    assert(same_year_shape(s) == Some(fields));
    reveal_with_fuel(digits_value, 3);
    assert(fields.hour =~= seq!['9']);
    assert(fields.day =~= seq!['2', '1']);
    assert(fields.day.drop_last() =~= seq!['2']);
    assert(fields.month =~= seq!['M', 'a', 'r']);
    assert(small_number(fields.hour) == Some(9nat));
    assert(small_number(fields.day) == Some(21nat));
    assert(month_number(fields.month) == Some(3nat));
}

/// `Jul. 18th '20` is 09:00 of the 18th of July 2020, in whatever year it
/// is read.
pub proof fn lemma_with_year_is_nine_in_the_morning(year: int)
    ensures
        date_of("Jul. 18th '20"@, year) == instant_or_impossible(2020, 7, 18, 9, 0),
{
    reveal_strlit("Jul. 18th '20");
    let s = "Jul. 18th '20"@;
    assert(s.skip(0) =~= s);
    lemma_letters_counted(s, 0, 3);
    lemma_spaces_counted(s, 4, 1);
    lemma_digits_counted(s, 5, 2);
    lemma_letters_counted(s, 7, 2);
    lemma_spaces_counted(s, 9, 1);
    lemma_digits_counted(s, 11, 2);
    let fields = WithYear { month: part(s, 0, 3), day: part(s, 5, 2), year: part(s, 11, 2) };
    assert(with_year_shape(s) == Some(fields));
    reveal_with_fuel(digits_value, 3);
    assert(fields.month =~= seq!['J', 'u', 'l']);
    assert(fields.day =~= seq!['1', '8']);
    assert(fields.day.drop_last() =~= seq!['1']);
    assert(fields.year =~= seq!['2', '0']);
    assert(fields.year.drop_last() =~= seq!['2']);
    assert(month_number(fields.month) == Some(7nat));
    assert(small_number(fields.day) == Some(18nat));
    assert(small_number(fields.year) == Some(20nat));
}

/// `9:30am` is half past nine in the morning of the day of the Unix epoch,
/// in whatever year it is read.
pub proof fn lemma_bare_time_is_a_time_of_day(year: int)
    ensures
        date_of("9:30am"@, year) == instant_or_impossible(1970, 1, 1, 9, 30),
{
    reveal_strlit("9:30am");
    let s = "9:30am"@;
    assert(s.skip(0) =~= s);
    lemma_letters_counted(s, 0, 0);
    assert(with_year_shape(s) is None);
    lemma_digits_counted(s, 0, 1);
    assert(same_year_shape(s) is None);
    lemma_spaces_counted(s, 0, 0);
    lemma_spaces_counted(s, 2, 0);
    lemma_digits_counted(s, 2, 2);
    let fields = BareTime { hour: part(s, 0, 1), minute: part(s, 2, 2), afternoon: false };
    assert(bare_time_shape(s) == Some(fields));
    reveal_with_fuel(digits_value, 3);
    assert(fields.hour =~= seq!['9']);
    assert(fields.minute =~= seq!['3', '0']);
    assert(fields.minute.drop_last() =~= seq!['3']);
    assert(small_number(fields.hour) == Some(9nat));
    assert(small_number(fields.minute) == Some(30nat));
}

/// `yesterday` is no date, in whatever year it is read.
pub proof fn lemma_yesterday_is_no_date(year: int)
    ensures
        date_of("yesterday"@, year) == Err::<int, DateErrorKind>(DateErrorKind::Invalid),
{
    reveal_strlit("yesterday");
    let s = "yesterday"@;
    assert(s.skip(0) =~= s);
    lemma_letters_counted(s, 0, 9);
    assert(with_year_shape(s) is None);
    lemma_digits_counted(s, 0, 0);
    assert(same_year_shape(s) is None);
    lemma_spaces_counted(s, 0, 0);
    assert(bare_time_shape(s) is None);
}

} // verus!
