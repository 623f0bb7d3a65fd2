//! The dates of bitsearch listings, such as `Mar 21, 2023`: the
//! three-letter English abbreviation of a month in either case, a day of
//! one or two digits, a comma, and a year of one to four digits, with any
//! white space before the day and before the year. The instant is 09:00 of
//! that day.

use crate::text::{
    all_digits, chars_of, count_digits, count_letters, count_spaces, digit_value, digits_value,
    is_digit, leading_digits, leading_letters, leading_spaces, lemma_run_of_digits, read_small,
    small_number,
};
use crate::time::{
    instant_or_impossible, month_number, read_month, seconds_or, DateErrorKind, Timestamp,
};
use vstd::prelude::*;

verus! {

/// The fields of `Mar 21, 2023`.
pub struct DayOfYear {
    pub month: Seq<char>,
    pub day: Seq<char>,
    pub year: Seq<char>,
}

/// The fields of `s` where it is letters, digits, `,` and digits to the
/// end, with any white space before each run of digits.
pub open spec fn day_shape(s: Seq<char>) -> Option<DayOfYear> {
    let month = leading_letters(s);
    let gap1 = leading_spaces(s.skip(month as int));
    let day_at = month as int + gap1;
    let day = leading_digits(s.skip(day_at));
    let comma = day_at + day;
    let gap2 = leading_spaces(s.skip(comma + 1));
    let year_at = comma + 1 + gap2;
    let year = leading_digits(s.skip(year_at));
    if month > 0 && day > 0 && comma < s.len() && s[comma] == ',' && year > 0 && year_at + year
        == s.len() {
        Some(
            DayOfYear {
                month: s.subrange(0, month as int),
                day: s.subrange(day_at, day_at + day),
                year: s.subrange(year_at, year_at + year),
            },
        )
    } else {
        None
    }
}

/// The number that one to four digits write; `None` for any other text.
pub open spec fn year_number(s: Seq<char>) -> Option<nat> {
    if 1 <= s.len() <= 4 && all_digits(s) {
        Some(digits_value(s))
    } else {
        None
    }
}

/// The instant that the fields name: 09:00 of the day.
pub open spec fn day_instant(fields: DayOfYear) -> Result<int, DateErrorKind> {
    match (month_number(fields.month), small_number(fields.day), year_number(fields.year)) {
        (Some(month), Some(day), Some(year)) => if 1 <= day <= 31 {
            instant_or_impossible(year as int, month as int, day as int, 9, 0)
        } else {
            Err(DateErrorKind::OutOfRange)
        },
        _ => Err(DateErrorKind::Invalid),
    }
}

/// The instant that the text `s` names.
pub open spec fn date_of(s: Seq<char>) -> Result<int, DateErrorKind> {
    match day_shape(s) {
        Some(fields) => day_instant(fields),
        None => Err(DateErrorKind::Invalid),
    }
}

/// Reads `v[from..from + n]` as a year of one to four digits.
fn read_year(v: &Vec<char>, from: usize, n: usize) -> (r: Option<u32>)
    requires
        from + n <= v.len(),
        all_digits(v@.subrange(from as int, from + n)),
    ensures
        r matches Some(value) ==> year_number(v@.subrange(from as int, from + n)) == Some(
            value as nat,
        ) && value <= 9999,
        r is None ==> year_number(v@.subrange(from as int, from + n)) is None,
{
    if n == 0 || n > 4 {
        return None;
    }
    let ghost s = v@.subrange(from as int, from + n);
    let mut value: u32 = 0;
    let mut bound: u32 = 1;
    let mut i: usize = 0;
    assert(s.take(0) =~= Seq::<char>::empty());
    while i < n
        invariant
            i <= n <= 4,
            from + n <= v.len(),
            s == v@.subrange(from as int, from + n),
            all_digits(s),
            value == digits_value(s.take(i as int)),
            value < bound,
            bound <= 10000,
            i < 4 ==> bound <= 1000,
            i < 3 ==> bound <= 100,
            i < 2 ==> bound <= 10,
            i < 1 ==> bound <= 1,
        decreases n - i,
    {
        assert(s[i as int] == v@[from + i]);
        assert(is_digit(s[i as int]));
        let d: u32 = digit_value(v[from + i]) as u32;
        assert(s.take(i + 1).drop_last() =~= s.take(i as int));
        assert(s.take(i + 1).last() == s[i as int]);
        value = value * 10 + d;
        bound = bound * 10;
        i += 1;
    }
    assert(s.take(n as int) =~= s);
    Some(value)
}

/// Reads a date.
pub fn parse(input: &str) -> (r: Result<Timestamp, DateErrorKind>)
    ensures
        seconds_or(r) == date_of(input@),
{
    let v = chars_of(input);
    let len = v.len();
    assert(v@.skip(0) =~= v@);
    let month = count_letters(&v, 0);
    if month == 0 {
        return Err(DateErrorKind::Invalid);
    }
    let gap1 = count_spaces(&v, month);
    let day_at = month + gap1;
    let day = count_digits(&v, day_at);
    let comma = day_at + day;
    if day == 0 || comma >= len || v[comma] != ',' {
        return Err(DateErrorKind::Invalid);
    }
    let gap2 = count_spaces(&v, comma + 1);
    let year_at = comma + 1 + gap2;
    let year = count_digits(&v, year_at);
    if year == 0 || year_at + year != len {
        return Err(DateErrorKind::Invalid);
    }
    proof {
        lemma_run_of_digits(v@, day_at as int, day as int);
        lemma_run_of_digits(v@, year_at as int, year as int);
    }
    let month_value = read_month(&v, 0, month);
    let day_value = read_small(&v, day_at, day);
    let year_value = read_year(&v, year_at, year);
    match (month_value, day_value, year_value) {
        (Some(m), Some(d), Some(y)) => {
            if 1 <= d && d <= 31 {
                Timestamp::from_civil_or(y as i32, m, d, 9, 0)
            } else {
                Err(DateErrorKind::OutOfRange)
            }
        },
        _ => Err(DateErrorKind::Invalid),
    }
}

} // verus!
