//! Counts as listing pages abbreviate them: `42`, `42K`, `4.2 k`, `2g`.
//!
//! The grammar is a number, `digits` or `digits.digits`, then optional white
//! space, then at most one scale letter among `k`, `m` and `g` in either
//! case. A number without a scale letter must be a plain `u32`.

use crate::text::{
    chars_of, count_digits, digit_of, digit_value, digits_value, is_digit, is_whitespace,
    leading_digits, lemma_leading_are_digits, parse_u32, parse_unsigned, string_of_range, trim,
    trim_start, trimmed, IntErrorKind,
};
use vstd::prelude::*;

verus! {

/// Why a text is not a count.
#[derive(Clone, Copy, Debug, PartialEq, Eq, Structural)]
pub enum ParseNumberError {
    /// The text does not follow the grammar.
    InvalidFormat,
    /// The number has no scale letter and is not a `u32`.
    InvalidBaseNumber(IntErrorKind),
}

/// A non-negative decimal number, kept to nine fractional digits:
/// `whole + nanos / 1_000_000_000`.
#[derive(Clone, Copy, Debug, PartialEq, Eq, Structural)]
pub struct Decimal {
    /// The integer part; `u64::MAX` stands for itself and all above.
    pub whole: u64,
    /// The first nine fractional digits, as billionths.
    pub nanos: u32,
}

/// A count as written: plain, or a decimal number of thousands, millions or
/// billions.
#[derive(Clone, Copy, Debug, PartialEq, Eq, Structural)]
pub enum Number {
    Base(u32),
    Kilo(Decimal),
    Mega(Decimal),
    Giga(Decimal),
}

impl Decimal {
    /// The number times `1000`, `1_000_000` or `1_000_000_000`, cut off below
    /// the unit: `thousands` is 1, 2 or 3.
    pub open spec fn scaled(self, thousands: nat) -> nat {
        if thousands == 1 {
            self.whole as nat * 1_000 + self.nanos as nat / 1_000_000
        } else if thousands == 2 {
            self.whole as nat * 1_000_000 + self.nanos as nat / 1_000
        } else {
            self.whole as nat * 1_000_000_000 + self.nanos as nat
        }
    }
}

impl Number {
    /// The count, cut off below the unit and not rounded.
    pub open spec fn value(self) -> nat {
        match self {
            Number::Base(n) => n as nat,
            Number::Kilo(d) => d.scaled(1),
            Number::Mega(d) => d.scaled(2),
            Number::Giga(d) => d.scaled(3),
        }
    }

    /// The count as an integer; `usize::MAX` where it would be above.
    pub fn as_value(&self) -> (v: usize)
        ensures
            v == if self.value() <= usize::MAX {
                self.value()
            } else {
                usize::MAX as nat
            },
    {
        let wide: u128 = match self {
            Number::Base(n) => *n as u128,
            Number::Kilo(d) => d.whole as u128 * 1_000 + (d.nanos / 1_000_000) as u128,
            Number::Mega(d) => d.whole as u128 * 1_000_000 + (d.nanos / 1_000) as u128,
            Number::Giga(d) => d.whole as u128 * 1_000_000_000 + d.nanos as u128,
        };
        if wide <= usize::MAX as u128 {
            wide as usize
        } else {
            usize::MAX
        }
    }

    /// Reads a count.
    pub fn from_str(input: &str) -> (r: Result<Number, ParseNumberError>)
        ensures
            r == parse_number(input@),
    {
        let v = chars_of(input);
        assert(v@.skip(0) =~= v@);
        let n = count_digits(&v, 0);
        if n == 0 {
            return Err(ParseNumberError::InvalidFormat);
        }
        let mut end: usize = n;
        let mut m: usize = 0;
        if n < v.len() && v[n] == '.' {
            m = count_digits(&v, n + 1);
            if m > 0 {
                end = n + 1 + m;
            }
        }
        proof {
            if n < v.len() {
                assert(v@.skip(n as int)[0] == v@[n as int]);
                assert(v@.skip(n as int).drop_first() =~= v@.skip(n + 1));
            }
            assert(m as nat == fraction_len(v@));
            assert(end as nat == number_len(v@));
        }
        let mut at: usize = end;
        while at < v.len() && is_whitespace(v[at])
            invariant
                end <= at <= v.len(),
                trim_start(v@.skip(end as int)) == trim_start(v@.skip(at as int)),
            decreases v.len() - at,
        {
            assert(v@.skip(at as int).drop_first() =~= v@.skip(at + 1));
            at += 1;
        }
        let ghost rest = v@.skip(at as int);
        assert(rest == trim_start(v@.skip(end as int)));
        if at == v.len() {
            let number = string_of_range(&v, 0, end);
            assert(v@.subrange(0, end as int) =~= v@.take(end as int));
            assert(v@.take(end as int).len() > 0 && v@.take(end as int)[0] != '+');
            return match parse_u32(number.as_str()) {
                Ok(value) => Ok(Number::Base(value)),
                Err(kind) => Err(ParseNumberError::InvalidBaseNumber(kind)),
            };
        }
        if at + 1 != v.len() {
            return Err(ParseNumberError::InvalidFormat);
        }
        assert(rest.len() == 1 && rest[0] == v@[at as int]);
        let letter = v[at];
        if !(letter == 'k' || letter == 'K' || letter == 'm' || letter == 'M' || letter == 'g'
            || letter == 'G') {
            return Err(ParseNumberError::InvalidFormat);
        }
        let whole = read_whole(&v, n);
        proof {
            if m > 0 {
                lemma_leading_are_digits(v@.skip(n + 1), m as int);
                assert forall|k: int| n + 1 <= k < n + 1 + m implies is_digit(#[trigger] v@[k]) by {
                    assert(v@[k] == v@.skip(n + 1)[k - (n + 1)]);
                }
            }
        }
        let nanos = read_nanos(&v, n + 1, m);
        let number = Decimal { whole, nanos };
        if letter == 'k' || letter == 'K' {
            Ok(Number::Kilo(number))
        } else if letter == 'm' || letter == 'M' {
            Ok(Number::Mega(number))
        } else {
            Ok(Number::Giga(number))
        }
    }
}

/// How many digits follow the integer part of `s` and a `.`; 0 where no `.`
/// follows it.
pub open spec fn fraction_len(s: Seq<char>) -> nat {
    let after = s.skip(leading_digits(s) as int);
    if after.len() > 0 && after[0] == '.' {
        leading_digits(after.drop_first())
    } else {
        0
    }
}

/// The length of the number that `s` begins with: its integer part and,
/// where a `.` and a digit follow, its fraction.
pub open spec fn number_len(s: Seq<char>) -> nat {
    if fraction_len(s) > 0 {
        leading_digits(s) + 1 + fraction_len(s)
    } else {
        leading_digits(s)
    }
}

/// The digits of the fraction of the number that `s` begins with.
pub open spec fn fraction_digits(s: Seq<char>) -> Seq<char> {
    if fraction_len(s) > 0 {
        s.subrange(
            leading_digits(s) as int + 1,
            leading_digits(s) as int + 1 + fraction_len(s) as int,
        )
    } else {
        Seq::empty()
    }
}

/// The digit at place `i` of the fraction `f`, 0 beyond its end.
pub open spec fn fraction_digit(f: Seq<char>, i: int) -> nat {
    if 0 <= i < f.len() {
        digit_of(f[i])
    } else {
        0
    }
}

/// The first nine digits of the fraction `f`, as billionths.
pub open spec fn fraction_nanos(f: Seq<char>) -> nat {
    fraction_digit(f, 0) * 100_000_000 + fraction_digit(f, 1) * 10_000_000 + fraction_digit(f, 2)
        * 1_000_000 + fraction_digit(f, 3) * 100_000 + fraction_digit(f, 4) * 10_000
        + fraction_digit(f, 5) * 1_000 + fraction_digit(f, 6) * 100 + fraction_digit(f, 7) * 10
        + fraction_digit(f, 8)
}

/// The number that the digits `s` write, `u64::MAX` where it is above.
pub open spec fn capped_value(s: Seq<char>) -> nat {
    if digits_value(s) <= u64::MAX {
        digits_value(s)
    } else {
        u64::MAX as nat
    }
}

/// The decimal number that `s` begins with.
pub open spec fn decimal_of(s: Seq<char>) -> Decimal {
    Decimal {
        whole: capped_value(s.take(leading_digits(s) as int)) as u64,
        nanos: fraction_nanos(fraction_digits(s)) as u32,
    }
}

/// What a text is as a count.
pub open spec fn parse_number(s: Seq<char>) -> Result<Number, ParseNumberError> {
    let rest = trim_start(s.skip(number_len(s) as int));
    if leading_digits(s) == 0 {
        Err(ParseNumberError::InvalidFormat)
    } else if rest.len() == 0 {
        match parse_unsigned(s.take(number_len(s) as int), u32::MAX as nat) {
            Ok(value) => Ok(Number::Base(value as u32)),
            Err(kind) => Err(ParseNumberError::InvalidBaseNumber(kind)),
        }
    } else if rest.len() != 1 {
        Err(ParseNumberError::InvalidFormat)
    } else if rest[0] == 'k' || rest[0] == 'K' {
        Ok(Number::Kilo(decimal_of(s)))
    } else if rest[0] == 'm' || rest[0] == 'M' {
        Ok(Number::Mega(decimal_of(s)))
    } else if rest[0] == 'g' || rest[0] == 'G' {
        Ok(Number::Giga(decimal_of(s)))
    } else {
        Err(ParseNumberError::InvalidFormat)
    }
}

/// The value of the digits `v[..n]`, capped.
fn read_whole(v: &Vec<char>, n: usize) -> (whole: u64)
    requires
        n <= v.len(),
        n == leading_digits(v@),
    ensures
        whole == capped_value(v@.take(n as int)),
{
    proof {
        lemma_leading_are_digits(v@, n as int);
    }
    let mut acc: u64 = 0;
    let mut i: usize = 0;
    assert(v@.take(0) =~= Seq::<char>::empty());
    while i < n
        invariant
            i <= n <= v.len(),
            forall|k: int| 0 <= k < n ==> is_digit(#[trigger] v@[k]),
            acc == capped_value(v@.take(i as int)),
        decreases n - i,
    {
        let d: u64 = digit_value(v[i]) as u64;
        assert(v@.take(i + 1).drop_last() =~= v@.take(i as int));
        assert(v@.take(i + 1).last() == v@[i as int]);
        if acc > (u64::MAX - d) / 10 {
            acc = u64::MAX;
        } else {
            acc = acc * 10 + d;
        }
        i += 1;
    }
    acc
}

/// The first nine of the `m` digits at `v[from..]`, as billionths.
fn read_nanos(v: &Vec<char>, from: usize, m: usize) -> (nanos: u32)
    requires
        m == 0 || from + m <= v.len(),
        forall|k: int| from <= k < from + m ==> is_digit(#[trigger] v@[k]),
    ensures
        m > 0 ==> nanos == fraction_nanos(v@.subrange(from as int, from + m)),
        m == 0 ==> nanos == fraction_nanos(Seq::empty()),
        nanos <= 999_999_999,
{
    if m == 0 {
        return 0;
    }
    let d0: u32 = nanos_digit(v, from, m, 0);
    let d1: u32 = nanos_digit(v, from, m, 1);
    let d2: u32 = nanos_digit(v, from, m, 2);
    let d3: u32 = nanos_digit(v, from, m, 3);
    let d4: u32 = nanos_digit(v, from, m, 4);
    let d5: u32 = nanos_digit(v, from, m, 5);
    let d6: u32 = nanos_digit(v, from, m, 6);
    let d7: u32 = nanos_digit(v, from, m, 7);
    let d8: u32 = nanos_digit(v, from, m, 8);
    d0 * 100_000_000 + d1 * 10_000_000 + d2 * 1_000_000 + d3 * 100_000 + d4 * 10_000 + d5 * 1_000
        + d6 * 100 + d7 * 10 + d8
}

/// The digit at place `i` of the fraction `v[from..from + m]`.
fn nanos_digit(v: &Vec<char>, from: usize, m: usize, i: usize) -> (d: u32)
    requires
        0 < m,
        from + m <= v.len(),
        forall|k: int| from <= k < from + m ==> is_digit(#[trigger] v@[k]),
    ensures
        d == fraction_digit(v@.subrange(from as int, from + m), i as int),
        d <= 9,
{
    if i < m {
        digit_value(v[from + i]) as u32
    } else {
        0
    }
}

/// What a text is as a count written in full: a `u32`.
pub open spec fn plain_count(text: Seq<char>) -> Result<nat, ParseNumberError> {
    match parse_unsigned(text, u32::MAX as nat) {
        Ok(count) => Ok(count),
        Err(kind) => Err(ParseNumberError::InvalidBaseNumber(kind)),
    }
}

/// What a text is as a count that may be abbreviated, white space around it
/// set aside: the count as an integer, `usize::MAX` where it is above.
pub open spec fn short_count(text: Seq<char>) -> Result<nat, ParseNumberError> {
    match parse_number(trimmed(text)) {
        Ok(number) => Ok(
            if number.value() <= usize::MAX {
                number.value()
            } else {
                usize::MAX as nat
            },
        ),
        Err(error) => Err(error),
    }
}

/// A count, or the reason for none, as plain values.
pub open spec fn count_view(r: Result<u64, ParseNumberError>) -> Result<nat, ParseNumberError> {
    match r {
        Ok(count) => Ok(count as nat),
        Err(error) => Err(error),
    }
}

/// Reads a count written in full.
pub fn parse_plain(text: &str) -> (r: Result<u64, ParseNumberError>)
    ensures
        count_view(r) == plain_count(text@),
{
    match parse_u32(text) {
        Ok(count) => Ok(count as u64),
        Err(kind) => Err(ParseNumberError::InvalidBaseNumber(kind)),
    }
}

/// Reads a count that may be abbreviated, white space around it set aside.
pub fn parse_short(text: &str) -> (r: Result<u64, ParseNumberError>)
    ensures
        count_view(r) == short_count(text@),
{
    let inner = trim(text);
    match Number::from_str(inner.as_str()) {
        Ok(number) => Ok(number.as_value() as u64),
        Err(error) => Err(error),
    }
}

} // verus!
