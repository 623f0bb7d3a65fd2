//! Character-level helpers shared by the parsers and the emitters.
//!
//! Text is modelled as `Seq<char>`. The executable functions here move
//! between `&str`, `String` and `Vec<char>` and state what they compute over
//! that model.

use vstd::prelude::*;

verus! {

/// `String::push` appends one character.
pub assume_specification[ String::push ](s: &mut String, c: char)
    ensures
        final(s)@ == old(s)@.push(c),
;

/// Whether `c` has the Unicode property `White_Space`, which is what
/// `char::is_whitespace` decides: the tab, the line feed, the vertical tab,
/// the form feed, the carriage return, the space, the next line, the
/// no-break space, the ogham space mark, the spaces from the en quad to the
/// hair space, the line and paragraph separators, the narrow no-break
/// space, the medium mathematical space and the ideographic space.
pub open spec fn is_white_space(c: char) -> bool {
    let n = c as u32;
    ||| 0x09 <= n <= 0x0d
    ||| n == 0x20
    ||| n == 0x85
    ||| n == 0xa0
    ||| n == 0x1680
    ||| 0x2000 <= n <= 0x200a
    ||| n == 0x2028
    ||| n == 0x2029
    ||| n == 0x202f
    ||| n == 0x205f
    ||| n == 0x3000
}

/// Whether `c` is white space.
pub fn is_whitespace(c: char) -> (b: bool)
    ensures
        b == is_white_space(c),
{
    let n: u32 = c as u32;
    (0x09 <= n && n <= 0x0d) || n == 0x20 || n == 0x85 || n == 0xa0 || n == 0x1680 || (0x2000
        <= n && n <= 0x200a) || n == 0x2028 || n == 0x2029 || n == 0x202f || n == 0x205f || n
        == 0x3000
}

/// The text `s` as the `Debug` form of `str` writes it: between double
/// quotes, with its escapes.
pub uninterp spec fn debug_text(s: Seq<char>) -> Seq<char>;

/// Formats `s` with `{:?}`.
#[verifier::external_body]
pub(crate) fn debug_string(s: &str) -> (out: String)
    ensures
        out@ == debug_text(s@),
{
    format!("{:?}", s)
}

/// The characters of `s`, in order.
pub fn chars_of(s: &str) -> (out: Vec<char>)
    ensures
        out@ == s@,
{
    let mut out: Vec<char> = Vec::new();
    for c in it: s.chars()
        invariant
            it.seq() == s@,
            out@ =~= it.seq().take(it.index()),
    {
        out.push(c);
    }
    assert(out@ =~= s@);
    out
}

/// Appends the characters `v[from..to]` to `out`.
pub(crate) fn push_range(out: &mut String, v: &Vec<char>, from: usize, to: usize)
    requires
        from <= to <= v.len(),
    ensures
        final(out)@ == old(out)@ + v@.subrange(from as int, to as int),
{
    let mut i: usize = from;
    while i < to
        invariant
            from <= i <= to <= v.len(),
            out@ == old(out)@ + v@.subrange(from as int, i as int),
        decreases to - i,
    {
        out.push(v[i]);
        assert(v@.subrange(from as int, i as int).push(v@[i as int]) =~= v@.subrange(
            from as int,
            i + 1,
        ));
        i += 1;
    }
}

/// The string made of the characters `v[from..to]`.
pub(crate) fn string_of_range(v: &Vec<char>, from: usize, to: usize) -> (out: String)
    requires
        from <= to <= v.len(),
    ensures
        out@ == v@.subrange(from as int, to as int),
{
    let mut out = String::new();
    push_range(&mut out, v, from, to);
    out
}

/// The string made of the characters `v`.
pub fn string_of(v: &Vec<char>) -> (out: String)
    ensures
        out@ == v@,
{
    let out = string_of_range(v, 0, v.len());
    assert(v@.subrange(0, v.len() as int) =~= v@);
    out
}

/// `a` followed by `b`.
pub fn concat2(a: &str, b: &str) -> (out: String)
    ensures
        out@ == a@ + b@,
{
    let mut out = String::new();
    out.append(a);
    out.append(b);
    out
}

/// Whether `s` begins with `prefix`.
pub fn starts_with(s: &Vec<char>, prefix: &Vec<char>) -> (b: bool)
    ensures
        b == prefix@.is_prefix_of(s@),
{
    if prefix.len() > s.len() {
        return false;
    }
    let mut i: usize = 0;
    while i < prefix.len()
        invariant
            i <= prefix.len() <= s.len(),
            forall|k: int| 0 <= k < i ==> s@[k] == prefix@[k],
        decreases prefix.len() - i,
    {
        if s[i] != prefix[i] {
            assert(s@.subrange(0, prefix@.len() as int)[i as int] != prefix@[i as int]);
            return false;
        }
        i += 1;
    }
    assert(s@.subrange(0, prefix@.len() as int) =~= prefix@);
    true
}

// ---------------------------------------------------------------------------
// White space
// ---------------------------------------------------------------------------

/// `s` without its leading white space.
pub open spec fn trim_start(s: Seq<char>) -> Seq<char>
    decreases s.len(),
{
    if s.len() > 0 && is_white_space(s[0]) {
        trim_start(s.drop_first())
    } else {
        s
    }
}

/// `s` without its trailing white space.
pub open spec fn trim_end(s: Seq<char>) -> Seq<char>
    decreases s.len(),
{
    if s.len() > 0 && is_white_space(s.last()) {
        trim_end(s.drop_last())
    } else {
        s
    }
}

/// `s` without leading and trailing white space, as `str::trim` returns it.
pub open spec fn trimmed(s: Seq<char>) -> Seq<char> {
    trim_end(trim_start(s))
}

/// The bounds `(from, to)` of `trimmed(v)` inside `v`.
pub(crate) fn trim_bounds(v: &Vec<char>) -> (r: (usize, usize))
    ensures
        r.0 <= r.1 <= v.len(),
        trimmed(v@) == v@.subrange(r.0 as int, r.1 as int),
{
    let mut from: usize = 0;
    assert(v@.skip(0) =~= v@);
    while from < v.len() && is_whitespace(v[from])
        invariant
            from <= v.len(),
            trim_start(v@) == trim_start(v@.skip(from as int)),
        decreases v.len() - from,
    {
        assert(v@.skip(from as int).drop_first() =~= v@.skip(from + 1));
        from += 1;
    }
    let ghost rest = v@.skip(from as int);
    assert(trim_start(v@) == rest);
    let mut to: usize = v.len();
    while to > from && is_whitespace(v[to - 1])
        invariant
            from <= to <= v.len(),
            rest == v@.skip(from as int),
            trim_end(rest) == trim_end(v@.subrange(from as int, to as int)),
        decreases to,
    {
        assert(v@.subrange(from as int, to as int).drop_last() =~= v@.subrange(
            from as int,
            to - 1,
        ));
        to -= 1;
    }
    (from, to)
}

/// `s` without leading and trailing white space.
pub fn trim(s: &str) -> (out: String)
    ensures
        out@ == trimmed(s@),
{
    let v = chars_of(s);
    let (from, to) = trim_bounds(&v);
    string_of_range(&v, from, to)
}

// ---------------------------------------------------------------------------
// Decimal digits
// ---------------------------------------------------------------------------

pub open spec fn is_digit(c: char) -> bool {
    '0' <= c <= '9'
}

pub open spec fn all_digits(s: Seq<char>) -> bool {
    forall|i: int| 0 <= i < s.len() ==> is_digit(#[trigger] s[i])
}

/// The value of the decimal digit `c`.
pub open spec fn digit_of(c: char) -> nat {
    (c as nat - '0' as nat) as nat
}

/// The number that the decimal digits `s` write; 0 for no digits.
pub open spec fn digits_value(s: Seq<char>) -> nat
    decreases s.len(),
{
    if s.len() == 0 {
        0
    } else {
        digits_value(s.drop_last()) * 10 + digit_of(s.last())
    }
}

/// The decimal digit that writes `d`.
pub open spec fn digit_char(d: nat) -> char {
    if d == 0 {
        '0'
    } else if d == 1 {
        '1'
    } else if d == 2 {
        '2'
    } else if d == 3 {
        '3'
    } else if d == 4 {
        '4'
    } else if d == 5 {
        '5'
    } else if d == 6 {
        '6'
    } else if d == 7 {
        '7'
    } else if d == 8 {
        '8'
    } else {
        '9'
    }
}

/// `n` in decimal, without sign or leading zeros.
pub open spec fn decimal_text(n: nat) -> Seq<char>
    decreases n,
{
    if n < 10 {
        seq![digit_char(n)]
    } else {
        decimal_text(n / 10).push(digit_char(n % 10))
    }
}

pub(crate) fn is_ascii_digit(c: char) -> (b: bool)
    ensures
        b == is_digit(c),
{
    c >= '0' && c <= '9'
}

pub(crate) fn digit_value(c: char) -> (d: u8)
    requires
        is_digit(c),
    ensures
        d as nat == digit_of(c),
        d <= 9,
{
    (c as u32 - '0' as u32) as u8
}

fn digit_to_char(d: u8) -> (c: char)
    requires
        d <= 9,
    ensures
        c == digit_char(d as nat),
{
    if d == 0 {
        '0'
    } else if d == 1 {
        '1'
    } else if d == 2 {
        '2'
    } else if d == 3 {
        '3'
    } else if d == 4 {
        '4'
    } else if d == 5 {
        '5'
    } else if d == 6 {
        '6'
    } else if d == 7 {
        '7'
    } else if d == 8 {
        '8'
    } else {
        '9'
    }
}

/// Appends `n` in decimal to `out`.
pub(crate) fn push_decimal(out: &mut String, n: u64)
    ensures
        final(out)@ == old(out)@ + decimal_text(n as nat),
    decreases n,
{
    if n >= 10 {
        push_decimal(out, n / 10);
    }
    out.push(digit_to_char((n % 10) as u8));
    assert(old(out)@ + decimal_text(n as nat) =~= if n >= 10 {
        (old(out)@ + decimal_text((n / 10) as nat)).push(digit_char((n % 10) as nat))
    } else {
        old(out)@.push(digit_char(n as nat))
    });
}

/// `n` in decimal.
pub fn decimal_string(n: u64) -> (out: String)
    ensures
        out@ == decimal_text(n as nat),
{
    let mut out = String::new();
    push_decimal(&mut out, n);
    assert(Seq::<char>::empty() + decimal_text(n as nat) =~= decimal_text(n as nat));
    out
}

// ---------------------------------------------------------------------------
// Reading integers
// ---------------------------------------------------------------------------

/// Why a text is not an integer of the wanted type.
#[derive(Clone, Copy, Debug, PartialEq, Eq, Structural)]
pub enum IntErrorKind {
    /// The text is empty.
    Empty,
    /// A character is not a decimal digit, or there is a sign and no digit.
    InvalidDigit,
    /// The number is above the largest value of the type.
    PosOverflow,
    /// The number is below the smallest value of the type.
    NegOverflow,
}

impl IntErrorKind {
    /// The kind in words.
    pub open spec fn text(self) -> Seq<char> {
        match self {
            IntErrorKind::Empty => "cannot parse integer from empty string"@,
            IntErrorKind::InvalidDigit => "invalid digit found in string"@,
            IntErrorKind::PosOverflow => "number too large to fit in target type"@,
            IntErrorKind::NegOverflow => "number too small to fit in target type"@,
        }
    }

    /// The kind in words.
    pub fn message(&self) -> (text: &'static str)
        ensures
            text@ == self.text(),
    {
        match self {
            IntErrorKind::Empty => "cannot parse integer from empty string",
            IntErrorKind::InvalidDigit => "invalid digit found in string",
            IntErrorKind::PosOverflow => "number too large to fit in target type",
            IntErrorKind::NegOverflow => "number too small to fit in target type",
        }
    }
}

/// Reads the digits `s` from the left, starting from `acc`: the first
/// character that is no digit, or the first digit that takes the number above
/// `max`, ends the reading with its error.
pub open spec fn scan_digits(s: Seq<char>, acc: nat, max: nat) -> Result<nat, IntErrorKind>
    decreases s.len(),
{
    if s.len() == 0 {
        Ok(acc)
    } else if !is_digit(s[0]) {
        Err(IntErrorKind::InvalidDigit)
    } else if acc * 10 + digit_of(s[0]) > max {
        Err(IntErrorKind::PosOverflow)
    } else {
        scan_digits(s.drop_first(), acc * 10 + digit_of(s[0]), max)
    }
}

/// What `str::parse` makes of `s` for an unsigned type whose largest value is
/// `max`: an optional `+`, then one digit or more.
pub open spec fn parse_unsigned(s: Seq<char>, max: nat) -> Result<nat, IntErrorKind> {
    if s.len() == 0 {
        Err(IntErrorKind::Empty)
    } else if s[0] == '+' {
        if s.len() == 1 {
            Err(IntErrorKind::InvalidDigit)
        } else {
            scan_digits(s.drop_first(), 0, max)
        }
    } else {
        scan_digits(s, 0, max)
    }
}

/// What `str::parse` makes of `s` for `i64`: an optional sign, then one digit
/// or more, the number within the type's range.
pub open spec fn parse_signed(s: Seq<char>) -> Result<int, IntErrorKind> {
    if s.len() > 0 && s[0] == '-' {
        if s.len() == 1 {
            Err(IntErrorKind::InvalidDigit)
        } else {
            match scan_digits(s.drop_first(), 0, 0x8000_0000_0000_0000) {
                Ok(n) => Ok(-(n as int)),
                Err(IntErrorKind::PosOverflow) => Err(IntErrorKind::NegOverflow),
                Err(kind) => Err(kind),
            }
        }
    } else {
        match parse_unsigned(s, 0x7fff_ffff_ffff_ffff) {
            Ok(n) => Ok(n as int),
            Err(kind) => Err(kind),
        }
    }
}

/// Reads `v[from..]` as digits, up to `max`.
fn scan_from(v: &Vec<char>, from: usize, max: u64) -> (r: Result<u64, IntErrorKind>)
    requires
        from <= v.len(),
        max >= 9,
    ensures
        match (r, scan_digits(v@.skip(from as int), 0, max as nat)) {
            (Ok(a), Ok(b)) => a == b,
            (Err(a), Err(b)) => a == b,
            _ => false,
        },
        r matches Ok(n) ==> n <= max,
{
    let mut acc: u64 = 0;
    let mut i: usize = from;
    while i < v.len()
        invariant
            from <= i <= v.len(),
            acc <= max,
            max >= 9,
            scan_digits(v@.skip(from as int), 0, max as nat) == scan_digits(
                v@.skip(i as int),
                acc as nat,
                max as nat,
            ),
        decreases v.len() - i,
    {
        let c = v[i];
        assert(v@.skip(i as int)[0] == c);
        assert(v@.skip(i as int).drop_first() =~= v@.skip(i + 1));
        if !is_ascii_digit(c) {
            return Err(IntErrorKind::InvalidDigit);
        }
        let d: u64 = digit_value(c) as u64;
        if acc > (max - d) / 10 {
            assert(acc * 10 + d > max) by (nonlinear_arith)
                requires
                    acc > (max - d) / 10,
                    d <= max,
                    d <= 9,
            ;
            return Err(IntErrorKind::PosOverflow);
        }
        assert(acc * 10 + d <= max) by (nonlinear_arith)
            requires
                acc <= (max - d) / 10,
                d <= max,
        ;
        acc = acc * 10 + d;
        i += 1;
    }
    Ok(acc)
}

/// Reads `s` as an unsigned integer not above `max`.
pub(crate) fn parse_bounded(s: &str, max: u64) -> (r: Result<u64, IntErrorKind>)
    requires
        max >= 9,
    ensures
        match (r, parse_unsigned(s@, max as nat)) {
            (Ok(a), Ok(b)) => a == b,
            (Err(a), Err(b)) => a == b,
            _ => false,
        },
        r matches Ok(n) ==> n <= max,
{
    let v = chars_of(s);
    if v.len() == 0 {
        return Err(IntErrorKind::Empty);
    }
    if v[0] == '+' {
        if v.len() == 1 {
            return Err(IntErrorKind::InvalidDigit);
        }
        assert(v@.skip(1) =~= v@.drop_first());
        scan_from(&v, 1, max)
    } else {
        assert(v@.skip(0) =~= v@);
        scan_from(&v, 0, max)
    }
}

/// Reads `s` as a `u32`, as `str::parse` does.
pub fn parse_u32(s: &str) -> (r: Result<u32, IntErrorKind>)
    ensures
        match (r, parse_unsigned(s@, u32::MAX as nat)) {
            (Ok(a), Ok(b)) => a == b,
            (Err(a), Err(b)) => a == b,
            _ => false,
        },
{
    match parse_bounded(s, 0xffff_ffff) {
        Ok(n) => Ok(n as u32),
        Err(e) => Err(e),
    }
}

/// Reads `s` as a `u64`, as `str::parse` does.
pub fn parse_u64(s: &str) -> (r: Result<u64, IntErrorKind>)
    ensures
        match (r, parse_unsigned(s@, u64::MAX as nat)) {
            (Ok(a), Ok(b)) => a == b,
            (Err(a), Err(b)) => a == b,
            _ => false,
        },
{
    parse_bounded(s, 0xffff_ffff_ffff_ffff)
}

/// Reads `s` as an `i64`, as `str::parse` does.
pub fn parse_i64(s: &str) -> (r: Result<i64, IntErrorKind>)
    ensures
        match (r, parse_signed(s@)) {
            (Ok(a), Ok(b)) => a == b,
            (Err(a), Err(b)) => a == b,
            _ => false,
        },
{
    let v = chars_of(s);
    if v.len() > 0 && v[0] == '-' {
        if v.len() == 1 {
            return Err(IntErrorKind::InvalidDigit);
        }
        assert(v@.skip(1) =~= v@.drop_first());
        match scan_from(&v, 1, 0x8000_0000_0000_0000) {
            Ok(n) => {
                if n == 0x8000_0000_0000_0000 {
                    Ok(i64::MIN)
                } else {
                    Ok(-(n as i64))
                }
            },
            Err(IntErrorKind::PosOverflow) => Err(IntErrorKind::NegOverflow),
            Err(kind) => Err(kind),
        }
    } else {
        match parse_bounded(s, 0x7fff_ffff_ffff_ffff) {
            Ok(n) => Ok(n as i64),
            Err(kind) => Err(kind),
        }
    }
}

// ---------------------------------------------------------------------------
// Runs of characters
// ---------------------------------------------------------------------------

/// How many decimal digits `s` begins with.
pub open spec fn leading_digits(s: Seq<char>) -> nat
    decreases s.len(),
{
    if s.len() > 0 && is_digit(s[0]) {
        1 + leading_digits(s.drop_first())
    } else {
        0
    }
}

/// How many digits stand in `v` from `from` on.
pub(crate) fn count_digits(v: &Vec<char>, from: usize) -> (n: usize)
    ensures
        from <= v.len() ==> n == leading_digits(v@.skip(from as int)) && from + n <= v.len(),
        from > v.len() ==> n == 0,
{
    if from > v.len() {
        return 0;
    }
    let mut i: usize = from;
    while i < v.len() && is_ascii_digit(v[i])
        invariant
            from <= i <= v.len(),
            leading_digits(v@.skip(from as int)) == (i - from) + leading_digits(v@.skip(i as int)),
        decreases v.len() - i,
    {
        assert(v@.skip(i as int).drop_first() =~= v@.skip(i + 1));
        i += 1;
    }
    i - from
}

/// The first `n` characters of `s` are digits where `s` begins with `n`
/// digits or more.
pub proof fn lemma_leading_are_digits(s: Seq<char>, n: int)
    requires
        0 <= n <= leading_digits(s),
    ensures
        n <= s.len(),
        forall|k: int| 0 <= k < n ==> is_digit(#[trigger] s[k]),
    decreases n,
{
    if n > 0 {
        lemma_leading_are_digits(s.drop_first(), n - 1);
        assert forall|k: int| 0 <= k < n implies is_digit(#[trigger] s[k]) by {
            if k > 0 {
                assert(s[k] == s.drop_first()[k - 1]);
            }
        }
    }
}

pub open spec fn is_letter(c: char) -> bool {
    'a' <= c <= 'z' || 'A' <= c <= 'Z'
}

pub open spec fn is_lower(c: char) -> bool {
    'a' <= c <= 'z'
}

/// How many ASCII letters `s` begins with.
pub open spec fn leading_letters(s: Seq<char>) -> nat
    decreases s.len(),
{
    if s.len() > 0 && is_letter(s[0]) {
        1 + leading_letters(s.drop_first())
    } else {
        0
    }
}

/// How many lower-case ASCII letters `s` begins with.
pub open spec fn leading_lower(s: Seq<char>) -> nat
    decreases s.len(),
{
    if s.len() > 0 && is_lower(s[0]) {
        1 + leading_lower(s.drop_first())
    } else {
        0
    }
}

/// How many characters of white space `s` begins with.
pub open spec fn leading_spaces(s: Seq<char>) -> nat
    decreases s.len(),
{
    if s.len() > 0 && is_white_space(s[0]) {
        1 + leading_spaces(s.drop_first())
    } else {
        0
    }
}

/// How many ASCII letters stand in `v` from `from` on.
pub(crate) fn count_letters(v: &Vec<char>, from: usize) -> (n: usize)
    ensures
        from <= v.len() ==> n == leading_letters(v@.skip(from as int)) && from + n <= v.len(),
        from > v.len() ==> n == 0,
{
    if from > v.len() {
        return 0;
    }
    let mut i: usize = from;
    while i < v.len() && ((v[i] >= 'a' && v[i] <= 'z') || (v[i] >= 'A' && v[i] <= 'Z'))
        invariant
            from <= i <= v.len(),
            leading_letters(v@.skip(from as int)) == (i - from) + leading_letters(
                v@.skip(i as int),
            ),
        decreases v.len() - i,
    {
        assert(v@.skip(i as int).drop_first() =~= v@.skip(i + 1));
        i += 1;
    }
    i - from
}

/// How many lower-case ASCII letters stand in `v` from `from` on.
pub(crate) fn count_lower(v: &Vec<char>, from: usize) -> (n: usize)
    ensures
        from <= v.len() ==> n == leading_lower(v@.skip(from as int)) && from + n <= v.len(),
        from > v.len() ==> n == 0,
{
    if from > v.len() {
        return 0;
    }
    let mut i: usize = from;
    while i < v.len() && v[i] >= 'a' && v[i] <= 'z'
        invariant
            from <= i <= v.len(),
            leading_lower(v@.skip(from as int)) == (i - from) + leading_lower(v@.skip(i as int)),
        decreases v.len() - i,
    {
        assert(v@.skip(i as int).drop_first() =~= v@.skip(i + 1));
        i += 1;
    }
    i - from
}

/// How many characters of white space stand in `v` from `from` on.
pub(crate) fn count_spaces(v: &Vec<char>, from: usize) -> (n: usize)
    ensures
        from <= v.len() ==> n == leading_spaces(v@.skip(from as int)) && from + n <= v.len(),
        from > v.len() ==> n == 0,
{
    if from > v.len() {
        return 0;
    }
    let mut i: usize = from;
    while i < v.len() && is_whitespace(v[i])
        invariant
            from <= i <= v.len(),
            leading_spaces(v@.skip(from as int)) == (i - from) + leading_spaces(v@.skip(i as int)),
        decreases v.len() - i,
    {
        assert(v@.skip(i as int).drop_first() =~= v@.skip(i + 1));
        i += 1;
    }
    i - from
}

/// The number that one or two digits write; `None` for any other text.
pub open spec fn small_number(s: Seq<char>) -> Option<nat> {
    if 1 <= s.len() <= 2 && all_digits(s) {
        Some(digits_value(s))
    } else {
        None
    }
}

/// Reads `v[from..from + n]` as a number of one or two digits.
pub(crate) fn read_small(v: &Vec<char>, from: usize, n: usize) -> (r: Option<u32>)
    requires
        from + n <= v.len(),
        all_digits(v@.subrange(from as int, from + n)),
    ensures
        r matches Some(value) ==> small_number(v@.subrange(from as int, from + n)) == Some(
            value as nat,
        ) && value <= 99,
        r is None ==> small_number(v@.subrange(from as int, from + n)) is None,
{
    let ghost s = v@.subrange(from as int, from + n);
    if n == 1 {
        assert(s.drop_last() =~= Seq::<char>::empty());
        assert(is_digit(s[0]));
        reveal_with_fuel(digits_value, 2);
        Some(digit_value(v[from]) as u32)
    } else if n == 2 {
        assert(is_digit(s[0]) && is_digit(s[1]));
        assert(s.drop_last().drop_last() =~= Seq::<char>::empty());
        assert(s.drop_last().last() == s[0]);
        reveal_with_fuel(digits_value, 3);
        Some(digit_value(v[from]) as u32 * 10 + digit_value(v[from + 1]) as u32)
    } else {
        None
    }
}

/// After a run of digits that starts at `from`, the run holds digits only.
pub proof fn lemma_run_of_digits(s: Seq<char>, from: int, n: int)
    requires
        0 <= from <= s.len(),
        0 <= n <= leading_digits(s.skip(from)),
    ensures
        from + n <= s.len(),
        all_digits(s.subrange(from, from + n)),
{
    lemma_leading_are_digits(s.skip(from), n);
    assert forall|i: int| 0 <= i < n implies is_digit(#[trigger] s.subrange(from, from + n)[i]) by {
        assert(s.subrange(from, from + n)[i] == s.skip(from)[i]);
    }
}

/// Where exactly `n` digits stand in `s` from `from` on, and then no digit,
/// the run of digits there has length `n`.
pub proof fn lemma_digits_counted(s: Seq<char>, from: int, n: int)
    requires
        0 <= from,
        0 <= n,
        from + n <= s.len(),
        forall|i: int| from <= i < from + n ==> is_digit(#[trigger] s[i]),
        from + n == s.len() || !is_digit(s[from + n]),
    ensures
        leading_digits(s.skip(from)) == n,
    decreases n,
{
    if from < s.len() {
        assert(s.skip(from)[0] == s[from]);
    }
    if n > 0 {
        assert(s.skip(from).drop_first() =~= s.skip(from + 1));
        lemma_digits_counted(s, from + 1, n - 1);
    }
}

/// Where exactly `n` letters stand in `s` from `from` on, and then no
/// letter, the run of letters there has length `n`.
pub proof fn lemma_letters_counted(s: Seq<char>, from: int, n: int)
    requires
        0 <= from,
        0 <= n,
        from + n <= s.len(),
        forall|i: int| from <= i < from + n ==> is_letter(#[trigger] s[i]),
        from + n == s.len() || !is_letter(s[from + n]),
    ensures
        leading_letters(s.skip(from)) == n,
    decreases n,
{
    if from < s.len() {
        assert(s.skip(from)[0] == s[from]);
    }
    if n > 0 {
        assert(s.skip(from).drop_first() =~= s.skip(from + 1));
        lemma_letters_counted(s, from + 1, n - 1);
    }
}

/// Where exactly `n` lower-case letters stand in `s` from `from` on, and
/// then none, the run of lower-case letters there has length `n`.
pub proof fn lemma_lower_counted(s: Seq<char>, from: int, n: int)
    requires
        0 <= from,
        0 <= n,
        from + n <= s.len(),
        forall|i: int| from <= i < from + n ==> is_lower(#[trigger] s[i]),
        from + n == s.len() || !is_lower(s[from + n]),
    ensures
        leading_lower(s.skip(from)) == n,
    decreases n,
{
    if from < s.len() {
        assert(s.skip(from)[0] == s[from]);
    }
    if n > 0 {
        assert(s.skip(from).drop_first() =~= s.skip(from + 1));
        lemma_lower_counted(s, from + 1, n - 1);
    }
}

/// Where exactly `n` characters of white space stand in `s` from `from` on,
/// and then none, the run of white space there has length `n`.
pub proof fn lemma_spaces_counted(s: Seq<char>, from: int, n: int)
    requires
        0 <= from,
        0 <= n,
        from + n <= s.len(),
        forall|i: int| from <= i < from + n ==> is_white_space(#[trigger] s[i]),
        from + n == s.len() || !is_white_space(s[from + n]),
    ensures
        leading_spaces(s.skip(from)) == n,
    decreases n,
{
    if from < s.len() {
        assert(s.skip(from)[0] == s[from]);
    }
    if n > 0 {
        assert(s.skip(from).drop_first() =~= s.skip(from + 1));
        lemma_spaces_counted(s, from + 1, n - 1);
    }
}

} // verus!
