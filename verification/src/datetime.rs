//! Timestamps: parsed with `chrono`, written back in the database's
//! `%Y-%m-%d %H:%M:%S` form.
use vstd::prelude::*;
use chrono::{Datelike, Timelike};

use crate::text::{decimal, digit_char, push_char, push_decimal};

verus! {

/// The fields of a date and time as `chrono` hands them out.
#[derive(Debug, Clone, Copy, PartialEq, Eq, Structural)]
pub struct DateTimeParts {
    pub year: i32,
    pub month: u32,
    pub day: u32,
    pub hour: u32,
    pub minute: u32,
    pub second: u32,
    /// Above 999,999,999 during a leap second.
    pub nanosecond: u32,
}

/// What `chrono::NaiveDateTime::parse_from_str(text, format)` gives, as fields.
pub uninterp spec fn parsed_datetime(text: Seq<char>, format: Seq<char>) -> Option<DateTimeParts>;

/// Parses `text` with `chrono::NaiveDateTime::parse_from_str`.
///
/// Trusted: the result depends on the text and the format alone; on success
/// the fields are in the ranges chrono documents for `Datelike` and
/// `Timelike` (month 1..=12, day 1..=31, hour 0..=23, minute and second
/// 0..=59, nanosecond below 2,000,000,000).
#[verifier::external_body]
pub(crate) fn parse_datetime(text: &str, format: &str) -> (r: Option<DateTimeParts>)
    ensures
        r == parsed_datetime(text@, format@),
        r matches Some(p) ==> 1 <= p.month <= 12 && 1 <= p.day <= 31 && p.hour <= 23 && p.minute
            <= 59 && p.second <= 59 && p.nanosecond < 2_000_000_000,
{
    match chrono::NaiveDateTime::parse_from_str(text, format) {
        Ok(dt) => Some(
            DateTimeParts {
                year: dt.year(),
                month: dt.month(),
                day: dt.day(),
                hour: dt.hour(),
                minute: dt.minute(),
                second: dt.second(),
                nanosecond: dt.nanosecond(),
            },
        ),
        Err(_) => None,
    }
}

/// A value below one hundred as two digits, as chrono's `%m`, `%d`, `%H`,
/// `%M` and `%S` write it.
pub open spec fn two_digits(v: nat) -> Seq<char> {
    seq![digit_char(v / 10), digit_char(v % 10)]
}

/// `d` padded on the left with zeros to at least `width` characters.
pub open spec fn zero_pad(d: Seq<char>, width: nat) -> Seq<char>
    decreases width,
{
    if d.len() >= width {
        d
    } else {
        seq!['0'] + zero_pad(d, (width - 1) as nat)
    }
}

/// A year as chrono's `%Y` writes it: four digits within 0..=9999, and
/// otherwise a sign followed by at least four digits.
pub open spec fn year_text(y: int) -> Seq<char> {
    if 0 <= y <= 9999 {
        zero_pad(decimal(y as nat), 4)
    } else if y < 0 {
        seq!['-'] + zero_pad(decimal((-y) as nat), 4)
    } else {
        seq!['+'] + zero_pad(decimal(y as nat), 4)
    }
}

/// A date and time written as `%Y-%m-%d %H:%M:%S`; a leap second shows as 60.
pub open spec fn datetime_text(p: DateTimeParts) -> Seq<char> {
    year_text(p.year as int) + seq!['-'] + two_digits(p.month as nat) + seq!['-'] + two_digits(
        p.day as nat,
    ) + seq![' '] + two_digits(p.hour as nat) + seq![':'] + two_digits(p.minute as nat) + seq![
        ':',
    ] + two_digits((p.second + p.nanosecond / 1_000_000_000) as nat)
}

/// Whether a field is within the range chrono gives it.
pub open spec fn parts_in_range(p: DateTimeParts) -> bool {
    1 <= p.month <= 12 && 1 <= p.day <= 31 && p.hour <= 23 && p.minute <= 59 && p.second <= 59
        && p.nanosecond < 2_000_000_000
}

proof fn lemma_decimal_len(n: nat)
    ensures
        decimal(n).len() >= 1,
        n < 10 ==> decimal(n).len() == 1,
        10 <= n ==> decimal(n).len() >= 2,
        n < 100 ==> decimal(n).len() <= 2,
        100 <= n ==> decimal(n).len() >= 3,
        n < 1000 ==> decimal(n).len() <= 3,
        1000 <= n ==> decimal(n).len() >= 4,
    decreases n,
{
    if n >= 10 {
        lemma_decimal_len(n / 10);
    }
}

fn push_two(s: &mut String, v: u32)
    requires
        v < 100,
    ensures
        final(s)@ == old(s)@ + two_digits(v as nat),
{
    let t = v / 10;
    let o = v % 10;
    push_char(s, digit(t));
    push_char(s, digit(o));
    assert(final(s)@ =~= old(s)@ + two_digits(v as nat));
}

fn digit(d: u32) -> (r: char)
    requires
        d < 10,
    ensures
        r == digit_char(d as nat),
{
    let b = (48 + d) as u8;
    b as char
}

fn push_padded(s: &mut String, n: u64, width: usize)
    requires
        width <= 4,
    ensures
        final(s)@ == old(s)@ + zero_pad(decimal(n as nat), width as nat),
    decreases width,
{
    let ghost d = decimal(n as nat);
    proof {
        lemma_decimal_len(n as nat);
    }
    let wide_enough = width <= 1 || (width == 2 && n >= 10) || (width == 3 && n >= 100) || (width
        == 4 && n >= 1000);
    if wide_enough {
        push_decimal(s, n);
    } else {
        push_char(s, '0');
        push_padded(s, n, width - 1);
        assert(final(s)@ =~= old(s)@ + zero_pad(d, width as nat));
    }
}

/// Writes a date and time as `%Y-%m-%d %H:%M:%S`, as chrono formats it.
pub fn format_datetime(p: DateTimeParts) -> (r: String)
    requires
        parts_in_range(p),
    ensures
        r@ == datetime_text(p),
{
    let mut s = String::new();
    if 0 <= p.year && p.year <= 9999 {
        push_padded(&mut s, p.year as u64, 4);
    } else if p.year < 0 {
        push_char(&mut s, '-');
        let m: u64 = (0i64 - (p.year as i64)) as u64;
        push_padded(&mut s, m, 4);
    } else {
        push_char(&mut s, '+');
        push_padded(&mut s, p.year as u64, 4);
    }
    let ghost y = s@;
    push_char(&mut s, '-');
    push_two(&mut s, p.month);
    push_char(&mut s, '-');
    push_two(&mut s, p.day);
    push_char(&mut s, ' ');
    push_two(&mut s, p.hour);
    push_char(&mut s, ':');
    push_two(&mut s, p.minute);
    push_char(&mut s, ':');
    push_two(&mut s, p.second + p.nanosecond / 1_000_000_000);
    proof {
        assert(y =~= year_text(p.year as int));
        assert(s@ =~= datetime_text(p));
    }
    s
}

/// Reads `text` with `format` and, when chrono accepts it, writes it back in
/// the database form.
pub fn reformat_timestamp(text: &str, format: &str) -> (r: Option<String>)
    ensures
        r matches Some(s) ==> parsed_datetime(text@, format@) matches Some(p) && s@
            == datetime_text(p),
        r is None <==> parsed_datetime(text@, format@) is None,
{
    match parse_datetime(text, format) {
        Some(p) => Some(format_datetime(p)),
        None => None,
    }
}

} // verus!
