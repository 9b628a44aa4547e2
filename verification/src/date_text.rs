//! Reading dates from text and writing them as text.
//!
//! Dates are read and serialized as `YYYY-MM-DDTHH:MM:SS`, and displayed as
//! `DD.MM.YYYY` and `HH:MM:SS`.

use vstd::prelude::*;
use vstd::string::*;
use crate::date::{valid_civil, Civil, Date};

verus! {

/// The value of a decimal digit character.
pub open spec fn digit_value(c: char) -> Option<int> {
    if 48 <= c as u32 <= 57 {
        Some(c as u32 - 48)
    } else {
        None
    }
}

/// The character of a decimal digit.
pub open spec fn digit_char(d: int) -> char {
    (d + 48) as char
}

/// The number written by the two digits at `start`, if they are digits.
pub open spec fn two_digits(s: Seq<char>, start: int) -> Option<int> {
    match (digit_value(s[start]), digit_value(s[start + 1])) {
        (Some(tens), Some(ones)) => Some(10 * tens + ones),
        _ => None,
    }
}

/// The number written by the four digits at `start`, if they are digits.
pub open spec fn four_digits(s: Seq<char>, start: int) -> Option<int> {
    match (two_digits(s, start), two_digits(s, start + 2)) {
        (Some(high), Some(low)) => Some(100 * high + low),
        _ => None,
    }
}

/// The calendar fields that a text of the form `YYYY-MM-DDTHH:MM:SS`
/// names; `None` for any other text, and where the fields name no valid date.
pub open spec fn parse_civil(s: Seq<char>) -> Option<Civil> {
    if s.len() == 19 && s[4] == '-' && s[7] == '-' && s[10] == 'T' && s[13] == ':' && s[16]
        == ':' {
        match (
            four_digits(s, 0),
            two_digits(s, 5),
            two_digits(s, 8),
            two_digits(s, 11),
            two_digits(s, 14),
            two_digits(s, 17),
        ) {
            (Some(year), Some(month), Some(day), Some(hour), Some(minute), Some(second)) => {
                let c = Civil { year, month, day, hour, minute, second };
                if valid_civil(c) {
                    Some(c)
                } else {
                    None
                }
            },
            _ => None,
        }
    } else {
        None
    }
}

/// A number below 100 as two decimal digits.
pub open spec fn two_digit_text(n: int) -> Seq<char> {
    seq![digit_char(n / 10), digit_char(n % 10)]
}

/// A number below 10000 as four decimal digits.
pub open spec fn four_digit_text(n: int) -> Seq<char> {
    two_digit_text(n / 100) + two_digit_text(n % 100)
}

/// The day as `DD.MM.YYYY`.
pub open spec fn dot_date_text(c: Civil) -> Seq<char> {
    two_digit_text(c.day) + seq!['.'] + two_digit_text(c.month) + seq!['.'] + four_digit_text(
        c.year,
    )
}

/// The time of day as `HH:MM:SS`.
pub open spec fn time_text(c: Civil) -> Seq<char> {
    two_digit_text(c.hour) + seq![':'] + two_digit_text(c.minute) + seq![':'] + two_digit_text(
        c.second,
    )
}

/// The date and time as `YYYY-MM-DDTHH:MM:SS`.
pub open spec fn iso_text(c: Civil) -> Seq<char> {
    four_digit_text(c.year) + seq!['-'] + two_digit_text(c.month) + seq!['-'] + two_digit_text(
        c.day,
    ) + seq!['T'] + time_text(c)
}

/// The ways in which a date is written as text.
#[derive(Clone, Copy, PartialEq, Eq, Structural, Debug)]
pub enum DateFormat {
    /// `DD.MM.YYYY`
    DotDate,
    /// `HH:MM:SS`
    Time,
    /// `YYYY-MM-DDTHH:MM:SS`
    Iso,
}

/// The text of `c` in the given format.
pub open spec fn format_text(c: Civil, format: DateFormat) -> Seq<char> {
    match format {
        DateFormat::DotDate => dot_date_text(c),
        DateFormat::Time => time_text(c),
        DateFormat::Iso => iso_text(c),
    }
}

fn digit_at(s: &str, i: usize) -> (digit: Option<u8>)
    requires
        i < s@.len(),
    ensures
        digit is Some <==> digit_value(s@[i as int]) is Some,
        digit matches Some(d) ==> digit_value(s@[i as int]) == Some(d as int) && d < 10,
{
    let c: u32 = s.get_char(i) as u32;
    if 48 <= c && c <= 57 {
        Some((c - 48) as u8)
    } else {
        None
    }
}

fn two_digits_at(s: &str, i: usize) -> (number: Option<u8>)
    requires
        i + 1 < s@.len() <= usize::MAX,
    ensures
        number is Some <==> two_digits(s@, i as int) is Some,
        number matches Some(n) ==> two_digits(s@, i as int) == Some(n as int) && n < 100,
{
    match (digit_at(s, i), digit_at(s, i + 1)) {
        (Some(tens), Some(ones)) => Some(10 * tens + ones),
        _ => None,
    }
}

fn four_digits_at(s: &str, i: usize) -> (number: Option<u16>)
    requires
        i + 3 < s@.len() <= usize::MAX,
    ensures
        number is Some <==> four_digits(s@, i as int) is Some,
        number matches Some(n) ==> four_digits(s@, i as int) == Some(n as int) && n < 10000,
{
    match (two_digits_at(s, i), two_digits_at(s, i + 2)) {
        (Some(high), Some(low)) => Some(100 * (high as u16) + (low as u16)),
        _ => None,
    }
}

fn digit_str(d: u8) -> (text: &'static str)
    requires
        d < 10,
    ensures
        text@ == seq![digit_char(d as int)],
{
    proof {
        reveal_strlit("0");
        reveal_strlit("1");
        reveal_strlit("2");
        reveal_strlit("3");
        reveal_strlit("4");
        reveal_strlit("5");
        reveal_strlit("6");
        reveal_strlit("7");
        reveal_strlit("8");
        reveal_strlit("9");
    }
    let text: &'static str = if d == 0 {
        "0"
    } else if d == 1 {
        "1"
    } else if d == 2 {
        "2"
    } else if d == 3 {
        "3"
    } else if d == 4 {
        "4"
    } else if d == 5 {
        "5"
    } else if d == 6 {
        "6"
    } else if d == 7 {
        "7"
    } else if d == 8 {
        "8"
    } else {
        "9"
    };
    assert(text@ =~= seq![digit_char(d as int)]);
    text
}

fn push_two_digits(out: &mut String, n: u8)
    requires
        n < 100,
    ensures
        final(out)@ == old(out)@ + two_digit_text(n as int),
{
    out.append(digit_str(n / 10));
    out.append(digit_str(n % 10));
    assert(out@ =~= old(out)@ + two_digit_text(n as int));
}

fn push_four_digits(out: &mut String, n: u16)
    requires
        n < 10000,
    ensures
        final(out)@ == old(out)@ + four_digit_text(n as int),
{
    push_two_digits(out, (n / 100) as u8);
    push_two_digits(out, (n % 100) as u8);
    assert(out@ =~= old(out)@ + four_digit_text(n as int));
}

fn push_mark(out: &mut String, mark: char)
    requires
        mark == '.' || mark == ':' || mark == '-' || mark == 'T',
    ensures
        final(out)@ == old(out)@ + seq![mark],
{
    proof {
        reveal_strlit(".");
        reveal_strlit(":");
        reveal_strlit("-");
        reveal_strlit("T");
    }
    let text: &'static str = if mark == '.' {
        "."
    } else if mark == ':' {
        ":"
    } else if mark == '-' {
        "-"
    } else {
        "T"
    };
    assert(text@ =~= seq![mark]);
    out.append(text);
}

fn push_time(out: &mut String, date: &Date)
    ensures
        final(out)@ == old(out)@ + time_text(date@),
{
    push_two_digits(out, date.hour());
    push_mark(out, ':');
    push_two_digits(out, date.minute());
    push_mark(out, ':');
    push_two_digits(out, date.second());
    assert(out@ =~= old(out)@ + time_text(date@));
}

impl Date {
    /// Reads a date written as `YYYY-MM-DDTHH:MM:SS`; `None` for any other
    /// text, and where the fields name no valid date.
    pub fn parse(text: &str) -> (date: Option<Date>)
        ensures
            date is Some <==> parse_civil(text@) is Some,
            date matches Some(d) ==> parse_civil(text@) == Some(d@),
    {
        if text.unicode_len() != 19 {
            return None;
        }
        if text.get_char(4) != '-' || text.get_char(7) != '-' || text.get_char(10) != 'T'
            || text.get_char(13) != ':' || text.get_char(16) != ':' {
            return None;
        }
        match (
            four_digits_at(text, 0),
            two_digits_at(text, 5),
            two_digits_at(text, 8),
            two_digits_at(text, 11),
            two_digits_at(text, 14),
            two_digits_at(text, 17),
        ) {
            (Some(year), Some(month), Some(day), Some(hour), Some(minute), Some(second)) => {
                Date::new(year, month, day, hour, minute, second)
            },
            _ => None,
        }
    }

    /// This date as text in the given format.
    pub fn format(&self, format: DateFormat) -> (text: String)
        ensures
            text@ == format_text(self@, format),
    {
        let mut out: String = String::new();
        match format {
            DateFormat::DotDate => {
                push_two_digits(&mut out, self.day());
                push_mark(&mut out, '.');
                push_two_digits(&mut out, self.month());
                push_mark(&mut out, '.');
                push_four_digits(&mut out, self.year());
                assert(out@ =~= dot_date_text(self@));
            },
            DateFormat::Time => {
                push_time(&mut out, self);
                assert(out@ =~= time_text(self@));
            },
            DateFormat::Iso => {
                push_four_digits(&mut out, self.year());
                push_mark(&mut out, '-');
                push_two_digits(&mut out, self.month());
                push_mark(&mut out, '-');
                push_two_digits(&mut out, self.day());
                push_mark(&mut out, 'T');
                push_time(&mut out, self);
                assert(out@ =~= iso_text(self@));
            },
        }
        out
    }
}

/// Reading back the serialized text of a valid date gives that date.
pub proof fn law_parse_inverts_iso_text(c: Civil)
    requires
        valid_civil(c),
    ensures
        parse_civil(iso_text(c)) == Some(c),
{
    let s = iso_text(c);
    lemma_iso_text_chars(c);
    lemma_digit_reads_back(c.year / 100 / 10);
    lemma_digit_reads_back(c.year / 100 % 10);
    lemma_digit_reads_back(c.year % 100 / 10);
    lemma_digit_reads_back(c.year % 100 % 10);
    assert(four_digits(s, 0) == Some(c.year));
    lemma_digit_reads_back(c.month / 10);
    lemma_digit_reads_back(c.month % 10);
    assert(two_digits(s, 5) == Some(c.month));
    lemma_digit_reads_back(c.day / 10);
    lemma_digit_reads_back(c.day % 10);
    assert(two_digits(s, 8) == Some(c.day));
    lemma_digit_reads_back(c.hour / 10);
    lemma_digit_reads_back(c.hour % 10);
    assert(two_digits(s, 11) == Some(c.hour));
    lemma_digit_reads_back(c.minute / 10);
    lemma_digit_reads_back(c.minute % 10);
    assert(two_digits(s, 14) == Some(c.minute));
    lemma_digit_reads_back(c.second / 10);
    lemma_digit_reads_back(c.second % 10);
    assert(two_digits(s, 17) == Some(c.second));
}

proof fn lemma_digit_reads_back(d: int)
    requires
        0 <= d < 10,
    ensures
        digit_value(digit_char(d)) == Some(d),
{
}

proof fn lemma_iso_text_chars(c: Civil)
    ensures
        iso_text(c) == seq![
            digit_char(c.year / 100 / 10),
            digit_char(c.year / 100 % 10),
            digit_char(c.year % 100 / 10),
            digit_char(c.year % 100 % 10),
            '-',
            digit_char(c.month / 10),
            digit_char(c.month % 10),
            '-',
            digit_char(c.day / 10),
            digit_char(c.day % 10),
            'T',
            digit_char(c.hour / 10),
            digit_char(c.hour % 10),
            ':',
            digit_char(c.minute / 10),
            digit_char(c.minute % 10),
            ':',
            digit_char(c.second / 10),
            digit_char(c.second % 10),
        ],
{
    let t = time_text(c);
    assert(t =~= seq![
        digit_char(c.hour / 10),
        digit_char(c.hour % 10),
        ':',
        digit_char(c.minute / 10),
        digit_char(c.minute % 10),
        ':',
        digit_char(c.second / 10),
        digit_char(c.second % 10),
    ]);
    let d = four_digit_text(c.year) + seq!['-'] + two_digit_text(c.month) + seq!['-']
        + two_digit_text(c.day) + seq!['T'];
    assert(d =~= seq![
        digit_char(c.year / 100 / 10),
        digit_char(c.year / 100 % 10),
        digit_char(c.year % 100 / 10),
        digit_char(c.year % 100 % 10),
        '-',
        digit_char(c.month / 10),
        digit_char(c.month % 10),
        '-',
        digit_char(c.day / 10),
        digit_char(c.day % 10),
        'T',
    ]);
    assert(iso_text(c) =~= d + t);
}

} // verus!
