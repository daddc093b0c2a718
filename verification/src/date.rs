use vstd::prelude::*;

use chrono::Datelike;

verus! {

/// A calendar date with the fields the pipeline reads: year, month and day of
/// the entry's publication date.
#[derive(Clone, Copy, Debug, PartialEq, Eq, Structural)]
pub struct Date {
    pub year: u32,
    pub month: u32,
    pub day: u32,
}

impl Date {
    /// Well-formedness: the fields fit a `MM-DD-YYYY` rendering. Year 0 is
    /// allowed and renders as `0000`; years past 9999 would not fit four
    /// digits and are rejected.
    pub open spec fn wf(self) -> bool {
        &&& self.year <= 9999
        &&& 1 <= self.month <= 12
        &&& 1 <= self.day <= 31
    }
}

/// The date a well-formed `Date` can carry, `None` where a field is out of
/// range.
pub open spec fn spec_date_from_parts(year: int, month: int, day: int) -> Option<Date> {
    if 0 <= year <= 9999 && 1 <= month <= 12 && 1 <= day <= 31 {
        Some(Date { year: year as u32, month: month as u32, day: day as u32 })
    } else {
        None
    }
}

/// What the outside RFC 2822 parser returns for a date string: `None` when the
/// string does not parse, else the (year, month, day) triple. A function of
/// the characters alone.
pub uninterp spec fn rfc2822_date_of(s: Seq<char>) -> Option<(int, int, int)>;

/// Relies on chrono's `DateTime::<FixedOffset>::parse_from_rfc2822` and the
/// `Datelike` accessors `year`, `month` and `day`: the parse is a function of
/// the input characters alone, and chrono documents `month` in 1..=12 and
/// `day` in 1..=31.
#[verifier::external_body]
fn parse_rfc2822_parts(s: &str) -> (r: Option<(i64, u32, u32)>)
    ensures
        r matches Some(p) ==> rfc2822_date_of(s@) == Some((p.0 as int, p.1 as int, p.2 as int))
            && 1 <= p.1 <= 12 && 1 <= p.2 <= 31,
        r is None ==> rfc2822_date_of(s@) is None,
{
    match chrono::DateTime::parse_from_rfc2822(s) {
        Ok(d) => Some((d.year() as i64, d.month(), d.day())),
        Err(_) => None,
    }
}

impl Date {
    /// Builds a well-formed `Date` from plain parts; `None` where a part is
    /// out of range.
    pub fn from_parts(year: i64, month: u32, day: u32) -> (r: Option<Date>)
        ensures
            r == spec_date_from_parts(year as int, month as int, day as int),
            r matches Some(d) ==> d.wf(),
    {
        if 0 <= year && year <= 9999 && 1 <= month && month <= 12 && 1 <= day && day <= 31 {
            Some(Date { year: year as u32, month, day })
        } else {
            None
        }
    }

    /// Parses an RFC 2822 date string into a well-formed `Date`; `None` when
    /// the string does not parse or its year is out of range.
    pub fn parse_rfc2822(s: &str) -> (r: Option<Date>)
        ensures
            r == spec_parse_date(s@),
            r matches Some(d) ==> d.wf(),
    {
        match parse_rfc2822_parts(s) {
            Some(p) => Date::from_parts(p.0, p.1, p.2),
            None => None,
        }
    }
}

/// The date the pipeline keeps for a publication-date string: the RFC 2822
/// parse, restricted to dates whose parts fit a `MM-DD-YYYY` rendering.
pub open spec fn spec_parse_date(s: Seq<char>) -> Option<Date> {
    match rfc2822_date_of(s) {
        None => None,
        Some(p) => spec_date_from_parts(p.0, p.1, p.2),
    }
}

/// The decimal digit character for `d` in 0..=9.
pub open spec fn digit_char(d: int) -> char {
    if d == 0 {
        '0'
    } else if d == 1 {
        '1'
    } else if d == 2 {
        '2'
    } else if d == 3 {
        '3'
    } else if d == 4 {
        '4'
    } else if d == 5 {
        '5'
    } else if d == 6 {
        '6'
    } else if d == 7 {
        '7'
    } else if d == 8 {
        '8'
    } else {
        '9'
    }
}

/// `n` rendered as two decimal digits, zero-padded.
pub open spec fn two_digits(n: int) -> Seq<char> {
    seq![digit_char(n / 10), digit_char(n % 10)]
}

/// `n` rendered as four decimal digits, zero-padded.
pub open spec fn four_digits(n: int) -> Seq<char> {
    seq![
        digit_char(n / 1000),
        digit_char(n / 100 % 10),
        digit_char(n / 10 % 10),
        digit_char(n % 10),
    ]
}

/// A well-formed date rendered as `MM-DD-YYYY`.
pub open spec fn spec_format_date(d: Date) -> Seq<char> {
    two_digits(d.month as int) + "-"@ + two_digits(d.day as int) + "-"@ + four_digits(
        d.year as int,
    )
}

/// The one-character string for a decimal digit.
fn digit_str(d: u32) -> (r: &'static str)
    requires
        d < 10,
    ensures
        r@ == seq![digit_char(d as int)],
{
    proof {
        reveal_strlit("0");
        reveal_strlit("1");
        reveal_strlit("2");
        reveal_strlit("3");
        reveal_strlit("4");
        reveal_strlit("5");
        reveal_strlit("6");
        reveal_strlit("7");
        reveal_strlit("8");
        reveal_strlit("9");
    }
    let r: &'static str = if d == 0 {
        "0"
    } else if d == 1 {
        "1"
    } else if d == 2 {
        "2"
    } else if d == 3 {
        "3"
    } else if d == 4 {
        "4"
    } else if d == 5 {
        "5"
    } else if d == 6 {
        "6"
    } else if d == 7 {
        "7"
    } else if d == 8 {
        "8"
    } else {
        "9"
    };
    proof {
        assert(r@ =~= seq![digit_char(d as int)]);
    }
    r
}

/// Renders a well-formed date as `MM-DD-YYYY`, each part zero-padded.
pub fn format_date(d: &Date) -> (r: String)
    requires
        d.wf(),
    ensures
        r@ == spec_format_date(*d),
{
    let mut s = String::new();
    s.append(digit_str(d.month / 10));
    s.append(digit_str(d.month % 10));
    s.append("-");
    s.append(digit_str(d.day / 10));
    s.append(digit_str(d.day % 10));
    s.append("-");
    s.append(digit_str(d.year / 1000));
    s.append(digit_str(d.year / 100 % 10));
    s.append(digit_str(d.year / 10 % 10));
    s.append(digit_str(d.year % 10));
    proof {
        assert(s@ =~= spec_format_date(*d));
    }
    s
}

} // verus!
