use vstd::prelude::*;
use vstd::string::StrSliceExecFns;

verus! {

/// A calendar date held as plain values, with its validity as an invariant.
#[derive(Clone, Copy, PartialEq, Eq, Structural, Debug)]
pub struct Date {
    pub year: i32,
    pub month: u8,
    pub day: u8,
}

pub open spec fn is_leap_year(y: int) -> bool {
    (y % 4 == 0 && y % 100 != 0) || y % 400 == 0
}

pub open spec fn days_in_month(y: int, m: int) -> int {
    if m == 2 {
        if is_leap_year(y) {
            29
        } else {
            28
        }
    } else if m == 4 || m == 6 || m == 9 || m == 11 {
        30
    } else {
        31
    }
}

impl Date {
    /// Well-formedness of a date: a four-digit year and a day that exists in
    /// its month, leap years included.
    pub open spec fn is_valid(self) -> bool {
        &&& 0 <= self.year <= 9999
        &&& 1 <= self.month <= 12
        &&& 1 <= self.day <= days_in_month(self.year as int, self.month as int)
    }
}

pub open spec fn is_dec_digit(c: char) -> bool {
    48 <= c as int <= 57
}

pub open spec fn digit_val(c: char) -> int {
    c as int - 48
}

/// Year extraction from a raw date string: the leading four characters read
/// as decimal digits, absent when the string is shorter or one of them is no
/// digit.
pub open spec fn year_of_str(s: Seq<char>) -> Option<i32> {
    if s.len() >= 4 && is_dec_digit(s[0]) && is_dec_digit(s[1]) && is_dec_digit(s[2])
        && is_dec_digit(s[3]) {
        Some((1000 * digit_val(s[0]) + 100 * digit_val(s[1]) + 10 * digit_val(s[2]) + digit_val(
            s[3],
        )) as i32)
    } else {
        None
    }
}

pub open spec fn date_shape_ok(s: Seq<char>) -> bool {
    &&& s.len() == 10
    &&& is_dec_digit(s[0])
    &&& is_dec_digit(s[1])
    &&& is_dec_digit(s[2])
    &&& is_dec_digit(s[3])
    &&& s[4] == '-'
    &&& is_dec_digit(s[5])
    &&& is_dec_digit(s[6])
    &&& s[7] == '-'
    &&& is_dec_digit(s[8])
    &&& is_dec_digit(s[9])
}

pub open spec fn year_field(s: Seq<char>) -> int {
    1000 * digit_val(s[0]) + 100 * digit_val(s[1]) + 10 * digit_val(s[2]) + digit_val(s[3])
}

pub open spec fn month_field(s: Seq<char>) -> int {
    10 * digit_val(s[5]) + digit_val(s[6])
}

pub open spec fn day_field(s: Seq<char>) -> int {
    10 * digit_val(s[8]) + digit_val(s[9])
}

/// Full-date parsing of a raw date string: the strict `YYYY-MM-DD` shape,
/// rejected when the month or the day does not exist in the calendar.
pub open spec fn date_of_str(s: Seq<char>) -> Option<Date> {
    if date_shape_ok(s) && 1 <= month_field(s) <= 12 && 1 <= day_field(s) <= days_in_month(
        year_field(s),
        month_field(s),
    ) {
        Some(
            Date {
                year: year_field(s) as i32,
                month: month_field(s) as u8,
                day: day_field(s) as u8,
            },
        )
    } else {
        None
    }
}

/// Round-trip law of year extraction: a raw date string that begins with
/// four decimal digits always yields the year those digits spell, whatever
/// follows them.
pub proof fn lemma_year_of_well_formed(s: Seq<char>)
    requires
        s.len() >= 4,
        is_dec_digit(s[0]),
        is_dec_digit(s[1]),
        is_dec_digit(s[2]),
        is_dec_digit(s[3]),
    ensures
        year_of_str(s) == Some(
            (1000 * digit_val(s[0]) + 100 * digit_val(s[1]) + 10 * digit_val(s[2]) + digit_val(
                s[3],
            )) as i32,
        ),
{
}

fn is_digit(c: char) -> (r: bool)
    ensures
        r == is_dec_digit(c),
{
    let u = c as u32;
    48 <= u && u <= 57
}

fn digit(c: char) -> (r: i32)
    requires
        is_dec_digit(c),
    ensures
        r == digit_val(c),
        0 <= r <= 9,
{
    (c as u32 - 48) as i32
}

/// Derives a publish year from a raw start-date string, absent when the
/// string does not begin with four decimal digits.
pub fn convert_date_to_year(s: &str) -> (r: Option<i32>)
    ensures
        r == year_of_str(s@),
{
    let n = s.unicode_len();
    if n < 4 {
        return None;
    }
    let c0 = s.get_char(0);
    let c1 = s.get_char(1);
    let c2 = s.get_char(2);
    let c3 = s.get_char(3);
    if is_digit(c0) && is_digit(c1) && is_digit(c2) && is_digit(c3) {
        Some(1000 * digit(c0) + 100 * digit(c1) + 10 * digit(c2) + digit(c3))
    } else {
        None
    }
}

fn days_in_month_exec(y: i32, m: u8) -> (r: i32)
    requires
        1 <= m <= 12,
    ensures
        r == days_in_month(y as int, m as int),
        28 <= r <= 31,
{
    if m == 2 {
        if (y % 4 == 0 && y % 100 != 0) || y % 400 == 0 {
            29
        } else {
            28
        }
    } else if m == 4 || m == 6 || m == 9 || m == 11 {
        30
    } else {
        31
    }
}

/// Parses a raw start-date string as a strict `YYYY-MM-DD` calendar date,
/// absent whenever the shape or the calendar rejects it.
pub fn convert_string_to_date(s: &str) -> (r: Option<Date>)
    ensures
        r == date_of_str(s@),
        r matches Some(d) ==> d.is_valid(),
{
    let n = s.unicode_len();
    if n != 10 {
        return None;
    }
    let c0 = s.get_char(0);
    let c1 = s.get_char(1);
    let c2 = s.get_char(2);
    let c3 = s.get_char(3);
    let c4 = s.get_char(4);
    let c5 = s.get_char(5);
    let c6 = s.get_char(6);
    let c7 = s.get_char(7);
    let c8 = s.get_char(8);
    let c9 = s.get_char(9);
    if !(is_digit(c0) && is_digit(c1) && is_digit(c2) && is_digit(c3) && c4 == '-' && is_digit(c5)
        && is_digit(c6) && c7 == '-' && is_digit(c8) && is_digit(c9)) {
        return None;
    }
    let year: i32 = 1000 * digit(c0) + 100 * digit(c1) + 10 * digit(c2) + digit(c3);
    let month: i32 = 10 * digit(c5) + digit(c6);
    let day: i32 = 10 * digit(c8) + digit(c9);
    if month < 1 || month > 12 {
        return None;
    }
    if day < 1 || day > days_in_month_exec(year, month as u8) {
        return None;
    }
    Some(Date { year, month: month as u8, day: day as u8 })
}

} // verus!
