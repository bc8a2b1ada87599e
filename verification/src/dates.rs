//! Calendar days, modelled as day numbers in the proleptic Gregorian
//! calendar. All date arithmetic the search logic performs (stride jumps,
//! one-day rollbacks, range enumeration, comparisons) is plain integer
//! arithmetic on the day number; only the conversion between day numbers
//! and `(year, month, day)` triples is delegated to `chrono`.

use vstd::prelude::*;

verus! {

/// A calendar day in UTC, held as the number of days since the start of
/// the proleptic Gregorian calendar: January 1 of year 1 is day 1, the
/// count `chrono`'s `num_days_from_ce` uses.
#[derive(Clone, Copy, Debug, PartialEq, Eq, Structural)]
pub struct Day {
    pub num: i64,
}

/// The day number that the proleptic Gregorian calendar assigns to the
/// date `(y, m, d)`. Left uninterpreted: the trusted wrappers below tie
/// it to `chrono`'s conversion in both directions.
pub uninterp spec fn day_number_of(y: int, m: int, d: int) -> int;

pub open spec fn is_leap_year(y: int) -> bool {
    (y % 4 == 0 && y % 100 != 0) || y % 400 == 0
}

pub open spec fn days_in_month(y: int, m: int) -> int {
    if m == 2 {
        if is_leap_year(y) {
            29
        } else {
            28
        }
    } else if m == 4 || m == 6 || m == 9 || m == 11 {
        30
    } else {
        31
    }
}

/// The month/day pairs that exist in year `y`.
pub open spec fn valid_md(y: int, m: int, d: int) -> bool {
    1 <= m <= 12 && 1 <= d <= days_in_month(y, m)
}

/// Relies on `chrono::NaiveDate::from_ymd_opt`, which returns `Some`
/// exactly for existing calendar dates (years 1..=9999 are well inside
/// `NaiveDate`'s documented range), and on `Datelike::num_days_from_ce`,
/// which counts days with January 1 of year 1 as day 1 — so every date
/// in years 1..=9999 has a day number in 1..=3_660_000 (a calendar year
/// has at most 366 days).
#[verifier::external_body]
pub fn ymd_to_day(y: i64, m: i64, d: i64) -> (r: Option<Day>)
    requires
        1 <= y <= 9999,
    ensures
        r.is_some() <==> valid_md(y as int, m as int, d as int),
        r matches Some(day) ==> day.num == day_number_of(y as int, m as int, d as int)
            && 1 <= day.num <= 3_660_000,
{
    let mm = match u32::try_from(m) {
        Ok(v) => v,
        Err(_) => return None,
    };
    let dd = match u32::try_from(d) {
        Ok(v) => v,
        Err(_) => return None,
    };
    let nd = chrono::NaiveDate::from_ymd_opt(y as i32, mm, dd)?;
    Some(Day { num: chrono::Datelike::num_days_from_ce(&nd) as i64 })
}

/// Relies on `chrono::NaiveDate::from_num_days_from_ce_opt` — the inverse
/// of `num_days_from_ce`, `None` only for day numbers outside `NaiveDate`'s
/// documented range, which contains all of 1..=3_660_000 — and on the
/// `Datelike` accessors `year`, `month` and `day`. Day 1 is 0001-01-01
/// and day 3_652_059 is 9999-12-31 in this count, so day numbers in
/// between carry years in 1..=9999.
#[verifier::external_body]
pub fn day_to_ymd(day: Day) -> (r: Option<(i64, i64, i64)>)
    ensures
        r matches Some(ymd) ==> {
            &&& day_number_of(ymd.0 as int, ymd.1 as int, ymd.2 as int) == day.num
            &&& 1 <= ymd.1 <= 12
            &&& 1 <= ymd.2 <= 31
            &&& (day.num >= 1 ==> ymd.0 >= 1)
            &&& (day.num <= 3_652_059 ==> ymd.0 <= 9999)
        },
        1 <= day.num <= 3_660_000 ==> r.is_some(),
{
    let n = i32::try_from(day.num).ok()?;
    let nd = chrono::NaiveDate::from_num_days_from_ce_opt(n)?;
    Some((
        chrono::Datelike::year(&nd) as i64,
        chrono::Datelike::month(&nd) as i64,
        chrono::Datelike::day(&nd) as i64,
    ))
}

/// Relies on `chrono::Utc::now` for the current UTC day. Nothing is
/// assumed of the clock beyond the `i32` day count that
/// `num_days_from_ce` returns.
#[verifier::external_body]
pub fn today_day() -> (r: Day)
    ensures
        -0x8000_0000 <= r.num <= 0x7fff_ffff,
{
    let nd = chrono::Utc::now().date_naive();
    Day { num: chrono::Datelike::num_days_from_ce(&nd) as i64 }
}

pub open spec fn spec_is_digit(c: char) -> bool {
    '0' <= c && c <= '9'
}

pub open spec fn digit_val(c: char) -> int {
    c as int - '0' as int
}

/// The shape `YYYY-MM-DD`: ten characters, dashes at positions 4 and 7,
/// digits everywhere else.
pub open spec fn is_date_format(s: Seq<char>) -> bool {
    &&& s.len() == 10
    &&& s[4] == '-'
    &&& s[7] == '-'
    &&& forall|i: int|
        (0 <= i < 4 || i == 5 || i == 6 || i == 8 || i == 9) ==> spec_is_digit(#[trigger] s[i])
}

pub open spec fn date_str_year(s: Seq<char>) -> int {
    1000 * digit_val(s[0]) + 100 * digit_val(s[1]) + 10 * digit_val(s[2]) + digit_val(s[3])
}

pub open spec fn date_str_month(s: Seq<char>) -> int {
    10 * digit_val(s[5]) + digit_val(s[6])
}

pub open spec fn date_str_day(s: Seq<char>) -> int {
    10 * digit_val(s[8]) + digit_val(s[9])
}

/// The condition under which a string parses as a day: it has the
/// `YYYY-MM-DD` shape and names an existing date in years 1..=9999.
pub open spec fn parses_as_date(s: Seq<char>) -> bool {
    &&& is_date_format(s)
    &&& 1 <= date_str_year(s)
    &&& valid_md(date_str_year(s), date_str_month(s), date_str_day(s))
}

fn digit_value(c: char) -> (r: Option<i64>)
    ensures
        r.is_some() <==> spec_is_digit(c),
        r matches Some(v) ==> v == digit_val(c),
{
    let v = c as u32;
    if 48 <= v && v <= 57 {
        Some((v - 48) as i64)
    } else {
        None
    }
}

/// Parse a `YYYY-MM-DD` string to the day it names.
pub fn parse_date(s: &str) -> (r: Option<Day>)
    ensures
        r.is_some() <==> parses_as_date(s@),
        r matches Some(day) ==> day.num == day_number_of(
            date_str_year(s@),
            date_str_month(s@),
            date_str_day(s@),
        ) && 1 <= day.num <= 3_660_000,
{
    if s.unicode_len() != 10 {
        return None;
    }
    if s.get_char(4) != '-' || s.get_char(7) != '-' {
        return None;
    }
    let d0 = match digit_value(s.get_char(0)) {
        Some(v) => v,
        None => return None,
    };
    let d1 = match digit_value(s.get_char(1)) {
        Some(v) => v,
        None => return None,
    };
    let d2 = match digit_value(s.get_char(2)) {
        Some(v) => v,
        None => return None,
    };
    let d3 = match digit_value(s.get_char(3)) {
        Some(v) => v,
        None => return None,
    };
    let d5 = match digit_value(s.get_char(5)) {
        Some(v) => v,
        None => return None,
    };
    let d6 = match digit_value(s.get_char(6)) {
        Some(v) => v,
        None => return None,
    };
    let d8 = match digit_value(s.get_char(8)) {
        Some(v) => v,
        None => return None,
    };
    let d9 = match digit_value(s.get_char(9)) {
        Some(v) => v,
        None => return None,
    };
    let y = 1000 * d0 + 100 * d1 + 10 * d2 + d3;
    let m = 10 * d5 + d6;
    let d = 10 * d8 + d9;
    if y < 1 {
        return None;
    }
    ymd_to_day(y, m, d)
}

impl Day {
    /// The previous calendar day.
    pub fn pred(self) -> (r: Day)
        requires
            self.num > i64::MIN,
        ensures
            r.num == self.num - 1,
    {
        Day { num: self.num - 1 }
    }

    /// The next calendar day.
    pub fn succ(self) -> (r: Day)
        requires
            self.num < i64::MAX,
        ensures
            r.num == self.num + 1,
    {
        Day { num: self.num + 1 }
    }
}

} // verus!
