//! Calendar arithmetic for the upstream metadata encoding.
//!
//! The upstream CMS encodes an item's creation time as a vector of nine
//! integers whose first component is a year and whose second is a day-of-year
//! ordinal; the remaining components are ignored and the decoded instant is
//! midnight UTC of that day.  This module holds the ordinal-date model, the
//! conversion to a month/day calendar date, and the textual rendering used by
//! the JSON API.

use vstd::prelude::*;

verus! {

/// A leap year in the proleptic Gregorian calendar.
pub open spec fn spec_is_leap_year(year: int) -> bool {
    year % 4 == 0 && (year % 100 != 0 || year % 400 == 0)
}

/// Number of days in `year`.
pub open spec fn spec_days_in_year(year: int) -> int {
    if spec_is_leap_year(year) {
        366
    } else {
        365
    }
}

/// Number of days in `month` (1-based) of `year`.
pub open spec fn spec_days_in_month(year: int, month: int) -> int {
    if month == 2 {
        if spec_is_leap_year(year) {
            29
        } else {
            28
        }
    } else if month == 4 || month == 6 || month == 9 || month == 11 {
        30
    } else {
        31
    }
}

/// Days of the year from the start of `month` (1-based) through December.
pub open spec fn spec_days_through_december(year: int, month: int) -> int
    decreases 13 - month,
{
    if month > 12 {
        0
    } else {
        spec_days_in_month(year, month) + spec_days_through_december(year, month + 1)
    }
}

proof fn lemma_days_through_december_whole_year(year: int)
    ensures
        spec_days_through_december(year, 1) == spec_days_in_year(year),
{
    reveal_with_fuel(spec_days_through_december, 14);
}

/// The month and day (both 1-based) reached by walking `ordinal` days into
/// `year`, starting the walk at `month`.
pub open spec fn spec_month_day_from(year: int, ordinal: int, month: int) -> (int, int)
    decreases 13 - month,
{
    if month >= 12 || ordinal <= spec_days_in_month(year, month) {
        (month, ordinal)
    } else {
        spec_month_day_from(year, ordinal - spec_days_in_month(year, month), month + 1)
    }
}

/// Month and day of the day-of-year `ordinal` in `year`.
pub open spec fn spec_month_of(year: int, ordinal: int) -> int {
    spec_month_day_from(year, ordinal, 1).0
}

/// Day-of-month of the day-of-year `ordinal` in `year`.
pub open spec fn spec_day_of(year: int, ordinal: int) -> int {
    spec_month_day_from(year, ordinal, 1).1
}

proof fn lemma_month_day_from_in_bounds(year: int, ordinal: int, month: int)
    requires
        1 <= month <= 12,
        1 <= ordinal <= spec_days_through_december(year, month),
    ensures
        ({
            let (m, d) = spec_month_day_from(year, ordinal, month);
            &&& month <= m <= 12
            &&& 1 <= d <= spec_days_in_month(year, m)
        }),
    decreases 13 - month,
{
    if month >= 12 {
        assert(spec_days_through_december(year, 12) == spec_days_in_month(year, 12)) by {
            reveal_with_fuel(spec_days_through_december, 2);
        }
    } else if !(ordinal <= spec_days_in_month(year, month)) {
        lemma_month_day_from_in_bounds(year, ordinal - spec_days_in_month(year, month), month + 1);
    }
}

/// Bounds of the month/day pair produced for a valid day-of-year ordinal.
pub proof fn lemma_month_day_in_bounds(year: int, ordinal: int)
    requires
        1 <= ordinal <= spec_days_in_year(year),
    ensures
        1 <= spec_month_of(year, ordinal) <= 12,
        1 <= spec_day_of(year, ordinal) <= spec_days_in_month(year, spec_month_of(year, ordinal)),
{
    lemma_days_through_december_whole_year(year);
    lemma_month_day_from_in_bounds(year, ordinal, 1);
}

/// A point in time as the upstream encodes it: a year and a day-of-year
/// ordinal, implicitly at midnight UTC.
#[derive(Clone, Copy, Debug, PartialEq, Eq, Structural)]
pub struct OrdinalDate {
    pub year: u16,
    pub ordinal: u16,
}

/// A calendar date at midnight UTC.
#[derive(Clone, Copy, Debug, PartialEq, Eq, Structural)]
pub struct CalendarDate {
    pub year: u16,
    pub month: u8,
    pub day: u8,
}

impl OrdinalDate {
    /// The year lies in the four-digit range the renderer supports and the
    /// ordinal names an existing day of that year.
    pub open spec fn wf(self) -> bool {
        &&& 1 <= self.year <= 9999
        &&& 1 <= self.ordinal <= spec_days_in_year(self.year as int)
    }
}

impl CalendarDate {
    pub open spec fn wf(self) -> bool {
        &&& 1 <= self.year <= 9999
        &&& 1 <= self.month <= 12
        &&& 1 <= self.day <= spec_days_in_month(self.year as int, self.month as int)
    }
}

/// Whether `year` is a leap year; mirrors `spec_is_leap_year`.
pub fn is_leap_year(year: u16) -> (r: bool)
    ensures
        r == spec_is_leap_year(year as int),
{
    year % 4 == 0 && (year % 100 != 0 || year % 400 == 0)
}

/// Number of days in `year`; mirrors `spec_days_in_year`.
pub fn days_in_year(year: u16) -> (r: u16)
    ensures
        r as int == spec_days_in_year(year as int),
{
    if is_leap_year(year) {
        366
    } else {
        365
    }
}

/// Number of days in `month` of `year`; mirrors `spec_days_in_month`.
pub fn days_in_month(year: u16, month: u8) -> (r: u8)
    ensures
        r as int == spec_days_in_month(year as int, month as int),
{
    if month == 2 {
        if is_leap_year(year) {
            29
        } else {
            28
        }
    } else if month == 4 || month == 6 || month == 9 || month == 11 {
        30
    } else {
        31
    }
}

/// The calendar date of the day `d` names.
pub fn to_calendar(d: OrdinalDate) -> (r: CalendarDate)
    requires
        d.wf(),
    ensures
        r.year == d.year,
        r.month as int == spec_month_of(d.year as int, d.ordinal as int),
        r.day as int == spec_day_of(d.year as int, d.ordinal as int),
        r.wf(),
{
    proof {
        lemma_month_day_in_bounds(d.year as int, d.ordinal as int);
    }
    let mut month: u8 = 1;
    let mut remaining: u16 = d.ordinal;
    while month < 12 && remaining > days_in_month(d.year, month) as u16
        invariant
            d.wf(),
            1 <= month <= 12,
            1 <= remaining,
            spec_month_day_from(d.year as int, d.ordinal as int, 1) == spec_month_day_from(
                d.year as int,
                remaining as int,
                month as int,
            ),
        decreases 12 - month,
    {
        remaining = remaining - days_in_month(d.year, month) as u16;
        month = month + 1;
    }
    CalendarDate { year: d.year, month, day: remaining as u8 }
}

/// The canonical reading of the nine-component creation-time vector: the
/// first component is a year, the second a day-of-year ordinal, and both lie
/// in range.  (An older reading treated the components as offsets from the
/// Unix epoch with an average-length year; it drifts and is not supported.)
pub open spec fn spec_valid_created_at(year: int, ordinal: int) -> bool {
    &&& 1 <= year <= 9999
    &&& 1 <= ordinal <= spec_days_in_year(year)
}

/// Decodes the creation-time vector of an upstream item.
///
/// Returns the ordinal date exactly when the vector has nine components and
/// its year and day-of-year components name an existing day; every other
/// shape is a decode failure, reported as `None`.
pub fn decode_created_at(components: &Vec<i64>) -> (r: Option<OrdinalDate>)
    ensures
        r is Some <==> components@.len() == 9 && spec_valid_created_at(
            components@[0] as int,
            components@[1] as int,
        ),
        r matches Some(d) ==> {
            &&& d.year as int == components@[0]
            &&& d.ordinal as int == components@[1]
            &&& d.wf()
        },
{
    if components.len() != 9 {
        return None;
    }
    let year_raw = components[0];
    if year_raw < 1 || year_raw > 9999 {
        return None;
    }
    let year: u16 = year_raw as u16;
    let ordinal_raw = components[1];
    if ordinal_raw < 1 || ordinal_raw > days_in_year(year) as i64 {
        return None;
    }
    Some(OrdinalDate { year, ordinal: ordinal_raw as u16 })
}

/// The decimal digit character for `d`.
pub open spec fn spec_digit(d: int) -> char {
    if d == 0 {
        '0'
    } else if d == 1 {
        '1'
    } else if d == 2 {
        '2'
    } else if d == 3 {
        '3'
    } else if d == 4 {
        '4'
    } else if d == 5 {
        '5'
    } else if d == 6 {
        '6'
    } else if d == 7 {
        '7'
    } else if d == 8 {
        '8'
    } else {
        '9'
    }
}

/// `n` rendered as exactly two decimal digits.
pub open spec fn spec_two_digits(n: int) -> Seq<char> {
    seq![spec_digit(n / 10 % 10), spec_digit(n % 10)]
}

/// `n` rendered as exactly four decimal digits.
pub open spec fn spec_four_digits(n: int) -> Seq<char> {
    seq![
        spec_digit(n / 1000 % 10),
        spec_digit(n / 100 % 10),
        spec_digit(n / 10 % 10),
        spec_digit(n % 10),
    ]
}

/// `c` rendered as an ISO 8601 instant at midnight UTC,
/// `YYYY-MM-DDT00:00:00Z`.
pub open spec fn spec_iso_midnight(c: CalendarDate) -> Seq<char> {
    spec_four_digits(c.year as int) + seq!['-'] + spec_two_digits(c.month as int) + seq!['-']
        + spec_two_digits(c.day as int) + "T00:00:00Z"@
}

fn digit_str(d: u8) -> (r: &'static str)
    requires
        d < 10,
    ensures
        r@ == seq![spec_digit(d as int)],
{
    if d == 0 {
        proof {
            reveal_strlit("0");
            assert("0"@ =~= seq![spec_digit(0)]);
        }
        "0"
    } else if d == 1 {
        proof {
            reveal_strlit("1");
            assert("1"@ =~= seq![spec_digit(1)]);
        }
        "1"
    } else if d == 2 {
        proof {
            reveal_strlit("2");
            assert("2"@ =~= seq![spec_digit(2)]);
        }
        "2"
    } else if d == 3 {
        proof {
            reveal_strlit("3");
            assert("3"@ =~= seq![spec_digit(3)]);
        }
        "3"
    } else if d == 4 {
        proof {
            reveal_strlit("4");
            assert("4"@ =~= seq![spec_digit(4)]);
        }
        "4"
    } else if d == 5 {
        proof {
            reveal_strlit("5");
            assert("5"@ =~= seq![spec_digit(5)]);
        }
        "5"
    } else if d == 6 {
        proof {
            reveal_strlit("6");
            assert("6"@ =~= seq![spec_digit(6)]);
        }
        "6"
    } else if d == 7 {
        proof {
            reveal_strlit("7");
            assert("7"@ =~= seq![spec_digit(7)]);
        }
        "7"
    } else if d == 8 {
        proof {
            reveal_strlit("8");
            assert("8"@ =~= seq![spec_digit(8)]);
        }
        "8"
    } else {
        proof {
            reveal_strlit("9");
            assert("9"@ =~= seq![spec_digit(9)]);
        }
        "9"
    }
}

fn push_two_digits(s: &mut String, n: u8)
    requires
        n < 100,
    ensures
        final(s)@ == old(s)@ + spec_two_digits(n as int),
{
    s.append(digit_str(n / 10));
    s.append(digit_str(n % 10));
    assert(s@ =~= old(s)@ + spec_two_digits(n as int));
}

fn push_four_digits(s: &mut String, n: u16)
    requires
        n < 10000,
    ensures
        final(s)@ == old(s)@ + spec_four_digits(n as int),
{
    s.append(digit_str((n / 1000) as u8));
    s.append(digit_str((n / 100 % 10) as u8));
    s.append(digit_str((n / 10 % 10) as u8));
    s.append(digit_str((n % 10) as u8));
    assert(s@ =~= old(s)@ + spec_four_digits(n as int));
}

/// Renders `c` in the form the JSON API serves, `YYYY-MM-DDT00:00:00Z`.
pub fn iso_midnight_utc(c: &CalendarDate) -> (r: String)
    requires
        c.wf(),
    ensures
        r@ == spec_iso_midnight(*c),
{
    let mut s = String::new();
    push_four_digits(&mut s, c.year);
    s.append("-");
    push_two_digits(&mut s, c.month);
    s.append("-");
    push_two_digits(&mut s, c.day);
    s.append("T00:00:00Z");
    proof {
        reveal_strlit("-");
        assert("-"@ =~= seq!['-']);
        assert(s@ =~= spec_iso_midnight(*c));
    }
    s
}

} // verus!
