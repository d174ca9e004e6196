//! Calendar logic on plain values: a local date as year, month and day; the
//! day of the week by Zeller's congruence and from epoch timestamps; weekday
//! and month names; and the date line of the view.
use vstd::prelude::*;
use crate::strings::spec_u32_digits;
use crate::strings::u32_to_string;

verus! {

/// A local calendar date in the Gregorian calendar, as plain values.
#[derive(Clone, Copy, PartialEq, Eq, Structural, Debug)]
pub struct LocalDate {
    pub year: u16,
    pub month: u8,
    pub day: u8,
}

impl LocalDate {
    /// A date the library works on: month and day in their calendar ranges,
    /// year positive and below ten thousand.
    pub open spec fn wf(self) -> bool {
        &&& 1 <= self.year <= 9999
        &&& 1 <= self.month <= 12
        &&& 1 <= self.day <= 31
    }
}

/// The day of the week of a Gregorian date by Zeller's congruence,
/// numbered 0 for Monday through 6 for Sunday. January and February are
/// counted as the thirteenth and fourteenth month of the preceding year.
pub open spec fn spec_weekday_of_date(date: LocalDate) -> int {
    let m: int = if date.month <= 2 {
        date.month + 12
    } else {
        date.month as int
    };
    let y: int = if date.month <= 2 {
        date.year - 1
    } else {
        date.year as int
    };
    let h = (date.day + (13 * (m + 1)) / 5 + y % 100 + (y % 100) / 4 + (y / 100) / 4 + 5 * (y
        / 100)) % 7;
    (h + 5) % 7
}

/// Computes the day of the week of a date, 0 for Monday through 6 for Sunday.
pub fn weekday_of_date(date: &LocalDate) -> (r: u8)
    requires
        date.wf(),
    ensures
        r as int == spec_weekday_of_date(*date),
        r < 7,
{
    let m: u32 = if date.month <= 2 {
        date.month as u32 + 12
    } else {
        date.month as u32
    };
    let y: u32 = if date.month <= 2 {
        date.year as u32 - 1
    } else {
        date.year as u32
    };
    let h: u32 = (date.day as u32 + (13 * (m + 1)) / 5 + y % 100 + (y % 100) / 4 + (y / 100) / 4
        + 5 * (y / 100)) % 7;
    ((h + 5) % 7) as u8
}

/// The day of the week of an epoch timestamp in seconds, 0 for Monday through
/// 6 for Sunday; the epoch itself fell on a Thursday.
pub open spec fn spec_weekday_of_epoch(dt: u64) -> int {
    (dt as int / 86400 + 3) % 7
}

/// Computes the day of the week, 0 for Monday through 6 for Sunday, of a
/// timestamp given as seconds since the epoch.
pub fn weekday_of_epoch(dt: u64) -> (r: u8)
    ensures
        r as int == spec_weekday_of_epoch(dt),
        r < 7,
{
    let days = dt / 86400;
    ((days + 3) % 7) as u8
}

/// The full English name of a weekday numbered 0 for Monday through 6 for
/// Sunday; any other number is read as Sunday.
pub open spec fn spec_weekday_full(w: int) -> Seq<char> {
    if w == 0 {
        "Monday"@
    } else if w == 1 {
        "Tuesday"@
    } else if w == 2 {
        "Wednesday"@
    } else if w == 3 {
        "Thursday"@
    } else if w == 4 {
        "Friday"@
    } else if w == 5 {
        "Saturday"@
    } else {
        "Sunday"@
    }
}

/// The full English weekday name for a weekday number.
pub fn weekday_full(w: u8) -> (r: &'static str)
    ensures
        r@ == spec_weekday_full(w as int),
{
    match w {
        0 => "Monday",
        1 => "Tuesday",
        2 => "Wednesday",
        3 => "Thursday",
        4 => "Friday",
        5 => "Saturday",
        _ => "Sunday",
    }
}

/// The three-letter English name of a weekday numbered 0 for Monday through
/// 6 for Sunday; any other number is read as Sunday.
pub open spec fn spec_weekday_short(w: int) -> Seq<char> {
    if w == 0 {
        "Mon"@
    } else if w == 1 {
        "Tue"@
    } else if w == 2 {
        "Wed"@
    } else if w == 3 {
        "Thu"@
    } else if w == 4 {
        "Fri"@
    } else if w == 5 {
        "Sat"@
    } else {
        "Sun"@
    }
}

/// The three-letter English weekday name for a weekday number.
pub fn weekday_short(w: u8) -> (r: &'static str)
    ensures
        r@ == spec_weekday_short(w as int),
{
    match w {
        0 => "Mon",
        1 => "Tue",
        2 => "Wed",
        3 => "Thu",
        4 => "Fri",
        5 => "Sat",
        _ => "Sun",
    }
}

/// The full English name of a calendar month numbered 1 through 12; any other
/// number is read as December.
pub open spec fn spec_month_name(m: int) -> Seq<char> {
    if m == 1 {
        "January"@
    } else if m == 2 {
        "February"@
    } else if m == 3 {
        "March"@
    } else if m == 4 {
        "April"@
    } else if m == 5 {
        "May"@
    } else if m == 6 {
        "June"@
    } else if m == 7 {
        "July"@
    } else if m == 8 {
        "August"@
    } else if m == 9 {
        "September"@
    } else if m == 10 {
        "October"@
    } else if m == 11 {
        "November"@
    } else {
        "December"@
    }
}

/// The full English month name for a month number.
pub fn month_name(m: u8) -> (r: &'static str)
    ensures
        r@ == spec_month_name(m as int),
{
    match m {
        1 => "January",
        2 => "February",
        3 => "March",
        4 => "April",
        5 => "May",
        6 => "June",
        7 => "July",
        8 => "August",
        9 => "September",
        10 => "October",
        11 => "November",
        _ => "December",
    }
}

/// The date line of the view: day of month, full month name and year,
/// separated by single spaces, with no padding of the day.
pub open spec fn spec_format_date(date: LocalDate) -> Seq<char> {
    spec_u32_digits(date.day as nat) + " "@ + spec_month_name(date.month as int) + " "@
        + spec_u32_digits(date.year as nat)
}

/// Formats a date as day of month, month name and year.
pub fn format_date(date: &LocalDate) -> (r: String)
    requires
        date.wf(),
    ensures
        r@ == spec_format_date(*date),
{
    let mut s = u32_to_string(date.day as u32);
    s.append(" ");
    s.append(month_name(date.month));
    s.append(" ");
    let year = u32_to_string(date.year as u32);
    s.append(year.as_str());
    proof {
        assert(s@ =~= spec_format_date(*date));
    }
    s
}

} // verus!
