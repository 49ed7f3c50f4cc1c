use vstd::prelude::*;

verus! {

/// The earliest year that the calendar can represent.
pub const MIN_YEAR: i32 = -262143;

/// The latest year that the calendar can represent.
pub const MAX_YEAR: i32 = 262142;

/// A local wall-clock reading at second precision, in the proleptic
/// Gregorian calendar.
#[derive(Clone, Copy, Debug, PartialEq, Eq, Structural)]
pub struct Stamp {
    pub year: i32,
    pub month: u32,
    pub day: u32,
    pub hour: u32,
    pub minute: u32,
    pub second: u32,
}

pub open spec fn is_leap_year(year: int) -> bool {
    (year % 4 == 0 && year % 100 != 0) || year % 400 == 0
}

/// The number of days of a month (1 to 12) of a year.
pub open spec fn month_length(year: int, month: int) -> int {
    if month == 2 {
        if is_leap_year(year) {
            29
        } else {
            28
        }
    } else if month == 4 || month == 6 || month == 9 || month == 11 {
        30
    } else {
        31
    }
}

impl Stamp {
    /// A reading that names an existing second of the calendar.
    pub open spec fn wf(self) -> bool {
        &&& MIN_YEAR <= self.year <= MAX_YEAR
        &&& 1 <= self.month <= 12
        &&& 1 <= self.day <= month_length(self.year as int, self.month as int)
        &&& self.hour < 24
        &&& self.minute < 60
        &&& self.second < 60
    }

    pub open spec fn spec_epoch() -> Stamp {
        Stamp { year: 1970, month: 1, day: 1, hour: 0, minute: 0, second: 0 }
    }

    /// 1970-01-01 00:00:00, the reading that stands in for a clock that
    /// gave no usable time.
    pub fn epoch() -> (r: Stamp)
        ensures
            r == Stamp::spec_epoch(),
            r.wf(),
    {
        Stamp { year: 1970, month: 1, day: 1, hour: 0, minute: 0, second: 0 }
    }

    /// Whether this reading names an existing second of the calendar.
    pub fn is_valid(&self) -> (r: bool)
        ensures
            r == self.wf(),
    {
        MIN_YEAR <= self.year && self.year <= MAX_YEAR && 1 <= self.month && self.month <= 12
            && 1 <= self.day && self.day <= days_in_month(self.year, self.month) && self.hour < 24
            && self.minute < 60 && self.second < 60
    }
}

/// Whether `year` has a 29th of February.
pub fn leap_year(year: i32) -> (r: bool)
    requires
        MIN_YEAR <= year <= MAX_YEAR,
    ensures
        r == is_leap_year(year as int),
{
    // shifted by whole 400-year cycles, so that the remainders are taken of
    // a non-negative number
    let shifted: u32 = (year as i64 + 262400) as u32;
    assert(shifted as int % 4 == year as int % 4);
    assert(shifted as int % 100 == year as int % 100);
    assert(shifted as int % 400 == year as int % 400);
    (shifted % 4 == 0 && shifted % 100 != 0) || shifted % 400 == 0
}

/// The number of days of `month` (1 to 12) in `year`.
pub fn days_in_month(year: i32, month: u32) -> (r: u32)
    requires
        MIN_YEAR <= year <= MAX_YEAR,
        1 <= month <= 12,
    ensures
        r == month_length(year as int, month as int),
{
    if month == 2 {
        if leap_year(year) {
            29
        } else {
            28
        }
    } else if month == 4 || month == 6 || month == 9 || month == 11 {
        30
    } else {
        31
    }
}

} // verus!
