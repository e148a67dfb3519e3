//! Calendar dates, times of day and moments, held as plain numbers.
//!
//! A `CalendarDate` is a day of the proleptic Gregorian calendar, a
//! `ClockTime` a time of day to the second. Both can only be built from
//! numbers that name an existing day or time, so every value of either type is
//! valid.

use vstd::prelude::*;

verus! {

/// The first year that a `CalendarDate` can lie in.
pub const MIN_YEAR: i32 = -262143;

/// The last year that a `CalendarDate` can lie in.
pub const MAX_YEAR: i32 = 262142;

/// Whether `year` is a leap year of the proleptic Gregorian calendar.
pub open spec fn is_leap_year(year: int) -> bool {
    year % 4 == 0 && (year % 100 != 0 || year % 400 == 0)
}

/// The number of days of `month` in `year`, for a month from 1 to 12.
pub open spec fn days_in_month(year: int, month: int) -> int {
    if month == 2 {
        if is_leap_year(year) {
            29
        } else {
            28
        }
    } else if month == 4 || month == 6 || month == 9 || month == 11 {
        30
    } else {
        31
    }
}

/// Whether year, month and day name a day that exists and that a
/// `CalendarDate` can hold.
pub open spec fn is_calendar_date(year: int, month: int, day: int) -> bool {
    &&& MIN_YEAR <= year <= MAX_YEAR
    &&& 1 <= month <= 12
    &&& 1 <= day <= days_in_month(year, month)
}

/// Whether hour, minute and second name a time of day.
pub open spec fn is_clock_time(hour: int, minute: int, second: int) -> bool {
    &&& 0 <= hour < 24
    &&& 0 <= minute < 60
    &&& 0 <= second < 60
}

/// The character for a digit from 0 to 9.
pub open spec fn digit(d: int) -> char {
    if d == 0 {
        '0'
    } else if d == 1 {
        '1'
    } else if d == 2 {
        '2'
    } else if d == 3 {
        '3'
    } else if d == 4 {
        '4'
    } else if d == 5 {
        '5'
    } else if d == 6 {
        '6'
    } else if d == 7 {
        '7'
    } else if d == 8 {
        '8'
    } else {
        '9'
    }
}

/// The last `width` decimal digits of `n`, with leading zeros.
pub open spec fn decimal(n: int, width: nat) -> Seq<char>
    decreases width,
{
    if width == 0 {
        Seq::empty()
    } else {
        decimal(n / 10, (width - 1) as nat).push(digit(n % 10))
    }
}

/// A year as ISO 8601 writes it: four digits from 0000 to 9999, and a sign
/// followed by at least four digits for every other year.
pub open spec fn year_text(year: int) -> Seq<char> {
    if 0 <= year <= 9999 {
        decimal(year, 4)
    } else if year < 0 {
        seq!['-'] + decimal(-year, digits_of_far_year(-year))
    } else {
        seq!['+'] + decimal(year, digits_of_far_year(year))
    }
}

/// The number of digits that a signed year is written with: as many as its
/// size has, and no fewer than four.
pub open spec fn digits_of_far_year(size: int) -> nat {
    if size < 10000 {
        4
    } else if size < 100000 {
        5
    } else {
        6
    }
}

/// The numbers of a date: what a `CalendarDate` stands for.
pub struct Ymd {
    pub year: int,
    pub month: int,
    pub day: int,
}

impl Ymd {
    /// Whether the numbers name a day that exists.
    pub open spec fn is_date(self) -> bool {
        is_calendar_date(self.year, self.month, self.day)
    }

    /// The date as text: year, month and day, with `-` between them.
    pub open spec fn iso_text(self) -> Seq<char> {
        year_text(self.year) + seq!['-'] + decimal(self.month, 2) + seq!['-'] + decimal(
            self.day,
            2,
        )
    }
}

/// The numbers of a time of day: what a `ClockTime` stands for.
pub struct Hms {
    pub hour: int,
    pub minute: int,
    pub second: int,
}

impl Hms {
    /// Whether the numbers name a time of day.
    pub open spec fn is_time(self) -> bool {
        is_clock_time(self.hour, self.minute, self.second)
    }

    /// The time as text: hour, minute and second, with `:` between them.
    pub open spec fn iso_text(self) -> Seq<char> {
        decimal(self.hour, 2) + seq![':'] + decimal(self.minute, 2) + seq![':'] + decimal(
            self.second,
            2,
        )
    }
}

/// The numbers of a moment: what a `Moment` stands for.
pub struct Instant {
    pub date: Ymd,
    pub time: Hms,
}

impl Instant {
    /// Whether the numbers name a day that exists and a time of day.
    pub open spec fn is_moment(self) -> bool {
        self.date.is_date() && self.time.is_time()
    }

    /// Whether both lie in the same minute of the same day.
    pub open spec fn same_minute(self, other: Instant) -> bool {
        &&& self.date == other.date
        &&& self.time.hour == other.time.hour
        &&& self.time.minute == other.time.minute
    }
}

/// A day of the calendar.
#[derive(Clone, Copy, Debug, PartialEq, Eq, Structural)]
pub struct CalendarDate {
    pub(crate) year: i32,
    pub(crate) month: u32,
    pub(crate) day: u32,
}

impl View for CalendarDate {
    type V = Ymd;

    closed spec fn view(&self) -> Ymd {
        Ymd { year: self.year as int, month: self.month as int, day: self.day as int }
    }
}

impl CalendarDate {
    /// Every date names a day that exists.
    #[verifier::type_invariant]
    pub open spec fn is_valid(self) -> bool {
        self@.is_date()
    }

    /// The date of the given year, month and day, if that day exists.
    pub fn new(year: i32, month: u32, day: u32) -> (made: Option<CalendarDate>)
        ensures
            made is Some <==> is_calendar_date(year as int, month as int, day as int),
            made matches Some(d) ==> d@ == (Ymd {
                year: year as int,
                month: month as int,
                day: day as int,
            }),
    {
        if year < MIN_YEAR || year > MAX_YEAR || month < 1 || month > 12 || day < 1 {
            return None;
        }
        // 400000 is a multiple of 400, so the shifted year is a leap year
        // exactly when `year` is one.
        let shifted: u32 = (year + 400000) as u32;
        let leap: bool = shifted % 4 == 0 && (shifted % 100 != 0 || shifted % 400 == 0);
        assert(leap == is_leap_year(year as int));
        let length: u32 = if month == 2 {
            if leap {
                29
            } else {
                28
            }
        } else if month == 4 || month == 6 || month == 9 || month == 11 {
            30
        } else {
            31
        };
        if day > length {
            return None;
        }
        Some(CalendarDate { year, month, day })
    }

    pub fn year(&self) -> (y: i32)
        ensures
            y == self@.year,
            self@.is_date(),
    {
        proof {
            use_type_invariant(self);
        }
        self.year
    }

    pub fn month(&self) -> (m: u32)
        ensures
            m == self@.month,
            self@.is_date(),
    {
        proof {
            use_type_invariant(self);
        }
        self.month
    }

    pub fn day(&self) -> (d: u32)
        ensures
            d == self@.day,
            self@.is_date(),
    {
        proof {
            use_type_invariant(self);
        }
        self.day
    }

    /// Two dates with the same numbers are the same date.
    pub proof fn lemma_same_numbers(self, other: CalendarDate)
        ensures
            self@ == other@ <==> self == other,
    {
    }
}

/// A time of day, to the second.
#[derive(Clone, Copy, Debug, PartialEq, Eq, Structural)]
pub struct ClockTime {
    pub(crate) hour: u32,
    pub(crate) minute: u32,
    pub(crate) second: u32,
}

impl View for ClockTime {
    type V = Hms;

    closed spec fn view(&self) -> Hms {
        Hms { hour: self.hour as int, minute: self.minute as int, second: self.second as int }
    }
}

impl ClockTime {
    /// Every time lies within one day.
    #[verifier::type_invariant]
    pub open spec fn is_valid(self) -> bool {
        self@.is_time()
    }

    /// The time of the given hour, minute and second, if there is one.
    pub fn new(hour: u32, minute: u32, second: u32) -> (made: Option<ClockTime>)
        ensures
            made is Some <==> is_clock_time(hour as int, minute as int, second as int),
            made matches Some(t) ==> t@ == (Hms {
                hour: hour as int,
                minute: minute as int,
                second: second as int,
            }),
    {
        if hour >= 24 || minute >= 60 || second >= 60 {
            None
        } else {
            Some(ClockTime { hour, minute, second })
        }
    }

    pub fn hour(&self) -> (h: u32)
        ensures
            h == self@.hour,
            self@.is_time(),
    {
        proof {
            use_type_invariant(self);
        }
        self.hour
    }

    pub fn minute(&self) -> (m: u32)
        ensures
            m == self@.minute,
            self@.is_time(),
    {
        proof {
            use_type_invariant(self);
        }
        self.minute
    }

    pub fn second(&self) -> (s: u32)
        ensures
            s == self@.second,
            self@.is_time(),
    {
        proof {
            use_type_invariant(self);
        }
        self.second
    }

    /// Two times with the same numbers are the same time.
    pub proof fn lemma_same_numbers(self, other: ClockTime)
        ensures
            self@ == other@ <==> self == other,
    {
    }
}

/// A date together with a time of day.
#[derive(Clone, Copy, Debug, PartialEq, Eq, Structural)]
pub struct Moment {
    pub date: CalendarDate,
    pub time: ClockTime,
}

impl View for Moment {
    type V = Instant;

    open spec fn view(&self) -> Instant {
        Instant { date: self.date@, time: self.time@ }
    }
}

impl Moment {
    /// Tells whether both moments lie in the same minute of the same day.
    pub fn in_same_minute(&self, other: &Moment) -> (same: bool)
        ensures
            same == self@.same_minute(other@),
    {
        proof {
            self.date.lemma_same_numbers(other.date);
        }
        self.date == other.date && self.time.hour() == other.time.hour() && self.time.minute()
            == other.time.minute()
    }
}

} // verus!
