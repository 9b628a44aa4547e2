//! Calendar dates with second precision in the proleptic Gregorian calendar,
//! years 1 to 9999, without a time zone.

use vstd::prelude::*;

verus! {

/// Seconds in one calendar day.
pub const SECONDS_PER_DAY: i64 = 86400;

/// Days between 0001-01-01 and 1970-01-01.
pub const EPOCH_DAY: i64 = 719162;

/// The timestamp of 0001-01-01T00:00:00, the earliest date.
pub const MIN_TIMESTAMP: i64 = -62135596800;

/// The timestamp of 9999-12-31T23:59:59, the latest date.
pub const MAX_TIMESTAMP: i64 = 253402300799;

/// The calendar fields of a date and time as mathematical integers.
pub struct Civil {
    pub year: int,
    pub month: int,
    pub day: int,
    pub hour: int,
    pub minute: int,
    pub second: int,
}

/// Gregorian leap year rule.
pub open spec fn is_leap_year(year: int) -> bool {
    year % 4 == 0 && (year % 100 != 0 || year % 400 == 0)
}

/// Number of days in the given month of the given year.
pub open spec fn days_in_month(year: int, month: int) -> int {
    if month == 2 {
        if is_leap_year(year) {
            29
        } else {
            28
        }
    } else if month == 4 || month == 6 || month == 9 || month == 11 {
        30
    } else {
        31
    }
}

/// Number of days in the given year.
pub open spec fn days_in_year(year: int) -> int {
    if is_leap_year(year) {
        366
    } else {
        365
    }
}

/// The fields name an existing calendar day and a time of day, in years 1 to 9999.
pub open spec fn valid_civil(c: Civil) -> bool {
    &&& 1 <= c.year <= 9999
    &&& 1 <= c.month <= 12
    &&& 1 <= c.day <= days_in_month(c.year, c.month)
    &&& 0 <= c.hour < 24
    &&& 0 <= c.minute < 60
    &&& 0 <= c.second < 60
}

/// Days from 0001-01-01 to the first day of `year`.
pub open spec fn days_before_year(year: int) -> int {
    365 * (year - 1) + (year - 1) / 4 - (year - 1) / 100 + (year - 1) / 400
}

/// Days from the first day of `year` to the first day of `month` in it.
pub open spec fn days_before_month(year: int, month: int) -> int {
    let leap: int = if month > 2 && is_leap_year(year) {
        1
    } else {
        0
    };
    let base: int = if month <= 1 {
        0
    } else if month == 2 {
        31
    } else if month == 3 {
        59
    } else if month == 4 {
        90
    } else if month == 5 {
        120
    } else if month == 6 {
        151
    } else if month == 7 {
        181
    } else if month == 8 {
        212
    } else if month == 9 {
        243
    } else if month == 10 {
        273
    } else if month == 11 {
        304
    } else {
        334
    };
    base + leap
}

/// Days from 0001-01-01 to the day that `c` names.
pub open spec fn day_number(c: Civil) -> int {
    days_before_year(c.year) + days_before_month(c.year, c.month) + c.day - 1
}

/// Seconds from 1970-01-01T00:00:00 to `c`, negative before that instant.
pub open spec fn timestamp_of(c: Civil) -> int {
    (day_number(c) - EPOCH_DAY) * SECONDS_PER_DAY + c.hour * 3600 + c.minute * 60 + c.second
}

/// The same time of day on the following calendar day, if the calendar has one.
pub open spec fn next_day(c: Civil) -> Option<Civil> {
    if c.day < days_in_month(c.year, c.month) {
        Some(Civil { day: c.day + 1, ..c })
    } else if c.month < 12 {
        Some(Civil { month: c.month + 1, day: 1, ..c })
    } else if c.year < 9999 {
        Some(Civil { year: c.year + 1, month: 1, day: 1, ..c })
    } else {
        None
    }
}

/// The same day of the month and time of day in the following calendar
/// month, if that month has such a day and the calendar has such a month.
pub open spec fn next_month(c: Civil) -> Option<Civil> {
    let year: int = if c.month == 12 {
        c.year + 1
    } else {
        c.year
    };
    let month: int = if c.month == 12 {
        1
    } else {
        c.month + 1
    };
    if year <= 9999 && c.day <= days_in_month(year, month) {
        Some(Civil { year, month, ..c })
    } else {
        None
    }
}

/// The valid calendar fields whose timestamp is `seconds`; they are unique
/// where they exist, that is from `MIN_TIMESTAMP` to `MAX_TIMESTAMP`.
pub open spec fn civil_at(seconds: int) -> Civil {
    choose|c: Civil| valid_civil(c) && timestamp_of(c) == seconds
}

/// A valid calendar date and time of day.
#[derive(Clone, Copy, PartialEq, Eq, Structural, Debug)]
pub struct Date {
    year: u16,
    month: u8,
    day: u8,
    hour: u8,
    minute: u8,
    second: u8,
}

impl View for Date {
    type V = Civil;

    closed spec fn view(&self) -> Civil {
        Civil {
            year: self.year as int,
            month: self.month as int,
            day: self.day as int,
            hour: self.hour as int,
            minute: self.minute as int,
            second: self.second as int,
        }
    }
}

/// A year begins as many days after the previous one as that one is long.
pub proof fn lemma_year_length(year: int)
    requires
        1 <= year,
    ensures
        days_before_year(year + 1) == days_before_year(year) + days_in_year(year),
{
}

/// A month begins as many days after the previous one as that one is long,
/// and the last month ends with the year.
pub proof fn lemma_month_length(year: int, month: int)
    requires
        1 <= month <= 12,
    ensures
        month < 12 ==> days_before_month(year, month + 1) == days_before_month(year, month)
            + days_in_month(year, month),
        month == 12 ==> days_before_month(year, month) + days_in_month(year, month)
            == days_in_year(year),
{
}

impl Date {
    #[verifier::type_invariant]
    closed spec fn inv(self) -> bool {
        valid_civil(self@)
    }

    /// The date with the given calendar fields.
    pub closed spec fn of(c: Civil) -> Date {
        Date {
            year: c.year as u16,
            month: c.month as u8,
            day: c.day as u8,
            hour: c.hour as u8,
            minute: c.minute as u8,
            second: c.second as u8,
        }
    }

    /// A date is determined by its calendar fields.
    pub proof fn lemma_of_view(self)
        ensures
            Date::of(self@) == self,
    {
    }

    /// Valid calendar fields are the fields of the date made from them.
    pub proof fn lemma_view_of(c: Civil)
        requires
            valid_civil(c),
        ensures
            Date::of(c)@ == c,
    {
    }

    /// The date with the given fields, or `None` unless they name an existing
    /// calendar day and time of day in years 1 to 9999.
    pub fn new(year: u16, month: u8, day: u8, hour: u8, minute: u8, second: u8) -> (date: Option<
        Date,
    >)
        ensures
            date is Some <==> valid_civil(
                Civil {
                    year: year as int,
                    month: month as int,
                    day: day as int,
                    hour: hour as int,
                    minute: minute as int,
                    second: second as int,
                },
            ),
            date matches Some(d) ==> {
                &&& d@.year == year
                &&& d@.month == month
                &&& d@.day == day
                &&& d@.hour == hour
                &&& d@.minute == minute
                &&& d@.second == second
            },
    {
        if year < 1 || year > 9999 || month < 1 || month > 12 || day < 1 {
            return None;
        }
        if day > month_length(year, month) || hour > 23 || minute > 59 || second > 59 {
            return None;
        }
        Some(Date { year, month, day, hour, minute, second })
    }

    /// The calendar year, 1 to 9999.
    pub fn year(&self) -> (y: u16)
        ensures
            y == self@.year,
            valid_civil(self@),
    {
        proof {
            use_type_invariant(self);
        }
        self.year
    }

    /// The month of the year, 1 to 12.
    pub fn month(&self) -> (m: u8)
        ensures
            m == self@.month,
            valid_civil(self@),
    {
        proof {
            use_type_invariant(self);
        }
        self.month
    }

    /// The day of the month, starting at 1.
    pub fn day(&self) -> (d: u8)
        ensures
            d == self@.day,
            valid_civil(self@),
    {
        proof {
            use_type_invariant(self);
        }
        self.day
    }

    /// The hour of the day, 0 to 23.
    pub fn hour(&self) -> (h: u8)
        ensures
            h == self@.hour,
            valid_civil(self@),
    {
        proof {
            use_type_invariant(self);
        }
        self.hour
    }

    /// The minute of the hour, 0 to 59.
    pub fn minute(&self) -> (m: u8)
        ensures
            m == self@.minute,
            valid_civil(self@),
    {
        proof {
            use_type_invariant(self);
        }
        self.minute
    }

    /// The second of the minute, 0 to 59.
    pub fn second(&self) -> (s: u8)
        ensures
            s == self@.second,
            valid_civil(self@),
    {
        proof {
            use_type_invariant(self);
        }
        self.second
    }

    /// Seconds from 1970-01-01T00:00:00 to this date, negative before it.
    pub fn timestamp(&self) -> (seconds: i64)
        ensures
            seconds == timestamp_of(self@),
            MIN_TIMESTAMP <= seconds <= MAX_TIMESTAMP,
    {
        proof {
            use_type_invariant(self);
            lemma_timestamp_range(self@);
        }
        let days: i64 = year_start(self.year as i64) + month_start(self.year, self.month) + (
        self.day as i64) - 1;
        (days - EPOCH_DAY) * SECONDS_PER_DAY + (self.hour as i64) * 3600 + (self.minute as i64)
            * 60 + (self.second as i64)
    }

    /// The date that lies `seconds` after 1970-01-01T00:00:00, or `None` when
    /// that instant is outside years 1 to 9999.
    pub fn from_timestamp(seconds: i64) -> (date: Option<Date>)
        ensures
            date is Some <==> MIN_TIMESTAMP <= seconds <= MAX_TIMESTAMP,
            date matches Some(d) ==> valid_civil(d@) && timestamp_of(d@) == seconds,
    {
        if seconds < MIN_TIMESTAMP || seconds > MAX_TIMESTAMP {
            return None;
        }
        let shifted: i64 = seconds - MIN_TIMESTAMP;
        let days: i64 = shifted / SECONDS_PER_DAY;
        let rest: i64 = shifted % SECONDS_PER_DAY;
        let mut year: i64 = days / 366 + 1;
        while year_start(year + 1) <= days
            invariant
                1 <= year <= 9999,
                0 <= days < 3652059,
                days_before_year(year as int) <= days,
            decreases 9999 - year,
        {
            year = year + 1;
        }
        let in_year: i64 = days - year_start(year);
        proof {
            lemma_year_length(year as int);
        }
        let mut month: u8 = 1;
        while month < 12 && month_start(year as u16, month + 1) <= in_year
            invariant
                1 <= year <= 9999,
                1 <= month <= 12,
                0 <= in_year < days_in_year(year as int),
                days_before_month(year as int, month as int) <= in_year,
            decreases 12 - month,
        {
            month = month + 1;
        }
        proof {
            lemma_month_length(year as int, month as int);
        }
        let day: i64 = in_year - month_start(year as u16, month) + 1;
        let hour: i64 = rest / 3600;
        let minute: i64 = (rest % 3600) / 60;
        let second: i64 = rest % 60;
        Some(
            Date {
                year: year as u16,
                month,
                day: day as u8,
                hour: hour as u8,
                minute: minute as u8,
                second: second as u8,
            },
        )
    }

    /// The date `seconds` later (earlier when negative), or `None` when that
    /// instant is outside years 1 to 9999.
    pub fn add_seconds(&self, seconds: i64) -> (date: Option<Date>)
        ensures
            date is Some <==> MIN_TIMESTAMP <= timestamp_of(self@) + seconds <= MAX_TIMESTAMP,
            date matches Some(d) ==> valid_civil(d@) && timestamp_of(d@) == timestamp_of(self@)
                + seconds,
            MIN_TIMESTAMP <= timestamp_of(self@) <= MAX_TIMESTAMP,
    {
        let start: i64 = self.timestamp();
        if seconds > MAX_TIMESTAMP - MIN_TIMESTAMP || seconds < MIN_TIMESTAMP - MAX_TIMESTAMP {
            return None;
        }
        Date::from_timestamp(start + seconds)
    }

    /// The date `minutes` minutes later, or `None` when that instant is
    /// outside years 1 to 9999.
    pub fn add_minutes(&self, minutes: u32) -> (date: Option<Date>)
        ensures
            date is Some <==> timestamp_of(self@) + 60 * minutes <= MAX_TIMESTAMP,
            date matches Some(d) ==> valid_civil(d@) && timestamp_of(d@) == timestamp_of(self@)
                + 60 * minutes,
    {
        proof {
            use_type_invariant(self);
            lemma_timestamp_range(self@);
        }
        self.add_seconds(60 * (minutes as i64))
    }

    /// The date `minutes` minutes earlier, or `None` when that instant is
    /// outside years 1 to 9999.
    pub fn sub_minutes(&self, minutes: u32) -> (date: Option<Date>)
        ensures
            date is Some <==> MIN_TIMESTAMP <= timestamp_of(self@) - 60 * minutes,
            date matches Some(d) ==> valid_civil(d@) && timestamp_of(d@) == timestamp_of(self@)
                - 60 * minutes,
    {
        proof {
            use_type_invariant(self);
            lemma_timestamp_range(self@);
        }
        self.add_seconds(-60 * (minutes as i64))
    }

    /// Whether this date is not later than `now`.
    pub fn is_reached(&self, now: &Date) -> (reached: bool)
        ensures
            reached == (timestamp_of(self@) <= timestamp_of(now@)),
    {
        self.timestamp() <= now.timestamp()
    }

    /// The same time of day on the following calendar day, or `None` after
    /// the last day of year 9999.
    pub fn next_day(&self) -> (date: Option<Date>)
        ensures
            date is Some <==> next_day(self@) is Some,
            date matches Some(d) ==> valid_civil(d@) && next_day(self@) == Some(d@),
    {
        proof {
            use_type_invariant(self);
        }
        if self.day < month_length(self.year, self.month) {
            Some(Date { day: self.day + 1, ..*self })
        } else if self.month < 12 {
            Some(Date { month: self.month + 1, day: 1, ..*self })
        } else if self.year < 9999 {
            Some(Date { year: self.year + 1, month: 1, day: 1, ..*self })
        } else {
            None
        }
    }

    /// The same day of the month and time of day in the following calendar
    /// month; `None` when that month has no such day, or after year 9999.
    pub fn next_month(&self) -> (date: Option<Date>)
        ensures
            date is Some <==> next_month(self@) is Some,
            date matches Some(d) ==> valid_civil(d@) && next_month(self@) == Some(d@),
    {
        proof {
            use_type_invariant(self);
        }
        let year: u16 = if self.month == 12 {
            self.year + 1
        } else {
            self.year
        };
        let month: u8 = if self.month == 12 {
            1
        } else {
            self.month + 1
        };
        if year <= 9999 && self.day <= month_length(year, month) {
            Some(Date { year, month, ..*self })
        } else {
            None
        }
    }
}

/// Seconds from `current` to `checked`, negative when `checked` is earlier.
pub fn time_diff(current: &Date, checked: &Date) -> (seconds: i64)
    ensures
        seconds == timestamp_of(checked@) - timestamp_of(current@),
        MIN_TIMESTAMP - MAX_TIMESTAMP <= seconds <= MAX_TIMESTAMP - MIN_TIMESTAMP,
{
    checked.timestamp() - current.timestamp()
}

/// Every valid date lies between the earliest and the latest timestamp.
pub proof fn lemma_timestamp_range(c: Civil)
    requires
        valid_civil(c),
    ensures
        MIN_TIMESTAMP <= timestamp_of(c) <= MAX_TIMESTAMP,
        0 <= day_number(c) < 3652059,
{
    lemma_year_start_monotonic(1, c.year);
    lemma_year_start_monotonic(c.year, 9999);
    lemma_month_length(c.year, c.month);
    lemma_month_start_bounds(c.year, c.month);
    lemma_year_length(9999);
}

/// The following calendar day begins exactly 24 hours later: stepping a
/// valid date by a day keeps the time of day and adds 86400 seconds.
pub proof fn law_next_day_adds_24_hours(c: Civil)
    requires
        valid_civil(c),
        next_day(c) is Some,
    ensures
        valid_civil(next_day(c)->0),
        timestamp_of(next_day(c)->0) == timestamp_of(c) + SECONDS_PER_DAY,
        next_day(c)->0.hour == c.hour,
        next_day(c)->0.minute == c.minute,
        next_day(c)->0.second == c.second,
{
    lemma_year_length(c.year);
    lemma_month_length(c.year, c.month);
}

/// Only the last day of year 9999 has no following day.
pub proof fn law_next_day_exists(c: Civil)
    requires
        valid_civil(c),
    ensures
        next_day(c) is None <==> c.year == 9999 && c.month == 12 && c.day == 31,
{
}

/// Stepping a valid date by a month keeps the day of the month and the time
/// of day, moves to the following calendar month, and succeeds exactly when
/// that month has such a day.
pub proof fn law_next_month_keeps_day(c: Civil)
    requires
        valid_civil(c),
    ensures
        next_month(c) matches Some(n) ==> {
            &&& valid_civil(n)
            &&& n.day == c.day
            &&& n.hour == c.hour
            &&& n.minute == c.minute
            &&& n.second == c.second
            &&& 12 * n.year + n.month == 12 * c.year + c.month + 1
            &&& timestamp_of(n) == timestamp_of(c) + SECONDS_PER_DAY * days_in_month(
                c.year,
                c.month,
            )
        },
        next_month(c) is None <==> (c.year == 9999 && c.month == 12) || c.day > days_in_month(
            if c.month == 12 {
                c.year + 1
            } else {
                c.year
            },
            if c.month == 12 {
                1
            } else {
                c.month + 1
            },
        ),
{
    lemma_year_length(c.year);
    lemma_month_length(c.year, c.month);
}

/// Two valid dates with the same timestamp are the same date.
pub proof fn law_timestamp_injective(a: Civil, b: Civil)
    requires
        valid_civil(a),
        valid_civil(b),
        timestamp_of(a) == timestamp_of(b),
    ensures
        a == b,
{
    let ta: int = a.hour * 3600 + a.minute * 60 + a.second;
    let tb: int = b.hour * 3600 + b.minute * 60 + b.second;
    assert(0 <= ta < 86400 && 0 <= tb < 86400);
    assert(day_number(a) == day_number(b));
    assert(ta == tb);
    if a.year < b.year || (a.year == b.year && a.month < b.month) {
        lemma_day_number_order(a, b);
    } else if b.year < a.year || (a.year == b.year && b.month < a.month) {
        lemma_day_number_order(b, a);
    }
}

/// A date in an earlier year or month has a smaller day number.
proof fn lemma_day_number_order(a: Civil, b: Civil)
    requires
        valid_civil(a),
        valid_civil(b),
        a.year < b.year || (a.year == b.year && a.month < b.month),
    ensures
        day_number(a) < day_number(b),
{
    lemma_month_start_bounds(a.year, a.month);
    lemma_month_start_bounds(b.year, b.month);
    if a.year < b.year {
        lemma_year_length(a.year);
        lemma_year_start_monotonic(a.year + 1, b.year);
    } else {
        lemma_month_length(a.year, a.month);
        lemma_month_start_monotonic(a.year, a.month + 1, b.month);
    }
}

/// Later months begin later.
proof fn lemma_month_start_monotonic(year: int, a: int, b: int)
    requires
        1 <= a <= b <= 12,
    ensures
        days_before_month(year, a) <= days_before_month(year, b),
{
}

/// The date that lies `seconds` after a valid date is the one whose
/// timestamp is larger by `seconds`.
pub proof fn lemma_civil_at(start: Civil, seconds: int, later: Civil)
    requires
        valid_civil(later),
        timestamp_of(later) == timestamp_of(start) + seconds,
    ensures
        civil_at(timestamp_of(start) + seconds) == later,
{
    let found = civil_at(timestamp_of(start) + seconds);
    law_timestamp_injective(found, later);
}

/// Later years begin later.
pub proof fn lemma_year_start_monotonic(a: int, b: int)
    requires
        1 <= a <= b,
    ensures
        days_before_year(a) <= days_before_year(b),
{
}

/// A month begins within its year, and ends within it.
pub proof fn lemma_month_start_bounds(year: int, month: int)
    requires
        1 <= month <= 12,
    ensures
        0 <= days_before_month(year, month),
        days_before_month(year, month) + days_in_month(year, month) <= days_in_year(year),
{
}

fn year_start(year: i64) -> (days: i64)
    requires
        1 <= year <= 10000,
    ensures
        days == days_before_year(year as int),
        0 <= days <= 3652059,
{
    let y: i64 = year - 1;
    365 * y + y / 4 - y / 100 + y / 400
}

fn month_start(year: u16, month: u8) -> (days: i64)
    requires
        1 <= month <= 12,
    ensures
        days == days_before_month(year as int, month as int),
        0 <= days <= 335,
{
    let leap: i64 = if month > 2 && leap_year(year) {
        1
    } else {
        0
    };
    let base: i64 = if month == 1 {
        0
    } else if month == 2 {
        31
    } else if month == 3 {
        59
    } else if month == 4 {
        90
    } else if month == 5 {
        120
    } else if month == 6 {
        151
    } else if month == 7 {
        181
    } else if month == 8 {
        212
    } else if month == 9 {
        243
    } else if month == 10 {
        273
    } else if month == 11 {
        304
    } else {
        334
    };
    base + leap
}

/// Whether `year` is a leap year.
pub fn leap_year(year: u16) -> (leap: bool)
    ensures
        leap == is_leap_year(year as int),
{
    year % 4 == 0 && (year % 100 != 0 || year % 400 == 0)
}

/// The number of days of `month` in `year`.
pub fn month_length(year: u16, month: u8) -> (days: u8)
    ensures
        days == days_in_month(year as int, month as int),
{
    if month == 2 {
        if leap_year(year) {
            29
        } else {
            28
        }
    } else if month == 4 || month == 6 || month == 9 || month == 11 {
        30
    } else {
        31
    }
}

} // verus!
