//! Calendar dates of the proleptic Gregorian calendar, as chrono counts them.

use chrono::Datelike;
use vstd::prelude::*;

verus! {

/// First year that a date can lie in.
pub const MIN_YEAR: i32 = -262_143;

/// Last year that a date can lie in.
pub const MAX_YEAR: i32 = 262_142;

/// A year, a month and a day as mathematical integers: the model of a date.
pub struct Ymd {
    pub year: int,
    pub month: int,
    pub day: int,
}

pub open spec fn is_leap_year(year: int) -> bool {
    year % 4 == 0 && (year % 100 != 0 || year % 400 == 0)
}

pub open spec fn days_in_month(year: int, month: int) -> int {
    if month == 2 {
        if is_leap_year(year) {
            29
        } else {
            28
        }
    } else if month == 4 || month == 6 || month == 9 || month == 11 {
        30
    } else {
        31
    }
}

/// Days of `year` that lie before the first of `month`.
pub open spec fn days_before_month(year: int, month: int) -> int
    decreases month,
{
    if month <= 1 {
        0
    } else {
        days_before_month(year, month - 1) + days_in_month(year, month - 1)
    }
}

/// Days between the first of January of year 1 and the first of January of
/// `year`; negative for earlier years.
pub open spec fn days_before_year(year: int) -> int {
    let past = year - 1;
    365 * past + past / 4 - past / 100 + past / 400
}

impl Ymd {
    /// The date exists in the calendar and its year is one that dates can lie in.
    pub open spec fn is_date(self) -> bool {
        &&& MIN_YEAR <= self.year <= MAX_YEAR
        &&& 1 <= self.month <= 12
        &&& 1 <= self.day <= days_in_month(self.year, self.month)
    }

    /// The number of the day, counted from the first of January of year 1,
    /// which is day 1.
    pub open spec fn day_number(self) -> int {
        days_before_year(self.year) + days_before_month(self.year, self.month) + self.day
    }

    /// The day of the week; day 1 is a Monday.
    pub open spec fn weekday(self) -> Weekday {
        Weekday::from_index((self.day_number() - 1) % 7)
    }

    /// The date one day later.
    pub open spec fn following(self) -> Ymd {
        if self.day < days_in_month(self.year, self.month) {
            Ymd { year: self.year, month: self.month, day: self.day + 1 }
        } else if self.month < 12 {
            Ymd { year: self.year, month: self.month + 1, day: 1 }
        } else {
            Ymd { year: self.year + 1, month: 1, day: 1 }
        }
    }
}

/// The model of the date that a year, a month and a day stand for.
pub open spec fn ymd(year: i32, month: u32, day: u32) -> Ymd {
    Ymd { year: year as int, month: month as int, day: day as int }
}

#[derive(Clone, Copy, Debug, PartialEq, Eq, Structural)]
pub enum Weekday {
    Monday,
    Tuesday,
    Wednesday,
    Thursday,
    Friday,
    Saturday,
    Sunday,
}

impl Weekday {
    /// The weekday that lies `index` days after a Monday, for `index` from 0 to 6.
    pub open spec fn from_index(index: int) -> Weekday {
        if index == 0 {
            Weekday::Monday
        } else if index == 1 {
            Weekday::Tuesday
        } else if index == 2 {
            Weekday::Wednesday
        } else if index == 3 {
            Weekday::Thursday
        } else if index == 4 {
            Weekday::Friday
        } else if index == 5 {
            Weekday::Saturday
        } else {
            Weekday::Sunday
        }
    }

    /// How many days after a Monday the weekday lies.
    pub open spec fn index(self) -> int {
        match self {
            Weekday::Monday => 0,
            Weekday::Tuesday => 1,
            Weekday::Wednesday => 2,
            Weekday::Thursday => 3,
            Weekday::Friday => 4,
            Weekday::Saturday => 5,
            Weekday::Sunday => 6,
        }
    }

    /// The weekday of the day after.
    pub open spec fn following(self) -> Weekday {
        Weekday::from_index((self.index() + 1) % 7)
    }

    pub open spec fn is_weekend(self) -> bool {
        self == Weekday::Saturday || self == Weekday::Sunday
    }
}

/// A year has 365 days, and one more if it is a leap year.
pub proof fn year_has_its_days(year: int)
    ensures
        days_before_month(year, 12) + 31 == (if is_leap_year(year) {
            366int
        } else {
            365int
        }),
        days_before_year(year + 1) - days_before_year(year) == (if is_leap_year(year) {
            366int
        } else {
            365int
        }),
{
    reveal_with_fuel(days_before_month, 13);
}

/// The day after a date that exists is the next in the count of days, and
/// falls on the next day of the week. It exists too, unless the date is the
/// last day of the last year.
pub proof fn following_day_is_next(date: Ymd)
    requires
        date.is_date(),
    ensures
        date.following().day_number() == date.day_number() + 1,
        date.following().weekday() == date.weekday().following(),
        date.following().is_date() <==> !(date.year == MAX_YEAR && date.month == 12 && date.day
            == 31),
{
    year_has_its_days(date.year);
    if date.day < days_in_month(date.year, date.month) {
    } else if date.month < 12 {
        assert(days_before_month(date.year, date.month + 1) == days_before_month(
            date.year,
            date.month,
        ) + days_in_month(date.year, date.month));
    } else {
        assert(days_before_month(date.year + 1, 1) == 0);
    }
}

/// Calls `chrono::NaiveDate::from_ymd_opt` and says whether it made a date.
/// Trusted: chrono makes one exactly for the days that exist in the proleptic
/// Gregorian calendar, in the years from `MIN_YEAR` to `MAX_YEAR`.
#[verifier::external_body]
fn chrono_date_exists(year: i32, month: u32, day: u32) -> (found: bool)
    ensures
        found == ymd(year, month, day).is_date(),
{
    chrono::NaiveDate::from_ymd_opt(year, month, day).is_some()
}

/// Calls `chrono::Datelike::weekday` on the date that
/// `chrono::NaiveDate::from_ymd_opt` makes of the arguments.
/// Trusted: for a date that exists chrono gives its day of the week in the
/// proleptic Gregorian calendar, in which the first of January of year 1 is a
/// Monday.
#[verifier::external_body]
fn chrono_weekday(year: i32, month: u32, day: u32) -> (weekday: Option<Weekday>)
    ensures
        weekday == (if ymd(year, month, day).is_date() {
            Some(ymd(year, month, day).weekday())
        } else {
            None
        }),
{
    let date = chrono::NaiveDate::from_ymd_opt(year, month, day)?;
    Some(match date.weekday() {
        chrono::Weekday::Mon => Weekday::Monday,
        chrono::Weekday::Tue => Weekday::Tuesday,
        chrono::Weekday::Wed => Weekday::Wednesday,
        chrono::Weekday::Thu => Weekday::Thursday,
        chrono::Weekday::Fri => Weekday::Friday,
        chrono::Weekday::Sat => Weekday::Saturday,
        chrono::Weekday::Sun => Weekday::Sunday,
    })
}

/// Calls `chrono::NaiveDate::succ_opt` on the date that
/// `chrono::NaiveDate::from_ymd_opt` makes of the arguments, and reads the
/// year, month and day of what comes back.
/// Trusted: for a date that exists chrono gives the next calendar date, and
/// none after the last day of `MAX_YEAR`.
#[verifier::external_body]
fn chrono_following(year: i32, month: u32, day: u32) -> (next: Option<(i32, u32, u32)>)
    ensures
        next is Some <==> (ymd(year, month, day).is_date() && ymd(
            year,
            month,
            day,
        ).following().is_date()),
        next matches Some(n) ==> ymd(n.0, n.1, n.2)
            == ymd(year, month, day).following(),
{
    let next = chrono::NaiveDate::from_ymd_opt(year, month, day)?.succ_opt()?;
    Some((next.year(), next.month(), next.day()))
}

/// A date that exists.
#[derive(Clone, Copy, Debug, PartialEq, Eq, Hash)]
pub struct CalendarDate {
    year: i32,
    month: u32,
    day: u32,
}

impl View for CalendarDate {
    type V = Ymd;

    closed spec fn view(&self) -> Ymd {
        ymd(self.year, self.month, self.day)
    }
}

impl CalendarDate {
    #[verifier::type_invariant]
    spec fn exists_in_calendar(self) -> bool {
        self@.is_date()
    }

    /// The date of the given year, month and day, if there is one.
    pub fn from_ymd(year: i32, month: u32, day: u32) -> (date: Option<CalendarDate>)
        ensures
            date is Some <==> ymd(year, month, day).is_date(),
            date matches Some(d) ==> d@ == ymd(year, month, day),
    {
        if chrono_date_exists(year, month, day) {
            Some(CalendarDate { year, month, day })
        } else {
            None
        }
    }

    pub fn year(&self) -> (year: i32)
        ensures
            year == self@.year,
            self@.is_date(),
    {
        proof {
            use_type_invariant(self);
        }
        self.year
    }

    pub fn month(&self) -> (month: u32)
        ensures
            month == self@.month,
            self@.is_date(),
    {
        proof {
            use_type_invariant(self);
        }
        self.month
    }

    pub fn day(&self) -> (day: u32)
        ensures
            day == self@.day,
            self@.is_date(),
    {
        proof {
            use_type_invariant(self);
        }
        self.day
    }

    /// Whether `other` is the same date.
    pub fn is_same(&self, other: &CalendarDate) -> (same: bool)
        ensures
            same == (self@ == other@),
    {
        self.year == other.year && self.month == other.month && self.day == other.day
    }

    /// The day of the week that the date falls on.
    pub fn weekday(&self) -> (weekday: Weekday)
        ensures
            weekday == self@.weekday(),
            self@.is_date(),
    {
        proof {
            use_type_invariant(self);
        }
        match chrono_weekday(self.year, self.month, self.day) {
            Some(weekday) => weekday,
            // Never taken: the date exists.
            None => Weekday::Monday,
        }
    }

    /// The next day, unless the date is the last one that can be held.
    pub fn tomorrow(&self) -> (next: Option<CalendarDate>)
        ensures
            self@.is_date(),
            next is Some <==> self@.following().is_date(),
            next matches Some(n) ==> n@ == self@.following(),
    {
        proof {
            use_type_invariant(self);
        }
        match chrono_following(self.year, self.month, self.day) {
            Some((year, month, day)) => Some(CalendarDate { year, month, day }),
            None => None,
        }
    }
}

} // verus!
