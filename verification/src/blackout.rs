//! Stretches of the year in which no document is published, each with the
//! explanation that is given for it.

use crate::calendar::CalendarDate;
use vstd::prelude::*;
use vstd::string::*;

verus! {

/// A day of the year: a month and a day of that month.
#[derive(Clone, Copy, Debug, PartialEq, Eq, Structural)]
pub struct YearDay {
    pub month: u32,
    pub day: u32,
}

/// The first of two days of a year is the same day as the second or an
/// earlier one.
pub open spec fn not_after(month: int, day: int, later_month: int, later_day: int) -> bool {
    month < later_month || (month == later_month && day <= later_day)
}

impl YearDay {
    pub fn is_not_after(&self, other: &YearDay) -> (holds: bool)
        ensures
            holds == not_after(
                self.month as int,
                self.day as int,
                other.month as int,
                other.day as int,
            ),
    {
        self.month < other.month || (self.month == other.month && self.day <= other.day)
    }
}

/// The model of a `BlackoutRange`.
pub struct RangeModel {
    pub first: YearDay,
    pub last: YearDay,
    pub note: Seq<char>,
}

impl RangeModel {
    /// The range holds the day. A range whose first day lies after its last
    /// one runs over the turn of the year.
    pub open spec fn covers(self, month: int, day: int) -> bool {
        let begun = not_after(self.first.month as int, self.first.day as int, month, day);
        let not_over = not_after(month, day, self.last.month as int, self.last.day as int);
        if not_after(
            self.first.month as int,
            self.first.day as int,
            self.last.month as int,
            self.last.day as int,
        ) {
            begun && not_over
        } else {
            begun || not_over
        }
    }
}

/// The explanation of the first range that holds the day, if any does.
pub open spec fn blackout_note(ranges: Seq<RangeModel>, month: int, day: int) -> Option<
    Seq<char>,
>
    decreases ranges.len(),
{
    if ranges.len() == 0 {
        None
    } else if ranges.first().covers(month, day) {
        Some(ranges.first().note)
    } else {
        blackout_note(ranges.drop_first(), month, day)
    }
}

/// Every year's days from `first` to `last`, both included, and the
/// explanation given to who asks for one of them.
#[derive(Clone, Debug, PartialEq, Eq)]
pub struct BlackoutRange {
    pub first: YearDay,
    pub last: YearDay,
    pub note: String,
}

impl View for BlackoutRange {
    type V = RangeModel;

    open spec fn view(&self) -> RangeModel {
        RangeModel { first: self.first, last: self.last, note: self.note@ }
    }
}

impl BlackoutRange {
    pub fn covers(&self, day: &YearDay) -> (holds: bool)
        ensures
            holds == self@.covers(day.month as int, day.day as int),
    {
        if self.first.is_not_after(&self.last) {
            self.first.is_not_after(day) && day.is_not_after(&self.last)
        } else {
            self.first.is_not_after(day) || day.is_not_after(&self.last)
        }
    }
}

/// The ranges of the year that are closed, in the order in which they are
/// looked through.
#[derive(Clone, Debug, PartialEq, Eq)]
pub struct BlackoutCalendar {
    pub ranges: Vec<BlackoutRange>,
}

impl View for BlackoutCalendar {
    type V = Seq<RangeModel>;

    open spec fn view(&self) -> Seq<RangeModel> {
        Seq::new(self.ranges@.len(), |i: int| self.ranges@[i]@)
    }
}

/// The explanation given for the winter break.
pub open spec fn winter_break_note() -> Seq<char> {
    "Jest przerwa zimowa! Możesz odpoczywać!"@
}

impl BlackoutCalendar {
    /// The model of the calendar whose one closed range is the winter break,
    /// from the 16th to the 29th of January.
    pub open spec fn winter_break_model() -> Seq<RangeModel> {
        seq![
            RangeModel {
                first: YearDay { month: 1, day: 16 },
                last: YearDay { month: 1, day: 29 },
                note: winter_break_note(),
            },
        ]
    }

    /// A calendar without closed ranges.
    pub fn open_all_year() -> (calendar: BlackoutCalendar)
        ensures
            calendar@ == Seq::<RangeModel>::empty(),
    {
        let calendar = BlackoutCalendar { ranges: Vec::new() };
        assert(calendar@ =~= Seq::<RangeModel>::empty());
        calendar
    }

    /// The calendar whose one closed range is the winter break.
    pub fn winter_break() -> (calendar: BlackoutCalendar)
        ensures
            calendar@ == BlackoutCalendar::winter_break_model(),
    {
        let mut ranges: Vec<BlackoutRange> = Vec::new();
        ranges.push(
            BlackoutRange {
                first: YearDay { month: 1, day: 16 },
                last: YearDay { month: 1, day: 29 },
                note: "Jest przerwa zimowa! Możesz odpoczywać!".to_owned(),
            },
        );
        let calendar = BlackoutCalendar { ranges };
        assert(calendar@ =~= BlackoutCalendar::winter_break_model());
        calendar
    }

    /// The explanation of the first closed range that holds the date, or
    /// nothing if the date lies in none.
    pub fn explain(&self, date: &CalendarDate) -> (note: Option<String>)
        ensures
            match note {
                Some(text) => Some(text@),
                None => None,
            } == blackout_note(self@, date@.month, date@.day),
    {
        let day = YearDay { month: date.month(), day: date.day() };
        let mut index: usize = 0;
        assert(self@.skip(0) =~= self@);
        while index < self.ranges.len()
            invariant
                index <= self.ranges.len(),
                day.month == date@.month,
                day.day == date@.day,
                blackout_note(self@, date@.month, date@.day) == blackout_note(
                    self@.skip(index as int),
                    date@.month,
                    date@.day,
                ),
            decreases self.ranges.len() - index,
        {
            proof {
                let rest = self@.skip(index as int);
                assert(rest.first() == self.ranges@[index as int]@);
                assert(rest.drop_first() =~= self@.skip(index + 1));
            }
            if self.ranges[index].covers(&day) {
                return Some(self.ranges[index].note.clone());
            }
            index = index + 1;
        }
        assert(self@.skip(index as int).len() == 0);
        None
    }
}

} // verus!
