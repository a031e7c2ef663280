//! From a request to the date it asks for: which requests are turned down,
//! and with what explanation.

use crate::blackout::{blackout_note, BlackoutCalendar, RangeModel};
use crate::calendar::{following_day_is_next, CalendarDate, Weekday, Ymd};
use crate::key::DateKey;
use vstd::prelude::*;
use vstd::string::*;

verus! {

/// Why a request is turned down.
#[derive(Clone, Copy, Debug, PartialEq, Eq, Structural)]
pub enum RejectKind {
    /// The date does not exist, or the word for a relative day is not known.
    InvalidDate,
    /// The date is a Saturday or a Sunday.
    Weekend,
    /// The date lies in a closed range of the year.
    Blackout,
    /// Upstream has no document for the date, and none is stored.
    NotFound,
    /// Upstream cannot be used, and no document is stored.
    ServiceUnavailable,
}

/// The model of a `Rejection`.
pub struct RejectionModel {
    pub kind: RejectKind,
    pub message: Seq<char>,
}

/// A request turned down: the kind of reason, and the words for the client.
#[derive(Clone, Debug, PartialEq, Eq)]
pub struct Rejection {
    pub kind: RejectKind,
    pub message: String,
}

impl View for Rejection {
    type V = RejectionModel;

    open spec fn view(&self) -> RejectionModel {
        RejectionModel { kind: self.kind, message: self.message@ }
    }
}

/// A day named relative to the current one.
#[derive(Clone, Copy, Debug, PartialEq, Eq, Structural)]
pub enum RelativeDay {
    Today,
    Tomorrow,
}

/// How the date of a request was named.
#[derive(Clone, Copy, Debug, PartialEq, Eq, Structural)]
pub enum Origin {
    Explicit,
    Relative(RelativeDay),
}

/// The model of a `Request`.
pub enum RequestModel {
    Explicit { day: int, month: int, year: int },
    Relative { when: Seq<char> },
}

/// What a client asks for: the document of a date given by day, month and
/// year, or that of a day named by a word.
#[derive(Clone, Debug, PartialEq, Eq)]
pub enum Request {
    Explicit { day: u32, month: u32, year: i32 },
    Relative { when: String },
}

impl View for Request {
    type V = RequestModel;

    open spec fn view(&self) -> RequestModel {
        match self {
            Request::Explicit { day, month, year } => RequestModel::Explicit {
                day: *day as int,
                month: *month as int,
                year: *year as int,
            },
            Request::Relative { when } => RequestModel::Relative { when: when@ },
        }
    }
}

/// What `str::to_lowercase` makes of a text.
pub uninterp spec fn lowercased(text: Seq<char>) -> Seq<char>;

/// Calls `str::to_lowercase`. Trusted: the result depends on the characters
/// of the text alone.
#[verifier::external_body]
fn lowercase(text: &str) -> (lowered: String)
    ensures
        lowered@ == lowercased(text@),
{
    text.to_lowercase()
}

/// The relative day that a word in lower case names.
pub open spec fn keyword(word: Seq<char>) -> Option<RelativeDay> {
    if word == "today"@ {
        Some(RelativeDay::Today)
    } else if word == "tomorrow"@ {
        Some(RelativeDay::Tomorrow)
    } else {
        None
    }
}

pub open spec fn invalid_date_message() -> Seq<char> {
    "Nieprawidłowa data!"@
}

pub open spec fn unknown_word_message() -> Seq<char> {
    "Nieprawidłowa wartość parametru 'when'"@
}

/// What a client is told whose date falls on `weekday`, a Saturday or a Sunday.
pub open spec fn weekend_message(origin: Origin, weekday: Weekday) -> Seq<char> {
    match origin {
        Origin::Explicit => "Wybrana data to weekend!"@,
        Origin::Relative(RelativeDay::Today) => if weekday == Weekday::Saturday {
            "Jest dziś sobota, nie ma dziś żadnych lekcji!"@
        } else {
            "Jest dziś niedziela, nie ma dziś żadnych lekcji!"@
        },
        Origin::Relative(RelativeDay::Tomorrow) => if weekday == Weekday::Saturday {
            "Jutro jest sobota, więc nie ma zastępstw!"@
        } else {
            "Jutro jest niedziela, więc nie ma zastępstw!"@
        },
    }
}

/// Whether a date that exists may be asked for: not on a weekend, which is
/// looked at first, and not in a closed range of the year.
pub open spec fn admission(date: Ymd, origin: Origin, calendar: Seq<RangeModel>) -> Result<
    Ymd,
    RejectionModel,
> {
    if date.weekday().is_weekend() {
        Err(
            RejectionModel {
                kind: RejectKind::Weekend,
                message: weekend_message(origin, date.weekday()),
            },
        )
    } else {
        match blackout_note(calendar, date.month, date.day) {
            Some(note) => Err(RejectionModel { kind: RejectKind::Blackout, message: note }),
            None => Ok(date),
        }
    }
}

/// The date that a relative day stands for on the day `today`, if it may be
/// asked for. The day after the last date that exists is no date.
pub open spec fn relative_resolution(
    day: RelativeDay,
    today: Ymd,
    calendar: Seq<RangeModel>,
) -> Result<Ymd, RejectionModel> {
    match day {
        RelativeDay::Today => admission(today, Origin::Relative(day), calendar),
        RelativeDay::Tomorrow => if today.following().is_date() {
            admission(today.following(), Origin::Relative(day), calendar)
        } else {
            Err(
                RejectionModel {
                    kind: RejectKind::InvalidDate,
                    message: invalid_date_message(),
                },
            )
        },
    }
}

/// The date given by day, month and year, if it exists and may be asked for.
pub open spec fn explicit_resolution(
    day: int,
    month: int,
    year: int,
    calendar: Seq<RangeModel>,
) -> Result<Ymd, RejectionModel> {
    let date = Ymd { year, month, day };
    if date.is_date() {
        admission(date, Origin::Explicit, calendar)
    } else {
        Err(RejectionModel { kind: RejectKind::InvalidDate, message: invalid_date_message() })
    }
}

/// The date that a request asks for on the day `today`, or why it is turned
/// down.
pub open spec fn resolution(request: RequestModel, today: Ymd, calendar: Seq<RangeModel>) -> Result<
    Ymd,
    RejectionModel,
> {
    match request {
        RequestModel::Explicit { day, month, year } => explicit_resolution(
            day,
            month,
            year,
            calendar,
        ),
        RequestModel::Relative { when } => match keyword(lowercased(when)) {
            Some(day) => relative_resolution(day, today, calendar),
            None => Err(
                RejectionModel {
                    kind: RejectKind::InvalidDate,
                    message: unknown_word_message(),
                },
            ),
        },
    }
}

/// The date that a relative day names on the day `today`.
pub open spec fn named_date(day: RelativeDay, today: Ymd) -> Ymd {
    match day {
        RelativeDay::Today => today,
        RelativeDay::Tomorrow => today.following(),
    }
}

/// However a date is named, it resolves alike: a relative day resolves to a
/// date exactly if the date that it names does so when given by day, month
/// and year, and then both resolve to that date, and so to the same key.
/// Where both are turned down, they are turned down for the same kind of
/// reason.
pub proof fn relative_and_explicit_agree(day: RelativeDay, today: Ymd, calendar: Seq<RangeModel>)
    requires
        today.is_date(),
    ensures
        relative_resolution(day, today, calendar) is Ok <==> explicit_resolution(
            named_date(day, today).day,
            named_date(day, today).month,
            named_date(day, today).year,
            calendar,
        ) is Ok,
        relative_resolution(day, today, calendar) matches Ok(date) ==> date == named_date(
            day,
            today,
        ) && date.is_date() && explicit_resolution(date.day, date.month, date.year, calendar)
            == Ok::<Ymd, RejectionModel>(date),
        relative_resolution(day, today, calendar) matches Err(rejection) ==> explicit_resolution(
            named_date(day, today).day,
            named_date(day, today).month,
            named_date(day, today).year,
            calendar,
        ) matches Err(other) && other.kind == rejection.kind,
{
}

/// Who asks for tomorrow on a Friday or a Saturday is turned down for the
/// weekend, whatever the closed ranges of the year, with words that name the
/// day that tomorrow is.
pub proof fn tomorrow_before_a_weekend_day(today: Ymd, calendar: Seq<RangeModel>)
    requires
        today.is_date(),
        today.following().is_date(),
        today.weekday() == Weekday::Friday || today.weekday() == Weekday::Saturday,
    ensures
        relative_resolution(RelativeDay::Tomorrow, today, calendar) == Err::<Ymd, RejectionModel>(
            RejectionModel {
                kind: RejectKind::Weekend,
                message: if today.weekday() == Weekday::Friday {
                    "Jutro jest sobota, więc nie ma zastępstw!"@
                } else {
                    "Jutro jest niedziela, więc nie ma zastępstw!"@
                },
            },
        ),
{
    following_day_is_next(today);
}

/// A request is turned down by the resolution only because its date does not
/// exist, falls on a weekend or lies in a closed range; and a date that it
/// resolves to exists, falls on no weekend and lies in no closed range.
pub proof fn resolution_is_sound(request: RequestModel, today: Ymd, calendar: Seq<RangeModel>)
    requires
        today.is_date(),
    ensures
        resolution(request, today, calendar) matches Ok(date) ==> date.is_date()
            && !date.weekday().is_weekend() && blackout_note(calendar, date.month, date.day)
            is None,
        resolution(request, today, calendar) matches Err(rejection) ==> rejection.kind
            == RejectKind::InvalidDate || rejection.kind == RejectKind::Weekend || rejection.kind
            == RejectKind::Blackout,
{
}

/// The model of what a resolution gave.
pub open spec fn resolved(outcome: Result<DateKey, Rejection>) -> Result<Ymd, RejectionModel> {
    match outcome {
        Ok(key) => Ok(key@),
        Err(rejection) => Err(rejection@),
    }
}

/// Whether two texts hold the same characters.
pub(crate) fn same_text(left: &str, right: &str) -> (same: bool)
    ensures
        same == (left@ == right@),
{
    left.to_owned() == right.to_owned()
}

impl RelativeDay {
    /// The relative day that `word` names: `today` or `tomorrow`, in lower
    /// case.
    pub fn from_keyword(word: &str) -> (day: Option<RelativeDay>)
        ensures
            day == keyword(word@),
    {
        if same_text(word, "today") {
            Some(RelativeDay::Today)
        } else if same_text(word, "tomorrow") {
            Some(RelativeDay::Tomorrow)
        } else {
            None
        }
    }

    /// The relative day that `when` names, in whatever case it is written.
    pub fn parse(when: &str) -> (day: Option<RelativeDay>)
        ensures
            day == keyword(lowercased(when@)),
    {
        let lowered = lowercase(when);
        RelativeDay::from_keyword(lowered.as_str())
    }
}

fn weekend_rejection(origin: Origin, weekday: Weekday) -> (rejection: Rejection)
    ensures
        rejection@ == (RejectionModel {
            kind: RejectKind::Weekend,
            message: weekend_message(origin, weekday),
        }),
{
    let message = match origin {
        Origin::Explicit => "Wybrana data to weekend!",
        Origin::Relative(RelativeDay::Today) => match weekday {
            Weekday::Saturday => "Jest dziś sobota, nie ma dziś żadnych lekcji!",
            _ => "Jest dziś niedziela, nie ma dziś żadnych lekcji!",
        },
        Origin::Relative(RelativeDay::Tomorrow) => match weekday {
            Weekday::Saturday => "Jutro jest sobota, więc nie ma zastępstw!",
            _ => "Jutro jest niedziela, więc nie ma zastępstw!",
        },
    };
    Rejection { kind: RejectKind::Weekend, message: message.to_owned() }
}

fn invalid_date() -> (rejection: Rejection)
    ensures
        rejection@ == (RejectionModel {
            kind: RejectKind::InvalidDate,
            message: invalid_date_message(),
        }),
{
    Rejection { kind: RejectKind::InvalidDate, message: "Nieprawidłowa data!".to_owned() }
}

/// Lets a date that exists through, or turns it down: on a weekend with the words
/// that fit the way the date was named, in a closed range of the year with
/// the explanation of that range.
pub fn screen(
    date: CalendarDate,
    origin: Origin,
    calendar: &BlackoutCalendar,
) -> (outcome: Result<DateKey, Rejection>)
    ensures
        resolved(outcome) == admission(date@, origin, calendar@),
{
    let weekday = date.weekday();
    match weekday {
        Weekday::Saturday | Weekday::Sunday => Err(weekend_rejection(origin, weekday)),
        _ => match calendar.explain(&date) {
            Some(note) => Err(Rejection { kind: RejectKind::Blackout, message: note }),
            None => Ok(DateKey::new(date)),
        },
    }
}

/// Resolves a date given by day, month and year.
pub fn resolve_explicit(
    day: u32,
    month: u32,
    year: i32,
    calendar: &BlackoutCalendar,
) -> (outcome: Result<DateKey, Rejection>)
    ensures
        resolved(outcome) == explicit_resolution(
            day as int,
            month as int,
            year as int,
            calendar@,
        ),
{
    match CalendarDate::from_ymd(year, month, day) {
        Some(date) => screen(date, Origin::Explicit, calendar),
        None => Err(invalid_date()),
    }
}

/// Resolves a relative day against the current date `today`.
pub fn resolve_relative(
    day: RelativeDay,
    today: CalendarDate,
    calendar: &BlackoutCalendar,
) -> (outcome: Result<DateKey, Rejection>)
    ensures
        resolved(outcome) == relative_resolution(day, today@, calendar@),
{
    match day {
        RelativeDay::Today => screen(today, Origin::Relative(day), calendar),
        RelativeDay::Tomorrow => match today.tomorrow() {
            Some(date) => screen(date, Origin::Relative(day), calendar),
            None => Err(invalid_date()),
        },
    }
}

/// Resolves a request against the current date `today`.
pub fn resolve(
    request: &Request,
    today: CalendarDate,
    calendar: &BlackoutCalendar,
) -> (outcome: Result<DateKey, Rejection>)
    ensures
        resolved(outcome) == resolution(request@, today@, calendar@),
{
    match request {
        Request::Explicit { day, month, year } => resolve_explicit(*day, *month, *year, calendar),
        Request::Relative { when } => match RelativeDay::parse(when.as_str()) {
            Some(day) => resolve_relative(day, today, calendar),
            None => Err(
                Rejection {
                    kind: RejectKind::InvalidDate,
                    message: "Nieprawidłowa wartość parametru 'when'".to_owned(),
                },
            ),
        },
    }
}

} // verus!
