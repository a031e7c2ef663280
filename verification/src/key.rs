//! The key under which a day's document is stored: the date, written as
//! two places of day, two places of month and the year, with dots between.

use crate::calendar::{ymd, CalendarDate, Ymd};
use crate::text::{
    append_decimal, append_two_digits, decimal, decimal_is_injective, digit, two_digits,
    two_digits_are_injective,
};
use vstd::prelude::*;
use vstd::string::*;

verus! {

/// The text of the key of a date.
pub open spec fn key_text(date: Ymd) -> Seq<char> {
    two_digits(date.day) + seq!['.'] + two_digits(date.month) + seq!['.'] + decimal(date.year)
}

/// The name of the file that holds the document of a date.
pub open spec fn artifact_name(date: Ymd) -> Seq<char> {
    key_text(date) + ".pdf"@
}

/// The name of the file in which a new document of a date is written before
/// it takes the place of the old one.
pub open spec fn staging_name(date: Ymd) -> Seq<char> {
    key_text(date) + ".pdf.part"@
}

/// The name under which the document of a date, last written at the moment
/// `written`, is kept when another takes its place.
pub open spec fn archive_name(date: Ymd, written: int) -> Seq<char> {
    "archive-"@ + key_text(date) + "-"@ + decimal(written) + ".pdf"@
}

/// Different dates have different keys: the text of a key is the text of one
/// date only.
pub proof fn key_text_is_injective(left: Ymd, right: Ymd)
    requires
        left.is_date(),
        right.is_date(),
        key_text(left) == key_text(right),
    ensures
        left == right,
{
    let left_text = key_text(left);
    let right_text = key_text(right);
    assert(left_text.subrange(0, 2) =~= two_digits(left.day));
    assert(right_text.subrange(0, 2) =~= two_digits(right.day));
    two_digits_are_injective(left.day, right.day);
    assert(left_text.subrange(3, 5) =~= two_digits(left.month));
    assert(right_text.subrange(3, 5) =~= two_digits(right.month));
    two_digits_are_injective(left.month, right.month);
    assert(left_text.subrange(6, left_text.len() as int) =~= decimal(left.year));
    assert(right_text.subrange(6, right_text.len() as int) =~= decimal(right.year));
    decimal_is_injective(left.year, right.year);
}

/// Different dates have their documents in different files.
pub proof fn artifact_name_is_injective(left: Ymd, right: Ymd)
    requires
        left.is_date(),
        right.is_date(),
        artifact_name(left) == artifact_name(right),
    ensures
        left == right,
{
    let left_name = artifact_name(left);
    let right_name = artifact_name(right);
    assert(left_name.subrange(0, left_name.len() - ".pdf"@.len()) =~= key_text(left));
    assert(right_name.subrange(0, right_name.len() - ".pdf"@.len()) =~= key_text(right));
    key_text_is_injective(left, right);
}

/// The file in which a new document is written, and the file under which a
/// replaced one is kept, are never the file that holds the document of any
/// date, nor one another. So what is written beside the stored documents
/// is never found in place of one.
pub proof fn file_names_are_kept_apart(stored: Ymd, other: Ymd, written: int)
    ensures
        staging_name(other) != artifact_name(stored),
        archive_name(other, written) != artifact_name(stored),
        archive_name(other, written) != staging_name(stored),
{
    reveal_strlit(".pdf");
    reveal_strlit(".pdf.part");
    reveal_strlit("archive-");
    let artifact = artifact_name(stored);
    let staging = staging_name(other);
    assert(artifact.last() == 'f');
    assert(staging.last() == 't');
    assert(archive_name(other, written)[0] == 'a');
    assert(artifact[0] == digit(stored.day / 10));
    assert(staging_name(stored)[0] == digit(stored.day / 10));
}

/// The key of a date that exists. Two keys have the same text exactly when
/// they are keys of the same date.
#[derive(Debug, PartialEq, Eq, Hash)]
pub struct DateKey {
    date: CalendarDate,
    text: String,
}

impl View for DateKey {
    type V = Ymd;

    closed spec fn view(&self) -> Ymd {
        self.date@
    }
}

impl Clone for DateKey {
    fn clone(&self) -> (copy: DateKey)
        ensures
            copy@ == self@,
    {
        proof {
            use_type_invariant(self);
        }
        DateKey { date: self.date, text: self.text.clone() }
    }
}

impl DateKey {
    #[verifier::type_invariant]
    spec fn text_is_of_date(self) -> bool {
        self.text@ == key_text(self.date@)
    }

    /// The key of `date`.
    pub fn new(date: CalendarDate) -> (key: DateKey)
        ensures
            key@ == date@,
    {
        let mut text = String::new();
        append_two_digits(&mut text, date.day());
        text.append(".");
        append_two_digits(&mut text, date.month());
        text.append(".");
        append_decimal(&mut text, date.year() as i64);
        proof {
            reveal_strlit(".");
            assert("."@ =~= seq!['.']);
            assert(text@ =~= key_text(date@));
        }
        DateKey { date, text }
    }

    /// The key of the date with the given day, month and year, if that date
    /// exists.
    pub fn from_components(day: u32, month: u32, year: i32) -> (key: Option<DateKey>)
        ensures
            key is Some <==> ymd(year, month, day).is_date(),
            key matches Some(k) ==> k@ == ymd(year, month, day),
    {
        match CalendarDate::from_ymd(year, month, day) {
            Some(date) => Some(DateKey::new(date)),
            None => None,
        }
    }

    /// The date that the key stands for.
    pub fn date(&self) -> (date: CalendarDate)
        ensures
            date@ == self@,
            self@.is_date(),
    {
        let date = self.date;
        let _ = date.year();
        date
    }

    /// The text of the key.
    pub fn as_str(&self) -> (text: &str)
        ensures
            text@ == key_text(self@),
            self@.is_date(),
    {
        proof {
            use_type_invariant(self);
        }
        let _ = self.date.year();
        self.text.as_str()
    }

    /// The name of the file that holds the document.
    pub fn artifact_name(&self) -> (name: String)
        ensures
            name@ == artifact_name(self@),
    {
        let mut name = self.as_str().to_owned();
        name.append(".pdf");
        name
    }

    /// The name of the file in which a new document is written before it
    /// takes the place of the old one.
    pub fn staging_name(&self) -> (name: String)
        ensures
            name@ == staging_name(self@),
    {
        let mut name = self.as_str().to_owned();
        name.append(".pdf.part");
        name
    }

    /// The name under which the stored document, last written at the moment
    /// `written`, is kept when another takes its place.
    pub fn archive_name(&self, written: i64) -> (name: String)
        ensures
            name@ == archive_name(self@, written as int),
    {
        let mut name = "archive-".to_owned();
        name.append(self.as_str());
        name.append("-");
        append_decimal(&mut name, written);
        name.append(".pdf");
        name
    }
}

} // verus!
