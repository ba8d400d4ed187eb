//! The moment of a deletion as a record holds it: local time, to the second.
//!
//! The calendar is chrono's. A date is kept as the number of seconds that
//! chrono reads out of its text, together with that text.

use vstd::prelude::*;

verus! {

/// The layout of a deletion date in a record.
pub const DATE_FORMAT: &'static str = "%Y-%m-%dT%H:%M:%S";

/// `chrono::format::ParseError`, the reason why a text is no date.
#[verifier::external_type_specification]
#[verifier::external_body]
pub struct ExParseError(chrono::format::ParseError);

/// What `chrono::NaiveDateTime::parse_from_str` reads out of `text` under
/// `format`, as seconds since 1970-01-01T00:00:00 on the same clock; `None`
/// where it refuses the text.
pub uninterp spec fn parsed_seconds(text: Seq<char>, format: Seq<char>) -> Option<i64>;

/// What chrono writes for the moment `seconds` after 1970-01-01T00:00:00
/// under `format`; `None` where it has no such moment or cannot write it.
pub uninterp spec fn formatted_seconds(seconds: i64, format: Seq<char>) -> Option<Seq<char>>;

/// `chrono::NaiveDateTime::parse_from_str`, the moment read off as seconds.
/// Nothing is claimed but that the outcome depends on the two texts alone.
#[verifier::external_body]
fn parse_naive(text: &str, format: &str) -> (r: Result<i64, chrono::format::ParseError>)
    ensures
        match r {
            Ok(seconds) => parsed_seconds(text@, format@) == Some(seconds),
            Err(_) => parsed_seconds(text@, format@) is None,
        },
{
    match chrono::NaiveDateTime::parse_from_str(text, format) {
        Ok(moment) => Ok(moment.and_utc().timestamp()),
        Err(e) => Err(e),
    }
}

/// `chrono::NaiveDateTime::format`, written out to a string. Nothing is
/// claimed but that the outcome depends on the seconds and the format alone.
#[verifier::external_body]
fn format_naive(seconds: i64, format: &str) -> (r: Option<String>)
    ensures
        match r {
            Some(text) => formatted_seconds(seconds, format@) == Some(text@),
            None => formatted_seconds(seconds, format@) is None,
        },
{
    let moment = chrono::DateTime::from_timestamp(seconds, 0)?.naive_utc();
    let mut text = String::new();
    match moment.format(format).write_to(&mut text) {
        Ok(()) => Some(text),
        Err(_) => None,
    }
}

/// The date that `text` stands for in a record, if it stands for one.
pub open spec fn date_of(text: Seq<char>) -> Option<i64> {
    parsed_seconds(text, DATE_FORMAT@)
}

/// The text of the moment `seconds` in a record, if it has one.
pub open spec fn text_of(seconds: i64) -> Option<Seq<char>> {
    formatted_seconds(seconds, DATE_FORMAT@)
}

/// A moment can be recorded if its text exists and reads back as the
/// same moment.
pub open spec fn recordable(seconds: i64) -> bool {
    text_of(seconds) matches Some(text) && date_of(text) == Some(seconds)
}

/// A deletion date: a moment in local time and the text that a record
/// holds for it.
#[derive(Debug)]
pub struct DeletionDate {
    seconds: i64,
    text: String,
}

/// What a deletion date is: seconds since 1970-01-01T00:00:00 local time,
/// and its text.
pub struct DateModel {
    pub seconds: i64,
    pub text: Seq<char>,
}

impl View for DeletionDate {
    type V = DateModel;

    closed spec fn view(&self) -> DateModel {
        DateModel { seconds: self.seconds, text: self.text@ }
    }
}

impl DeletionDate {
    /// The text stands for the moment.
    pub open spec fn wf(&self) -> bool {
        date_of(self@.text) == Some(self@.seconds)
    }

    /// Reads a date from the text of a record.
    pub fn parse(text: &str) -> (r: Result<DeletionDate, chrono::format::ParseError>)
        ensures
            r is Ok <==> date_of(text@) is Some,
            r matches Ok(date) ==> date.wf() && date@.text == text@,
    {
        match parse_naive(text, DATE_FORMAT) {
            Ok(seconds) => Ok(DeletionDate { seconds, text: text.to_owned() }),
            Err(e) => Err(e),
        }
    }

    /// The date of a moment, given as seconds since 1970-01-01T00:00:00
    /// local time. `None` for a moment that cannot be recorded.
    pub fn from_timestamp(seconds: i64) -> (r: Option<DeletionDate>)
        ensures
            r is Some <==> recordable(seconds),
            r matches Some(date) ==> date.wf() && date@.seconds == seconds && text_of(seconds)
                == Some(date@.text),
    {
        match format_naive(seconds, DATE_FORMAT) {
            Some(text) => match parse_naive(text.as_str(), DATE_FORMAT) {
                Ok(read_back) => if read_back == seconds {
                    Some(DeletionDate { seconds, text })
                } else {
                    None
                },
                Err(_) => None,
            },
            None => None,
        }
    }

    /// Seconds since 1970-01-01T00:00:00 local time.
    pub fn timestamp(&self) -> (seconds: i64)
        ensures
            seconds == self@.seconds,
    {
        self.seconds
    }

    /// The text that a record holds for this date.
    pub fn text(&self) -> (text: &str)
        ensures
            text@ == self@.text,
    {
        self.text.as_str()
    }
}

} // verus!
