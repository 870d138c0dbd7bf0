//! Readers for the fields that the services encode as text.

use vstd::prelude::*;
use crate::text::str_eq;

verus! {

/// An instant, as milliseconds since the Unix epoch. The services give
/// instants in two encodings, a number of milliseconds and a wall-clock time
/// in Korea; both end up here.
#[derive(Clone, Copy, Debug, PartialEq, Eq, Structural)]
pub struct Timestamp {
    pub millis: i64,
}

/// A text field that does not hold what it should.
#[derive(Clone, Copy, Debug, PartialEq, Eq, Structural)]
pub enum FieldError {
    /// Not a wall-clock time of the form `2018-02-01 20:39:00`.
    InvalidTimestamp,
    /// Not an unsigned number, or one too large.
    InvalidNumber,
    /// Not a name of one of the expected variants.
    UnknownVariant,
    /// A field that every entry must have is absent.
    Missing,
}

#[verifier::external_type_specification]
#[verifier::external_body]
pub struct ExParseError(chrono::format::ParseError);

/// The instant that chrono's parser reads from `text` under the format
/// string `format`, in milliseconds since the Unix epoch; `None` where the
/// parser rejects the text.
pub uninterp spec fn parsed_instant(text: Seq<char>, format: Seq<char>) -> Option<i64>;

/// Calls `chrono::DateTime::parse_from_str` and takes the parsed instant by
/// `timestamp_millis`. The parser takes the offset from the text and
/// consults neither the clock nor the time zone of the machine, so the
/// result depends on the two arguments alone; the contract gives it its
/// name and claims nothing else of it.
#[verifier::external_body]
fn parse_instant(text: &str, format: &str) -> (r: core::result::Result<i64, chrono::format::ParseError>)
    ensures
        match r {
            Ok(millis) => parsed_instant(text@, format@) == Some(millis),
            Err(_) => parsed_instant(text@, format@) is None,
        },
{
    chrono::DateTime::parse_from_str(text, format).map(|instant| instant.timestamp_millis())
}

/// Reads the flag that the services write as `"Y"` or `"N"`: true for
/// `"Y"`, false for everything else.
pub fn bool_from_str(s: &str) -> (flag: bool)
    ensures
        flag == (s@ == "Y"@),
{
    str_eq(s, "Y")
}

/// The text handed to the parser for the wall-clock time `s`: all times of
/// the platform are Korean standard time, nine hours ahead of UTC.
pub open spec fn with_korean_offset(s: Seq<char>) -> Seq<char> {
    s + " +0900"@
}

/// The format of a wall-clock time with its offset.
pub open spec fn timestamp_format() -> Seq<char> {
    "%Y-%m-%d %H:%M:%S %z"@
}

/// Turns what the parser made of a wall-clock time into a timestamp.
pub fn timestamp_from_parsed(parsed: core::result::Result<i64, chrono::format::ParseError>) -> (r:
    core::result::Result<Timestamp, FieldError>)
    ensures
        match parsed {
            Ok(millis) => r == Ok::<Timestamp, FieldError>(Timestamp { millis }),
            Err(_) => r == Err::<Timestamp, FieldError>(FieldError::InvalidTimestamp),
        },
{
    match parsed {
        Ok(millis) => Ok(Timestamp { millis }),
        Err(_) => Err(FieldError::InvalidTimestamp),
    }
}

/// Reads a wall-clock time such as `2018-02-01 20:39:00` as Korean standard
/// time.
pub fn timestamp_from_str(s: &str) -> (r: core::result::Result<Timestamp, FieldError>)
    ensures
        match parsed_instant(with_korean_offset(s@), timestamp_format()) {
            Some(millis) => r == Ok::<Timestamp, FieldError>(Timestamp { millis }),
            None => r == Err::<Timestamp, FieldError>(FieldError::InvalidTimestamp),
        },
{
    let mut text = String::from_str(s);
    text.append(" +0900");
    timestamp_from_parsed(parse_instant(text.as_str(), "%Y-%m-%d %H:%M:%S %z"))
}

/// Reads a wall-clock time that may be absent.
pub fn option_timestamp_from_str(s: Option<&str>) -> (r: core::result::Result<Option<Timestamp>, FieldError>)
    ensures
        match s {
            None => r == Ok::<Option<Timestamp>, FieldError>(None),
            Some(text) => match parsed_instant(with_korean_offset(text@), timestamp_format()) {
                Some(millis) => r == Ok::<Option<Timestamp>, FieldError>(Some(Timestamp { millis })),
                None => r == Err::<Option<Timestamp>, FieldError>(FieldError::InvalidTimestamp),
            },
        },
{
    match s {
        None => Ok(None),
        Some(text) => match timestamp_from_str(text) {
            Ok(t) => Ok(Some(t)),
            Err(e) => Err(e),
        },
    }
}

} // verus!
