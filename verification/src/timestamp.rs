use crate::error::Error;
use crate::event::Range;
use vstd::prelude::*;

verus! {

/// What `chrono` reads out of `text` under the format `format`, taken as a
/// date and time in UTC and counted in seconds since the epoch; `None` where
/// it turns the text or the format down.
///
/// Nothing more is assumed of it than that it depends on the two texts
/// alone.
pub uninterp spec fn parsed_timestamp(text: Seq<char>, format: Seq<char>) -> Option<i64>;

/// Calls `chrono::NaiveDateTime::parse_from_str`, then `and_utc` and
/// `timestamp` on what it read. Trusted, not proved: the result is
/// [`parsed_timestamp`] of the two texts.
#[verifier::external_body]
fn parse_with(text: &str, format: &str) -> (r: Option<i64>)
    ensures
        r == parsed_timestamp(text@, format@),
{
    match chrono::NaiveDateTime::parse_from_str(text, format) {
        Ok(moment) => Some(moment.and_utc().timestamp()),
        Err(_) => None,
    }
}

/// The format in which the calendar reads an instant: year, month and day,
/// a space, then hour and minute.
pub open spec fn date_format() -> Seq<char> {
    "%Y-%m-%d %H:%M"@
}

/// The instant that was read, or `InvalidInput` where none was.
pub open spec fn instant_of(parsed: Option<i64>) -> Result<i64, Error> {
    match parsed {
        Some(instant) => Ok(instant),
        None => Err(Error::InvalidInput),
    }
}

/// The range between two instants that were read, or `InvalidInput` where
/// either of them was not.
pub open spec fn range_of(start: Option<i64>, end: Option<i64>) -> Result<Range, Error> {
    match (start, end) {
        (Some(start_date), Some(end_date)) => Ok(Range { start_date, end_date }),
        _ => Err(Error::InvalidInput),
    }
}

/// Turns what was read of one text into an instant: `InvalidInput` where
/// the text was turned down.
pub fn instant_from(parsed: Option<i64>) -> (r: Result<i64, Error>)
    ensures
        r == instant_of(parsed),
{
    match parsed {
        Some(instant) => Ok(instant),
        None => Err(Error::InvalidInput),
    }
}

/// Turns what was read of a start text and an end text into a range:
/// `InvalidInput` where either text was turned down. The two instants are
/// taken as they are; the start may lie after the end.
pub fn range_from(start: Option<i64>, end: Option<i64>) -> (r: Result<Range, Error>)
    ensures
        r == range_of(start, end),
{
    match start {
        Some(start_date) => match end {
            Some(end_date) => Ok(Range { start_date, end_date }),
            None => Err(Error::InvalidInput),
        },
        None => Err(Error::InvalidInput),
    }
}

/// Reads an instant written as `YYYY-MM-DD HH:MM`, in UTC, and gives it in
/// seconds since the epoch.
pub fn parse_timestamp(text: &str) -> (r: Result<i64, Error>)
    ensures
        r == instant_of(parsed_timestamp(text@, date_format())),
{
    instant_from(parse_with(text, "%Y-%m-%d %H:%M"))
}

/// Reads the two ends of a range, each written as `YYYY-MM-DD HH:MM` in
/// UTC.
pub fn parse_range(start: &str, end: &str) -> (r: Result<Range, Error>)
    ensures
        r == range_of(
            parsed_timestamp(start@, date_format()),
            parsed_timestamp(end@, date_format()),
        ),
{
    let first = parse_with(start, "%Y-%m-%d %H:%M");
    let second = parse_with(end, "%Y-%m-%d %H:%M");
    range_from(first, second)
}

} // verus!
