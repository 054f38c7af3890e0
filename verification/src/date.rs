//! Points in time as the service writes them.

use vstd::prelude::*;
use crate::json::{Json, JsonValue};
use crate::shape::FromJson;

verus! {

/// A point in time, with the offset from UTC that it was written with.
#[derive(Debug, Clone, Copy, PartialEq, Eq, Structural)]
pub struct Date {
    /// Seconds since the first of January 1970, 0:00 UTC, leap seconds not
    /// counted.
    pub seconds: i64,
    /// Nanoseconds since the last full second.
    pub nanos: u32,
    /// Seconds to add to UTC for the local time that was written.
    pub offset: i32,
}

/// What `chrono` reads from a text as an RFC 3339 date and time: the seconds
/// since the epoch, the nanoseconds of the second and the offset from UTC in
/// seconds; nothing where the text is no such date.
pub uninterp spec fn rfc3339(text: Seq<char>) -> Option<(i64, u32, i32)>;

/// Calls `chrono`'s `FromStr` for `DateTime<FixedOffset>`, then its
/// `timestamp`, `timestamp_subsec_nanos` and `offset().local_minus_utc()`. The
/// result depends on the text alone.
#[verifier::external_body]
fn read_rfc3339(text: &str) -> (read: Option<(i64, u32, i32)>)
    ensures
        read == rfc3339(text@),
{
    text.parse::<chrono::DateTime<chrono::FixedOffset>>().ok().map(
        |at| (at.timestamp(), at.timestamp_subsec_nanos(), at.offset().local_minus_utc()),
    )
}

/// The date that a text writes.
pub open spec fn date_of_text(text: Seq<char>) -> Option<Date> {
    match rfc3339(text) {
        Some((seconds, nanos, offset)) => Some(Date { seconds, nanos, offset }),
        None => None,
    }
}

impl Date {
    /// Reads a date from its text.
    pub fn parse(text: &str) -> (read: Option<Date>)
        ensures
            read == date_of_text(text@),
    {
        match read_rfc3339(text) {
            Some((seconds, nanos, offset)) => Some(Date { seconds, nanos, offset }),
            None => None,
        }
    }
}

impl DeepView for Date {
    type V = Date;

    open spec fn deep_view(&self) -> Date {
        *self
    }
}

impl FromJson for Date {
    open spec fn of_json(doc: JsonValue) -> Option<Date> {
        match doc {
            JsonValue::Str(text) => date_of_text(text),
            _ => None,
        }
    }

    fn from_json(doc: &Json) -> (read: Option<Date>) {
        match doc {
            Json::Str(text) => Date::parse(text.as_str()),
            _ => None,
        }
    }
}

} // verus!
