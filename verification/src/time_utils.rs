//! Instants as the store writes them: `year-month-day hour:minute:second`,
//! in UTC. The `time` crate reads and writes the calendar.

use vstd::prelude::*;
use crate::text::text_view;

verus! {

/// How the store writes an instant, in the `time` crate's notation.
pub const TIME_FORMAT: &'static str = "[year]-[month]-[day] [hour]:[minute]:[second]";

/// An instant, in whole seconds since the Unix epoch.
#[derive(Clone, Copy, Debug, PartialEq, Eq, Structural)]
pub struct Time {
    pub unix_secs: i64,
}

/// The instant in UTC, in seconds since the Unix epoch, that the `time` crate
/// reads from a text under a format description; `None` where it reports an
/// error.
pub uninterp spec fn time_parsed(text: Seq<char>, format: Seq<char>) -> Option<i64>;

/// The text that the `time` crate writes for an instant in UTC under a
/// format description; `None` where it reports an error.
pub uninterp spec fn time_formatted(unix_secs: i64, format: Seq<char>) -> Option<Seq<char>>;

/// Has the `time` crate read `format` as a format description, parse `text`
/// under it as a date and time (`PrimitiveDateTime::parse`) and count the
/// seconds from the Unix epoch to that instant in UTC. The contract names the
/// outcome and claims nothing else of it.
#[verifier::external_body]
fn parse_timestamp(text: &str, format: &str) -> (r: Option<i64>)
    ensures
        r == time_parsed(text@, format@),
{
    let f = time::format_description::parse(format).ok()?;
    let t = time::PrimitiveDateTime::parse(text, &f).ok()?;
    Some(t.assume_utc().unix_timestamp())
}

/// Has the `time` crate read `format` as a format description and write the
/// instant `unix_secs` in UTC under it (`OffsetDateTime::format`). The
/// contract names the outcome and claims nothing else of it.
#[verifier::external_body]
fn format_timestamp(unix_secs: i64, format: &str) -> (r: Option<String>)
    ensures
        text_view(r) == time_formatted(unix_secs, format@),
{
    let f = time::format_description::parse(format).ok()?;
    time::OffsetDateTime::from_unix_timestamp(unix_secs).ok()?.format(&f).ok()
}

impl Time {
    /// Reads an instant as the store writes it, taken as UTC.
    pub fn parse(text: &str) -> (r: Option<Time>)
        ensures
            r == match time_parsed(text@, TIME_FORMAT@) {
                Some(unix_secs) => Some(Time { unix_secs }),
                None => None,
            },
    {
        match parse_timestamp(text, TIME_FORMAT) {
            Some(unix_secs) => Some(Time { unix_secs }),
            None => None,
        }
    }

    /// Writes the instant as the store writes it.
    pub fn format(&self) -> (r: Option<String>)
        ensures
            text_view(r) == time_formatted(self.unix_secs, TIME_FORMAT@),
    {
        format_timestamp(self.unix_secs, TIME_FORMAT)
    }
}

} // verus!
