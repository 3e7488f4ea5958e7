//! Times as text: RFC 3339, as chrono writes and reads it. Times are
//! milliseconds since the Unix epoch, in UTC.

use vstd::prelude::*;

verus! {

/// The RFC 3339 text of a time, where the calendar can hold it.
pub uninterp spec fn rfc3339_text(millis: i64) -> Option<Seq<char>>;

/// The time that an RFC 3339 text names, cut to the millisecond, or the
/// words with which chrono refuses a text that is none.
pub uninterp spec fn rfc3339_millis(text: Seq<char>) -> Result<i64, Seq<char>>;

/// `chrono::DateTime::from_timestamp_millis`, written by
/// `DateTime::to_rfc3339`: the date and time in UTC with the offset
/// `+00:00`, and with the milliseconds where the time is not a whole
/// second. There is no text for a time that chrono's calendar cannot hold.
#[verifier::external_body]
fn write_rfc3339(millis: i64) -> (text: Option<String>)
    ensures
        text is Some == rfc3339_text(millis) is Some,
        text is Some ==> text.unwrap()@ == rfc3339_text(millis).unwrap(),
{
    chrono::DateTime::from_timestamp_millis(millis).map(|time| time.to_rfc3339())
}

/// Whether what was read is what the text names: the time, or the refusal.
pub open spec fn reads_as_time(meaning: Result<i64, Seq<char>>, read: Result<i64, String>) -> bool {
    match (meaning, read) {
        (Ok(time), Ok(t)) => t == time,
        (Err(refusal), Err(message)) => message@ == refusal,
        _ => false,
    }
}

/// `chrono::DateTime::parse_from_rfc3339`, read by
/// `DateTime::timestamp_millis`: the instant that the text names, whatever
/// its offset. A text that is no RFC 3339 date and time gives the parse
/// error, in its own words.
#[verifier::external_body]
fn read_rfc3339(text: &str) -> (millis: Result<i64, String>)
    ensures
        reads_as_time(rfc3339_millis(text@), millis),
{
    match chrono::DateTime::parse_from_rfc3339(text) {
        Ok(time) => Ok(time.timestamp_millis()),
        Err(e) => Err(e.to_string()),
    }
}

/// The text of a time for a reply or a row: its RFC 3339 text, or an empty
/// text where it has none.
pub open spec fn time_text(millis: i64) -> Seq<char> {
    match rfc3339_text(millis) {
        Some(text) => text,
        None => Seq::empty(),
    }
}

/// The RFC 3339 text of a time, if it has one.
pub fn to_rfc3339(millis: i64) -> (text: Option<String>)
    ensures
        text is Some == rfc3339_text(millis) is Some,
        text matches Some(t) ==> t@ == rfc3339_text(millis).unwrap(),
{
    write_rfc3339(millis)
}

/// The text of a time for a reply or a row.
pub fn format_time(millis: i64) -> (text: String)
    ensures
        text@ == time_text(millis),
{
    text_of(write_rfc3339(millis))
}

/// A text, or an empty text where there is none.
pub fn text_of(text: Option<String>) -> (out: String)
    ensures
        out@ == (match text {
            Some(t) => t@,
            None => Seq::empty(),
        }),
{
    match text {
        Some(t) => t,
        None => String::new(),
    }
}

/// The time that an RFC 3339 text names, if it names one.
pub fn parse_rfc3339(text: &str) -> (millis: Option<i64>)
    ensures
        millis == (match rfc3339_millis(text@) {
            Ok(t) => Some(t),
            Err(_) => None,
        }),
{
    match read_rfc3339(text) {
        Ok(t) => Some(t),
        Err(_) => None,
    }
}

/// The time that an RFC 3339 text names, or why it names none.
pub fn read_time(text: &str) -> (millis: Result<i64, String>)
    ensures
        reads_as_time(rfc3339_millis(text@), millis),
{
    read_rfc3339(text)
}

} // verus!
