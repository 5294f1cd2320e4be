//! Launch timestamps: reading the provider's date-time text into epoch
//! seconds, and writing epoch seconds back as a short UTC date and time.
//!
//! Both directions are delegated to `chrono`. What `chrono` returns is not
//! re-derived here; it is given a name, and the contracts speak of that name.

use vstd::prelude::*;

verus! {

/// The reason a launch timestamp could not be read.
#[derive(Debug)]
pub struct ParseError {
    /// What the parser said about the text.
    pub message: String,
}

/// What `chrono::DateTime::parse_from_rfc3339` makes of `text`: the epoch
/// seconds (`timestamp()`) of the moment it denotes, or the parser's
/// complaint as text.
pub uninterp spec fn rfc3339_outcome(text: Seq<char>) -> Result<i64, Seq<char>>;

/// What `chrono` writes for the UTC moment `secs` seconds after the epoch
/// under the strftime-style `pattern`.
pub uninterp spec fn formatted_timestamp(secs: i64, pattern: Seq<char>) -> Seq<char>;

/// The epoch seconds of the moments `chrono` can represent: from the first
/// second of the year -262143 to the last second of the year 262142.
pub open spec fn timestamp_in_range(secs: i64) -> bool {
    -8_334_601_228_800 <= secs <= 8_210_266_876_799
}

/// The launch-time column: two-digit year, month and day, then hour and
/// minute.
pub open spec fn launch_pattern() -> Seq<char> {
    "%y/%m/%d %H:%M"@
}

/// A raw parse outcome, with the message taken by its characters.
pub open spec fn outcome_view(outcome: Result<i64, String>) -> Result<i64, Seq<char>> {
    match outcome {
        Ok(secs) => Ok(secs),
        Err(message) => Err(message@),
    }
}

/// Calls `chrono::DateTime::parse_from_rfc3339` on `text` and takes the
/// `timestamp()` of the moment read, or the `Display` text of the error.
///
/// Trusted: the outcome is the one named `rfc3339_outcome`; a moment that
/// `chrono` holds lies in the range it can represent; the empty text is
/// rejected (it is shorter than any date-time).
#[verifier::external_body]
fn parse_rfc3339(text: &str) -> (outcome: Result<i64, String>)
    ensures
        outcome_view(outcome) == rfc3339_outcome(text@),
        outcome matches Ok(secs) ==> timestamp_in_range(secs),
        text@.len() == 0 ==> outcome is Err,
{
    match chrono::DateTime::parse_from_rfc3339(text) {
        Ok(moment) => Ok(moment.timestamp()),
        Err(error) => Err(error.to_string()),
    }
}

/// Calls `chrono::NaiveDateTime::from_timestamp` with `secs` and no
/// nanoseconds, then `format` with `pattern`, and collects the text.
///
/// Trusted: the text is the one named `formatted_timestamp`. The call panics
/// outside the representable range and on a malformed pattern, so only
/// in-range seconds and the launch-time pattern are admitted.
#[allow(deprecated)]
#[verifier::external_body]
fn format_timestamp(secs: i64, pattern: &str) -> (text: String)
    requires
        timestamp_in_range(secs),
        pattern@ == launch_pattern(),
    ensures
        text@ == formatted_timestamp(secs, pattern@),
{
    chrono::NaiveDateTime::from_timestamp(secs, 0).format(pattern).to_string()
}

/// The outcome of a parse, with the error reduced to its message.
pub open spec fn parsed_view(parsed: Result<i64, ParseError>) -> Result<i64, Seq<char>> {
    match parsed {
        Ok(secs) => Ok(secs),
        Err(error) => Err(error.message@),
    }
}

/// Reads a provider timestamp (RFC 3339 date-time text) into epoch seconds.
pub fn parse_launch_time(text: &str) -> (parsed: Result<i64, ParseError>)
    ensures
        parsed_view(parsed) == rfc3339_outcome(text@),
        parsed matches Ok(secs) ==> timestamp_in_range(secs),
        text@.len() == 0 ==> parsed is Err,
{
    match parse_rfc3339(text) {
        Ok(secs) => Ok(secs),
        Err(message) => Err(ParseError { message }),
    }
}

/// The seconds a record keeps for a parse outcome: the parsed value, or 0
/// where the text could not be read.
pub open spec fn seconds_or_zero(outcome: Result<i64, Seq<char>>) -> i64 {
    match outcome {
        Ok(secs) => secs,
        Err(_) => 0,
    }
}

/// The launch time to record for `parsed`: a failed parse counts as the epoch.
pub fn launch_seconds(parsed: &Result<i64, ParseError>) -> (secs: i64)
    ensures
        secs == seconds_or_zero(parsed_view(*parsed)),
{
    match parsed {
        Ok(secs) => *secs,
        Err(_) => 0,
    }
}

/// Whether `secs` can be written as a date and time.
pub fn is_displayable(secs: i64) -> (yes: bool)
    ensures
        yes == timestamp_in_range(secs),
{
    -8_334_601_228_800 <= secs && secs <= 8_210_266_876_799
}

/// Writes `secs` as `yy/mm/dd HH:MM` in UTC.
pub fn launch_time_text(secs: i64) -> (text: String)
    requires
        timestamp_in_range(secs),
    ensures
        text@ == formatted_timestamp(secs, launch_pattern()),
{
    format_timestamp(secs, "%y/%m/%d %H:%M")
}

} // verus!
