//! Moments as texts, in the form that RFC 3339 gives them.
use chrono::{DateTime, Utc};
use vstd::prelude::*;

use crate::statement::opt_text;

verus! {

/// The moment that a text stands for: seconds since the start of 1970 and
/// nanoseconds on top; none where the text has another form. This is what
/// `DateTime::parse_from_rfc3339` reads, in universal time.
pub uninterp spec fn rfc3339_moment(s: Seq<char>) -> Option<(i64, u32)>;

/// The text of a moment, given as seconds since the start of 1970 and
/// nanoseconds on top; none where there is no such moment. This is what
/// `DateTime::to_rfc3339` writes of the moment that
/// `DateTime::from_timestamp` makes.
pub uninterp spec fn rfc3339_text(secs: i64, nanos: u32) -> Option<Seq<char>>;

/// `DateTime::parse_from_rfc3339`, taken to universal time.
#[verifier::external_body]
fn parse_rfc3339(s: &str) -> (r: Option<(i64, u32)>)
    ensures
        r == rfc3339_moment(s@),
{
    let parsed = DateTime::parse_from_rfc3339(s).ok();
    let moment = parsed.map(|at| at.with_timezone(&Utc));
    moment.map(|at| (at.timestamp(), at.timestamp_subsec_nanos()))
}

/// Whether a moment is in one of the years 0 to 9999.
pub open spec fn four_digit_year(secs: i64) -> bool {
    -62_167_219_200 <= secs <= 253_402_300_799
}

/// Whether there is a text and a moment is read back from it.
pub open spec fn reads_back(text: Option<Seq<char>>, secs: i64, nanos: u32) -> bool {
    text matches Some(t) && rfc3339_moment(t) == Some((secs, nanos))
}

/// `DateTime::to_rfc3339`, on the moment that `DateTime::from_timestamp`
/// makes. In the years 0 to 9999 every moment outside a leap second has a
/// text, and `DateTime::parse_from_rfc3339` reads the moment back from it:
/// the text has as many digits of the fraction as the moment needs.
#[verifier::external_body]
fn format_rfc3339(secs: i64, nanos: u32) -> (r: Option<String>)
    ensures
        opt_text(r) == rfc3339_text(secs, nanos),
        four_digit_year(secs) && nanos < 1_000_000_000 ==> reads_back(opt_text(r), secs, nanos),
{
    DateTime::from_timestamp(secs, nanos).map(|at| at.to_rfc3339())
}

/// The moment that a stored text stands for, if there is one and it can be
/// read.
pub fn stored_moment(value: Option<&str>) -> (r: Option<(i64, u32)>)
    ensures
        r == (match value {
            Some(s) => rfc3339_moment(s@),
            None => None,
        }),
{
    match value {
        Some(s) => parse_rfc3339(s),
        None => None,
    }
}

/// The text that is stored for a moment; none where there is no such moment.
/// In the years 0 to 9999 [`stored_moment`] reads every moment outside a leap
/// second back from it.
pub fn moment_to_store(secs: i64, nanos: u32) -> (r: Option<String>)
    ensures
        opt_text(r) == rfc3339_text(secs, nanos),
        four_digit_year(secs) && nanos < 1_000_000_000 ==> reads_back(opt_text(r), secs, nanos),
{
    format_rfc3339(secs, nanos)
}

} // verus!
