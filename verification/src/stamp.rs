//! Points in time as RFC 3339 texts.

use vstd::prelude::*;

use crate::error::{Fault, VaultError};
use crate::text::joined;

verus! {

/// The RFC 3339 text, in UTC, of a number of nanoseconds since 1970; the reason
/// where there is none.
pub uninterp spec fn rfc3339_text(nanos: i128) -> Result<Seq<char>, Seq<char>>;

/// `time::OffsetDateTime::format` with `Rfc3339`, of the time that
/// `from_unix_timestamp_nanos` gives: a function of the number. A time out of
/// the range of either is an error.
#[verifier::external_body]
fn format_time(nanos: i128) -> (r: Result<String, String>)
    ensures
        match r {
            Ok(t) => rfc3339_text(nanos) == Ok::<Seq<char>, Seq<char>>(t@),
            Err(why) => rfc3339_text(nanos) == Err::<Seq<char>, Seq<char>>(why@),
        },
{
    match time::OffsetDateTime::from_unix_timestamp_nanos(nanos) {
        Ok(t) => t.format(&time::format_description::well_known::Rfc3339).map_err(
            |e| e.to_string(),
        ),
        Err(e) => Err(e.to_string()),
    }
}

/// The text that is written for the point in time that an RFC 3339 text names;
/// `None` where it names none.
pub uninterp spec fn rfc3339_rewritten(text: Seq<char>) -> Option<Seq<char>>;

/// `time::OffsetDateTime::parse` with `Rfc3339`, and the text of what was read:
/// a function of the text.
#[verifier::external_body]
fn reformat_time(text: &str) -> (r: Option<String>)
    ensures
        match r {
            Some(t) => rfc3339_rewritten(text@) == Some(t@),
            None => rfc3339_rewritten(text@) is None,
        },
{
    match time::OffsetDateTime::parse(text, &time::format_description::well_known::Rfc3339) {
        Ok(t) => t.format(&time::format_description::well_known::Rfc3339).ok(),
        Err(_) => None,
    }
}

/// Hands out a formatted time, or the failure of `what` with the reason.
pub fn formatted(what: &str, outcome: Result<String, String>) -> (r: Result<String, VaultError>)
    ensures
        match (r, outcome) {
            (Ok(t), Ok(o)) => t@ == o@,
            (Err(e), Err(why)) => e@ == Fault::Protocol(what@ + ": "@ + why@),
            _ => false,
        },
{
    match outcome {
        Ok(t) => Ok(t),
        Err(why) => Err(VaultError::Protocol(joined(&joined(what, ": "), &why))),
    }
}

/// The text of a number of nanoseconds since 1970, or the failure of `what`.
pub fn stamp(what: &str, nanos: i128) -> (r: Result<String, VaultError>)
    ensures
        match r {
            Ok(t) => rfc3339_text(nanos) == Ok::<Seq<char>, Seq<char>>(t@),
            Err(e) => rfc3339_text(nanos) matches Err(why) && e@ == Fault::Protocol(
                what@ + ": "@ + why,
            ),
        },
{
    formatted(what, format_time(nanos))
}

/// Reads a stored text and gives it as it is written.
pub fn restamp(text: &str) -> (r: Option<String>)
    ensures
        match r {
            Some(t) => rfc3339_rewritten(text@) == Some(t@),
            None => rfc3339_rewritten(text@) is None,
        },
{
    reformat_time(text)
}

} // verus!
