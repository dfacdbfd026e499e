//! Display of the timestamps that the server reports.

use vstd::prelude::*;
use crate::config::opt_view;

verus! {

/// What chrono makes of the RFC 3339 timestamp `iso` when it is parsed with
/// `DateTime::parse_from_rfc3339` and shown with the pattern
/// `"%Y.%m.%d %H:%M"` (in the timestamp's own offset); `None` where the
/// parse fails.
pub uninterp spec fn rfc3339_minutes(iso: Seq<char>) -> Option<Seq<char>>;

/// Calls chrono's `DateTime::parse_from_rfc3339` on `iso` and, where it
/// succeeds, `format("%Y.%m.%d %H:%M")` on the result. The contract names
/// the outcome and says nothing more of it.
#[verifier::external_body]
fn parse_rfc3339_minutes(iso: &str) -> (r: Option<String>)
    ensures
        opt_view(r) == rfc3339_minutes(iso@),
{
    match chrono::DateTime::parse_from_rfc3339(iso) {
        Ok(dt) => Some(dt.format("%Y.%m.%d %H:%M").to_string()),
        Err(_) => None,
    }
}

/// The displayed form of `iso` given what the timestamp parser made of it:
/// the formatted timestamp, or `iso` itself where it could not be read.
pub open spec fn datetime_text(iso: Seq<char>, parsed: Option<Seq<char>>) -> Seq<char> {
    match parsed {
        Some(p) => p,
        None => iso,
    }
}

/// Shows `iso` as `YYYY.MM.DD HH:MM`, given the parser's outcome `parsed`.
pub fn format_datetime_from(iso: &str, parsed: Option<String>) -> (s: String)
    ensures
        s@ == datetime_text(iso@, opt_view(parsed)),
{
    match parsed {
        Some(p) => p,
        None => iso.to_string(),
    }
}

/// Shows the RFC 3339 timestamp `iso` as `YYYY.MM.DD HH:MM`; a text that is
/// no such timestamp is shown as it is.
pub fn format_datetime(iso: &str) -> (s: String)
    ensures
        s@ == datetime_text(iso@, rfc3339_minutes(iso@)),
{
    let parsed = parse_rfc3339_minutes(iso);
    format_datetime_from(iso, parsed)
}

} // verus!
