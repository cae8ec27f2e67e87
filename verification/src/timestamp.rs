//! Timestamps as text: turning one notation into another.

use vstd::prelude::*;

verus! {

/// The RFC 3339 notation, in whole seconds and with `Z` for an offset of zero, of the
/// date and time that `text` gives in RFC 2822 notation; `None` where `text` is no such
/// notation.
pub uninterp spec fn rfc2822_as_rfc3339(text: Seq<char>) -> Option<Seq<char>>;

/// The calendar date, as month, day and year between slashes and at the offset that the
/// text itself names, of the date and time that `text` gives in RFC 3339 notation; `None`
/// where `text` is no such notation.
pub uninterp spec fn rfc3339_as_date(text: Seq<char>) -> Option<Seq<char>>;

/// Calls `chrono::DateTime::parse_from_rfc2822` and writes what it found with
/// `DateTime::to_rfc3339_opts(SecondsFormat::Secs, true)`.
///
/// Trusted: whether the text is read, and the text written, are what
/// [`rfc2822_as_rfc3339`] names for the input.
#[verifier::external_body]
pub(crate) fn rfc2822_to_rfc3339(text: &str) -> (converted: Option<String>)
    ensures
        converted.deep_view() == rfc2822_as_rfc3339(text@),
{
    match chrono::DateTime::parse_from_rfc2822(text) {
        Ok(dt) => Some(dt.to_rfc3339_opts(chrono::SecondsFormat::Secs, true)),
        Err(_) => None,
    }
}

/// Calls `chrono::DateTime::parse_from_rfc3339` and writes the date it found with
/// `DateTime::format("%m/%d/%Y")`.
///
/// Trusted: whether the text is read, and the text written, are what [`rfc3339_as_date`]
/// names for the input.
#[verifier::external_body]
pub(crate) fn rfc3339_to_date(text: &str) -> (converted: Option<String>)
    ensures
        converted.deep_view() == rfc3339_as_date(text@),
{
    match chrono::DateTime::parse_from_rfc3339(text) {
        Ok(dt) => Some(dt.format("%m/%d/%Y").to_string()),
        Err(_) => None,
    }
}

/// The text to keep: the converted one where there is one, else the text as it was given.
pub open spec fn or_given(converted: Option<Seq<char>>, given: Seq<char>) -> Seq<char> {
    match converted {
        Some(t) => t,
        None => given,
    }
}

/// Keeps the converted text where there is one, else the text as it was given.
pub fn converted_or_given(converted: Option<String>, given: String) -> (kept: String)
    ensures
        kept@ == or_given(converted.deep_view(), given@),
{
    match converted {
        Some(t) => t,
        None => given,
    }
}

} // verus!
