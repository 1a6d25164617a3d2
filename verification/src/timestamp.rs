//! Creation times: parsed from `YYYY-MM-DD HH:MM:SS` and written back in
//! canonical form.

use chrono::NaiveDateTime;
use vstd::prelude::*;

verus! {

/// The canonical rendering of the calendar time that `text` spells out in
/// the pattern `%Y-%m-%d %H:%M:%S`, or `None` where `text` does not follow
/// the pattern.
pub uninterp spec fn timestamp_text(text: Seq<char>) -> Option<Seq<char>>;

/// Calls `chrono::NaiveDateTime::parse_from_str` with the pattern
/// `%Y-%m-%d %H:%M:%S` and renders what it parsed through the type's
/// `Display`. Trusted: the outcome depends on `text` alone; it is `None`
/// exactly where chrono rejects `text`.
#[verifier::external_body]
pub(crate) fn normalize_timestamp(text: &str) -> (r: Option<String>)
    ensures
        match r {
            Some(s) => timestamp_text(text@) == Some(s@),
            None => timestamp_text(text@) is None,
        },
{
    match NaiveDateTime::parse_from_str(text, "%Y-%m-%d %H:%M:%S") {
        Ok(time) => Some(time.to_string()),
        Err(_) => None,
    }
}

} // verus!
