//! Name of the file that an export is written to.

use chrono::DateTime;
use vstd::prelude::*;
use vstd::string::*;
use crate::mode::Schema;
use crate::record::text_view;

verus! {

/// The UTC calendar time that lies `epoch_seconds` after the start of
/// 1970, spelled in the pattern `%Y-%m-%d_%H-%M-%S`, or `None` where the
/// calendar does not reach that far.
pub uninterp spec fn utc_stamp(epoch_seconds: int) -> Option<Seq<char>>;

/// The name of the export file of `schema` that is stamped `stamp`.
pub open spec fn spec_dump_file_name(schema: Schema, stamp: Seq<char>) -> Seq<char> {
    "gokz-dump-"@ + stamp + "."@ + schema.spec_extension()
}

/// Calls `chrono::DateTime::from_timestamp` with no nanoseconds and
/// spells what it gives with `DateTime::format` in the pattern
/// `%Y-%m-%d_%H-%M-%S`. Trusted: the outcome depends on `epoch_seconds`
/// alone; it is `None` exactly where chrono has no such time.
#[verifier::external_body]
pub(crate) fn format_utc_stamp(epoch_seconds: i64) -> (r: Option<String>)
    ensures
        match r {
            Some(s) => utc_stamp(epoch_seconds as int) == Some(s@),
            None => utc_stamp(epoch_seconds as int) is None,
        },
{
    match DateTime::from_timestamp(epoch_seconds, 0) {
        Some(time) => Some(time.format("%Y-%m-%d_%H-%M-%S").to_string()),
        None => None,
    }
}

/// Builds the name `gokz-dump-<stamp>.<ext>`, the extension being that
/// of `schema`.
pub fn dump_file_name(schema: Schema, stamp: &str) -> (name: String)
    ensures
        name@ == spec_dump_file_name(schema, stamp@),
{
    let mut name = String::from_str("gokz-dump-");
    name.append(stamp);
    name.append(".");
    name.append(schema.extension());
    name
}

/// Names the export file of `schema` for an export that starts
/// `epoch_seconds` after the start of 1970, in UTC. `None` where the
/// calendar does not reach that far.
pub fn export_file_name(schema: Schema, epoch_seconds: i64) -> (name: Option<String>)
    ensures
        text_view(name) == match utc_stamp(epoch_seconds as int) {
            Some(stamp) => Some(spec_dump_file_name(schema, stamp)),
            None => None,
        },
{
    match format_utc_stamp(epoch_seconds) {
        Some(stamp) => Some(dump_file_name(schema, stamp.as_str())),
        None => None,
    }
}

} // verus!
