//! Where the rows are read from.

use vstd::prelude::*;
use vstd::string::*;

verus! {

/// The database file that is read where none is named.
pub open spec fn spec_default_database_path() -> Seq<char> {
    "./gokz-sqlite.sq3"@
}

/// The database file to read: the one named by `argument`, or the
/// default where there is none.
pub fn database_path(argument: Option<String>) -> (path: String)
    ensures
        path@ == match argument {
            Some(named) => named@,
            None => spec_default_database_path(),
        },
{
    match argument {
        Some(named) => named,
        None => String::from_str("./gokz-sqlite.sq3"),
    }
}

} // verus!
