//! Game modes and the two source schemas that number them differently.

use vstd::prelude::*;
use crate::error::ValidationError;

verus! {

/// Ruleset under which a run was recorded.
#[derive(Clone, Copy, Debug, PartialEq, Eq, Structural)]
pub enum Mode {
    KZTimer,
    SimpleKZ,
    Vanilla,
}

/// Shape of the query a row came from. Each schema has its own mode
/// numbering, its own unit of run time and its own output format.
#[derive(Clone, Copy, Debug, PartialEq, Eq, Structural)]
pub enum Schema {
    /// Times joined with courses, maps and players: run times in
    /// milliseconds, exported as CSV.
    Joined,
    /// The times table alone: run times in ticks, exported as JSON.
    TimesOnly,
}

impl Schema {
    /// The mode that `code` stands for under this schema, if any.
    pub open spec fn spec_mode(self, code: int) -> Option<Mode> {
        match self {
            Schema::Joined => if code == 0 {
                Some(Mode::Vanilla)
            } else if code == 1 {
                Some(Mode::SimpleKZ)
            } else if code == 2 {
                Some(Mode::KZTimer)
            } else {
                None
            },
            Schema::TimesOnly => if code == 0 {
                Some(Mode::KZTimer)
            } else if code == 1 {
                Some(Mode::SimpleKZ)
            } else if code == 2 {
                Some(Mode::Vanilla)
            } else {
                None
            },
        }
    }

    /// How many units of run time make one second under this schema.
    pub open spec fn spec_units_per_second(self) -> int {
        match self {
            Schema::Joined => 1000,
            Schema::TimesOnly => 128,
        }
    }

    /// Extension of the export file under this schema.
    pub open spec fn spec_extension(self) -> Seq<char> {
        match self {
            Schema::Joined => "csv"@,
            Schema::TimesOnly => "json"@,
        }
    }

    /// Maps a raw mode code to its mode, or reports the code as unknown.
    pub fn mode(self, code: i32) -> (r: Result<Mode, ValidationError>)
        ensures
            r == match self.spec_mode(code as int) {
                Some(m) => Ok::<Mode, ValidationError>(m),
                None => Err(ValidationError::UnknownModeError(code)),
            },
    {
        match self {
            Schema::Joined => match code {
                0 => Ok(Mode::Vanilla),
                1 => Ok(Mode::SimpleKZ),
                2 => Ok(Mode::KZTimer),
                n => Err(ValidationError::UnknownModeError(n)),
            },
            Schema::TimesOnly => match code {
                0 => Ok(Mode::KZTimer),
                1 => Ok(Mode::SimpleKZ),
                2 => Ok(Mode::Vanilla),
                n => Err(ValidationError::UnknownModeError(n)),
            },
        }
    }

    /// Divisor that turns a raw run time into seconds.
    pub fn units_per_second(self) -> (r: u32)
        ensures
            r == self.spec_units_per_second(),
    {
        match self {
            Schema::Joined => 1000,
            Schema::TimesOnly => 128,
        }
    }

    /// Extension of the export file: `csv` or `json`.
    pub fn extension(self) -> (r: &'static str)
        ensures
            r@ == self.spec_extension(),
    {
        match self {
            Schema::Joined => "csv",
            Schema::TimesOnly => "json",
        }
    }
}

} // verus!
