//! Raw rows, as the queries hand them over, and what a row should become.

use vstd::prelude::*;
use crate::error::{Field, ValidationError};
use crate::mode::{Mode, Schema};
use crate::steam::spec_steam_id64;

verus! {

/// Columns that only the joined query delivers.
#[derive(Debug)]
pub struct RawDetails {
    pub map_id: i32,
    pub map_name: String,
    pub course: i32,
    pub player_name: String,
}

/// One row of the times table, unvalidated. `details` is present exactly
/// for rows of the joined query.
#[derive(Debug)]
pub struct RawRecord {
    pub time_id: i32,
    pub steam_id32: i32,
    pub map_course_id: i32,
    pub mode: i32,
    pub style: i32,
    pub run_time: i32,
    pub teleports: i32,
    pub created: String,
    pub details: Option<RawDetails>,
}

/// Mathematical content of [`RawDetails`].
pub struct RawDetailsView {
    pub map_id: i32,
    pub map_name: Seq<char>,
    pub course: i32,
    pub player_name: Seq<char>,
}

/// Mathematical content of [`RawRecord`].
pub struct RawRecordView {
    pub time_id: i32,
    pub steam_id32: i32,
    pub map_course_id: i32,
    pub mode: i32,
    pub style: i32,
    pub run_time: i32,
    pub teleports: i32,
    pub created: Seq<char>,
    pub details: Option<RawDetailsView>,
}

/// Names and course that a record of the joined query carries along.
pub struct DetailsView {
    pub player_name: Seq<char>,
    pub map_name: Seq<char>,
    pub stage: int,
}

/// Mathematical content of a validated record.
pub struct RecordView {
    pub id: int,
    pub steam_id: int,
    pub map_id: int,
    pub mode: Mode,
    pub run_time: int,
    pub teleports: int,
    pub created_on: Seq<char>,
    pub details: Option<DetailsView>,
}

impl View for RawDetails {
    type V = RawDetailsView;

    open spec fn view(&self) -> RawDetailsView {
        RawDetailsView {
            map_id: self.map_id,
            map_name: self.map_name@,
            course: self.course,
            player_name: self.player_name@,
        }
    }
}

impl View for RawRecord {
    type V = RawRecordView;

    open spec fn view(&self) -> RawRecordView {
        RawRecordView {
            time_id: self.time_id,
            steam_id32: self.steam_id32,
            map_course_id: self.map_course_id,
            mode: self.mode,
            style: self.style,
            run_time: self.run_time,
            teleports: self.teleports,
            created: self.created@,
            details: match self.details {
                Some(d) => Some(d@),
                None => None,
            },
        }
    }
}

impl RecordView {
    /// The schema of the row that the record was made from.
    pub open spec fn schema(self) -> Schema {
        if self.details is Some {
            Schema::Joined
        } else {
            Schema::TimesOnly
        }
    }

    /// How many units of `run_time` make one second.
    pub open spec fn units_per_second(self) -> int {
        self.schema().spec_units_per_second()
    }
}

impl RawRecordView {
    /// The schema of the query that delivers rows of this shape.
    pub open spec fn schema(self) -> Schema {
        if self.details is Some {
            Schema::Joined
        } else {
            Schema::TimesOnly
        }
    }

    /// The column that names the map: the joined map id where there is
    /// one, else the course id of the times table.
    pub open spec fn map_column(self) -> i32 {
        match self.details {
            Some(d) => d.map_id,
            None => self.map_course_id,
        }
    }

    /// Whether the columns that are examined before the mode code fit
    /// their widths: run id, account id, map id and, where the row has
    /// one, course.
    pub open spec fn leading_columns_fit(self) -> bool {
        &&& Field::TimeId.admits(self.time_id as int)
        &&& Field::SteamId32.admits(self.steam_id32 as int)
        &&& Field::MapId.admits(self.map_column() as int)
        &&& self.details is Some ==> Field::Course.admits(self.details->0.course as int)
    }

    /// Whether every narrowed column fits its width.
    pub open spec fn columns_fit(self) -> bool {
        &&& self.leading_columns_fit()
        &&& Field::Teleports.admits(self.teleports as int)
    }

    /// The reason for which the row is rejected, if there is one, given
    /// what parsing its creation time gave. The columns are examined in a
    /// fixed order and the first that fails decides: run id, account id,
    /// map id, course, mode, teleports, creation time.
    pub open spec fn first_error(self, stamp: Option<Seq<char>>) -> Option<ValidationError> {
        if !Field::TimeId.admits(self.time_id as int) {
            Some(ValidationError::RangeError { field: Field::TimeId, value: self.time_id })
        } else if !Field::SteamId32.admits(self.steam_id32 as int) {
            Some(ValidationError::RangeError { field: Field::SteamId32, value: self.steam_id32 })
        } else if !Field::MapId.admits(self.map_column() as int) {
            Some(ValidationError::RangeError { field: Field::MapId, value: self.map_column() })
        } else if self.details is Some && !Field::Course.admits(self.details->0.course as int) {
            Some(
                ValidationError::RangeError { field: Field::Course, value: self.details->0.course },
            )
        } else if self.schema().spec_mode(self.mode as int) is None {
            Some(ValidationError::UnknownModeError(self.mode))
        } else if !Field::Teleports.admits(self.teleports as int) {
            Some(ValidationError::RangeError { field: Field::Teleports, value: self.teleports })
        } else if stamp is None {
            Some(ValidationError::TimestampFormatError)
        } else {
            None
        }
    }

    /// The record that a row without fault becomes, `stamp` being its
    /// creation time in canonical form.
    pub open spec fn record(self, stamp: Seq<char>) -> RecordView {
        RecordView {
            id: self.time_id as int,
            steam_id: spec_steam_id64(self.steam_id32 as int),
            map_id: self.map_column() as int,
            mode: self.schema().spec_mode(self.mode as int)->0,
            run_time: self.run_time as int,
            teleports: self.teleports as int,
            created_on: stamp,
            details: match self.details {
                Some(d) => Some(
                    DetailsView {
                        player_name: d.player_name,
                        map_name: d.map_name,
                        stage: d.course as int,
                    },
                ),
                None => None,
            },
        }
    }

    /// What the row becomes: its record, or the reason for its rejection.
    pub open spec fn outcome(self, stamp: Option<Seq<char>>) -> Result<
        RecordView,
        ValidationError,
    > {
        match self.first_error(stamp) {
            Some(e) => Err(e),
            None => Ok(self.record(stamp->0)),
        }
    }
}

} // verus!
