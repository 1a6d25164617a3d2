//! Validated records and the step that makes them from raw rows.

use vstd::prelude::*;
use crate::error::{Field, ValidationError};
use crate::mode::{Mode, Schema};
use crate::row::{DetailsView, RawRecord, RawRecordView, RecordView};
use crate::steam::{spec_steam_id32, steam_id64, STEAM_ID_OFFSET};
use crate::timestamp::{normalize_timestamp, timestamp_text};

verus! {

/// Names and course of a record that came from the joined query.
#[derive(Debug)]
pub struct Details {
    pub player_name: String,
    pub map_name: String,
    pub stage: u8,
}

/// A row that passed validation. A record is made by
/// [`Record::try_from`] or [`Record::assemble`] only and never changes.
#[derive(Debug)]
pub struct Record {
    id: u32,
    steam_id: u64,
    map_id: u16,
    mode: Mode,
    run_time: i32,
    teleports: u32,
    created_on: String,
    details: Option<Details>,
}

impl View for Details {
    type V = DetailsView;

    open spec fn view(&self) -> DetailsView {
        DetailsView {
            player_name: self.player_name@,
            map_name: self.map_name@,
            stage: self.stage as int,
        }
    }
}

impl View for Record {
    type V = RecordView;

    closed spec fn view(&self) -> RecordView {
        RecordView {
            id: self.id as int,
            steam_id: self.steam_id as int,
            map_id: self.map_id as int,
            mode: self.mode,
            run_time: self.run_time as int,
            teleports: self.teleports as int,
            created_on: self.created_on@,
            details: match self.details {
                Some(d) => Some(d@),
                None => None,
            },
        }
    }
}

impl Clone for Details {
    fn clone(&self) -> (r: Self)
        ensures
            r@ == self@,
    {
        Details {
            player_name: self.player_name.clone(),
            map_name: self.map_name.clone(),
            stage: self.stage,
        }
    }
}

impl Clone for Record {
    fn clone(&self) -> (r: Self)
        ensures
            r@ == self@,
    {
        proof {
            use_type_invariant(self);
        }
        let details = match &self.details {
            Some(d) => Some(d.clone()),
            None => None,
        };
        Record {
            id: self.id,
            steam_id: self.steam_id,
            map_id: self.map_id,
            mode: self.mode,
            run_time: self.run_time,
            teleports: self.teleports,
            created_on: self.created_on.clone(),
            details,
        }
    }
}

/// The text that an optional string holds.
pub open spec fn text_view(text: Option<String>) -> Option<Seq<char>> {
    match text {
        Some(s) => Some(s@),
        None => None,
    }
}

/// The outcome of a transformation, with the record taken by its view.
pub open spec fn outcome_view(outcome: Result<Record, ValidationError>) -> Result<
    RecordView,
    ValidationError,
> {
    match outcome {
        Ok(record) => Ok(record@),
        Err(e) => Err(e),
    }
}

fn narrow_u32(field: Field, value: i32) -> (r: Result<u32, ValidationError>)
    ensures
        r == (if 0 <= value {
            Ok::<u32, ValidationError>(value as u32)
        } else {
            Err(ValidationError::RangeError { field, value })
        }),
{
    match u32::try_from(value) {
        Ok(n) => Ok(n),
        Err(_) => Err(ValidationError::RangeError { field, value }),
    }
}

fn narrow_u16(field: Field, value: i32) -> (r: Result<u16, ValidationError>)
    ensures
        r == (if 0 <= value <= u16::MAX {
            Ok::<u16, ValidationError>(value as u16)
        } else {
            Err(ValidationError::RangeError { field, value })
        }),
{
    match u16::try_from(value) {
        Ok(n) => Ok(n),
        Err(_) => Err(ValidationError::RangeError { field, value }),
    }
}

fn narrow_u8(field: Field, value: i32) -> (r: Result<u8, ValidationError>)
    ensures
        r == (if 0 <= value <= u8::MAX {
            Ok::<u8, ValidationError>(value as u8)
        } else {
            Err(ValidationError::RangeError { field, value })
        }),
{
    match u8::try_from(value) {
        Ok(n) => Ok(n),
        Err(_) => Err(ValidationError::RangeError { field, value }),
    }
}

impl Record {
    /// What holds of every record: its player identity stands for a
    /// 32-bit account id.
    #[verifier::type_invariant]
    spec fn valid(self) -> bool {
        STEAM_ID_OFFSET <= self.steam_id <= STEAM_ID_OFFSET + u32::MAX
    }

    /// Identifier of the run.
    pub fn id(&self) -> (r: u32)
        ensures
            r == self@.id,
    {
        self.id
    }

    /// Identity of the player: the 64-bit community id, which stands for
    /// a 32-bit account id.
    pub fn steam_id(&self) -> (r: u64)
        ensures
            r == self@.steam_id,
            STEAM_ID_OFFSET <= r <= STEAM_ID_OFFSET + u32::MAX,
    {
        proof {
            use_type_invariant(self);
        }
        self.steam_id
    }

    /// The 32-bit account id that the player identity stands for.
    pub fn account_id(&self) -> (r: u32)
        ensures
            r == spec_steam_id32(self@.steam_id),
    {
        proof {
            use_type_invariant(self);
        }
        (self.steam_id - STEAM_ID_OFFSET) as u32
    }

    /// Identifier of the map.
    pub fn map_id(&self) -> (r: u16)
        ensures
            r == self@.map_id,
    {
        self.map_id
    }

    /// Mode of the run.
    pub fn mode(&self) -> (r: Mode)
        ensures
            r == self@.mode,
    {
        self.mode
    }

    /// Duration of the run, in the unit of the record's schema.
    pub fn run_time(&self) -> (r: i32)
        ensures
            r == self@.run_time,
    {
        self.run_time
    }

    /// Number of teleports used.
    pub fn teleports(&self) -> (r: u32)
        ensures
            r == self@.teleports,
    {
        self.teleports
    }

    /// Creation time, in canonical form.
    pub fn created_on(&self) -> (r: &str)
        ensures
            r@ == self@.created_on,
    {
        self.created_on.as_str()
    }

    /// Names and course, where the record came from the joined query.
    pub fn details(&self) -> (r: Option<&Details>)
        ensures
            match r {
                Some(d) => self@.details == Some(d@),
                None => self@.details is None,
            },
    {
        match &self.details {
            Some(d) => Some(d),
            None => None,
        }
    }

    /// The schema of the row that the record was made from.
    pub fn schema(&self) -> (r: Schema)
        ensures
            r == self@.schema(),
    {
        match &self.details {
            Some(_) => Schema::Joined,
            None => Schema::TimesOnly,
        }
    }

    /// How many units of [`Record::run_time`] make one second: the run
    /// lasted `run_time / units_per_second` seconds.
    pub fn units_per_second(&self) -> (r: u32)
        ensures
            r == self@.units_per_second(),
    {
        self.schema().units_per_second()
    }

    /// Validates `row`, given what parsing its creation time gave:
    /// `stamp` is the canonical form of `row.created`, or `None` where it
    /// does not follow the pattern. The result is the row's record where
    /// no column is at fault, else the first fault in column order.
    pub fn assemble(row: RawRecord, stamp: Option<String>) -> (r: Result<Record, ValidationError>)
        ensures
            outcome_view(r) == row@.outcome(text_view(stamp)),
    {
        let RawRecord {
            time_id,
            steam_id32,
            map_course_id,
            mode,
            style: _,
            run_time,
            teleports,
            created: _,
            details,
        } = row;
        let id = narrow_u32(Field::TimeId, time_id)?;
        let account = narrow_u32(Field::SteamId32, steam_id32)?;
        let steam_id = steam_id64(account);
        let (map_id, details, schema) = match details {
            Some(raw) => {
                let map_id = narrow_u16(Field::MapId, raw.map_id)?;
                let stage = narrow_u8(Field::Course, raw.course)?;
                let details = Details {
                    player_name: raw.player_name,
                    map_name: raw.map_name,
                    stage,
                };
                (map_id, Some(details), Schema::Joined)
            },
            None => (narrow_u16(Field::MapId, map_course_id)?, None, Schema::TimesOnly),
        };
        let mode = schema.mode(mode)?;
        let teleports = narrow_u32(Field::Teleports, teleports)?;
        let created_on = match stamp {
            Some(text) => text,
            None => { return Err(ValidationError::TimestampFormatError); },
        };
        Ok(Record { id, steam_id, map_id, mode, run_time, teleports, created_on, details })
    }

    /// Validates `row` and makes its record: narrows the integer columns,
    /// derives the player identity, maps the mode code by the row's
    /// schema and normalizes the creation time.
    pub fn try_from(row: RawRecord) -> (r: Result<Record, ValidationError>)
        ensures
            outcome_view(r) == row@.outcome(timestamp_text(row.created@)),
    {
        let stamp = normalize_timestamp(row.created.as_str());
        Record::assemble(row, stamp)
    }
}

} // verus!
