//! Reasons for which a raw row is kept out of the export.

use vstd::prelude::*;

verus! {

/// Integer column of a raw row that has to fit an unsigned width.
#[derive(Clone, Copy, Debug, PartialEq, Eq, Structural)]
pub enum Field {
    /// Identifier of the run, 32 bits.
    TimeId,
    /// Account number of the player, 32 bits.
    SteamId32,
    /// Identifier of the map, 16 bits.
    MapId,
    /// Course of the map, 8 bits.
    Course,
    /// Number of teleports used, 32 bits.
    Teleports,
}

impl Field {
    /// Largest value that the column's target width holds.
    pub open spec fn limit(self) -> int {
        match self {
            Field::TimeId => u32::MAX as int,
            Field::SteamId32 => u32::MAX as int,
            Field::MapId => u16::MAX as int,
            Field::Course => u8::MAX as int,
            Field::Teleports => u32::MAX as int,
        }
    }

    /// Whether `value` is non-negative and fits the column's target width.
    pub open spec fn admits(self, value: int) -> bool {
        0 <= value <= self.limit()
    }
}

/// Why a raw row did not become a record.
#[derive(Clone, Copy, Debug, PartialEq, Eq, Structural)]
pub enum ValidationError {
    /// `value`, read from `field`, is negative or too large for the field's width.
    RangeError { field: Field, value: i32 },
    /// The mode code is none of 0, 1 and 2.
    UnknownModeError(i32),
    /// The creation time does not follow `YYYY-MM-DD HH:MM:SS`.
    TimestampFormatError,
}

} // verus!
