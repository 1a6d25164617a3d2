//! What holds of the transformation for every row and every batch.

use vstd::prelude::*;
use crate::batch::{kept, rejected, Outcome};
use crate::error::ValidationError;
use crate::mode::{Mode, Schema};
use crate::row::{DetailsView, RawRecordView, RecordView};
use crate::steam::{spec_steam_id32, spec_steam_id64, STEAM_ID_OFFSET};

verus! {

/// A mode code is known exactly if it is 0, 1 or 2, under either schema.
pub proof fn law_known_mode_codes(schema: Schema, code: int)
    ensures
        schema.spec_mode(code) is Some <==> 0 <= code <= 2,
{
}

/// The two schemas number the modes in opposite directions: what one
/// calls `code` the other calls `2 - code`. So they agree on code 1 only,
/// and on codes 0 and 2 each gives the mode that the other gives for the
/// opposite code.
pub proof fn law_mode_numbering_is_mirrored(code: int)
    ensures
        Schema::Joined.spec_mode(code) == Schema::TimesOnly.spec_mode(2 - code),
        (code == 0 || code == 2) ==> Schema::Joined.spec_mode(code)
            != Schema::TimesOnly.spec_mode(code),
        Schema::Joined.spec_mode(0) == Some(Mode::Vanilla),
        Schema::Joined.spec_mode(2) == Some(Mode::KZTimer),
        Schema::TimesOnly.spec_mode(0) == Some(Mode::KZTimer),
        Schema::TimesOnly.spec_mode(2) == Some(Mode::Vanilla),
{
}

/// The player identity can be taken back: the account id is recovered
/// from the community id, and two account ids never share one.
pub proof fn law_steam_id_is_reversible(a: int, b: int)
    ensures
        spec_steam_id32(spec_steam_id64(a)) == a,
        spec_steam_id64(a) == spec_steam_id64(b) ==> a == b,
{
}

/// A row whose columns all fit, whose mode code is known and whose
/// creation time parsed becomes a record, and each field of the record is
/// derived from its column.
pub proof fn law_valid_row_becomes_record(row: RawRecordView, stamp: Seq<char>)
    requires
        row.columns_fit(),
        0 <= row.mode <= 2,
    ensures
        row.first_error(Some(stamp)) is None,
        row.outcome(Some(stamp)) == Ok::<RecordView, ValidationError>(row.record(stamp)),
        row.record(stamp).id == row.time_id,
        row.record(stamp).steam_id == STEAM_ID_OFFSET + row.steam_id32,
        row.record(stamp).map_id == row.map_column(),
        Some(row.record(stamp).mode) == row.schema().spec_mode(row.mode as int),
        row.record(stamp).run_time == row.run_time,
        row.record(stamp).units_per_second() == (if row.details is Some {
            1000int
        } else {
            128int
        }),
        row.record(stamp).teleports == row.teleports,
        row.record(stamp).created_on == stamp,
        row.record(stamp).schema() == row.schema(),
        match row.details {
            Some(d) => row.record(stamp).details == Some(
                DetailsView {
                    player_name: d.player_name,
                    map_name: d.map_name,
                    stage: d.course as int,
                },
            ),
            None => row.record(stamp).details is None,
        },
{
}

/// Every field of a record is within its declared range.
pub proof fn law_record_fields_fit(row: RawRecordView, stamp: Option<Seq<char>>)
    requires
        row.outcome(stamp) is Ok,
    ensures
        ({
            let record = row.outcome(stamp)->Ok_0;
            &&& 0 <= record.id <= u32::MAX
            &&& STEAM_ID_OFFSET <= record.steam_id <= STEAM_ID_OFFSET + u32::MAX
            &&& 0 <= record.map_id <= u16::MAX
            &&& 0 <= record.teleports <= u32::MAX
            &&& record.details matches Some(d) ==> 0 <= d.stage <= u8::MAX
            &&& stamp == Some(record.created_on)
        }),
{
}

/// A row with a narrowed column that is negative or too large for its
/// width becomes no record. The reason given is a range error, unless the
/// mode code is unknown and the columns examined before it all fit.
pub proof fn law_out_of_range_is_rejected(row: RawRecordView, stamp: Option<Seq<char>>)
    requires
        !row.columns_fit(),
    ensures
        row.outcome(stamp) is Err,
        (0 <= row.mode <= 2 || !row.leading_columns_fit()) ==> row.outcome(stamp)->Err_0
            is RangeError,
        !(0 <= row.mode <= 2) && row.leading_columns_fit() ==> row.outcome(stamp) == Err::<
            RecordView,
            ValidationError,
        >(ValidationError::UnknownModeError(row.mode)),
{
}

/// A row whose mode code is none of 0, 1 and 2 becomes no record. The
/// reason given is the unknown code, unless a column examined before the
/// mode does not fit.
pub proof fn law_unknown_mode_is_rejected(row: RawRecordView, stamp: Option<Seq<char>>)
    requires
        !(0 <= row.mode <= 2),
    ensures
        row.outcome(stamp) is Err,
        row.leading_columns_fit() ==> row.outcome(stamp) == Err::<RecordView, ValidationError>(
            ValidationError::UnknownModeError(row.mode),
        ),
        !row.leading_columns_fit() ==> row.outcome(stamp)->Err_0 is RangeError,
{
}

/// A row whose creation time does not parse becomes no record; where
/// nothing else is at fault, the reason given is the timestamp.
pub proof fn law_bad_timestamp_is_rejected(row: RawRecordView)
    ensures
        row.outcome(None) is Err,
        row.columns_fit() && 0 <= row.mode <= 2 ==> row.outcome(None) == Err::<
            RecordView,
            ValidationError,
        >(ValidationError::TimestampFormatError),
{
}

/// How many of `outcomes` are failures.
pub open spec fn failures(outcomes: Seq<Outcome>) -> nat {
    outcomes.filter(|outcome: Outcome| outcome is Err).len()
}

/// Of N outcomes with K failures, N - K records are kept and K rows are
/// reported.
pub proof fn law_batch_counts(outcomes: Seq<Outcome>)
    ensures
        rejected(outcomes).len() == failures(outcomes),
        kept(outcomes).len() == outcomes.len() - failures(outcomes),
    decreases outcomes.len(),
{
    reveal(Seq::filter);
    if outcomes.len() > 0 {
        law_batch_counts(outcomes.drop_last());
    }
}

/// The records are kept in the order of their rows: they are the
/// successful outcomes, in sequence, with the failures left out.
pub proof fn law_batch_keeps_order(outcomes: Seq<Outcome>)
    ensures
        kept(outcomes) == outcomes.filter_map(
            |outcome: Outcome|
                match outcome {
                    Ok(record) => Some(record),
                    Err(_) => None,
                },
        ),
    decreases outcomes.len(),
{
    let pick = |outcome: Outcome|
        match outcome {
            Ok(record) => Some(record),
            Err(_) => None,
        };
    if outcomes.len() > 0 {
        law_batch_keeps_order(outcomes.drop_last());
        let rest = outcomes.drop_last().filter_map(pick);
        match outcomes.last() {
            Ok(record) => {
                assert(rest + seq![record] =~= rest.push(record));
            },
            Err(_) => {},
        }
    }
}

/// Each reported failure names its row: the positions rise strictly, and
/// the row at each position failed for the reason reported.
pub proof fn law_rejections_name_their_rows(outcomes: Seq<Outcome>, i: int, j: int)
    requires
        0 <= i <= j < rejected(outcomes).len(),
    ensures
        0 <= rejected(outcomes)[j].0 < outcomes.len(),
        outcomes[rejected(outcomes)[j].0] == Err::<RecordView, ValidationError>(
            rejected(outcomes)[j].1,
        ),
        i < j ==> rejected(outcomes)[i].0 < rejected(outcomes)[j].0,
    decreases outcomes.len(),
{
    if outcomes.len() > 0 {
        let rest = outcomes.drop_last();
        if j < rejected(rest).len() {
            law_rejections_name_their_rows(rest, i, j);
        } else if i < j {
            law_rejections_name_their_rows(rest, i, i);
        }
    }
}

/// A batch in which every row is valid keeps every row.
pub proof fn law_valid_batch_is_kept_whole(outcomes: Seq<Outcome>)
    requires
        forall|i: int| 0 <= i < outcomes.len() ==> outcomes[i] is Ok,
    ensures
        kept(outcomes).len() == outcomes.len(),
        rejected(outcomes).len() == 0,
    decreases outcomes.len(),
{
    if outcomes.len() > 0 {
        law_valid_batch_is_kept_whole(outcomes.drop_last());
    }
}

} // verus!
