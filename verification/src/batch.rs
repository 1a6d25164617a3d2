//! Whole batches: every row is transformed on its own, the records are
//! kept in the order of their rows, and the rejected rows are reported.

use vstd::prelude::*;
use crate::error::ValidationError;
use crate::record::{outcome_view, Record};
use crate::row::{RawRecord, RawRecordView, RecordView};
use crate::timestamp::timestamp_text;

verus! {

/// A row that was kept out of the export: its position in the batch and
/// the reason.
#[derive(Clone, Copy, Debug, PartialEq, Eq, Structural)]
pub struct Rejection {
    pub index: usize,
    pub error: ValidationError,
}

/// What a batch of rows became.
#[derive(Debug)]
pub struct Batch {
    /// The records of the rows that passed, in the order of the rows.
    pub records: Vec<Record>,
    /// The rows that did not pass, in the order of the rows.
    pub rejections: Vec<Rejection>,
}

/// What became of one row, as a value of the model.
pub type Outcome = Result<RecordView, ValidationError>;

impl View for Rejection {
    type V = (int, ValidationError);

    open spec fn view(&self) -> (int, ValidationError) {
        (self.index as int, self.error)
    }
}

/// The rows of a batch, each by its view.
pub open spec fn rows_view(rows: Seq<RawRecord>) -> Seq<RawRecordView> {
    rows.map_values(|row: RawRecord| row@)
}

/// The records of a batch, each by its view.
pub open spec fn records_view(records: Seq<Record>) -> Seq<RecordView> {
    records.map_values(|record: Record| record@)
}

/// The rejections of a batch, each by its view.
pub open spec fn rejections_view(rejections: Seq<Rejection>) -> Seq<(int, ValidationError)> {
    rejections.map_values(|rejection: Rejection| rejection@)
}

/// The outcomes of a batch, each record by its view.
pub open spec fn outcomes_view(outcomes: Seq<Result<Record, ValidationError>>) -> Seq<Outcome> {
    outcomes.map_values(|outcome: Result<Record, ValidationError>| outcome_view(outcome))
}

/// What each row of a batch becomes, in the order of the rows.
pub open spec fn row_outcomes(rows: Seq<RawRecordView>) -> Seq<Outcome> {
    rows.map_values(|row: RawRecordView| row.outcome(timestamp_text(row.created)))
}

/// The records among `outcomes`, in their order.
pub open spec fn kept(outcomes: Seq<Outcome>) -> Seq<RecordView>
    decreases outcomes.len(),
{
    if outcomes.len() == 0 {
        Seq::empty()
    } else {
        match outcomes.last() {
            Ok(record) => kept(outcomes.drop_last()).push(record),
            Err(_) => kept(outcomes.drop_last()),
        }
    }
}

/// The failures among `outcomes`, in their order, each with its position.
pub open spec fn rejected(outcomes: Seq<Outcome>) -> Seq<(int, ValidationError)>
    decreases outcomes.len(),
{
    if outcomes.len() == 0 {
        Seq::empty()
    } else {
        match outcomes.last() {
            Ok(_) => rejected(outcomes.drop_last()),
            Err(e) => rejected(outcomes.drop_last()).push((outcomes.len() - 1, e)),
        }
    }
}

/// Splits the outcomes of a batch into the records and the rejections,
/// both in the order of the rows.
pub fn partition(outcomes: Vec<Result<Record, ValidationError>>) -> (batch: Batch)
    ensures
        records_view(batch.records@) == kept(outcomes_view(outcomes@)),
        rejections_view(batch.rejections@) == rejected(outcomes_view(outcomes@)),
{
    let ghost all = outcomes_view(outcomes@);
    let mut records: Vec<Record> = Vec::new();
    let mut rejections: Vec<Rejection> = Vec::new();
    let mut index: usize = 0;
    let ghost total = outcomes.len();
    assert(all.take(0) =~= Seq::<Outcome>::empty());
    for outcome in it: outcomes
        invariant
            all == outcomes_view(it.seq()),
            it.seq().len() == total,
            index == it.index(),
            records_view(records@) == kept(all.take(index as int)),
            rejections_view(rejections@) == rejected(all.take(index as int)),
    {
        proof {
            let next = all.take(index + 1);
            assert(next.drop_last() =~= all.take(index as int));
            assert(next.last() == outcome_view(outcome));
        }
        match outcome {
            Ok(record) => {
                proof {
                    assert(records_view(records@.push(record)) =~= records_view(records@).push(
                        record@,
                    ));
                }
                records.push(record);
            },
            Err(error) => {
                let rejection = Rejection { index, error };
                proof {
                    assert(rejections_view(rejections@.push(rejection)) =~= rejections_view(
                        rejections@,
                    ).push(rejection@));
                }
                rejections.push(rejection);
            },
        }
        index = index + 1;
    }
    assert(all.take(index as int) =~= all);
    Batch { records, rejections }
}

/// Transforms every row of a batch, in order.
pub fn transform_each(rows: Vec<RawRecord>) -> (outcomes: Vec<Result<Record, ValidationError>>)
    ensures
        outcomes_view(outcomes@) == row_outcomes(rows_view(rows@)),
{
    let ghost all = row_outcomes(rows_view(rows@));
    let mut outcomes: Vec<Result<Record, ValidationError>> = Vec::new();
    for row in it: rows
        invariant
            all == row_outcomes(rows_view(it.seq())),
            outcomes_view(outcomes@) == all.take(it.index() as int),
    {
        let outcome = Record::try_from(row);
        proof {
            let i = it.index() as int;
            assert(rows_view(it.seq())[i] == row@);
            assert(all[i] == outcome_view(outcome));
            assert(outcomes_view(outcomes@.push(outcome)) =~= outcomes_view(outcomes@).push(
                outcome_view(outcome),
            ));
            assert(all.take(i + 1) =~= all.take(i).push(all[i]));
        }
        outcomes.push(outcome);
    }
    assert(all.take(all.len() as int) =~= all);
    outcomes
}

/// Transforms a batch: the rows that pass validation become records, in
/// the order of the rows, and each row that fails is reported with its
/// position and the reason. No failure stops the batch.
pub fn transform_all(rows: Vec<RawRecord>) -> (batch: Batch)
    ensures
        records_view(batch.records@) == kept(row_outcomes(rows_view(rows@))),
        rejections_view(batch.rejections@) == rejected(row_outcomes(rows_view(rows@))),
{
    partition(transform_each(rows))
}

} // verus!
