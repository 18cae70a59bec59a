//! The states of the iterator over a query's rows: which step of the
//! statement each call of `next` takes, and what it yields.
//!
//! The first call steps the statement with its column names reset. Later
//! calls step it in place while no earlier row is still held; when one is,
//! its values are copied out first, so the held row keeps them.

use crate::codes;
use crate::error::Error;
use vstd::prelude::*;

verus! {

/// Where the iteration stands.
#[derive(Debug, Clone, Copy, PartialEq, Eq)]
pub enum IterationState {
    /// No step taken yet.
    NotStarted,
    /// At least one row returned; later rows come from the same statement.
    Started,
    /// The first step failed or found no row; the statement is gone.
    Spent,
}

/// The step `next` takes.
#[derive(Debug, Clone, Copy, PartialEq, Eq)]
pub enum NextStep {
    /// Step the statement for the first time, resetting its column names.
    First,
    /// Step the statement in place: no earlier row is held any more.
    InPlace,
    /// Copy the held row's values out, then step the statement.
    CopyThenStep,
}

/// What a step of the statement found.
#[derive(Debug, Clone, PartialEq, Eq)]
pub enum StepOutcome {
    /// Stepping failed.
    Failed(Error),
    /// No more rows.
    Done,
    /// A row.
    Row,
}

/// What a result code of `sqlite3_step` reports: `SQLITE_ROW` a row,
/// `SQLITE_DONE` the end, anything else a failure, reported as
/// `last_error`, the connection's last error.
pub fn step_outcome(code: i32, last_error: Error) -> (r: StepOutcome)
    ensures
        code == 100 ==> r == StepOutcome::Row,
        code == 101 ==> r == StepOutcome::Done,
        code != 100 && code != 101 ==> r == StepOutcome::Failed(last_error),
{
    if code == codes::sqlite_row() {
        StepOutcome::Row
    } else if code == codes::sqlite_done() {
        StepOutcome::Done
    } else {
        StepOutcome::Failed(last_error)
    }
}

/// What `next` yields.
#[derive(Debug, Clone, PartialEq, Eq)]
pub enum NextItem {
    /// `None`: the rows are exhausted.
    End,
    /// `Some(Err(e))`.
    Failed(Error),
    /// `Some(Ok(row))`, a row with this many fields.
    Row(usize),
}

/// The iterator's state: where it stands, and the field count of its rows.
#[derive(Debug, Clone, Copy, PartialEq, Eq)]
pub struct StatementIterator {
    /// Where the iteration stands.
    pub state: IterationState,
    /// The number of fields of each row, known once the first row came.
    pub field_count: usize,
}

/// The message of the error `next` yields when the held row cannot be
/// copied because a field or value of it is still borrowed.
pub open spec fn reborrow_message() -> Seq<char> {
    "Failed to reborrow row. Try to release any `SqliteField` or `SqliteValue` that exists at this point"@
}

impl StatementIterator {
    /// An iterator that has not stepped its statement yet.
    pub fn new() -> (r: Self)
        ensures
            r.state == IterationState::NotStarted,
            r.field_count == 0,
    {
        StatementIterator { state: IterationState::NotStarted, field_count: 0 }
    }

    /// The step the next call of `next` takes; `row_held` says whether an
    /// earlier row is still held elsewhere. A spent iterator takes none.
    pub fn next_step(&self, row_held: bool) -> (r: NextStep)
        requires
            self.state != IterationState::Spent,
        ensures
            self.state == IterationState::NotStarted ==> r == NextStep::First,
            self.state == IterationState::Started ==> r == (if row_held {
                NextStep::CopyThenStep
            } else {
                NextStep::InPlace
            }),
    {
        match self.state {
            IterationState::NotStarted => NextStep::First,
            _ => if row_held {
                NextStep::CopyThenStep
            } else {
                NextStep::InPlace
            },
        }
    }

    /// What `next` yields when the held row could not be copied: the error
    /// that a field or value of it is still borrowed. The state is unchanged.
    pub fn copy_failed(&self) -> (r: NextItem)
        ensures
            r matches NextItem::Failed(Error::DeserializationError(m)) && m@ == reborrow_message(),
    {
        NextItem::Failed(
            Error::DeserializationError(
                String::from_str(
                    "Failed to reborrow row. Try to release any `SqliteField` or `SqliteValue` that exists at this point",
                ),
            ),
        )
    }

    /// Records the outcome of the step `next` took and returns what it
    /// yields. After the first step, a row starts the iteration and fixes
    /// the field count at `column_count`; a failure or the end spends the
    /// iterator. Later steps keep the state and the field count.
    pub fn finish_step(&mut self, outcome: StepOutcome, column_count: usize) -> (r: NextItem)
        requires
            old(self).state != IterationState::Spent,
        ensures
            old(self).state == IterationState::NotStarted ==> match outcome {
                StepOutcome::Failed(e) => r == NextItem::Failed(e) && final(self).state
                    == IterationState::Spent && final(self).field_count == old(self).field_count,
                StepOutcome::Done => r == NextItem::End && final(self).state == IterationState::Spent
                    && final(self).field_count == old(self).field_count,
                StepOutcome::Row => r == NextItem::Row(column_count) && final(self).state
                    == IterationState::Started && final(self).field_count == column_count,
            },
            old(self).state == IterationState::Started ==> *final(self) == *old(self) && match outcome {
                StepOutcome::Failed(e) => r == NextItem::Failed(e),
                StepOutcome::Done => r == NextItem::End,
                StepOutcome::Row => r == NextItem::Row(old(self).field_count),
            },
    {
        match self.state {
            IterationState::NotStarted => match outcome {
                StepOutcome::Failed(e) => {
                    self.state = IterationState::Spent;
                    NextItem::Failed(e)
                },
                StepOutcome::Done => {
                    self.state = IterationState::Spent;
                    NextItem::End
                },
                StepOutcome::Row => {
                    self.state = IterationState::Started;
                    self.field_count = column_count;
                    NextItem::Row(column_count)
                },
            },
            _ => match outcome {
                StepOutcome::Failed(e) => NextItem::Failed(e),
                StepOutcome::Done => NextItem::End,
                StepOutcome::Row => NextItem::Row(self.field_count),
            },
        }
    }
}

} // verus!
