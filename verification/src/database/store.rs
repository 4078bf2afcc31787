//! A store held in memory that answers the scrub protocol. It says what the
//! commands mean, and stands in for a store on disk where none is at hand.

use crate::database::scrub::{
    advance, first_step, key_mark, steps_left, ScrubFailure, ScrubPhase, ScrubReport,
    ScrubStep, StoreCommand, StoreReply,
};
use crate::text::{contains_text, is_substring};
use vstd::prelude::*;

verus! {

/// A row of the table of items: a key and a value.
pub type Row = (String, String);

/// A store held in memory: whether it has a table of items, and the rows of
/// that table.
#[derive(Debug)]
pub struct MemoryStore {
    pub has_table: bool,
    pub rows: Vec<Row>,
}

/// Whether the key of a row holds the mark, in this very case.
pub open spec fn row_matches(row: Row) -> bool {
    is_substring(row.0@, key_mark())
}

/// The number of rows whose key holds the mark.
pub open spec fn count_matching(rows: Seq<Row>) -> nat
    decreases rows.len(),
{
    if rows.len() == 0 {
        0
    } else {
        count_matching(rows.drop_last()) + if row_matches(rows.last()) {
            1nat
        } else {
            0nat
        }
    }
}

/// The rows whose key does not hold the mark, in their order.
pub open spec fn without_matching(rows: Seq<Row>) -> Seq<Row>
    decreases rows.len(),
{
    if rows.len() == 0 {
        Seq::empty()
    } else if row_matches(rows.last()) {
        without_matching(rows.drop_last())
    } else {
        without_matching(rows.drop_last()).push(rows.last())
    }
}

/// Removing the rows with the mark from `n` rows of which `m` hold it leaves
/// `n - m` rows, none of which holds it; removing them again changes nothing.
pub proof fn lemma_removal_counts(rows: Seq<Row>)
    ensures
        count_matching(rows) <= rows.len(),
        without_matching(rows).len() == rows.len() - count_matching(rows),
        count_matching(without_matching(rows)) == 0,
        without_matching(without_matching(rows)) == without_matching(rows),
        count_matching(rows) == 0 ==> without_matching(rows) == rows,
    decreases rows.len(),
{
    if rows.len() > 0 {
        let front = rows.drop_last();
        lemma_removal_counts(front);
        if !row_matches(rows.last()) {
            let kept = without_matching(front).push(rows.last());
            assert(kept.drop_last() == without_matching(front));
            assert(kept.last() == rows.last());
            if count_matching(rows) == 0 {
                assert(front.push(rows.last()) == rows);
            }
        }
    }
}

/// What a store with the given table answers to a command, and the rows it
/// holds afterwards.
pub open spec fn model_answer(has_table: bool, rows: Seq<Row>, command: StoreCommand) -> (
    StoreReplyModel,
    Seq<Row>,
) {
    match command {
        StoreCommand::CheckTable => (StoreReplyModel::TableFound(has_table), rows),
        StoreCommand::CountMatching => if has_table && count_matching(rows) <= u32::MAX {
            (StoreReplyModel::Count(count_matching(rows) as u32), rows)
        } else {
            (StoreReplyModel::Failed, rows)
        },
        StoreCommand::DeleteMatching => if has_table && count_matching(rows) <= u32::MAX {
            (StoreReplyModel::Deleted(count_matching(rows) as u32), without_matching(rows))
        } else {
            (StoreReplyModel::Failed, rows)
        },
        _ => (StoreReplyModel::Done, rows),
    }
}

/// The kinds of reply, without the words of a failure.
pub enum StoreReplyModel {
    Done,
    TableFound(bool),
    Count(u32),
    Deleted(u32),
    Failed,
}

/// The kind of a reply.
pub open spec fn reply_kind(reply: StoreReply) -> StoreReplyModel {
    match reply {
        StoreReply::Done => StoreReplyModel::Done,
        StoreReply::TableFound(found) => StoreReplyModel::TableFound(found),
        StoreReply::Count(count) => StoreReplyModel::Count(count),
        StoreReply::Deleted(deleted) => StoreReplyModel::Deleted(deleted),
        StoreReply::Failed(_) => StoreReplyModel::Failed,
    }
}

/// The command that a scrub has issued when it is in the given phase.
pub open spec fn command_of(phase: ScrubPhase) -> StoreCommand {
    match phase {
        ScrubPhase::Opening => StoreCommand::Open,
        ScrubPhase::DisablingForeignKeys => StoreCommand::DisableForeignKeys,
        ScrubPhase::EnablingWriteAheadLog => StoreCommand::EnableWriteAheadLog,
        ScrubPhase::CheckingTable => StoreCommand::CheckTable,
        ScrubPhase::Beginning => StoreCommand::Begin,
        ScrubPhase::Counting => StoreCommand::CountMatching,
        ScrubPhase::Deleting => StoreCommand::DeleteMatching,
        ScrubPhase::Recounting { .. } => StoreCommand::CountMatching,
        ScrubPhase::Committing { .. } => StoreCommand::Commit,
    }
}

/// What holds of the rows of a store while a scrub of it is in the given
/// phase and has not yet had the reply it waits for.
pub open spec fn scrub_state(phase: ScrubPhase, has_table: bool, rows: Seq<Row>, start: Seq<Row>) -> bool {
    match phase {
        ScrubPhase::Opening | ScrubPhase::DisablingForeignKeys | ScrubPhase::EnablingWriteAheadLog
        | ScrubPhase::CheckingTable => rows == start,
        ScrubPhase::Beginning | ScrubPhase::Counting => has_table && rows == start,
        ScrubPhase::Deleting => has_table && rows == start && 0 < count_matching(start)
            <= u32::MAX,
        ScrubPhase::Recounting { deleted } => has_table && rows == without_matching(start)
            && deleted == count_matching(start),
        ScrubPhase::Committing { removed, remaining } => has_table && rows == without_matching(
            start,
        ) && removed == count_matching(start) && remaining == 0,
    }
}

/// What a scrub of a store reports, and what it leaves: without a table
/// nothing is removed; with one, the rows with the mark are removed, their
/// number is reported and none is left. A store with more such rows than can
/// be counted has the scrub fail, and keeps them.
pub open spec fn scrub_result(
    has_table: bool,
    start: Seq<Row>,
    outcome: Result<ScrubReport, ScrubFailure>,
    rows: Seq<Row>,
) -> bool {
    if !has_table {
        &&& outcome == Ok::<ScrubReport, ScrubFailure>(ScrubReport { removed: 0, remaining: 0 })
        &&& rows == start
    } else if count_matching(start) > u32::MAX {
        &&& outcome matches Err(ScrubFailure::Store(_))
        &&& rows == start
    } else {
        &&& outcome == Ok::<ScrubReport, ScrubFailure>(
            ScrubReport { removed: count_matching(start) as u32, remaining: 0 },
        )
        &&& rows == without_matching(start)
    }
}

impl MemoryStore {
    /// A store with a table of items that holds the given rows.
    pub fn with_rows(rows: Vec<Row>) -> (store: MemoryStore)
        ensures
            store.has_table,
            store.rows == rows,
    {
        MemoryStore { has_table: true, rows }
    }

    /// A store without a table of items.
    pub fn without_table() -> (store: MemoryStore)
        ensures
            !store.has_table,
            store.rows@.len() == 0,
    {
        MemoryStore { has_table: false, rows: Vec::new() }
    }

    /// The number of rows whose key holds the mark.
    pub fn count_marked(&self) -> (count: usize)
        ensures
            count == count_matching(self.rows@),
    {
        let mut count: usize = 0;
        let mut i: usize = 0;
        while i < self.rows.len()
            invariant
                i <= self.rows.len(),
                count == count_matching(self.rows@.take(i as int)),
                count <= i,
            decreases self.rows.len() - i,
        {
            assert(self.rows@.take(i + 1).drop_last() == self.rows@.take(i as int));
            if contains_text(self.rows[i].0.as_str(), "augment") {
                count += 1;
            }
            i += 1;
        }
        assert(self.rows@.take(i as int) == self.rows@);
        count
    }

    /// Removes the rows whose key holds the mark and says how many they were.
    pub fn delete_marked(&mut self) -> (deleted: usize)
        ensures
            deleted == count_matching(old(self).rows@),
            final(self).rows@ == without_matching(old(self).rows@),
            final(self).has_table == old(self).has_table,
    {
        let mut kept: Vec<Row> = Vec::new();
        let mut deleted: usize = 0;
        let mut i: usize = 0;
        while i < self.rows.len()
            invariant
                i <= self.rows.len(),
                self.rows == old(self).rows,
                self.has_table == old(self).has_table,
                kept@ == without_matching(self.rows@.take(i as int)),
                deleted == count_matching(self.rows@.take(i as int)),
                deleted <= i,
            decreases self.rows.len() - i,
        {
            assert(self.rows@.take(i + 1).drop_last() == self.rows@.take(i as int));
            if contains_text(self.rows[i].0.as_str(), "augment") {
                deleted += 1;
            } else {
                let row: Row = (self.rows[i].0.clone(), self.rows[i].1.clone());
                assert(row == self.rows@[i as int]);
                kept.push(row);
            }
            i += 1;
        }
        assert(self.rows@.take(i as int) == self.rows@);
        self.rows = kept;
        deleted
    }

    /// Carries out a command and answers as a store does: a count or a
    /// deletion fails where there is no table or the number does not fit.
    pub fn answer(&mut self, command: StoreCommand) -> (reply: StoreReply)
        ensures
            (reply_kind(reply), final(self).rows@) == model_answer(
                old(self).has_table,
                old(self).rows@,
                command,
            ),
            final(self).has_table == old(self).has_table,
    {
        match command {
            StoreCommand::CheckTable => StoreReply::TableFound(self.has_table),
            StoreCommand::CountMatching => {
                let count = self.count_marked();
                if self.has_table && count <= u32::MAX as usize {
                    StoreReply::Count(count as u32)
                } else {
                    StoreReply::Failed("no such table: ItemTable".to_owned())
                }
            },
            StoreCommand::DeleteMatching => {
                let count = self.count_marked();
                if self.has_table && count <= u32::MAX as usize {
                    let deleted = self.delete_marked();
                    StoreReply::Deleted(deleted as u32)
                } else {
                    StoreReply::Failed("no such table: ItemTable".to_owned())
                }
            },
            _ => StoreReply::Done,
        }
    }

    /// Scrubs the store by the protocol. Of `n` rows of which `m` hold the
    /// mark, `m` are removed and reported and `n - m` are left; a store
    /// without a table is left as it is.
    pub fn scrub(&mut self) -> (outcome: Result<ScrubReport, ScrubFailure>)
        ensures
            scrub_result(old(self).has_table, old(self).rows@, outcome, final(self).rows@),
            final(self).has_table == old(self).has_table,
    {
        let ghost start = self.rows@;
        let mut step = first_step();
        proof {
            lemma_removal_counts(start);
        }
        loop
            invariant
                self.has_table == old(self).has_table,
                start == old(self).rows@,
                count_matching(start) <= start.len(),
                match step {
                    ScrubStep::Issue(command, phase) => command == command_of(phase)
                        && scrub_state(phase, self.has_table, self.rows@, start),
                    ScrubStep::Finish(outcome) => scrub_result(
                        self.has_table,
                        start,
                        outcome,
                        self.rows@,
                    ),
                },
            decreases
                    match step {
                        ScrubStep::Issue(_, phase) => steps_left(phase),
                        ScrubStep::Finish(_) => 0,
                    },
        {
            match step {
                ScrubStep::Finish(outcome) => {
                    return outcome;
                },
                ScrubStep::Issue(command, phase) => {
                    let reply = self.answer(command);
                    proof {
                        lemma_removal_counts(start);
                        lemma_removal_counts(without_matching(start));
                    }
                    step = advance(phase, reply);
                },
            }
        }
    }
}

/// Scrubbing twice: of `n` rows of which `m` hold the mark, the first scrub
/// removes and reports `m` and leaves `n - m`; the second removes and reports
/// none and leaves what it found.
pub proof fn lemma_second_scrub_removes_nothing(
    start: Seq<Row>,
    first: Result<ScrubReport, ScrubFailure>,
    between: Seq<Row>,
    second: Result<ScrubReport, ScrubFailure>,
    end: Seq<Row>,
)
    requires
        count_matching(start) <= u32::MAX,
        scrub_result(true, start, first, between),
        scrub_result(true, between, second, end),
    ensures
        first matches Ok(report) && report.removed == count_matching(start) && report.remaining
            == 0,
        between.len() == start.len() - count_matching(start),
        count_matching(between) == 0,
        second == Ok::<ScrubReport, ScrubFailure>(ScrubReport { removed: 0, remaining: 0 }),
        end == between,
{
    lemma_removal_counts(start);
    lemma_removal_counts(between);
}

} // verus!
