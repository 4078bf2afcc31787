//! The protocol by which the rows that carry the mark are removed from a
//! store: which command follows which reply, and what is reported at the end.

use crate::error::AugmentError;
use vstd::prelude::*;

verus! {

/// A request to the store. The one who holds the store carries it out and
/// hands back a reply.
#[derive(Debug, Clone, Copy, PartialEq, Eq, Structural)]
pub enum StoreCommand {
    /// Open the store file.
    Open,
    /// Switch off the enforcement of foreign keys.
    DisableForeignKeys,
    /// Switch the journal to write-ahead logging.
    EnableWriteAheadLog,
    /// Find out whether the table of items exists.
    CheckTable,
    /// Begin a transaction.
    Begin,
    /// Count the rows whose key holds the mark.
    CountMatching,
    /// Delete the rows whose key holds the mark.
    DeleteMatching,
    /// Commit the transaction.
    Commit,
}

/// What the store answers to a command.
#[derive(Debug)]
pub enum StoreReply {
    /// The command was carried out and has nothing to report.
    Done,
    /// Whether the table of items exists.
    TableFound(bool),
    /// The number of rows counted.
    Count(u32),
    /// The number of rows deleted.
    Deleted(u32),
    /// The command failed, for the reason given.
    Failed(String),
}

/// Where a scrub stands: which reply it waits for.
#[derive(Debug, Clone, Copy, PartialEq, Eq, Structural)]
pub enum ScrubPhase {
    Opening,
    DisablingForeignKeys,
    EnablingWriteAheadLog,
    CheckingTable,
    Beginning,
    Counting,
    Deleting,
    Recounting { deleted: u32 },
    Committing { removed: u32, remaining: u32 },
}

/// What a scrub that went through reports: the rows that were deleted in the
/// transaction that was committed, and the rows with the mark that were still
/// counted after the deletion, which is zero unless the store is inconsistent.
#[derive(Debug, Clone, Copy, PartialEq, Eq, Structural)]
pub struct ScrubReport {
    pub removed: u32,
    pub remaining: u32,
}

/// Why a scrub was given up. Nothing is committed by a scrub that is given up.
#[derive(Debug)]
pub enum ScrubFailure {
    /// The store failed to carry out a command, for the reason given.
    Store(String),
    /// The reply does not answer the command that was issued.
    UnexpectedReply,
}

/// What to do next.
#[derive(Debug)]
pub enum ScrubStep {
    /// Carry out the command and come back with its reply, in the phase given.
    Issue(StoreCommand, ScrubPhase),
    /// Release the store, without committing what is open; the scrub has ended.
    Finish(Result<ScrubReport, ScrubFailure>),
}

/// The name of the table that holds the items.
pub open spec fn item_table_name() -> Seq<char> {
    "ItemTable"@
}

/// The mark that the key of a row to remove holds, in this very case.
pub open spec fn key_mark() -> Seq<char> {
    "augment"@
}

/// The statement that carries out a command, for the commands that are statements.
pub open spec fn statement_text(command: StoreCommand) -> Option<Seq<char>> {
    match command {
        StoreCommand::DisableForeignKeys => Some("PRAGMA foreign_keys = OFF"@),
        StoreCommand::EnableWriteAheadLog => Some("PRAGMA journal_mode = WAL"@),
        StoreCommand::CheckTable => Some(
            "SELECT name FROM sqlite_master WHERE type='table' AND name=?"@,
        ),
        StoreCommand::CountMatching => Some(
            "SELECT COUNT(*) FROM ItemTable WHERE key GLOB '*augment*'"@,
        ),
        StoreCommand::DeleteMatching => Some("DELETE FROM ItemTable WHERE key GLOB '*augment*'"@),
        _ => None,
    }
}

/// The step that follows a reply received in a phase.
pub open spec fn next_step(phase: ScrubPhase, reply: StoreReply) -> ScrubStep {
    match reply {
        StoreReply::Failed(reason) => ScrubStep::Finish(Err(ScrubFailure::Store(reason))),
        StoreReply::Done => match phase {
            ScrubPhase::Opening => ScrubStep::Issue(
                StoreCommand::DisableForeignKeys,
                ScrubPhase::DisablingForeignKeys,
            ),
            ScrubPhase::DisablingForeignKeys => ScrubStep::Issue(
                StoreCommand::EnableWriteAheadLog,
                ScrubPhase::EnablingWriteAheadLog,
            ),
            ScrubPhase::EnablingWriteAheadLog => ScrubStep::Issue(
                StoreCommand::CheckTable,
                ScrubPhase::CheckingTable,
            ),
            ScrubPhase::Beginning => ScrubStep::Issue(
                StoreCommand::CountMatching,
                ScrubPhase::Counting,
            ),
            ScrubPhase::Committing { removed, remaining } => ScrubStep::Finish(
                Ok(ScrubReport { removed, remaining }),
            ),
            _ => ScrubStep::Finish(Err(ScrubFailure::UnexpectedReply)),
        },
        StoreReply::TableFound(found) => match phase {
            ScrubPhase::CheckingTable => if found {
                ScrubStep::Issue(StoreCommand::Begin, ScrubPhase::Beginning)
            } else {
                ScrubStep::Finish(Ok(ScrubReport { removed: 0, remaining: 0 }))
            },
            _ => ScrubStep::Finish(Err(ScrubFailure::UnexpectedReply)),
        },
        StoreReply::Count(count) => match phase {
            ScrubPhase::Counting => if count == 0 {
                ScrubStep::Issue(
                    StoreCommand::Commit,
                    ScrubPhase::Committing { removed: 0, remaining: 0 },
                )
            } else {
                ScrubStep::Issue(StoreCommand::DeleteMatching, ScrubPhase::Deleting)
            },
            ScrubPhase::Recounting { deleted } => ScrubStep::Issue(
                StoreCommand::Commit,
                ScrubPhase::Committing { removed: deleted, remaining: count },
            ),
            _ => ScrubStep::Finish(Err(ScrubFailure::UnexpectedReply)),
        },
        StoreReply::Deleted(deleted) => match phase {
            ScrubPhase::Deleting => ScrubStep::Issue(
                StoreCommand::CountMatching,
                ScrubPhase::Recounting { deleted },
            ),
            _ => ScrubStep::Finish(Err(ScrubFailure::UnexpectedReply)),
        },
    }
}

/// How many replies a scrub in the given phase can still take before it ends.
pub open spec fn steps_left(phase: ScrubPhase) -> nat {
    match phase {
        ScrubPhase::Opening => 9,
        ScrubPhase::DisablingForeignKeys => 8,
        ScrubPhase::EnablingWriteAheadLog => 7,
        ScrubPhase::CheckingTable => 6,
        ScrubPhase::Beginning => 5,
        ScrubPhase::Counting => 4,
        ScrubPhase::Deleting => 3,
        ScrubPhase::Recounting { .. } => 2,
        ScrubPhase::Committing { .. } => 1,
    }
}

/// Every step ends the scrub or brings it nearer to its end.
pub proof fn lemma_scrub_progress(phase: ScrubPhase, reply: StoreReply)
    ensures
        next_step(phase, reply) matches ScrubStep::Issue(_, next) ==> steps_left(next)
            < steps_left(phase),
{
}

/// A deletion is only ever issued inside a transaction, after a count that
/// found rows, and nothing is reported as removed that was not committed.
pub proof fn lemma_scrub_order(phase: ScrubPhase, reply: StoreReply)
    ensures
        next_step(phase, reply) matches ScrubStep::Issue(StoreCommand::DeleteMatching, _)
            ==> (phase is Counting && (reply matches StoreReply::Count(count) && count > 0)),
        next_step(phase, reply) matches ScrubStep::Finish(Ok(report)) ==> ((phase is Committing
            && reply is Done) || (phase is CheckingTable && report.removed == 0)),
{
}

impl StoreCommand {
    /// The one parameter of the statement that carries out the command, for
    /// the command that takes one: the look for the table takes its name.
    pub fn parameter(&self) -> (value: Option<&'static str>)
        ensures
            match value {
                Some(v) => *self == StoreCommand::CheckTable && v@ == item_table_name(),
                None => *self != StoreCommand::CheckTable,
            },
    {
        match self {
            StoreCommand::CheckTable => Some("ItemTable"),
            _ => None,
        }
    }

    /// The statement that carries out the command, for the commands that are
    /// statements. The statement that looks for the table takes the name of
    /// the table as its one parameter.
    pub fn sql(&self) -> (text: Option<&'static str>)
        ensures
            match text {
                Some(t) => statement_text(*self) == Some(t@),
                None => statement_text(*self) is None,
            },
    {
        match self {
            StoreCommand::DisableForeignKeys => Some("PRAGMA foreign_keys = OFF"),
            StoreCommand::EnableWriteAheadLog => Some("PRAGMA journal_mode = WAL"),
            StoreCommand::CheckTable => Some(
                "SELECT name FROM sqlite_master WHERE type='table' AND name=?",
            ),
            StoreCommand::CountMatching => Some(
                "SELECT COUNT(*) FROM ItemTable WHERE key GLOB '*augment*'",
            ),
            StoreCommand::DeleteMatching => Some(
                "DELETE FROM ItemTable WHERE key GLOB '*augment*'",
            ),
            _ => None,
        }
    }
}

impl ScrubFailure {
    /// The words that describe the failure.
    pub open spec fn reason_text(self) -> Seq<char> {
        match self {
            ScrubFailure::Store(reason) => reason@,
            ScrubFailure::UnexpectedReply => "the store gave a reply that does not answer the command"@,
        }
    }

    /// The failure as the library reports it: a failure of the store with the
    /// reason it gave, or an internal failure for a reply out of turn.
    pub fn into_error(self) -> (error: AugmentError)
        ensures
            match self {
                ScrubFailure::Store(reason) => error == AugmentError::Database(reason),
                ScrubFailure::UnexpectedReply => error matches AugmentError::Internal { message }
                    && message@ == self.reason_text(),
            },
    {
        match self {
            ScrubFailure::Store(reason) => AugmentError::Database(reason),
            ScrubFailure::UnexpectedReply => AugmentError::internal(
                "the store gave a reply that does not answer the command",
            ),
        }
    }
}

/// The first step of a scrub: open the store.
pub fn first_step() -> (step: ScrubStep)
    ensures
        step == ScrubStep::Issue(StoreCommand::Open, ScrubPhase::Opening),
{
    ScrubStep::Issue(StoreCommand::Open, ScrubPhase::Opening)
}

/// The step that follows a reply received in a phase.
pub fn advance(phase: ScrubPhase, reply: StoreReply) -> (step: ScrubStep)
    ensures
        step == next_step(phase, reply),
{
    match reply {
        StoreReply::Failed(reason) => ScrubStep::Finish(Err(ScrubFailure::Store(reason))),
        StoreReply::Done => match phase {
            ScrubPhase::Opening => ScrubStep::Issue(
                StoreCommand::DisableForeignKeys,
                ScrubPhase::DisablingForeignKeys,
            ),
            ScrubPhase::DisablingForeignKeys => ScrubStep::Issue(
                StoreCommand::EnableWriteAheadLog,
                ScrubPhase::EnablingWriteAheadLog,
            ),
            ScrubPhase::EnablingWriteAheadLog => ScrubStep::Issue(
                StoreCommand::CheckTable,
                ScrubPhase::CheckingTable,
            ),
            ScrubPhase::Beginning => ScrubStep::Issue(
                StoreCommand::CountMatching,
                ScrubPhase::Counting,
            ),
            ScrubPhase::Committing { removed, remaining } => ScrubStep::Finish(
                Ok(ScrubReport { removed, remaining }),
            ),
            _ => ScrubStep::Finish(Err(ScrubFailure::UnexpectedReply)),
        },
        StoreReply::TableFound(found) => match phase {
            ScrubPhase::CheckingTable => if found {
                ScrubStep::Issue(StoreCommand::Begin, ScrubPhase::Beginning)
            } else {
                ScrubStep::Finish(Ok(ScrubReport { removed: 0, remaining: 0 }))
            },
            _ => ScrubStep::Finish(Err(ScrubFailure::UnexpectedReply)),
        },
        StoreReply::Count(count) => match phase {
            ScrubPhase::Counting => if count == 0 {
                ScrubStep::Issue(
                    StoreCommand::Commit,
                    ScrubPhase::Committing { removed: 0, remaining: 0 },
                )
            } else {
                ScrubStep::Issue(StoreCommand::DeleteMatching, ScrubPhase::Deleting)
            },
            ScrubPhase::Recounting { deleted } => ScrubStep::Issue(
                StoreCommand::Commit,
                ScrubPhase::Committing { removed: deleted, remaining: count },
            ),
            _ => ScrubStep::Finish(Err(ScrubFailure::UnexpectedReply)),
        },
        StoreReply::Deleted(deleted) => match phase {
            ScrubPhase::Deleting => ScrubStep::Issue(
                StoreCommand::CountMatching,
                ScrubPhase::Recounting { deleted },
            ),
            _ => ScrubStep::Finish(Err(ScrubFailure::UnexpectedReply)),
        },
    }
}

} // verus!
