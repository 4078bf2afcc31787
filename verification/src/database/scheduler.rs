//! Bounded dispatch of targets: how many may be worked on at once, which one
//! starts next, and what their results add up to.

use crate::error::AugmentError;
use crate::text::concat2;
use crate::types::{DatabaseCleanResult, EditorType};
use vstd::prelude::*;

verus! {

/// The largest number of stores that are scrubbed at the same time.
pub const MAX_CONCURRENT_DATABASES: usize = 3;

/// How the work on one target ended.
#[derive(Debug)]
pub enum TaskOutcome {
    /// The work ran to its end, with the result given.
    Completed(DatabaseCleanResult),
    /// The work was given up with a failure.
    Failed(AugmentError),
    /// The task that did the work broke down, for the reason given.
    Crashed(String),
}

/// The state of a run over `total` targets of which at most `limit` are
/// worked on at once. Targets are started in their order; results are kept
/// in the order in which the work on them ends.
#[derive(Debug)]
pub struct CleanScheduler {
    limit: usize,
    total: usize,
    started: usize,
    running: usize,
    results: Vec<DatabaseCleanResult>,
}

/// What the results of a run add up to.
#[derive(Debug, Clone, Copy, PartialEq, Eq, Structural)]
pub struct CleanSummary {
    pub successes: usize,
    pub total: usize,
    pub total_removed: u64,
}

/// How a run ended, all in all.
#[derive(Debug, Clone, Copy, PartialEq, Eq, Structural)]
pub enum CompletionStatus {
    /// Every target succeeded, and there was one.
    Complete,
    /// Some target succeeded, but not all.
    Partial,
    /// No target succeeded.
    Failed,
}

/// What is said about the rows at the end of a run.
#[derive(Debug, Clone, Copy, PartialEq, Eq, Structural)]
pub enum CompletionNote {
    /// Every target succeeded and rows were removed.
    AllRemoved,
    /// No row was removed.
    NothingFound,
    /// Rows were removed, but not every target succeeded.
    Silent,
}

/// The recorded path of a target whose work left no result.
pub open spec fn unknown_path_text() -> Seq<char> {
    "未知路径"@
}

/// The number of results that record a success.
pub open spec fn success_count(results: Seq<DatabaseCleanResult>) -> nat
    decreases results.len(),
{
    if results.len() == 0 {
        0
    } else {
        success_count(results.drop_last()) + if results.last().success {
            1nat
        } else {
            0nat
        }
    }
}

/// The number of rows that the results record as removed, all in all.
pub open spec fn removed_sum(results: Seq<DatabaseCleanResult>) -> nat
    decreases results.len(),
{
    if results.len() == 0 {
        0
    } else {
        removed_sum(results.drop_last()) + results.last().deleted_records as nat
    }
}

/// The counts of two runs of results add up, whichever comes first: what
/// results add up to does not depend on the order in which the targets ended.
pub proof fn lemma_summary_adds_up(first: Seq<DatabaseCleanResult>, second: Seq<DatabaseCleanResult>)
    ensures
        success_count(first + second) == success_count(first) + success_count(second),
        removed_sum(first + second) == removed_sum(first) + removed_sum(second),
        success_count(first + second) == success_count(second + first),
        removed_sum(first + second) == removed_sum(second + first),
        success_count(first) <= first.len(),
    decreases first.len() + second.len(),
{
    if second.len() == 0 {
        assert(first + second == first);
        assert(second + first == first);
        if first.len() > 0 {
            lemma_summary_adds_up(first.drop_last(), second);
        }
    } else {
        assert((first + second).drop_last() == first + second.drop_last());
        lemma_summary_adds_up(first, second.drop_last());
        if first.len() == 0 {
            assert(first + second == second);
            assert(second + first == second);
        } else {
            assert((second + first).drop_last() == second + first.drop_last());
            lemma_summary_adds_up(second, first.drop_last());
            lemma_summary_adds_up(second.drop_last(), first.drop_last());
            lemma_summary_adds_up(first.drop_last(), second);
            lemma_summary_adds_up(first.drop_last(), second.drop_last());
        }
    }
}

/// The result recorded for the way the work on a target ended: its own
/// result if it ran to its end; else a failure under an unknown path, put
/// down to VS Code, with the message of the failure or the reason
/// of the breakdown.
pub fn record_task_outcome(outcome: TaskOutcome) -> (result: DatabaseCleanResult)
    ensures
        match outcome {
            TaskOutcome::Completed(own) => result == own,
            TaskOutcome::Failed(error) => is_orphan_failure(result, error.message_text()),
            TaskOutcome::Crashed(reason) => is_orphan_failure(result, "任务执行失败: "@ + reason@),
        },
{
    match outcome {
        TaskOutcome::Completed(own) => own,
        TaskOutcome::Failed(error) => DatabaseCleanResult::failure(
            "未知路径".to_owned(),
            error.message(),
            EditorType::VSCode,
        ),
        TaskOutcome::Crashed(reason) => DatabaseCleanResult::failure(
            "未知路径".to_owned(),
            concat2("任务执行失败: ", reason.as_str()),
            EditorType::VSCode,
        ),
    }
}

/// Whether `result` records a failure for `reason` of which the target is
/// not known.
pub open spec fn is_orphan_failure(result: DatabaseCleanResult, reason: Seq<char>) -> bool {
    &&& !result.success
    &&& result.db_path@ == unknown_path_text()
    &&& result.backup_path is None
    &&& result.deleted_records == 0
    &&& result.error matches Some(text) && text@ == reason
    &&& result.editor_type@ == EditorType::VSCode.name()
}

/// What the results add up to: how many record a success, how many there
/// are, and how many rows they record as removed, which is capped at the
/// largest number that fits.
pub fn summarize(results: &Vec<DatabaseCleanResult>) -> (summary: CleanSummary)
    ensures
        summary.successes == success_count(results@),
        summary.total == results@.len(),
        summary.total_removed == if removed_sum(results@) > u64::MAX {
            u64::MAX as nat
        } else {
            removed_sum(results@)
        },
{
    let mut successes: usize = 0;
    let mut total_removed: u64 = 0;
    let mut i: usize = 0;
    while i < results.len()
        invariant
            i <= results.len(),
            successes == success_count(results@.take(i as int)),
            successes <= i,
            total_removed == if removed_sum(results@.take(i as int)) > u64::MAX {
                u64::MAX as nat
            } else {
                removed_sum(results@.take(i as int))
            },
        decreases results.len() - i,
    {
        assert(results@.take(i + 1).drop_last() == results@.take(i as int));
        if results[i].success {
            successes += 1;
        }
        total_removed = total_removed.saturating_add(results[i].deleted_records as u64);
        i += 1;
    }
    assert(results@.take(i as int) == results@);
    CleanSummary { successes, total: results.len(), total_removed }
}

impl CleanSummary {
    /// How the run ended, all in all.
    pub fn status(&self) -> (status: CompletionStatus)
        ensures
            status == if self.successes == self.total && self.total > 0 {
                CompletionStatus::Complete
            } else if self.successes > 0 {
                CompletionStatus::Partial
            } else {
                CompletionStatus::Failed
            },
    {
        if self.successes == self.total && self.total > 0 {
            CompletionStatus::Complete
        } else if self.successes > 0 {
            CompletionStatus::Partial
        } else {
            CompletionStatus::Failed
        }
    }

    /// What is said about the rows at the end of the run.
    pub fn note(&self) -> (note: CompletionNote)
        ensures
            note == if self.successes == self.total && self.total_removed > 0 {
                CompletionNote::AllRemoved
            } else if self.total_removed == 0 {
                CompletionNote::NothingFound
            } else {
                CompletionNote::Silent
            },
    {
        if self.successes == self.total && self.total_removed > 0 {
            CompletionNote::AllRemoved
        } else if self.total_removed == 0 {
            CompletionNote::NothingFound
        } else {
            CompletionNote::Silent
        }
    }
}

impl CleanScheduler {
    #[verifier::type_invariant]
    spec fn consistent(self) -> bool {
        &&& self.limit > 0
        &&& self.running <= self.limit
        &&& self.started <= self.total
        &&& self.results@.len() + self.running == self.started
    }

    /// The largest number of targets worked on at once.
    pub closed spec fn limit_of(self) -> nat {
        self.limit as nat
    }

    /// The number of targets of the run.
    pub closed spec fn total_of(self) -> nat {
        self.total as nat
    }

    /// The number of targets started so far.
    pub closed spec fn started_of(self) -> nat {
        self.started as nat
    }

    /// The number of targets that are being worked on.
    pub closed spec fn running_of(self) -> nat {
        self.running as nat
    }

    /// The results recorded so far, in the order in which the work ended.
    pub closed spec fn results_of(self) -> Seq<DatabaseCleanResult> {
        self.results@
    }

    /// What holds of every scheduler at every time: no more targets are
    /// worked on than the limit allows, and every target started is either
    /// being worked on or has its result recorded.
    pub open spec fn is_bounded(self) -> bool {
        &&& self.limit_of() > 0
        &&& self.running_of() <= self.limit_of()
        &&& self.started_of() <= self.total_of()
        &&& self.results_of().len() + self.running_of() == self.started_of()
    }

    /// A run over `total` targets with at most `limit` at once, none started
    /// yet; no run at all if the limit allows none.
    pub fn new(total: usize, limit: usize) -> (scheduler: Option<CleanScheduler>)
        ensures
            match scheduler {
                Some(s) => {
                    &&& limit > 0
                    &&& s.limit_of() == limit
                    &&& s.total_of() == total
                    &&& s.started_of() == 0
                    &&& s.running_of() == 0
                    &&& s.results_of().len() == 0
                    &&& s.is_bounded()
                },
                None => limit == 0,
            },
    {
        if limit == 0 {
            return None;
        }
        Some(CleanScheduler { limit, total, started: 0, running: 0, results: Vec::new() })
    }

    /// A run over no targets.
    pub fn idle() -> (scheduler: CleanScheduler)
        ensures
            scheduler.limit_of() == 1,
            scheduler.total_of() == 0,
            scheduler.started_of() == 0,
            scheduler.running_of() == 0,
            scheduler.results_of().len() == 0,
            scheduler.is_bounded(),
    {
        CleanScheduler { limit: 1, total: 0, started: 0, running: 0, results: Vec::new() }
    }

    /// Starts the next target if one is left and the limit allows it, and
    /// gives its index; else changes nothing.
    pub fn try_start(&mut self) -> (index: Option<usize>)
        ensures
            final(self).is_bounded(),
            final(self).limit_of() == old(self).limit_of(),
            final(self).total_of() == old(self).total_of(),
            final(self).results_of() == old(self).results_of(),
            match index {
                Some(i) => {
                    &&& old(self).running_of() < old(self).limit_of()
                    &&& old(self).started_of() < old(self).total_of()
                    &&& i == old(self).started_of()
                    &&& final(self).started_of() == old(self).started_of() + 1
                    &&& final(self).running_of() == old(self).running_of() + 1
                },
                None => {
                    &&& (old(self).running_of() == old(self).limit_of() || old(self).started_of()
                        == old(self).total_of())
                    &&& final(self).started_of() == old(self).started_of()
                    &&& final(self).running_of() == old(self).running_of()
                },
            },
    {
        proof {
            use_type_invariant(&*self);
        }
        if self.running < self.limit && self.started < self.total {
            let mut current = CleanScheduler::idle();
            core::mem::swap(self, &mut current);
            let CleanScheduler { limit, total, started, running, results } = current;
            *self = CleanScheduler {
                limit,
                total,
                started: started + 1,
                running: running + 1,
                results,
            };
            Some(started)
        } else {
            None
        }
    }

    /// Records how the work on a target ended and frees its place. Where no
    /// target is being worked on, nothing is recorded and the answer is no.
    pub fn finish(&mut self, outcome: TaskOutcome) -> (recorded: bool)
        ensures
            final(self).is_bounded(),
            final(self).limit_of() == old(self).limit_of(),
            final(self).total_of() == old(self).total_of(),
            final(self).started_of() == old(self).started_of(),
            recorded == (old(self).running_of() > 0),
            recorded ==> {
                &&& final(self).running_of() == old(self).running_of() - 1
                &&& final(self).results_of().len() == old(self).results_of().len() + 1
                &&& final(self).results_of().drop_last() == old(self).results_of()
                &&& match outcome {
                    TaskOutcome::Completed(own) => final(self).results_of().last() == own,
                    TaskOutcome::Failed(error) => is_orphan_failure(
                        final(self).results_of().last(),
                        error.message_text(),
                    ),
                    TaskOutcome::Crashed(reason) => is_orphan_failure(
                        final(self).results_of().last(),
                        "任务执行失败: "@ + reason@,
                    ),
                }
            },
            !recorded ==> {
                &&& final(self).running_of() == old(self).running_of()
                &&& final(self).results_of() == old(self).results_of()
            },
    {
        proof {
            use_type_invariant(&*self);
        }
        if self.running == 0 {
            return false;
        }
        let result = record_task_outcome(outcome);
        let mut current = CleanScheduler::idle();
        core::mem::swap(self, &mut current);
        let CleanScheduler { limit, total, started, running, results } = current;
        let mut results = results;
        results.push(result);
        *self = CleanScheduler { limit, total, started, running: running - 1, results };
        assert(self.results@.drop_last() == old(self).results@);
        true
    }

    /// The number of targets that are being worked on. It never exceeds the limit.
    pub fn running(&self) -> (running: usize)
        ensures
            running == self.running_of(),
            running <= self.limit_of(),
            self.is_bounded(),
    {
        proof {
            use_type_invariant(self);
        }
        self.running
    }

    /// The largest number of targets worked on at once.
    pub fn limit(&self) -> (limit: usize)
        ensures
            limit == self.limit_of(),
    {
        self.limit
    }

    /// The number of targets that have not been started yet.
    pub fn pending(&self) -> (pending: usize)
        ensures
            pending == self.total_of() - self.started_of(),
    {
        proof {
            use_type_invariant(self);
        }
        self.total - self.started
    }

    /// Whether every target has its result recorded.
    pub fn is_done(&self) -> (done: bool)
        ensures
            done == (self.results_of().len() == self.total_of()),
            done ==> self.running_of() == 0 && self.started_of() == self.total_of(),
    {
        proof {
            use_type_invariant(self);
        }
        self.results.len() == self.total
    }

    /// The results recorded, in the order in which the work ended.
    pub fn into_results(self) -> (results: Vec<DatabaseCleanResult>)
        ensures
            results@ == self.results_of(),
    {
        self.results
    }
}

} // verus!
