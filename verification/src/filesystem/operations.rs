//! Decisions about single files. Reading, copying and removing is left to
//! the caller, who hands in what was found and carries out what is decided.

use crate::clock::{backup_stamp_text, Timestamp};
use crate::text::{
    concat2, decimal_digits, ends_with_text, index_of_text, is_suffix,
    lemma_decimal_digits_differ, lemma_decimal_digits_nonempty, push_decimal, texts,
};
use crate::types::BackupResult;
use vstd::prelude::*;
use vstd::string::*;

verus! {

/// The decisions about files.
pub struct FileOperations;

/// What to do to back a file up.
#[derive(Debug)]
pub enum BackupPlan {
    /// Copy the file, byte for byte, to the path given.
    Copy { backup_path: String },
    /// Copy nothing; the backup has failed with the record given.
    Skip(BackupResult),
}

/// A path, and what was found there.
#[derive(Debug, Clone)]
pub struct PathEntry {
    pub path: String,
    pub exists: bool,
    pub is_dir: bool,
}

/// How to remove what lies at a path.
#[derive(Debug, Clone, Copy, PartialEq, Eq, Structural)]
pub enum RemovalKind {
    /// Remove a single file.
    File,
    /// Remove a directory with all that is in it.
    Directory,
}

/// A path to clear, and how.
#[derive(Debug, Clone)]
pub struct Removal {
    pub path: String,
    pub kind: RemovalKind,
}

/// A file found while looking for backups: its path, its name, whether it is
/// a regular file, and when it was last modified, if that is known.
#[derive(Debug, Clone)]
pub struct BackupCandidate {
    pub path: String,
    pub file_name: String,
    pub is_file: bool,
    pub modified: Option<Timestamp>,
}

/// The sixteen bytes with which every store file begins: `SQLite format 3`
/// and a zero byte.
pub open spec fn store_header() -> Seq<u8> {
    seq![83u8, 81, 76, 105, 116, 101, 32, 102, 111, 114, 109, 97, 116, 32, 51, 0]
}

/// Whether a file with the given content begins as a store file does.
pub open spec fn has_store_header(content: Seq<u8>) -> bool {
    content.len() >= 16 && content.subrange(0, 16) == store_header()
}

/// The path of the backup of a file made at an instant: the path of the
/// file, a dot, the stamp of the instant and `.bak`.
pub open spec fn backup_path_text(path: Seq<char>, seconds: i64, nanos: u32) -> Seq<char> {
    path + "."@ + backup_stamp_text(seconds, nanos) + ".bak"@
}

/// The paths that a backup of a file made at an instant can take, one for
/// each counter: the first is the path of the file, a dot, the stamp of the
/// instant and `.bak`; the others hold an underscore and the counter after
/// the stamp.
pub open spec fn backup_candidate(path: Seq<char>, seconds: i64, nanos: u32, counter: nat) -> Seq<
    char,
> {
    if counter == 0 {
        backup_path_text(path, seconds, nanos)
    } else {
        path + "."@ + backup_stamp_text(seconds, nanos) + "_"@ + decimal_digits(counter) + ".bak"@
    }
}

/// Whether `text` is one of the candidates with a counter below `bound`.
pub open spec fn is_earlier_candidate(
    text: Seq<char>,
    path: Seq<char>,
    seconds: i64,
    nanos: u32,
    bound: nat,
) -> bool {
    exists|i: nat| i < bound && text == #[trigger] backup_candidate(path, seconds, nanos, i)
}

/// Whether `chosen` is the backup path to take where the paths `taken` are
/// in use: the candidate with the least counter that is not taken.
pub open spec fn is_free_backup_path(
    taken: Seq<Seq<char>>,
    path: Seq<char>,
    seconds: i64,
    nanos: u32,
    counter: nat,
    chosen: Seq<char>,
) -> bool {
    &&& chosen == backup_candidate(path, seconds, nanos, counter)
    &&& !taken.contains(chosen)
    &&& forall|i: nat|
        i < counter ==> taken.contains(#[trigger] backup_candidate(path, seconds, nanos, i))
}

/// Candidates with different counters are different paths.
pub proof fn lemma_backup_candidates_differ(
    path: Seq<char>,
    seconds: i64,
    nanos: u32,
    first: nat,
    second: nat,
)
    requires
        first != second,
    ensures
        backup_candidate(path, seconds, nanos, first) != backup_candidate(
            path,
            seconds,
            nanos,
            second,
        ),
{
    let base = path + "."@ + backup_stamp_text(seconds, nanos);
    let a = backup_candidate(path, seconds, nanos, first);
    let b = backup_candidate(path, seconds, nanos, second);
    lemma_decimal_digits_nonempty(first);
    lemma_decimal_digits_nonempty(second);
    if first != 0 && second != 0 {
        let da = decimal_digits(first);
        let db = decimal_digits(second);
        let start = base.len() + "_"@.len();
        if a == b {
            assert(a.len() == start + da.len() + ".bak"@.len());
            assert(b.len() == start + db.len() + ".bak"@.len());
            assert forall|p: int| 0 <= p < da.len() implies da[p] == db[p] by {
                assert(a[start + p] == da[p]);
                assert(b[start + p] == db[p]);
            }
            assert(da =~= db);
            lemma_decimal_digits_differ(first, second);
        }
    } else {
        assert(a.len() != b.len());
    }
}

/// What holds while the candidates are tried in turn: the paths in `rest`
/// are those that are taken and are none of the candidates below `counter`,
/// all of which are taken.
pub open spec fn search_state(
    all: Seq<Seq<char>>,
    rest: Seq<Seq<char>>,
    path: Seq<char>,
    seconds: i64,
    nanos: u32,
    counter: nat,
) -> bool {
    &&& forall|m: int|
        0 <= m < all.len() ==> rest.contains(#[trigger] all[m]) || is_earlier_candidate(
            all[m],
            path,
            seconds,
            nanos,
            counter,
        )
    &&& forall|m: int| 0 <= m < rest.len() ==> all.contains(#[trigger] rest[m])
    &&& forall|c: nat|
        c < counter ==> all.contains(#[trigger] backup_candidate(path, seconds, nanos, c))
}

/// A candidate that is not among the paths left is not taken at all, and is
/// the one to take.
proof fn lemma_candidate_is_free(
    all: Seq<Seq<char>>,
    rest: Seq<Seq<char>>,
    path: Seq<char>,
    seconds: i64,
    nanos: u32,
    counter: nat,
)
    requires
        search_state(all, rest, path, seconds, nanos, counter),
        !rest.contains(backup_candidate(path, seconds, nanos, counter)),
    ensures
        is_free_backup_path(
            all,
            path,
            seconds,
            nanos,
            counter,
            backup_candidate(path, seconds, nanos, counter),
        ),
{
    let candidate = backup_candidate(path, seconds, nanos, counter);
    if all.contains(candidate) {
        let m = choose|m: int| 0 <= m < all.len() && all[m] == candidate;
        assert(is_earlier_candidate(all[m], path, seconds, nanos, counter));
        let c = choose|c: nat|
            c < counter && all[m] == #[trigger] backup_candidate(path, seconds, nanos, c);
        lemma_backup_candidates_differ(path, seconds, nanos, c, counter);
    }
}

/// A candidate that is found among the paths left is taken; without it the
/// search goes on with the next counter.
proof fn lemma_candidate_is_taken(
    all: Seq<Seq<char>>,
    before: Seq<Seq<char>>,
    place: int,
    path: Seq<char>,
    seconds: i64,
    nanos: u32,
    counter: nat,
)
    requires
        search_state(all, before, path, seconds, nanos, counter),
        0 <= place < before.len(),
        before[place] == backup_candidate(path, seconds, nanos, counter),
    ensures
        search_state(all, before.remove(place), path, seconds, nanos, counter + 1),
{
    let rest = before.remove(place);
    assert(all.contains(before[place]));
    assert forall|m: int| 0 <= m < all.len() implies rest.contains(#[trigger] all[m])
        || is_earlier_candidate(all[m], path, seconds, nanos, counter + 1) by {
        if before.contains(all[m]) {
            let r = choose|r: int| 0 <= r < before.len() && before[r] == all[m];
            if r == place {
                assert(all[m] == backup_candidate(path, seconds, nanos, counter));
            } else if r < place {
                assert(rest[r] == all[m]);
            } else {
                assert(rest[r - 1] == all[m]);
            }
        } else {
            let c = choose|c: nat|
                c < counter && all[m] == #[trigger] backup_candidate(path, seconds, nanos, c);
            assert(c < counter + 1);
        }
    }
    assert forall|m: int| 0 <= m < rest.len() implies all.contains(#[trigger] rest[m]) by {
        if m < place {
            assert(rest[m] == before[m]);
        } else {
            assert(rest[m] == before[m + 1]);
        }
    }
    assert forall|c: nat| c < counter + 1 implies all.contains(
        #[trigger] backup_candidate(path, seconds, nanos, c),
    ) by {
        if c == counter {
            assert(all.contains(before[place]));
        }
    }
}

/// The reason recorded when the file to back up is not there.
pub open spec fn source_missing_text() -> Seq<char> {
    "source missing"@
}

/// The removals that clear the paths that exist, in their order.
pub open spec fn removals_of(entries: Seq<PathEntry>) -> Seq<(Seq<char>, RemovalKind)>
    decreases entries.len(),
{
    if entries.len() == 0 {
        Seq::empty()
    } else {
        let last = entries.last();
        let rest = removals_of(entries.drop_last());
        if !last.exists {
            rest
        } else if last.is_dir {
            rest.push((last.path@, RemovalKind::Directory))
        } else {
            rest.push((last.path@, RemovalKind::File))
        }
    }
}

/// What the removals say, as plain values.
pub open spec fn removal_views(removals: Seq<Removal>) -> Seq<(Seq<char>, RemovalKind)> {
    Seq::new(removals.len(), |i: int| (removals[i].path@, removals[i].kind))
}

/// Whether a file found is a backup that was last modified before `cutoff`.
pub open spec fn is_expired_backup(candidate: BackupCandidate, cutoff: Timestamp) -> bool {
    &&& candidate.is_file
    &&& is_suffix(candidate.file_name@, ".bak"@)
    &&& candidate.modified matches Some(modified) && (modified.secs() < cutoff.secs() || (
    modified.secs() == cutoff.secs() && modified.subsec() < cutoff.subsec()))
}

/// The paths of the backups among the files found that were last modified
/// before `cutoff`, in their order.
pub open spec fn expired_paths(candidates: Seq<BackupCandidate>, cutoff: Timestamp) -> Seq<Seq<char>>
    decreases candidates.len(),
{
    if candidates.len() == 0 {
        Seq::empty()
    } else {
        let rest = expired_paths(candidates.drop_last(), cutoff);
        if is_expired_backup(candidates.last(), cutoff) {
            rest.push(candidates.last().path@)
        } else {
            rest
        }
    }
}

/// The sum of the sizes, or the largest number that fits if the sum does not.
pub open spec fn capped_sum(sizes: Seq<u64>) -> int
    decreases sizes.len(),
{
    if sizes.len() == 0 {
        0
    } else {
        let sum = capped_sum(sizes.drop_last()) + sizes.last();
        if sum > u64::MAX {
            u64::MAX as int
        } else {
            sum
        }
    }
}

impl FileOperations {
    /// Plans the backup of the file at `file_path`, of which the caller has
    /// found out whether it is present and which paths beside it are taken. A
    /// file that is not there is not copied: the backup fails with the
    /// reason `source missing`. A file that is there is to be copied to its
    /// own path followed by a dot, the stamp of `now` and `.bak`; where that
    /// path is taken, an underscore and the least counter from 1 on that
    /// makes a path that is not taken follow the stamp. So no backup is
    /// written over another.
    pub fn backup_file(file_path: &str, present: bool, now: &Timestamp, taken: &Vec<String>) -> (plan:
        BackupPlan)
        ensures
            match plan {
                BackupPlan::Copy { backup_path } => {
                    &&& present
                    &&& !texts(taken@).contains(backup_path@)
                    &&& exists|counter: nat|
                        #[trigger] is_free_backup_path(
                            texts(taken@),
                            file_path@,
                            now.secs() as i64,
                            now.subsec() as u32,
                            counter,
                            backup_path@,
                        )
                },
                BackupPlan::Skip(record) => {
                    &&& !present
                    &&& !record.success
                    &&& record.backup_path@.len() == 0
                    &&& record.original_path@ == file_path@
                    &&& record.error matches Some(reason) && reason@ == source_missing_text()
                },
            },
    {
        if !present {
            return BackupPlan::Skip(
                BackupResult::failure(file_path.to_owned(), "source missing".to_owned()),
            );
        }
        BackupPlan::Copy { backup_path: Self::free_backup_path(file_path, now, taken) }
    }

    /// The backup path to take for a file at an instant where the paths
    /// `taken` are in use: the candidate with the least counter that is not
    /// taken.
    pub fn free_backup_path(file_path: &str, now: &Timestamp, taken: &Vec<String>) -> (chosen: String)
        ensures
            !texts(taken@).contains(chosen@),
            exists|counter: nat|
                #[trigger] is_free_backup_path(
                    texts(taken@),
                    file_path@,
                    now.secs() as i64,
                    now.subsec() as u32,
                    counter,
                    chosen@,
                ),
    {
        let stamp = now.backup_stamp();
        let mut base = concat2(file_path, ".");
        base.append(stamp.as_str());
        let ghost path = file_path@;
        let ghost seconds = now.secs() as i64;
        let ghost nanos = now.subsec() as u32;
        let ghost all = texts(taken@);
        let mut remaining: Vec<String> = Vec::new();
        let mut i: usize = 0;
        while i < taken.len()
            invariant
                i <= taken.len(),
                remaining@.len() == i,
                forall|m: int| 0 <= m < i ==> (#[trigger] remaining@[m])@ == taken@[m]@,
            decreases taken.len() - i,
        {
            remaining.push(taken[i].clone());
            i += 1;
        }
        assert(texts(remaining@) =~= all);
        assert(search_state(all, texts(remaining@), path, seconds, nanos, 0)) by {
            assert forall|m: int| 0 <= m < all.len() implies texts(remaining@).contains(
                #[trigger] all[m],
            ) by {
                assert(texts(remaining@)[m] == all[m]);
            }
        }
        let mut counter: usize = 0;
        loop
            invariant
                all == texts(taken@),
                path == file_path@,
                seconds == now.secs() as i64,
                nanos == now.subsec() as u32,
                base@ == path + "."@ + backup_stamp_text(seconds, nanos),
                counter + remaining@.len() == taken@.len(),
                search_state(all, texts(remaining@), path, seconds, nanos, counter as nat),
            decreases remaining@.len(),
        {
            let mut candidate = base.clone();
            if counter > 0 {
                candidate.append("_");
                push_decimal(&mut candidate, counter as u64);
            }
            candidate.append(".bak");
            assert(candidate@ == backup_candidate(path, seconds, nanos, counter as nat));
            match index_of_text(&remaining, candidate.as_str()) {
                None => {
                    proof {
                        let rest = texts(remaining@);
                        if rest.contains(candidate@) {
                            let r = choose|r: int| 0 <= r < rest.len() && rest[r] == candidate@;
                            assert(remaining@[r]@ == candidate@);
                        }
                        lemma_candidate_is_free(all, rest, path, seconds, nanos, counter as nat);
                    }
                    return candidate;
                },
                Some(j) => {
                    let ghost before = texts(remaining@);
                    assert(before[j as int] == candidate@);
                    let _ = remaining.remove(j);
                    proof {
                        assert(texts(remaining@) =~= before.remove(j as int));
                        lemma_candidate_is_taken(
                            all,
                            before,
                            j as int,
                            path,
                            seconds,
                            nanos,
                            counter as nat,
                        );
                    }
                    assert(counter < taken.len());
                    counter += 1;
                },
            }
        }
    }

    /// The record of a planned backup once the copy was tried: a success that
    /// names the copy, or a failure with the reason `backup failed: ` and the
    /// words of the failure of the copy.
    pub fn backup_outcome(file_path: &str, backup_path: String, copied: Result<u64, String>) -> (record:
        BackupResult)
        ensures
            record.original_path@ == file_path@,
            match copied {
                Ok(_) => record.success && record.backup_path == backup_path && record.error is None,
                Err(cause) => {
                    &&& !record.success
                    &&& record.backup_path@.len() == 0
                    &&& record.error matches Some(reason) && reason@ == "backup failed: "@
                        + cause@
                },
            },
    {
        match copied {
            Ok(_) => BackupResult::success(backup_path, file_path.to_owned()),
            Err(cause) => BackupResult::failure(
                file_path.to_owned(),
                concat2("backup failed: ", cause.as_str()),
            ),
        }
    }

    /// Whether a file with the given content is a store file: it begins with
    /// the sixteen bytes of the store header.
    pub fn is_valid_sqlite_file(content: &[u8]) -> (valid: bool)
        ensures
            valid == has_store_header(content@),
    {
        if content.len() < 16 {
            return false;
        }
        let header: [u8; 16] = [83, 81, 76, 105, 116, 101, 32, 102, 111, 114, 109, 97, 116, 32, 51, 0];
        let mut i: usize = 0;
        while i < 16
            invariant
                i <= 16,
                content@.len() >= 16,
                header@ == store_header(),
                forall|k: int| 0 <= k < i ==> content@[k] == store_header()[k],
            decreases 16 - i,
        {
            if content[i] != header[i] {
                assert(content@.subrange(0, 16)[i as int] != store_header()[i as int]);
                return false;
            }
            i += 1;
        }
        assert(content@.subrange(0, 16) =~= store_header());
        true
    }

    /// The removals that clear the configuration paths: a directory is
    /// removed with all that is in it, a file alone, and a path at which
    /// nothing lies is passed over.
    pub fn clean_config_files(entries: &Vec<PathEntry>) -> (removals: Vec<Removal>)
        ensures
            removal_views(removals@) == removals_of(entries@),
    {
        let mut removals: Vec<Removal> = Vec::new();
        let mut i: usize = 0;
        while i < entries.len()
            invariant
                i <= entries.len(),
                removal_views(removals@) == removals_of(entries@.take(i as int)),
            decreases entries.len() - i,
        {
            assert(entries@.take(i + 1).drop_last() == entries@.take(i as int));
            let ghost before = removal_views(removals@);
            if entries[i].exists {
                let kind = if entries[i].is_dir {
                    RemovalKind::Directory
                } else {
                    RemovalKind::File
                };
                removals.push(Removal { path: entries[i].path.clone(), kind });
                assert(removal_views(removals@) =~= before.push((entries@[i as int].path@, kind)));
            }
            i += 1;
        }
        assert(entries@.take(i as int) == entries@);
        removals
    }

    /// The paths of the backups to remove: the regular files among those
    /// found whose name ends in `.bak` and that were last modified more than
    /// `retention_days` days before `now`.
    pub fn cleanup_old_backups(
        candidates: &Vec<BackupCandidate>,
        now: &Timestamp,
        retention_days: u32,
    ) -> (expired: Vec<String>)
        ensures
            texts(expired@) == expired_paths(
                candidates@,
                now.minus_days_spec(retention_days),
            ),
    {
        let cutoff = now.minus_days(retention_days);
        let mut expired: Vec<String> = Vec::new();
        let mut i: usize = 0;
        while i < candidates.len()
            invariant
                i <= candidates.len(),
                cutoff == now.minus_days_spec(retention_days),
                texts(expired@) == expired_paths(
                    candidates@.take(i as int),
                    cutoff,
                ),
            decreases candidates.len() - i,
        {
            assert(candidates@.take(i + 1).drop_last() == candidates@.take(i as int));
            let ghost before = texts(expired@);
            let candidate = &candidates[i];
            let old_enough = match &candidate.modified {
                Some(modified) => modified.is_before(&cutoff),
                None => false,
            };
            if candidate.is_file && old_enough && ends_with_text(
                candidate.file_name.as_str(),
                ".bak",
            ) {
                expired.push(candidate.path.clone());
                assert(texts(expired@) =~= before.push(candidate.path@));
            }
            i += 1;
        }
        assert(candidates@.take(i as int) == candidates@);
        expired
    }

    /// The size of a directory, given the sizes of the files in it: their
    /// sum, or the largest number that fits if the sum does not.
    pub fn calculate_dir_size(file_sizes: &Vec<u64>) -> (total: u64)
        ensures
            total == capped_sum(file_sizes@),
    {
        let mut total: u64 = 0;
        let mut i: usize = 0;
        while i < file_sizes.len()
            invariant
                i <= file_sizes.len(),
                total == capped_sum(file_sizes@.take(i as int)),
            decreases file_sizes.len() - i,
        {
            assert(file_sizes@.take(i + 1).drop_last() == file_sizes@.take(i as int));
            total = total.saturating_add(file_sizes[i]);
            i += 1;
        }
        assert(file_sizes@.take(i as int) == file_sizes@);
        total
    }
}

} // verus!
