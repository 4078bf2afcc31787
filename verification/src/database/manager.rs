//! The steps taken for one store target, and what is made of what was read
//! from a store.

use crate::config::{
    cursor_config_tree, generic_config_tree, vscode_config_tree, ConfigGenerator, PlatformInfo,
};
use crate::database::scheduler::{CleanScheduler, MAX_CONCURRENT_DATABASES};
use crate::database::scrub::{advance, next_step, ScrubPhase, ScrubReport, ScrubStep, StoreReply};
use crate::error::AugmentError;
use crate::idgen::{AugmentConfig, IdGenerator};
use crate::json::JsonValue;
use crate::filesystem::operations::{has_store_header, FileOperations};
use crate::text::{concat2, decimal_digits, push_decimal};
use crate::types::{BackupResult, DatabaseCleanResult, DatabasePath, EditorType};
use vstd::prelude::*;
use vstd::string::*;

verus! {

/// The decisions about store targets.
pub struct DatabaseManager;

/// Counts read from a store, and the size of its file.
#[derive(Debug, Clone, Copy, PartialEq, Eq, Structural, Default)]
pub struct DatabaseStats {
    pub total_records: u32,
    pub augment_records: u32,
    pub file_size: u64,
}

/// A configuration document to write beside a store: what it is called in
/// reports, the name of its file, and what it says.
#[derive(Debug)]
pub struct GeneratedConfig {
    pub label: String,
    pub file_name: String,
    pub document: JsonValue,
}

/// The name of the file that holds the fresh configuration of an editor,
/// beside its store.
pub open spec fn config_file_name() -> Seq<char> {
    "augment_config.json"@
}

/// Whether `generated` is the configuration that `identity` gives to the
/// editor, made on the machine given: the editors with a store get their own
/// settings, Void the generic document, and the JetBrains IDEs,
/// which keeps no store, gets none.
pub open spec fn is_config_for(
    generated: Option<GeneratedConfig>,
    editor: EditorType,
    identity: AugmentConfig,
    platform: PlatformInfo,
) -> bool {
    match editor {
        EditorType::VSCode => generated matches Some(g) && g.label@ == "VSCode Augment Config"@
            && g.file_name@ == config_file_name() && g.document@ == vscode_config_tree(identity),
        EditorType::Cursor => generated matches Some(g) && g.label@ == "Cursor Augment Config"@
            && g.file_name@ == config_file_name() && g.document@ == cursor_config_tree(identity),
        EditorType::Void => generated matches Some(g) && g.label@ == "Void Augment Config"@
            && g.file_name@ == config_file_name() && g.document@ == generic_config_tree(
            identity,
            platform.os@,
            platform.arch@,
        ),
        EditorType::JetBrains => generated is None,
    }
}

/// Work on a target that the caller carries out.
#[derive(Debug, Clone, Copy, PartialEq, Eq, Structural)]
pub enum CleanCommand {
    /// Read the content of the file.
    ReadFile,
    /// Back the file up.
    Backup,
    /// Scrub the store.
    Scrub,
    /// Write fresh configuration files beside the store.
    GenerateConfigs,
}

/// What came of the work on a target.
#[derive(Debug)]
pub enum CleanEvent {
    /// The content of the file, or nothing if it could not be read.
    FileRead(Option<Vec<u8>>),
    /// The record of the backup.
    BackedUp(BackupResult),
    /// The report of the scrub, or why it failed.
    Scrubbed(Result<ScrubReport, AugmentError>),
    /// The configuration files were written, or not; it makes no difference
    /// to the target.
    ConfigsGenerated,
}

/// Where the work on a target stands: which event it waits for.
#[derive(Debug)]
pub enum CleanPhase {
    ReadingFile,
    BackingUp,
    Scrubbing { backup_path: Option<String> },
    GeneratingConfigs { result: DatabaseCleanResult },
}

/// What to do next for a target.
#[derive(Debug)]
pub enum CleanStep {
    /// Carry out the command and come back with its event, in the phase given.
    Issue(CleanCommand, CleanPhase),
    /// The work on the target has ended with the result given.
    Finish(DatabaseCleanResult),
}

/// The reason recorded for a target whose file is not there.
pub open spec fn missing_file_text() -> Seq<char> {
    "database file does not exist"@
}

/// The reason recorded for a target whose file does not begin as a store does.
pub open spec fn invalid_file_text() -> Seq<char> {
    "not a valid store file"@
}

/// The reason recorded for an event that does not belong to the phase.
pub open spec fn unexpected_event_text() -> Seq<char> {
    "the event does not belong to this step"@
}

/// The warning recorded when rows with the mark were still counted after
/// the deletion.
pub open spec fn incomplete_text(remaining: u32) -> Seq<char> {
    "deletion may be incomplete: "@ + decimal_digits(remaining as nat) + " matching rows remain"@
}

/// Whether `result` records that the work on `target` failed for `reason`:
/// no backup is named and no row counted.
pub open spec fn is_failure_of(result: DatabaseCleanResult, target: DatabasePath, reason: Seq<char>) -> bool {
    &&& !result.success
    &&& result.db_path@ == target.path@
    &&& result.backup_path is None
    &&& result.deleted_records == 0
    &&& result.error matches Some(text) && text@ == reason
    &&& result.editor_type@ == target.editor_type.name()
}

/// Whether `result` records that the scrub of `target` went through with
/// `report`, after a backup at `backup_path` or none: the rows removed are
/// those of the report, and rows that remained are recorded as a warning.
pub open spec fn is_success_of(
    result: DatabaseCleanResult,
    target: DatabasePath,
    backup_path: Option<String>,
    report: ScrubReport,
) -> bool {
    &&& result.success
    &&& result.db_path@ == target.path@
    &&& result.backup_path == backup_path
    &&& result.deleted_records == report.removed
    &&& if report.remaining == 0 {
        result.error is None
    } else {
        result.error matches Some(text) && text@ == incomplete_text(report.remaining)
    }
    &&& result.editor_type@ == target.editor_type.name()
}

impl DatabaseManager {
    /// The first step for a target. A target whose file is not there fails at
    /// once, with the reason `database file does not exist`; of any other the
    /// file is read.
    pub fn start_clean(db_path: &DatabasePath) -> (step: CleanStep)
        ensures
            match step {
                CleanStep::Issue(command, phase) => db_path.exists && command
                    == CleanCommand::ReadFile && phase is ReadingFile,
                CleanStep::Finish(result) => !db_path.exists && is_failure_of(
                    result,
                    *db_path,
                    missing_file_text(),
                ),
            },
    {
        if !db_path.exists {
            return CleanStep::Finish(
                DatabaseCleanResult::failure(
                    db_path.path.clone(),
                    "database file does not exist".to_owned(),
                    db_path.editor_type,
                ),
            );
        }
        CleanStep::Issue(CleanCommand::ReadFile, CleanPhase::ReadingFile)
    }

    /// The step that follows an event on a target.
    ///
    /// A file that could not be read or does not begin as a store does ends
    /// the work with the reason `not a valid store file`, before any backup
    /// or scrub. Otherwise the file is backed up, and then scrubbed whether
    /// or not the backup was made; the result names the backup only if it
    /// was. A scrub that removed rows is followed by fresh configuration
    /// files, whose outcome does not change the result. A scrub that failed
    /// ends the work with the message of the failure.
    pub fn clean_database(db_path: &DatabasePath, phase: CleanPhase, event: CleanEvent) -> (step:
        CleanStep)
        ensures
            Self::follows(*db_path, phase, event, step),
    {
        match phase {
            CleanPhase::ReadingFile => match event {
                CleanEvent::FileRead(content) => {
                    let valid = match &content {
                        Some(bytes) => FileOperations::is_valid_sqlite_file(bytes.as_slice()),
                        None => false,
                    };
                    if valid {
                        CleanStep::Issue(CleanCommand::Backup, CleanPhase::BackingUp)
                    } else {
                        CleanStep::Finish(
                            DatabaseCleanResult::failure(
                                db_path.path.clone(),
                                "not a valid store file".to_owned(),
                                db_path.editor_type,
                            ),
                        )
                    }
                },
                _ => Self::unexpected(db_path),
            },
            CleanPhase::BackingUp => match event {
                CleanEvent::BackedUp(record) => {
                    let backup_path = if record.success {
                        Some(record.backup_path)
                    } else {
                        None
                    };
                    CleanStep::Issue(CleanCommand::Scrub, CleanPhase::Scrubbing { backup_path })
                },
                _ => Self::unexpected(db_path),
            },
            CleanPhase::Scrubbing { backup_path } => match event {
                CleanEvent::Scrubbed(Ok(report)) => {
                    let mut result = DatabaseCleanResult::success(
                        db_path.path.clone(),
                        backup_path,
                        report.removed,
                        db_path.editor_type,
                    );
                    if report.remaining > 0 {
                        let mut warning = "deletion may be incomplete: ".to_owned();
                        push_decimal(&mut warning, report.remaining as u64);
                        warning.append(" matching rows remain");
                        result.error = Some(warning);
                    }
                    if report.removed > 0 {
                        CleanStep::Issue(
                            CleanCommand::GenerateConfigs,
                            CleanPhase::GeneratingConfigs { result },
                        )
                    } else {
                        CleanStep::Finish(result)
                    }
                },
                CleanEvent::Scrubbed(Err(error)) => CleanStep::Finish(
                    DatabaseCleanResult::failure(
                        db_path.path.clone(),
                        error.message(),
                        db_path.editor_type,
                    ),
                ),
                _ => Self::unexpected(db_path),
            },
            CleanPhase::GeneratingConfigs { result } => match event {
                CleanEvent::ConfigsGenerated => CleanStep::Finish(result),
                _ => Self::unexpected(db_path),
            },
        }
    }

    /// Whether `step` is the step that follows `event` in `phase` for `target`.
    pub open spec fn follows(target: DatabasePath, phase: CleanPhase, event: CleanEvent, step: CleanStep) -> bool {
        match (phase, event) {
            (CleanPhase::ReadingFile, CleanEvent::FileRead(content)) => if content matches Some(
                bytes,
            ) && has_store_header(bytes@) {
                step matches CleanStep::Issue(CleanCommand::Backup, CleanPhase::BackingUp)
            } else {
                step matches CleanStep::Finish(result) && is_failure_of(
                    result,
                    target,
                    invalid_file_text(),
                )
            },
            (CleanPhase::BackingUp, CleanEvent::BackedUp(record)) => step matches CleanStep::Issue(
                CleanCommand::Scrub,
                CleanPhase::Scrubbing { backup_path },
            ) && backup_path == if record.success {
                Some(record.backup_path)
            } else {
                None
            },
            (CleanPhase::Scrubbing { backup_path }, CleanEvent::Scrubbed(Ok(report))) => if report.removed
                > 0 {
                step matches CleanStep::Issue(
                    CleanCommand::GenerateConfigs,
                    CleanPhase::GeneratingConfigs { result },
                ) && is_success_of(result, target, backup_path, report)
            } else {
                step matches CleanStep::Finish(result) && is_success_of(
                    result,
                    target,
                    backup_path,
                    report,
                )
            },
            (CleanPhase::Scrubbing { .. }, CleanEvent::Scrubbed(Err(error))) => step matches CleanStep::Finish(
                result,
            ) && is_failure_of(result, target, error.message_text()),
            (
                CleanPhase::GeneratingConfigs { result },
                CleanEvent::ConfigsGenerated,
            ) => step matches CleanStep::Finish(end) && end == result,
            _ => step matches CleanStep::Finish(result) && is_failure_of(
                result,
                target,
                unexpected_event_text(),
            ),
        }
    }

    /// A backup is planned before any scrub, and a scrub is only ever issued
    /// in answer to the record of a backup: nothing is changed in a store of
    /// which no backup was tried, and nothing at all in a file that is not a
    /// store.
    pub proof fn lemma_backup_precedes_scrub(
        target: DatabasePath,
        phase: CleanPhase,
        event: CleanEvent,
        step: CleanStep,
    )
        requires
            Self::follows(target, phase, event, step),
        ensures
            step matches CleanStep::Issue(CleanCommand::Scrub, _) ==> phase is BackingUp
                && event is BackedUp,
            step matches CleanStep::Issue(CleanCommand::Backup, _) ==> (event matches CleanEvent::FileRead(
                Some(bytes),
            ) && has_store_header(bytes@)),
            (phase is ReadingFile && (event matches CleanEvent::FileRead(content) && !(
            content matches Some(bytes) && has_store_header(bytes@)))) ==> step is Finish,
    {
    }

    /// The step taken for an event that does not belong to the phase.
    fn unexpected(db_path: &DatabasePath) -> (step: CleanStep)
        ensures
            step matches CleanStep::Finish(result) && is_failure_of(
                result,
                *db_path,
                unexpected_event_text(),
            ),
    {
        CleanStep::Finish(
            DatabaseCleanResult::failure(
                db_path.path.clone(),
                "the event does not belong to this step".to_owned(),
                db_path.editor_type,
            ),
        )
    }

    /// Whether the table looked for exists, given the names that the look-up
    /// found or the failure to read them: it exists if a name was found.
    pub fn check_table_exists(names: &Result<Vec<String>, String>) -> (exists: bool)
        ensures
            exists == (names matches Ok(found) && found@.len() > 0),
    {
        match names {
            Ok(found) => found.len() > 0,
            Err(_) => false,
        }
    }

    /// The statistics of a target: all zero for a file that is not there;
    /// else the size of the file, and the counts read from the table of
    /// items, or zero counts for a store without the table.
    pub fn get_database_stats(db_path: &DatabasePath, counts: Option<(u32, u32)>, file_size: u64) -> (stats:
        DatabaseStats)
        ensures
            stats == if !db_path.exists {
                DatabaseStats { total_records: 0, augment_records: 0, file_size: 0 }
            } else {
                match counts {
                    Some((total, marked)) => DatabaseStats {
                        total_records: total,
                        augment_records: marked,
                        file_size,
                    },
                    None => DatabaseStats { total_records: 0, augment_records: 0, file_size },
                }
            },
    {
        if !db_path.exists {
            return DatabaseStats { total_records: 0, augment_records: 0, file_size: 0 };
        }
        match counts {
            Some((total, marked)) => DatabaseStats {
                total_records: total,
                augment_records: marked,
                file_size,
            },
            None => DatabaseStats { total_records: 0, augment_records: 0, file_size },
        }
    }

    /// The configuration that `identity` gives to the editor of the target,
    /// made on the machine given, to be written beside the store.
    pub fn configs_for(db_path: &DatabasePath, identity: &AugmentConfig, platform: &PlatformInfo) -> (outcome:
        Result<Option<GeneratedConfig>, AugmentError>)
        ensures
            outcome matches Ok(generated) && is_config_for(
                generated,
                db_path.editor_type,
                *identity,
                *platform,
            ),
    {
        let (label, made) = match db_path.editor_type {
            EditorType::VSCode => ("VSCode Augment Config", ConfigGenerator::create_vscode_config(identity)),
            EditorType::Cursor => ("Cursor Augment Config", ConfigGenerator::create_cursor_config(identity)),
            EditorType::Void => (
                "Void Augment Config",
                ConfigGenerator::create_generic_config(identity, platform),
            ),
            EditorType::JetBrains => {
                return Ok(None);
            },
        };
        match made {
            Ok(document) => Ok(
                Some(
                    GeneratedConfig {
                        label: label.to_owned(),
                        file_name: "augment_config.json".to_owned(),
                        document,
                    },
                ),
            ),
            Err(error) => Err(error),
        }
    }

    /// The configuration that a fresh identity gives to the editor of the
    /// target, made on the machine given, to be written beside the store.
    pub fn generate_new_configs(db_path: &DatabasePath, platform: &PlatformInfo) -> (outcome: Result<
        Option<GeneratedConfig>,
        AugmentError,
    >)
        ensures
            outcome matches Ok(generated) && exists|identity: AugmentConfig|
                IdGenerator::is_fresh_identity(identity) && is_config_for(
                    generated,
                    db_path.editor_type,
                    identity,
                    *platform,
                ),
    {
        match IdGenerator::generate_account_config() {
            Ok(identity) => Self::configs_for(db_path, &identity, platform),
            Err(error) => Err(error),
        }
    }

    /// The step of the scrub of a store that follows a reply: the protocol
    /// opens the store, switches off the enforcement of foreign keys, looks
    /// for the table of items and ends without a transaction if there is
    /// none; else it counts the rows with the mark inside a transaction,
    /// deletes them if there are any, counts again, and commits. A failed
    /// command ends the scrub before anything is committed.
    pub fn cleanup_database_sync(phase: ScrubPhase, reply: StoreReply) -> (step: ScrubStep)
        ensures
            step == next_step(phase, reply),
    {
        advance(phase, reply)
    }

    /// The failure recorded when the task that scrubs a store broke down.
    pub fn perform_database_cleanup(breakdown: &str) -> (error: AugmentError)
        ensures
            error matches AugmentError::Internal { message } && message@ == "数据库操作任务失败: "@
                + breakdown@,
    {
        AugmentError::Internal { message: concat2("数据库操作任务失败: ", breakdown) }
    }

    /// The run over `total` targets, of which at most three are worked on at
    /// once.
    pub fn clean_all_databases(total: usize) -> (scheduler: CleanScheduler)
        ensures
            scheduler.limit_of() == MAX_CONCURRENT_DATABASES,
            scheduler.total_of() == total,
            scheduler.started_of() == 0,
            scheduler.running_of() == 0,
            scheduler.results_of().len() == 0,
            scheduler.is_bounded(),
    {
        match CleanScheduler::new(total, MAX_CONCURRENT_DATABASES) {
            Some(scheduler) => scheduler,
            None => CleanScheduler::idle(),
        }
    }
}

} // verus!
