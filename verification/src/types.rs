//! Plain data shared by the whole library: editors, targets, options and the
//! records that report what was done to a target.

use crate::clock::Timestamp;
use vstd::prelude::*;

verus! {

/// The editors whose state the engine knows how to sanitize.
#[derive(Debug, Clone, Copy, PartialEq, Eq, Hash, Structural)]
pub enum EditorType {
    VSCode,
    Cursor,
    JetBrains,
    Void,
}

impl EditorType {
    /// The name under which the editor is shown.
    pub open spec fn name(self) -> Seq<char> {
        match self {
            EditorType::VSCode => "VS Code"@,
            EditorType::Cursor => "Cursor"@,
            EditorType::JetBrains => "JetBrains"@,
            EditorType::Void => "Void"@,
        }
    }

    /// The name under which the editor is shown.
    pub fn display_name(&self) -> (name: &'static str)
        ensures
            name@ == self.name(),
    {
        match self {
            EditorType::VSCode => "VS Code",
            EditorType::Cursor => "Cursor",
            EditorType::JetBrains => "JetBrains",
            EditorType::Void => "Void",
        }
    }

    /// The name under which the editor is shown, as an owned string.
    pub fn to_string(&self) -> (name: String)
        ensures
            name@ == self.name(),
    {
        self.display_name().to_owned()
    }
}

/// A store file of one editor: where it lies and whether it was found there.
#[derive(Debug, Clone)]
pub struct DatabasePath {
    pub editor_type: EditorType,
    pub path: String,
    pub exists: bool,
}

impl DatabasePath {
    /// The target at `path`, of which the caller has found out whether it exists.
    pub fn new(editor_type: EditorType, path: String, exists: bool) -> (target: DatabasePath)
        ensures
            target.editor_type == editor_type,
            target.path == path,
            target.exists == exists,
    {
        DatabasePath { editor_type, path, exists }
    }
}

/// What became of one store target.
#[derive(Debug, Clone)]
pub struct DatabaseCleanResult {
    pub success: bool,
    pub db_path: String,
    pub backup_path: Option<String>,
    pub deleted_records: u32,
    pub error: Option<String>,
    pub timestamp: Timestamp,
    pub editor_type: String,
}

impl DatabaseCleanResult {
    /// The record of a scrub that went through, stamped with the current time.
    pub fn success(
        db_path: String,
        backup_path: Option<String>,
        deleted_records: u32,
        editor_type: EditorType,
    ) -> (result: DatabaseCleanResult)
        ensures
            result.success,
            result.db_path == db_path,
            result.backup_path == backup_path,
            result.deleted_records == deleted_records,
            result.error is None,
            result.editor_type@ == editor_type.name(),
    {
        DatabaseCleanResult {
            success: true,
            db_path,
            backup_path,
            deleted_records,
            error: None,
            timestamp: Timestamp::now(),
            editor_type: editor_type.to_string(),
        }
    }

    /// The record of a scrub that failed, stamped with the current time. It
    /// names no backup and counts no removed row.
    pub fn failure(db_path: String, error: String, editor_type: EditorType) -> (result:
        DatabaseCleanResult)
        ensures
            !result.success,
            result.db_path == db_path,
            result.backup_path is None,
            result.deleted_records == 0,
            result.error == Some(error),
            result.editor_type@ == editor_type.name(),
    {
        DatabaseCleanResult {
            success: false,
            db_path,
            backup_path: None,
            deleted_records: 0,
            error: Some(error),
            timestamp: Timestamp::now(),
            editor_type: editor_type.to_string(),
        }
    }
}

/// Which editors to sanitize, and how.
#[derive(Debug, Clone, Copy, PartialEq, Eq, Structural)]
pub struct CleanOptions {
    pub clean_vscode: bool,
    pub clean_cursor: bool,
    pub clean_jetbrains: bool,
    pub clean_void: bool,
    pub interactive: bool,
    pub backup: bool,
    pub force: bool,
    pub verbose: bool,
}

impl Default for CleanOptions {
    /// Every editor, interactively, with backups, without force or detail.
    fn default() -> (options: CleanOptions)
        ensures
            options == (CleanOptions {
                clean_vscode: true,
                clean_cursor: true,
                clean_jetbrains: true,
                clean_void: true,
                interactive: true,
                backup: true,
                force: false,
                verbose: false,
            }),
    {
        CleanOptions {
            clean_vscode: true,
            clean_cursor: true,
            clean_jetbrains: true,
            clean_void: true,
            interactive: true,
            backup: true,
            force: false,
            verbose: false,
        }
    }
}

impl CleanOptions {
    /// The editors that the options select, in the order VS Code, Cursor,
    /// JetBrains, Void.
    pub open spec fn selected(self) -> Seq<EditorType> {
        (if self.clean_vscode {
            seq![EditorType::VSCode]
        } else {
            seq![]
        }) + (if self.clean_cursor {
            seq![EditorType::Cursor]
        } else {
            seq![]
        }) + (if self.clean_jetbrains {
            seq![EditorType::JetBrains]
        } else {
            seq![]
        }) + (if self.clean_void {
            seq![EditorType::Void]
        } else {
            seq![]
        })
    }

    /// Whether at least one editor is selected.
    pub fn has_any_editor_selected(&self) -> (any: bool)
        ensures
            any == (self.clean_vscode || self.clean_cursor || self.clean_jetbrains
                || self.clean_void),
    {
        self.clean_vscode || self.clean_cursor || self.clean_jetbrains || self.clean_void
    }

    /// The editors that the options select, in the order VS Code, Cursor,
    /// JetBrains, Void.
    pub fn get_selected_editors(&self) -> (editors: Vec<EditorType>)
        ensures
            editors@ == self.selected(),
    {
        let mut editors: Vec<EditorType> = Vec::new();
        if self.clean_vscode {
            editors.push(EditorType::VSCode);
        }
        if self.clean_cursor {
            editors.push(EditorType::Cursor);
        }
        if self.clean_jetbrains {
            editors.push(EditorType::JetBrains);
        }
        if self.clean_void {
            editors.push(EditorType::Void);
        }
        assert(editors@ =~= self.selected());
        editors
    }
}

/// What became of the attempt to copy a file aside before it is changed.
#[derive(Debug, Clone)]
pub struct BackupResult {
    pub success: bool,
    pub backup_path: String,
    pub original_path: String,
    pub timestamp: Timestamp,
    pub error: Option<String>,
}

impl BackupResult {
    /// The record of a copy that was made, stamped with the current time.
    pub fn success(backup_path: String, original_path: String) -> (result: BackupResult)
        ensures
            result.success,
            result.backup_path == backup_path,
            result.original_path == original_path,
            result.error is None,
    {
        BackupResult {
            success: true,
            backup_path,
            original_path,
            timestamp: Timestamp::now(),
            error: None,
        }
    }

    /// The record of a copy that could not be made, stamped with the current
    /// time. It names no backup.
    pub fn failure(original_path: String, error: String) -> (result: BackupResult)
        ensures
            !result.success,
            result.backup_path@.len() == 0,
            result.original_path == original_path,
            result.error == Some(error),
    {
        BackupResult {
            success: false,
            backup_path: String::new(),
            original_path,
            timestamp: Timestamp::now(),
            error: Some(error),
        }
    }
}

/// The outcome of an operation that yields a value of type `T` when it succeeds.
#[derive(Debug, Clone)]
pub struct OperationResult<T> {
    pub success: bool,
    pub data: Option<T>,
    pub error: Option<String>,
    pub timestamp: Timestamp,
}

impl<T> OperationResult<T> {
    /// The outcome of an operation that yielded `data`, stamped with the current time.
    pub fn success(data: T) -> (result: OperationResult<T>)
        ensures
            result.success,
            result.data == Some(data),
            result.error is None,
    {
        OperationResult { success: true, data: Some(data), error: None, timestamp: Timestamp::now() }
    }

    /// The outcome of an operation that failed, stamped with the current time.
    pub fn failure(error: String) -> (result: OperationResult<T>)
        ensures
            !result.success,
            result.data is None,
            result.error == Some(error),
    {
        OperationResult { success: false, data: None, error: Some(error), timestamp: Timestamp::now() }
    }
}

/// Settings of the application as a whole.
#[derive(Debug, Clone)]
pub struct AppConfig {
    pub version: String,
    pub backup_retention_days: u32,
    pub editor_close_wait_ms: u64,
    pub log_file: String,
}

impl Default for AppConfig {
    /// Version 2.2.0, backups kept for 30 days, two seconds for an editor to
    /// close, and the log in `augment_reset.log`.
    fn default() -> (config: AppConfig)
        ensures
            config.version@ == "2.2.0"@,
            config.backup_retention_days == 30,
            config.editor_close_wait_ms == 2000,
            config.log_file@ == "augment_reset.log"@,
    {
        AppConfig {
            version: "2.2.0".to_owned(),
            backup_retention_days: 30,
            editor_close_wait_ms: 2000,
            log_file: "augment_reset.log".to_owned(),
        }
    }
}

} // verus!
