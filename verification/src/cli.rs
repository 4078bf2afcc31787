//! The options of the command line and what they amount to. Reading the
//! command line itself is left to the program.

use crate::types::{CleanOptions, EditorType};
use vstd::prelude::*;

verus! {

/// The options given on the command line.
#[derive(Debug, Clone)]
pub struct Cli {
    /// The subcommand, if one was given.
    pub command: Option<Commands>,
    /// Sanitize VS Code only.
    pub vscode: bool,
    /// Sanitize Cursor only.
    pub cursor: bool,
    /// Sanitize the JetBrains IDEs only.
    pub jetbrains: bool,
    /// Sanitize Void only.
    pub void: bool,
    /// Ask nothing.
    pub no_interactive: bool,
    /// Make no backups.
    pub no_backup: bool,
    /// Go on without confirmation.
    pub force: bool,
    /// Say more.
    pub verbose: bool,
    /// Say as little as possible.
    pub quiet: bool,
}

/// The subcommands.
#[derive(Debug, Clone)]
pub enum Commands {
    /// Sanitize; `dry_run` only shows what would be done.
    Clean { force: bool, dry_run: bool },
    /// Show the version.
    Version,
    /// Show the configuration.
    Config,
    /// Show statistics.
    Stats { detailed: bool },
    /// Remove backups older than `days` days under `path`.
    CleanBackups { days: u32, path: Option<String> },
    /// Replace the identifiers that Cursor keeps in its configuration files.
    ResetCursor,
}

/// How much is logged.
#[derive(Debug, Clone, Copy, PartialEq, Eq, Structural)]
pub enum LogLevel {
    Error,
    Info,
    Debug,
}

/// Why a combination of options is refused.
pub open spec fn conflict_text() -> Seq<char> {
    "--quiet 和 --verbose 选项不能同时使用"@
}

/// Why the lack of a way to go on is refused.
pub open spec fn no_way_on_text() -> Seq<char> {
    "禁用交互模式时必须使用 --force 选项或指定具体命令"@
}

impl Cli {
    /// The names of the editors that the options name, in the order of the
    /// options.
    pub open spec fn selected_names(self) -> Seq<Seq<char>> {
        (if self.vscode {
            seq!["VS Code"@]
        } else {
            seq![]
        }) + (if self.cursor {
            seq!["Cursor"@]
        } else {
            seq![]
        }) + (if self.jetbrains {
            seq!["JetBrains"@]
        } else {
            seq![]
        }) + (if self.void {
            seq!["Void"@]
        } else {
            seq![]
        })
    }

    /// Whether an editor is named.
    pub fn has_specific_editors(&self) -> (any: bool)
        ensures
            any == (self.vscode || self.cursor || self.jetbrains || self.void),
    {
        self.vscode || self.cursor || self.jetbrains || self.void
    }

    /// The names of the editors that the options name, in the order of the
    /// options.
    pub fn get_selected_editors(&self) -> (editors: Vec<&'static str>)
        ensures
            editors@.len() == self.selected_names().len(),
            forall|i: int| 0 <= i < editors@.len() ==> editors@[i]@ == self.selected_names()[i],
    {
        let mut editors: Vec<&'static str> = Vec::new();
        if self.vscode {
            editors.push("VS Code");
        }
        if self.cursor {
            editors.push("Cursor");
        }
        if self.jetbrains {
            editors.push("JetBrains");
        }
        if self.void {
            editors.push("Void");
        }
        editors
    }

    /// Whether questions are asked: not if that was switched off, nor with
    /// force, nor when little is to be said.
    pub fn is_interactive(&self) -> (interactive: bool)
        ensures
            interactive == (!self.no_interactive && !self.force && !self.quiet),
    {
        !self.no_interactive && !self.force && !self.quiet
    }

    /// Whether backups are made.
    pub fn is_backup_enabled(&self) -> (enabled: bool)
        ensures
            enabled == !self.no_backup,
    {
        !self.no_backup
    }

    /// How much is logged: failures only when little is to be said, else
    /// everything when more is to be said, else what is of note.
    pub fn get_log_level(&self) -> (level: LogLevel)
        ensures
            level == if self.quiet {
                LogLevel::Error
            } else if self.verbose {
                LogLevel::Debug
            } else {
                LogLevel::Info
            },
    {
        if self.quiet {
            LogLevel::Error
        } else if self.verbose {
            LogLevel::Debug
        } else {
            LogLevel::Info
        }
    }

    /// Refuses options that cannot go together: saying little and saying
    /// more; and asking nothing without force or a subcommand.
    pub fn validate(&self) -> (outcome: Result<(), String>)
        ensures
            match outcome {
                Ok(_) => !(self.quiet && self.verbose) && !(self.no_interactive && !self.force
                    && self.command is None),
                Err(reason) => if self.quiet && self.verbose {
                    reason@ == conflict_text()
                } else {
                    self.no_interactive && !self.force && self.command is None && reason@
                        == no_way_on_text()
                },
            },
    {
        if self.quiet && self.verbose {
            return Err("--quiet 和 --verbose 选项不能同时使用".to_owned());
        }
        if self.no_interactive && !self.force && self.command.is_none() {
            return Err("禁用交互模式时必须使用 --force 选项或指定具体命令".to_owned());
        }
        Ok(())
    }

    /// The options for a run: the editors named, or all of them if none is
    /// named; questions only if they are asked and there is no force.
    pub fn build_clean_options(&self, force: bool) -> (options: CleanOptions)
        ensures
            options == (CleanOptions {
                clean_vscode: self.vscode || !(self.vscode || self.cursor || self.jetbrains
                    || self.void),
                clean_cursor: self.cursor || !(self.vscode || self.cursor || self.jetbrains
                    || self.void),
                clean_jetbrains: self.jetbrains || !(self.vscode || self.cursor || self.jetbrains
                    || self.void),
                clean_void: self.void || !(self.vscode || self.cursor || self.jetbrains
                    || self.void),
                interactive: (!self.no_interactive && !self.force && !self.quiet) && !force,
                backup: !self.no_backup,
                force,
                verbose: self.verbose,
            }),
    {
        let all = !self.has_specific_editors();
        CleanOptions {
            clean_vscode: self.vscode || all,
            clean_cursor: self.cursor || all,
            clean_jetbrains: self.jetbrains || all,
            clean_void: self.void || all,
            interactive: self.is_interactive() && !force,
            backup: self.is_backup_enabled(),
            force,
            verbose: self.verbose,
        }
    }
}

/// How thoroughly to sanitize.
#[derive(Debug, Clone, Copy, PartialEq, Eq, Structural)]
pub enum CleanupMode {
    /// The rows of the stores only.
    Quick,
    /// The rows of the stores and the configuration files.
    Complete,
    /// Everything, caches included.
    Deep,
}

/// What to do with backups.
#[derive(Debug, Clone, Copy, PartialEq, Eq, Structural)]
pub enum BackupAction {
    List,
    Cleanup,
    Restore,
    Back,
}

/// What the menus amount to. Showing them is left to the program.
pub struct InteractiveMenu;

/// The editor that stands at a place of the list of editors, if the place
/// holds one: VS Code, Cursor, Void and the JetBrains IDEs.
pub open spec fn editor_at(index: int) -> Option<EditorType> {
    if index == 0 {
        Some(EditorType::VSCode)
    } else if index == 1 {
        Some(EditorType::Cursor)
    } else if index == 2 {
        Some(EditorType::Void)
    } else if index == 3 {
        Some(EditorType::JetBrains)
    } else {
        None
    }
}

/// The editors at the places chosen, in the order of the choice.
pub open spec fn editors_chosen(selections: Seq<usize>) -> Seq<EditorType>
    decreases selections.len(),
{
    if selections.len() == 0 {
        Seq::empty()
    } else {
        match editor_at(selections.last() as int) {
            Some(editor) => editors_chosen(selections.drop_last()).push(editor),
            None => editors_chosen(selections.drop_last()),
        }
    }
}

impl InteractiveMenu {
    /// The mode at a place of the list of modes; the quick one for a place
    /// that holds none.
    pub fn select_cleanup_mode(selection: usize) -> (mode: CleanupMode)
        ensures
            mode == if selection == 1 {
                CleanupMode::Complete
            } else if selection == 2 {
                CleanupMode::Deep
            } else {
                CleanupMode::Quick
            },
    {
        match selection {
            1 => CleanupMode::Complete,
            2 => CleanupMode::Deep,
            _ => CleanupMode::Quick,
        }
    }

    /// The action at a place of the list of actions; going back for a place
    /// that holds none.
    pub fn show_backup_menu(selection: usize) -> (action: BackupAction)
        ensures
            action == if selection == 0 {
                BackupAction::List
            } else if selection == 1 {
                BackupAction::Cleanup
            } else if selection == 2 {
                BackupAction::Restore
            } else {
                BackupAction::Back
            },
    {
        match selection {
            0 => BackupAction::List,
            1 => BackupAction::Cleanup,
            2 => BackupAction::Restore,
            _ => BackupAction::Back,
        }
    }

    /// The editors chosen from the list of editors, whose fifth place means
    /// to go back to the menu: nothing if that place was chosen, else the
    /// editors at the places chosen, in the order of the choice.
    pub fn select_editors(selections: &Vec<usize>) -> (chosen: Option<Vec<EditorType>>)
        ensures
            match chosen {
                Some(editors) => !selections@.contains(4) && editors@ == editors_chosen(
                    selections@,
                ),
                None => selections@.contains(4),
            },
    {
        let mut editors: Vec<EditorType> = Vec::new();
        let mut i: usize = 0;
        while i < selections.len()
            invariant
                i <= selections.len(),
                !selections@.take(i as int).contains(4),
                editors@ == editors_chosen(selections@.take(i as int)),
            decreases selections.len() - i,
        {
            assert(selections@.take(i + 1).drop_last() == selections@.take(i as int));
            let place = selections[i];
            if place == 4 {
                assert(selections@[i as int] == 4);
                return None;
            }
            if place == 0 {
                editors.push(EditorType::VSCode);
            } else if place == 1 {
                editors.push(EditorType::Cursor);
            } else if place == 2 {
                editors.push(EditorType::Void);
            } else if place == 3 {
                editors.push(EditorType::JetBrains);
            }
            proof {
                let longer = selections@.take(i + 1);
                assert forall|k: int| 0 <= k < longer.len() implies longer[k] != 4 by {
                    if k < i {
                        assert(selections@.take(i as int)[k] == longer[k]);
                    }
                }
            }
            i += 1;
        }
        assert(selections@.take(i as int) == selections@);
        Some(editors)
    }

    /// The options that the menu amounts to: the editors chosen, with
    /// questions and without force; nothing if no editor was chosen, which
    /// ends the run.
    pub fn run_main_menu(chosen: &Vec<EditorType>, backup: bool, verbose: bool) -> (options: Option<
        CleanOptions,
    >)
        ensures
            match options {
                Some(o) => chosen@.len() > 0 && o == (CleanOptions {
                    clean_vscode: chosen@.contains(EditorType::VSCode),
                    clean_cursor: chosen@.contains(EditorType::Cursor),
                    clean_jetbrains: chosen@.contains(EditorType::JetBrains),
                    clean_void: chosen@.contains(EditorType::Void),
                    interactive: true,
                    backup,
                    force: false,
                    verbose,
                }),
                None => chosen@.len() == 0,
            },
    {
        if chosen.len() == 0 {
            return None;
        }
        let mut vscode = false;
        let mut cursor = false;
        let mut jetbrains = false;
        let mut void = false;
        let mut i: usize = 0;
        while i < chosen.len()
            invariant
                i <= chosen.len(),
                vscode == chosen@.take(i as int).contains(EditorType::VSCode),
                cursor == chosen@.take(i as int).contains(EditorType::Cursor),
                jetbrains == chosen@.take(i as int).contains(EditorType::JetBrains),
                void == chosen@.take(i as int).contains(EditorType::Void),
            decreases chosen.len() - i,
        {
            let ghost shorter = chosen@.take(i as int);
            let ghost longer = chosen@.take(i + 1);
            assert(longer == shorter.push(chosen@[i as int]));
            assert(forall|e: EditorType|
                longer.contains(e) <==> (shorter.contains(e) || e == chosen@[i as int])) by {
                assert forall|e: EditorType| longer.contains(e) implies (shorter.contains(e) || e
                    == chosen@[i as int]) by {
                    let k = choose|k: int| 0 <= k < longer.len() && longer[k] == e;
                    if k < i {
                        assert(shorter[k] == e);
                    }
                }
                assert forall|e: EditorType|
                    (shorter.contains(e) || e == chosen@[i as int]) implies longer.contains(e) by {
                    if shorter.contains(e) {
                        let k = choose|k: int| 0 <= k < shorter.len() && shorter[k] == e;
                        assert(longer[k] == e);
                    } else {
                        assert(longer[i as int] == e);
                    }
                }
            }
            match chosen[i] {
                EditorType::VSCode => {
                    vscode = true;
                },
                EditorType::Cursor => {
                    cursor = true;
                },
                EditorType::JetBrains => {
                    jetbrains = true;
                },
                EditorType::Void => {
                    void = true;
                },
            }
            i += 1;
        }
        assert(chosen@.take(i as int) == chosen@);
        Some(
            CleanOptions {
                clean_vscode: vscode,
                clean_cursor: cursor,
                clean_jetbrains: jetbrains,
                clean_void: void,
                interactive: true,
                backup,
                force: false,
                verbose,
            },
        )
    }
}

} // verus!
