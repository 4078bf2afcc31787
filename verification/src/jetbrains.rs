//! The JetBrains IDEs: what is cleared for them, and what is made of what was
//! found while clearing.

use crate::clock::Timestamp;
use crate::filesystem::paths::{joined, separator_of, PathManager, Platform};
use crate::text::{concat3, contains_text, is_substring, lower, texts};
use vstd::prelude::*;

verus! {

/// What became of the clearing of the JetBrains IDEs.
#[derive(Debug, Clone)]
pub struct JetBrainsCleanResult {
    /// Whether anything was cleared.
    pub success: bool,
    /// Whether the registry was cleared.
    pub registry_cleared: bool,
    /// The directory of the IDEs that was cleared last, if any.
    pub jetbrains_dir: String,
    /// The directory of the plugin that was cleared last, if any.
    pub augment_dir: String,
    /// The directories that were cleared, in their order.
    pub cleared_paths: Vec<String>,
    /// Why nothing was cleared.
    pub error: Option<String>,
    /// When the clearing began.
    pub timestamp: Timestamp,
}

/// A directory that was to be cleared, and whether it was.
#[derive(Debug, Clone)]
pub struct DirectoryOutcome {
    pub path: String,
    pub cleared: bool,
}

/// The cleaner of the JetBrains IDEs.
pub struct JetBrainsCleaner;

/// The message recorded when an IDE that runs could not be closed.
pub open spec fn still_running_text() -> Seq<char> {
    "无法关闭 JetBrains IDE，请手动关闭后重试"@
}

/// The message recorded when nothing was cleared.
pub open spec fn nothing_cleared_text() -> Seq<char> {
    "没有成功清理任何项目"@
}

/// Whether a path belongs to the IDEs: it holds `jetbrains` in any case.
pub open spec fn is_ide_path(path: Seq<char>) -> bool {
    is_substring(lower(path), "jetbrains"@)
}

/// Whether a path belongs to the plugin: it does not belong to the IDEs and
/// holds `.augment` in any case.
pub open spec fn is_plugin_path(path: Seq<char>) -> bool {
    !is_ide_path(path) && is_substring(lower(path), ".augment"@)
}

/// The paths of the directories that were cleared, in their order.
pub open spec fn cleared_of(directories: Seq<DirectoryOutcome>) -> Seq<Seq<char>>
    decreases directories.len(),
{
    if directories.len() == 0 {
        Seq::empty()
    } else if directories.last().cleared {
        cleared_of(directories.drop_last()).push(directories.last().path@)
    } else {
        cleared_of(directories.drop_last())
    }
}

/// The path of the last directory that was cleared and belongs to the IDEs,
/// or to the plugin if `plugin` is set; the empty path if there is none.
pub open spec fn last_cleared(directories: Seq<DirectoryOutcome>, plugin: bool) -> Seq<char>
    decreases directories.len(),
{
    if directories.len() == 0 {
        Seq::empty()
    } else {
        let last = directories.last();
        if last.cleared && (if plugin {
            is_plugin_path(last.path@)
        } else {
            is_ide_path(last.path@)
        }) {
            last.path@
        } else {
            last_cleared(directories.drop_last(), plugin)
        }
    }
}

/// The names of the JetBrains IDEs.
pub open spec fn ide_names() -> Seq<Seq<char>> {
    seq![
        "IntelliJIdea"@,
        "PyCharm"@,
        "WebStorm"@,
        "PhpStorm"@,
        "RubyMine"@,
        "CLion"@,
        "DataGrip"@,
        "GoLand"@,
        "Rider"@,
        "AndroidStudio"@,
    ]
}

/// The directories of the first `count` IDEs below the two bases, the
/// configuration before the cache for each IDE.
pub open spec fn ide_directories(config_base: Seq<char>, cache_base: Seq<char>, separator: char, count: int) -> Seq<
    Seq<char>,
>
    decreases count,
{
    if count <= 0 {
        Seq::empty()
    } else {
        ide_directories(config_base, cache_base, separator, count - 1).push(
            joined(config_base, ide_names()[count - 1], separator),
        ).push(joined(cache_base, ide_names()[count - 1], separator))
    }
}

impl JetBrainsCleaner {
    /// The keys of the registry that are deleted on Windows.
    pub const REGISTRY_PATHS: [&'static str; 2] = [
        "HKEY_CURRENT_USER\\Software\\JavaSoft",
        "HKEY_CURRENT_USER\\Software\\JetBrains",
    ];

    /// The names of the JetBrains IDEs.
    pub const JETBRAINS_IDES: [&'static str; 10] = [
        "IntelliJIdea",
        "PyCharm",
        "WebStorm",
        "PhpStorm",
        "RubyMine",
        "CLion",
        "DataGrip",
        "GoLand",
        "Rider",
        "AndroidStudio",
    ];

    /// How long to wait for an IDE to close, in milliseconds.
    pub const EDITOR_CLOSE_WAIT_MS: u64 = 1500;

    /// Whether a JetBrains IDE runs, given what the look at the
    /// processes printed, or nothing if the look failed. On Windows
    /// an IDE runs if the listing names `idea64.exe` or
    /// `pycharm64.exe`; elsewhere, if the search printed anything.
    pub fn is_jetbrains_running(platform: Platform, listing: Option<&str>) -> (running: bool)
        ensures
            running == match listing {
                Some(printed) => if platform == Platform::Windows {
                    is_substring(printed@, "idea64.exe"@) || is_substring(
                        printed@,
                        "pycharm64.exe"@,
                    )
                } else {
                    crate::text::trimmed(printed@).len() > 0
                },
                None => false,
            },
    {
        match listing {
            Some(printed) => {
                if platform == Platform::Windows {
                    contains_text(printed, "idea64.exe") || contains_text(printed, "pycharm64.exe")
                } else {
                    !printed.trim().is_empty()
                }
            },
            None => false,
        }
    }

    /// The command that closes the JetBrains IDEs, for the shell of the
    /// platform.
    pub fn kill_command(platform: Platform) -> (command: &'static str)
        ensures
            command@ == if platform == Platform::Windows {
                "taskkill /F /IM idea64.exe /T & taskkill /F /IM pycharm64.exe /T & taskkill /F /IM webstorm64.exe /T"@
            } else {
                "pkill -i \"idea|pycharm|webstorm|phpstorm|clion|datagrip|goland|rider\""@
            },
    {
        match platform {
            Platform::Windows => "taskkill /F /IM idea64.exe /T & taskkill /F /IM pycharm64.exe /T & taskkill /F /IM webstorm64.exe /T",
            _ => "pkill -i \"idea|pycharm|webstorm|phpstorm|clion|datagrip|goland|rider\"",
        }
    }

    /// The command that deletes a key of the registry with all below it.
    pub fn delete_registry_key(reg_path: &str) -> (command: String)
        ensures
            command@ == "reg delete \""@ + reg_path@ + "\" /f"@,
    {
        concat3("reg delete \"", reg_path, "\" /f")
    }

    /// The commands that clear the registry: on Windows one that
    /// deletes each of the keys, in their order; elsewhere none. Once they
    /// were tried the registry counts as cleared, whatever came of them.
    pub fn clear_windows_registry(platform: Platform) -> (commands: Vec<String>)
        ensures
            texts(commands@) == if platform == Platform::Windows {
                seq![
                    "reg delete \""@ + "HKEY_CURRENT_USER\\Software\\JavaSoft"@ + "\" /f"@,
                    "reg delete \""@ + "HKEY_CURRENT_USER\\Software\\JetBrains"@ + "\" /f"@,
                ]
            } else {
                Seq::<Seq<char>>::empty()
            },
    {
        let mut commands: Vec<String> = Vec::new();
        if platform == Platform::Windows {
            commands.push(Self::delete_registry_key(Self::REGISTRY_PATHS[0]));
            commands.push(Self::delete_registry_key(Self::REGISTRY_PATHS[1]));
        }
        assert(texts(commands@) =~= if platform == Platform::Windows {
            seq![
                "reg delete \""@ + "HKEY_CURRENT_USER\\Software\\JavaSoft"@ + "\" /f"@,
                "reg delete \""@ + "HKEY_CURRENT_USER\\Software\\JetBrains"@ + "\" /f"@,
            ]
        } else {
            Seq::<Seq<char>>::empty()
        });
        commands
    }

    /// Whether the IDEs are closed after the command that closes them: they
    /// are if the command could be run and no IDE runs after the wait.
    pub fn kill_jetbrains_process(command_ran: bool, still_running: bool) -> (closed: bool)
        ensures
            closed == (command_ran && !still_running),
    {
        command_ran && !still_running
    }

    /// The directories of the IDEs below the two bases, the configuration
    /// before the cache for each IDE, followed by the directory of the
    /// plugin. The caller clears those that exist.
    pub fn get_jetbrains_paths(
        config_base: &str,
        cache_base: &str,
        plugin_dir: &str,
        platform: Platform,
    ) -> (paths: Vec<String>)
        ensures
            texts(paths@) == ide_directories(
                config_base@,
                cache_base@,
                separator_of(platform),
                ide_names().len() as int,
            ).push(plugin_dir@),
    {
        let names: [&str; 10] = Self::JETBRAINS_IDES;
        let separator = PathManager::separator(platform);
        let mut paths: Vec<String> = Vec::new();
        let mut n: usize = 0;
        while n < 10
            invariant
                n <= 10,
                names@.len() == 10,
                separator == separator_of(platform),
                forall|k: int| 0 <= k < 10 ==> names@[k]@ == ide_names()[k],
                texts(paths@) == ide_directories(config_base@, cache_base@, separator, n as int),
            decreases 10 - n,
        {
            let ghost before = texts(paths@);
            paths.push(PathManager::join(config_base, names[n], separator));
            paths.push(PathManager::join(cache_base, names[n], separator));
            assert(texts(paths@) =~= before.push(
                joined(config_base@, ide_names()[n as int], separator),
            ).push(joined(cache_base@, ide_names()[n as int], separator)));
            n += 1;
        }
        let ghost before = texts(paths@);
        paths.push(plugin_dir.to_owned());
        assert(texts(paths@) =~= before.push(plugin_dir@));
        paths
    }

    /// What became of the clearing. If an IDE runs and could not be closed,
    /// nothing was cleared and the result says why. Else the result lists
    /// the directories that were cleared, names the last of them that
    /// belongs to the IDEs and the last that belongs to the plugin, and
    /// records a success if a directory or the registry was cleared.
    pub fn clean_jetbrains(ide_stopped: bool, registry_cleared: bool, directories: &Vec<DirectoryOutcome>) -> (result:
        JetBrainsCleanResult)
        ensures
            if !ide_stopped {
                &&& !result.success
                &&& !result.registry_cleared
                &&& result.jetbrains_dir@.len() == 0
                &&& result.augment_dir@.len() == 0
                &&& result.cleared_paths@.len() == 0
                &&& result.error matches Some(reason) && reason@ == still_running_text()
            } else {
                &&& result.registry_cleared == registry_cleared
                &&& texts(result.cleared_paths@) == cleared_of(directories@)
                &&& result.jetbrains_dir@ == last_cleared(directories@, false)
                &&& result.augment_dir@ == last_cleared(directories@, true)
                &&& result.success == (cleared_of(directories@).len() > 0 || registry_cleared)
                &&& if result.success {
                    result.error is None
                } else {
                    result.error matches Some(reason) && reason@ == nothing_cleared_text()
                }
            },
    {
        let timestamp = Timestamp::now();
        if !ide_stopped {
            return JetBrainsCleanResult {
                success: false,
                registry_cleared: false,
                jetbrains_dir: String::new(),
                augment_dir: String::new(),
                cleared_paths: Vec::new(),
                error: Some("无法关闭 JetBrains IDE，请手动关闭后重试".to_owned()),
                timestamp,
            };
        }
        let mut cleared_paths: Vec<String> = Vec::new();
        let mut jetbrains_dir = String::new();
        let mut augment_dir = String::new();
        let mut i: usize = 0;
        while i < directories.len()
            invariant
                i <= directories.len(),
                texts(cleared_paths@) == cleared_of(directories@.take(i as int)),
                jetbrains_dir@ == last_cleared(directories@.take(i as int), false),
                augment_dir@ == last_cleared(directories@.take(i as int), true),
            decreases directories.len() - i,
        {
            assert(directories@.take(i + 1).drop_last() == directories@.take(i as int));
            let ghost before = texts(cleared_paths@);
            if directories[i].cleared {
                let path = directories[i].path.clone();
                let lowered = path.as_str().to_lowercase();
                if contains_text(lowered.as_str(), "jetbrains") {
                    jetbrains_dir = path.clone();
                } else if contains_text(lowered.as_str(), ".augment") {
                    augment_dir = path.clone();
                }
                cleared_paths.push(path);
                assert(texts(cleared_paths@) =~= before.push(directories@[i as int].path@));
            }
            i += 1;
        }
        assert(directories@.take(i as int) == directories@);
        let success = cleared_paths.len() > 0 || registry_cleared;
        let error = if success {
            None
        } else {
            Some("没有成功清理任何项目".to_owned())
        };
        JetBrainsCleanResult {
            success,
            registry_cleared,
            jetbrains_dir,
            augment_dir,
            cleared_paths,
            error,
            timestamp,
        }
    }
}

} // verus!
