//! Where the editors keep their state, on each platform, given the
//! directories of the user. Finding out what exists there is left to the
//! caller.

use crate::error::AugmentError;
use crate::text::{chars_of, is_prefix, starts_with_text, texts};
use crate::types::{CleanOptions, DatabasePath, EditorType};
use vstd::prelude::*;
use vstd::string::*;

verus! {

/// The builder of paths.
pub struct PathManager;

/// The platforms.
#[derive(Debug, Clone, Copy, PartialEq, Eq, Structural)]
pub enum Platform {
    Windows,
    MacOs,
    Linux,
    Other,
}

/// The directories of the user, as far as they are known.
#[derive(Debug, Clone)]
pub struct UserDirs {
    /// Where applications keep their data.
    pub data_dir: Option<String>,
    /// The home of the user.
    pub home_dir: Option<String>,
    /// Where applications keep their configuration.
    pub config_dir: Option<String>,
}

/// A place where a store may lie.
#[derive(Debug, Clone)]
pub struct StoreCandidate {
    pub editor_type: EditorType,
    pub path: String,
}

/// A folder found in the directory of the JetBrains IDEs: its name, the path
/// of the list of recent projects in it, and whether that list exists.
#[derive(Debug, Clone)]
pub struct IdeFolder {
    pub name: String,
    pub projects_path: String,
    pub projects_exist: bool,
}

/// The character that parts the components of a path.
pub open spec fn separator_of(platform: Platform) -> char {
    if platform == Platform::Windows {
        '\\'
    } else {
        '/'
    }
}

/// A path with one more component.
pub open spec fn joined(base: Seq<char>, part: Seq<char>, separator: char) -> Seq<char> {
    if base.len() == 0 || base.last() == separator {
        base + part
    } else {
        base.push(separator) + part
    }
}

/// The path of a file in the global storage of an editor, below `base`.
pub open spec fn storage_path(base: Seq<char>, editor: Seq<char>, file: Seq<char>, separator: char) -> Seq<char> {
    joined(
        joined(joined(joined(base, editor, separator), "User"@, separator), "globalStorage"@, separator),
        file,
        separator,
    )
}

/// The directory below which the editors keep their state.
pub open spec fn state_base(platform: Platform, dirs: UserDirs) -> Option<Seq<char>> {
    match platform {
        Platform::Windows => match dirs.data_dir {
            Some(dir) => Some(dir@),
            None => None,
        },
        Platform::MacOs => match dirs.home_dir {
            Some(dir) => Some(joined(joined(dir@, "Library"@, '/'), "Application Support"@, '/')),
            None => None,
        },
        Platform::Linux => match dirs.config_dir {
            Some(dir) => Some(dir@),
            None => None,
        },
        Platform::Other => None,
    }
}

/// The paths of the file called `file` of the editors with a store that the
/// options select, in the order of the editors.
pub open spec fn storage_paths(
    options: CleanOptions,
    with_void: bool,
    base: Seq<char>,
    file: Seq<char>,
    separator: char,
) -> Seq<(EditorType, Seq<char>)> {
    (if options.clean_vscode {
        seq![(EditorType::VSCode, storage_path(base, "Code"@, file, separator))]
    } else {
        seq![]
    }) + (if options.clean_cursor {
        seq![(EditorType::Cursor, storage_path(base, "Cursor"@, file, separator))]
    } else {
        seq![]
    }) + (if options.clean_void && with_void {
        seq![(EditorType::Void, storage_path(base, "Void"@, file, separator))]
    } else {
        seq![]
    })
}

/// The names with which the folders of the JetBrains IDEs begin.
pub open spec fn ide_folder_names() -> Seq<Seq<char>> {
    seq![
        "IntelliJIdea"@,
        "PyCharm"@,
        "WebStorm"@,
        "PhpStorm"@,
        "RubyMine"@,
        "CLion"@,
        "DataGrip"@,
        "GoLand"@,
        "Rider"@,
    ]
}

/// The targets that exist, in their order.
pub open spec fn existing(targets: Seq<DatabasePath>) -> Seq<DatabasePath>
    decreases targets.len(),
{
    if targets.len() == 0 {
        Seq::empty()
    } else if targets.last().exists {
        existing(targets.drop_last()).push(targets.last())
    } else {
        existing(targets.drop_last())
    }
}

/// The lists of recent projects that exist in the folders whose name begins
/// with `name`, in the order of the folders.
pub open spec fn projects_of(folders: Seq<IdeFolder>, name: Seq<char>) -> Seq<Seq<char>>
    decreases folders.len(),
{
    if folders.len() == 0 {
        Seq::empty()
    } else {
        let rest = projects_of(folders.drop_last(), name);
        let last = folders.last();
        if is_prefix(last.name@, name) && last.projects_exist {
            rest.push(last.projects_path@)
        } else {
            rest
        }
    }
}

/// The lists of recent projects that exist in the folders of the first
/// `count` JetBrains IDEs, IDE by IDE.
pub open spec fn projects_of_first(folders: Seq<IdeFolder>, count: int) -> Seq<Seq<char>>
    decreases count,
{
    if count <= 0 {
        Seq::empty()
    } else {
        projects_of_first(folders, count - 1) + projects_of(folders, ide_folder_names()[count - 1])
    }
}

/// What the candidates say, as plain values.
pub open spec fn candidate_views(candidates: Seq<StoreCandidate>) -> Seq<(EditorType, Seq<char>)> {
    Seq::new(candidates.len(), |i: int| (candidates[i].editor_type, candidates[i].path@))
}

impl PathManager {
    /// The character that parts the components of a path.
    pub fn separator(platform: Platform) -> (separator: char)
        ensures
            separator == separator_of(platform),
    {
        match platform {
            Platform::Windows => '\\',
            _ => '/',
        }
    }

    /// A path with one more component: `part` follows `base` after a
    /// separator, unless `base` is empty or ends in one.
    pub fn join(base: &str, part: &str, separator: char) -> (path: String)
        ensures
            path@ == joined(base@, part@, separator),
    {
        let base_chars = chars_of(base);
        let mut path = base.to_owned();
        if base_chars.len() > 0 && base_chars[base_chars.len() - 1] != separator {
            path.push(separator);
        }
        path.append(part);
        path
    }

    /// The path of a file in the global storage of an editor, below `base`.
    pub fn storage_file(base: &str, editor: &str, file: &str, separator: char) -> (path: String)
        ensures
            path@ == storage_path(base@, editor@, file@, separator),
    {
        let editor_dir = Self::join(base, editor, separator);
        let user_dir = Self::join(editor_dir.as_str(), "User", separator);
        let storage_dir = Self::join(user_dir.as_str(), "globalStorage", separator);
        Self::join(storage_dir.as_str(), file, separator)
    }

    /// The directory below which the editors keep their state: the data
    /// directory on Windows, `Library/Application Support` in the home of
    /// the user on macOS, the configuration directory on Linux. It is a
    /// configuration failure if the directory is not known, and any other
    /// platform is not supported.
    pub fn base_directory(platform: Platform, dirs: &UserDirs) -> (outcome: Result<String, AugmentError>)
        ensures
            match outcome {
                Ok(base) => state_base(platform, *dirs) == Some(base@),
                Err(error) => state_base(platform, *dirs) is None && if platform
                    == Platform::Other {
                    error is UnsupportedPlatform
                } else {
                    error is Config
                },
            },
    {
        match platform {
            Platform::Windows => match &dirs.data_dir {
                Some(dir) => Ok(dir.clone()),
                None => Err(AugmentError::config("无法获取 APPDATA 目录")),
            },
            Platform::MacOs => match &dirs.home_dir {
                Some(dir) => {
                    let library = Self::join(dir.as_str(), "Library", '/');
                    Ok(Self::join(library.as_str(), "Application Support", '/'))
                },
                None => Err(AugmentError::config("无法获取用户主目录")),
            },
            Platform::Linux => match &dirs.config_dir {
                Some(dir) => Ok(dir.clone()),
                None => Err(AugmentError::config("无法获取配置目录")),
            },
            Platform::Other => Err(AugmentError::unsupported_platform("当前操作系统")),
        }
    }

    /// The file called `file` in the global storage of each editor with a
    /// store that the options select.
    fn storage_files(options: &CleanOptions, with_void: bool, base: &str, file: &str, separator: char) -> (found:
        Vec<StoreCandidate>)
        ensures
            candidate_views(found@) == storage_paths(*options, with_void, base@, file@, separator),
    {
        let mut found: Vec<StoreCandidate> = Vec::new();
        if options.clean_vscode {
            found.push(
                StoreCandidate {
                    editor_type: EditorType::VSCode,
                    path: Self::storage_file(base, "Code", file, separator),
                },
            );
        }
        if options.clean_cursor {
            found.push(
                StoreCandidate {
                    editor_type: EditorType::Cursor,
                    path: Self::storage_file(base, "Cursor", file, separator),
                },
            );
        }
        if options.clean_void && with_void {
            found.push(
                StoreCandidate {
                    editor_type: EditorType::Void,
                    path: Self::storage_file(base, "Void", file, separator),
                },
            );
        }
        assert(candidate_views(found@) =~= storage_paths(
            *options,
            with_void,
            base@,
            file@,
            separator,
        ));
        found
    }

    /// The places where the stores of the selected editors may lie: the file
    /// `state.vscdb` in the global storage of each editor with a store.
    pub fn store_candidates(options: &CleanOptions, platform: Platform, dirs: &UserDirs) -> (outcome:
        Result<Vec<StoreCandidate>, AugmentError>)
        ensures
            match outcome {
                Ok(found) => state_base(platform, *dirs) matches Some(base) && candidate_views(
                    found@,
                ) == storage_paths(*options, true, base, "state.vscdb"@, separator_of(platform)),
                Err(_) => state_base(platform, *dirs) is None,
            },
    {
        match Self::base_directory(platform, dirs) {
            Ok(base) => Ok(
                Self::storage_files(
                    options,
                    true,
                    base.as_str(),
                    "state.vscdb",
                    Self::separator(platform),
                ),
            ),
            Err(error) => Err(error),
        }
    }

    /// The targets to work on: those of the targets found that exist, in
    /// their order.
    pub fn get_database_paths(found: &Vec<DatabasePath>) -> (targets: Vec<DatabasePath>)
        ensures
            targets@ == existing(found@),
    {
        let mut targets: Vec<DatabasePath> = Vec::new();
        let mut i: usize = 0;
        while i < found.len()
            invariant
                i <= found.len(),
                targets@ == existing(found@.take(i as int)),
            decreases found.len() - i,
        {
            assert(found@.take(i + 1).drop_last() == found@.take(i as int));
            if found[i].exists {
                let target = DatabasePath {
                    editor_type: found[i].editor_type,
                    path: found[i].path.clone(),
                    exists: true,
                };
                assert(target == found@[i as int]);
                targets.push(target);
            }
            i += 1;
        }
        assert(found@.take(i as int) == found@);
        targets
    }

    /// The lists of recent projects of the JetBrains IDEs on Windows: for
    /// each IDE in turn, those that exist in the folders whose name begins
    /// with the name of the IDE; nothing at all if there is none.
    pub fn get_jetbrains_paths_windows(folders: &Vec<IdeFolder>) -> (found: Option<Vec<String>>)
        ensures
            match found {
                Some(paths) => paths@.len() > 0 && texts(paths@) == projects_of_first(
                    folders@,
                    ide_folder_names().len() as int,
                ),
                None => projects_of_first(folders@, ide_folder_names().len() as int).len() == 0,
            },
    {
        let names: [&str; 9] = [
            "IntelliJIdea",
            "PyCharm",
            "WebStorm",
            "PhpStorm",
            "RubyMine",
            "CLion",
            "DataGrip",
            "GoLand",
            "Rider",
        ];
        let mut paths: Vec<String> = Vec::new();
        let mut n: usize = 0;
        while n < 9
            invariant
                n <= 9,
                names@.len() == 9,
                forall|k: int| 0 <= k < 9 ==> names@[k]@ == ide_folder_names()[k],
                texts(paths@) == projects_of_first(folders@, n as int),
            decreases 9 - n,
        {
            let ghost before = texts(paths@);
            let mut i: usize = 0;
            while i < folders.len()
                invariant
                    i <= folders.len(),
                    n < 9,
                    names@.len() == 9,
                    names@[n as int]@ == ide_folder_names()[n as int],
                    texts(paths@) == before + projects_of(
                        folders@.take(i as int),
                        ide_folder_names()[n as int],
                    ),
                decreases folders.len() - i,
            {
                assert(folders@.take(i + 1).drop_last() == folders@.take(i as int));
                let ghost so_far = texts(paths@);
                if starts_with_text(folders[i].name.as_str(), names[n]) && folders[i].projects_exist {
                    paths.push(folders[i].projects_path.clone());
                    assert(texts(paths@) =~= so_far.push(folders@[i as int].projects_path@));
                }
                i += 1;
            }
            assert(folders@.take(i as int) == folders@);
            n += 1;
        }
        if paths.len() == 0 {
            None
        } else {
            Some(paths)
        }
    }

    /// The lists of recent projects of the JetBrains IDEs on macOS: none is
    /// looked for.
    pub fn get_jetbrains_paths_macos(directory_exists: bool) -> (found: Option<Vec<String>>)
        ensures
            found is None,
    {
        None
    }

    /// The lists of recent projects of the JetBrains IDEs on Linux: none is
    /// looked for.
    pub fn get_jetbrains_paths_linux(directory_exists: bool) -> (found: Option<Vec<String>>)
        ensures
            found is None,
    {
        None
    }

    /// The configuration paths of the selected editors: `augment.augment`
    /// in the global storage of VS Code and Cursor. A platform that is
    /// not supported has none.
    pub fn get_config_paths(options: &CleanOptions, platform: Platform, dirs: &UserDirs) -> (outcome:
        Result<Vec<String>, AugmentError>)
        ensures
            match outcome {
                Ok(paths) => if platform == Platform::Other {
                    paths@.len() == 0
                } else {
                    state_base(platform, *dirs) matches Some(base) && paths@.len()
                        == storage_paths(
                        *options,
                        false,
                        base,
                        "augment.augment"@,
                        separator_of(platform),
                    ).len() && forall|i: int|
                        0 <= i < paths@.len() ==> (#[trigger] paths@[i])@ == storage_paths(
                            *options,
                            false,
                            base,
                            "augment.augment"@,
                            separator_of(platform),
                        )[i].1
                },
                Err(error) => platform != Platform::Other && state_base(platform, *dirs) is None
                    && error is Config,
            },
    {
        if platform == Platform::Other {
            return Ok(Vec::new());
        }
        match Self::base_directory(platform, dirs) {
            Ok(base) => {
                let found = Self::storage_files(
                    options,
                    false,
                    base.as_str(),
                    "augment.augment",
                    Self::separator(platform),
                );
                let mut paths: Vec<String> = Vec::new();
                let mut i: usize = 0;
                while i < found.len()
                    invariant
                        i <= found.len(),
                        paths@.len() == i,
                        forall|k: int| 0 <= k < i ==> (#[trigger] paths@[k])@ == found@[k].path@,
                    decreases found.len() - i,
                {
                    paths.push(found[i].path.clone());
                    i += 1;
                }
                proof {
                    let expected = storage_paths(
                        *options,
                        false,
                        base@,
                        "augment.augment"@,
                        separator_of(platform),
                    );
                    assert forall|k: int| 0 <= k < paths@.len() implies (#[trigger] paths@[k])@
                        == expected[k].1 by {
                        assert(candidate_views(found@)[k] == (found@[k].editor_type, found@[k].path@));
                    }
                }
                Ok(paths)
            },
            Err(error) => Err(error),
        }
    }
}

} // verus!
