use augment_reset::clock::Timestamp;
use augment_reset::error::AugmentError;
use augment_reset::filesystem::{
    BackupCandidate, BackupPlan, FileOperations, IdeFolder, PathEntry, PathManager, Platform,
    RemovalKind, UserDirs,
};
use augment_reset::types::{CleanOptions, DatabasePath, EditorType};

fn dirs() -> UserDirs {
    UserDirs {
        data_dir: Some("C:\\Users\\u\\AppData\\Roaming".to_string()),
        home_dir: Some("/Users/u".to_string()),
        config_dir: Some("/home/u/.config".to_string()),
    }
}

fn no_dirs() -> UserDirs {
    UserDirs { data_dir: None, home_dir: None, config_dir: None }
}

fn candidate(name: &str, is_file: bool, modified: Option<i64>) -> BackupCandidate {
    BackupCandidate {
        path: format!("/b/{}", name),
        file_name: name.to_string(),
        is_file,
        modified: modified.map(|s| Timestamp::clamped(s, 0)),
    }
}

#[test]
fn test_file_backup() {
    let now = Timestamp::clamped(1_700_000_000, 123_000_000);
    let plan = FileOperations::backup_file("/t/test.txt", true, &now, &vec![]);
    let backup_path = match plan {
        BackupPlan::Copy { backup_path } => backup_path,
        other => panic!("nothing is copied: {:?}", other),
    };
    let backup_result = FileOperations::backup_outcome("/t/test.txt", backup_path, Ok(12));
    assert!(backup_result.success);
    assert_eq!(backup_result.backup_path, "/t/test.txt.20231114_221320_123.bak");
}

#[test]
fn test_sqlite_file_validation() {
    let mut valid = b"SQLite format 3\0".to_vec();
    valid.extend_from_slice(&[0u8; 84]);
    assert!(FileOperations::is_valid_sqlite_file(&valid));
    assert!(!FileOperations::is_valid_sqlite_file(b"not a sqlite file"));
    assert!(!FileOperations::is_valid_sqlite_file(b""));
}

#[test]
fn the_header_is_sixteen_bytes() {
    assert!(FileOperations::is_valid_sqlite_file(b"SQLite format 3\0"));
    assert!(!FileOperations::is_valid_sqlite_file(b"SQLite format 3"));
    assert!(!FileOperations::is_valid_sqlite_file(b"SQLite format 3 "));
    assert!(!FileOperations::is_valid_sqlite_file(b"SQLite format 4\0 and more"));
    assert!(!FileOperations::is_valid_sqlite_file(b"sQLite format 3\0"));
    assert!(!FileOperations::is_valid_sqlite_file(b" SQLite format 3\0"));
}

#[test]
fn a_missing_source_is_not_copied() {
    let now = Timestamp::clamped(0, 0);
    match FileOperations::backup_file("/t/none", false, &now, &vec![]) {
        BackupPlan::Skip(record) => {
            assert!(!record.success);
            assert_eq!(record.error, Some("source missing".to_string()));
            assert_eq!(record.original_path, "/t/none");
            assert_eq!(record.backup_path, "");
        }
        other => panic!("a copy was planned: {:?}", other),
    }
}

#[test]
fn the_backup_lies_beside_the_source() {
    let now = Timestamp::clamped(0, 999_999_999);
    match FileOperations::backup_file("state.vscdb", true, &now, &vec![]) {
        BackupPlan::Copy { backup_path } => {
            assert_eq!(backup_path, "state.vscdb.19700101_000000_999.bak")
        }
        other => panic!("nothing is copied: {:?}", other),
    }
}

#[test]
fn a_failed_copy_is_recorded() {
    let record =
        FileOperations::backup_outcome("/t/a", "/t/a.x.bak".to_string(), Err("denied".to_string()));
    assert!(!record.success);
    assert_eq!(record.backup_path, "");
    assert_eq!(record.original_path, "/t/a");
    assert_eq!(record.error, Some("backup failed: denied".to_string()));
}

#[test]
fn what_is_removed_of_the_configuration_paths() {
    let entries = vec![
        PathEntry { path: "/a".to_string(), exists: true, is_dir: true },
        PathEntry { path: "/b".to_string(), exists: false, is_dir: false },
        PathEntry { path: "/c".to_string(), exists: true, is_dir: false },
        PathEntry { path: "/d".to_string(), exists: false, is_dir: true },
    ];
    let removals = FileOperations::clean_config_files(&entries);
    assert_eq!(removals.len(), 2);
    assert_eq!(removals[0].path, "/a");
    assert_eq!(removals[0].kind, RemovalKind::Directory);
    assert_eq!(removals[1].path, "/c");
    assert_eq!(removals[1].kind, RemovalKind::File);
    assert!(FileOperations::clean_config_files(&vec![]).is_empty());
}

#[test]
fn backups_that_are_too_old() {
    let day = 86_400;
    let now = Timestamp::clamped(100 * day, 0);
    let found = vec![
        candidate("a.bak", true, Some(69 * day)),
        candidate("b.bak", true, Some(70 * day)),
        candidate("c.bak", true, Some(70 * day - 1)),
        candidate("d.txt", true, Some(0)),
        candidate("e.bak", false, Some(0)),
        candidate("f.bak", true, None),
        candidate(".bak", true, Some(0)),
        candidate("g.BAK", true, Some(0)),
    ];
    assert_eq!(
        FileOperations::cleanup_old_backups(&found, &now, 30),
        vec!["/b/a.bak", "/b/c.bak", "/b/.bak"]
    );
    assert_eq!(
        FileOperations::cleanup_old_backups(&found, &now, 0),
        vec!["/b/a.bak", "/b/b.bak", "/b/c.bak", "/b/.bak"]
    );
    assert!(FileOperations::cleanup_old_backups(&found, &now, 1000).is_empty());
}

#[test]
fn the_size_of_a_directory() {
    assert_eq!(FileOperations::calculate_dir_size(&vec![]), 0);
    assert_eq!(FileOperations::calculate_dir_size(&vec![1, 2, 3]), 6);
    assert_eq!(FileOperations::calculate_dir_size(&vec![u64::MAX, 1]), u64::MAX);
}

#[test]
fn paths_are_joined_with_the_separator_of_the_platform() {
    assert_eq!(PathManager::separator(Platform::Windows), '\\');
    assert_eq!(PathManager::separator(Platform::Linux), '/');
    assert_eq!(PathManager::separator(Platform::MacOs), '/');
    assert_eq!(PathManager::join("/a", "b", '/'), "/a/b");
    assert_eq!(PathManager::join("/a/", "b", '/'), "/a/b");
    assert_eq!(PathManager::join("", "b", '/'), "b");
    assert_eq!(PathManager::join("C:\\a", "b", '\\'), "C:\\a\\b");
    assert_eq!(
        PathManager::storage_file("/c", "Code", "state.vscdb", '/'),
        "/c/Code/User/globalStorage/state.vscdb"
    );
}

#[test]
fn where_the_stores_may_lie() {
    let all = CleanOptions::default();
    let found = PathManager::store_candidates(&all, Platform::Linux, &dirs()).unwrap();
    let listed: Vec<(EditorType, &str)> =
        found.iter().map(|c| (c.editor_type, c.path.as_str())).collect();
    assert_eq!(
        listed,
        vec![
            (EditorType::VSCode, "/home/u/.config/Code/User/globalStorage/state.vscdb"),
            (EditorType::Cursor, "/home/u/.config/Cursor/User/globalStorage/state.vscdb"),
            (EditorType::Void, "/home/u/.config/Void/User/globalStorage/state.vscdb"),
        ]
    );
    let found = PathManager::store_candidates(&all, Platform::MacOs, &dirs()).unwrap();
    assert_eq!(
        found[0].path,
        "/Users/u/Library/Application Support/Code/User/globalStorage/state.vscdb"
    );
    let mut only_cursor = CleanOptions::default();
    only_cursor.clean_vscode = false;
    only_cursor.clean_void = false;
    let found = PathManager::store_candidates(&only_cursor, Platform::Windows, &dirs()).unwrap();
    assert_eq!(found.len(), 1);
    assert_eq!(
        found[0].path,
        "C:\\Users\\u\\AppData\\Roaming\\Cursor\\User\\globalStorage\\state.vscdb"
    );
}

#[test]
fn directories_that_are_not_known() {
    let all = CleanOptions::default();
    for platform in [Platform::Windows, Platform::MacOs, Platform::Linux] {
        match PathManager::store_candidates(&all, platform, &no_dirs()) {
            Err(AugmentError::Config { .. }) => {}
            other => panic!("no configuration failure: {:?}", other),
        }
        assert!(PathManager::get_config_paths(&all, platform, &no_dirs()).is_err());
    }
    match PathManager::store_candidates(&all, Platform::Other, &dirs()) {
        Err(AugmentError::UnsupportedPlatform { feature }) => assert_eq!(feature, "当前操作系统"),
        other => panic!("the platform was accepted: {:?}", other),
    }
    assert_eq!(
        PathManager::base_directory(Platform::Windows, &no_dirs()).unwrap_err().message(),
        "配置错误: 无法获取 APPDATA 目录"
    );
    assert_eq!(
        PathManager::base_directory(Platform::MacOs, &no_dirs()).unwrap_err().message(),
        "配置错误: 无法获取用户主目录"
    );
    assert_eq!(
        PathManager::base_directory(Platform::Linux, &no_dirs()).unwrap_err().message(),
        "配置错误: 无法获取配置目录"
    );
}

#[test]
fn the_configuration_paths() {
    let all = CleanOptions::default();
    assert_eq!(
        PathManager::get_config_paths(&all, Platform::Linux, &dirs()).unwrap(),
        vec![
            "/home/u/.config/Code/User/globalStorage/augment.augment",
            "/home/u/.config/Cursor/User/globalStorage/augment.augment",
        ]
    );
    let mut only_void = CleanOptions::default();
    only_void.clean_vscode = false;
    only_void.clean_cursor = false;
    assert!(PathManager::get_config_paths(&only_void, Platform::Linux, &dirs()).unwrap().is_empty());
    assert!(PathManager::get_config_paths(&all, Platform::Other, &no_dirs()).unwrap().is_empty());
}

#[test]
fn only_targets_that_exist_are_worked_on() {
    let found = vec![
        DatabasePath::new(EditorType::VSCode, "/a".to_string(), false),
        DatabasePath::new(EditorType::Cursor, "/b".to_string(), true),
        DatabasePath::new(EditorType::Void, "/c".to_string(), true),
    ];
    let targets = PathManager::get_database_paths(&found);
    assert_eq!(targets.len(), 2);
    assert_eq!(targets[0].path, "/b");
    assert_eq!(targets[0].editor_type, EditorType::Cursor);
    assert!(targets[0].exists);
    assert_eq!(targets[1].path, "/c");
    assert!(PathManager::get_database_paths(&vec![]).is_empty());
}

#[test]
fn the_lists_of_recent_projects() {
    let folder = |name: &str, exists: bool| IdeFolder {
        name: name.to_string(),
        projects_path: format!("J\\{}\\options\\recentProjects.xml", name),
        projects_exist: exists,
    };
    let folders = vec![
        folder("PyCharm2023.1", true),
        folder("IntelliJIdea2022.3", true),
        folder("PyCharmCE2023.2", true),
        folder("GoLand2023.1", false),
        folder("Other", true),
        folder("xRider", true),
    ];
    assert_eq!(
        PathManager::get_jetbrains_paths_windows(&folders),
        Some(vec![
            "J\\IntelliJIdea2022.3\\options\\recentProjects.xml".to_string(),
            "J\\PyCharm2023.1\\options\\recentProjects.xml".to_string(),
            "J\\PyCharmCE2023.2\\options\\recentProjects.xml".to_string(),
        ])
    );
    assert_eq!(PathManager::get_jetbrains_paths_windows(&vec![folder("Other", true)]), None);
    assert_eq!(PathManager::get_jetbrains_paths_windows(&vec![]), None);
    assert_eq!(PathManager::get_jetbrains_paths_macos(true), None);
    assert_eq!(PathManager::get_jetbrains_paths_linux(true), None);
}

#[test]
fn two_backups_at_one_instant_get_two_paths() {
    let now = Timestamp::clamped(1_700_000_000, 123_000_000);
    let mut taken: Vec<String> = vec!["/t/a.db".to_string(), "/t/a.db.old.bak".to_string()];
    let mut paths = Vec::new();
    for _ in 0..12 {
        match FileOperations::backup_file("/t/a.db", true, &now, &taken) {
            BackupPlan::Copy { backup_path } => {
                assert!(!taken.contains(&backup_path));
                taken.push(backup_path.clone());
                paths.push(backup_path);
            }
            other => panic!("nothing is copied: {:?}", other),
        }
    }
    assert_eq!(paths[0], "/t/a.db.20231114_221320_123.bak");
    assert_eq!(paths[1], "/t/a.db.20231114_221320_123_1.bak");
    assert_eq!(paths[2], "/t/a.db.20231114_221320_123_2.bak");
    assert_eq!(paths[10], "/t/a.db.20231114_221320_123_10.bak");
    assert_eq!(paths[11], "/t/a.db.20231114_221320_123_11.bak");
}

#[test]
fn the_least_counter_that_is_free_is_taken() {
    let now = Timestamp::clamped(0, 0);
    let taken = vec![
        "f.19700101_000000_000_2.bak".to_string(),
        "f.19700101_000000_000.bak".to_string(),
        "f.19700101_000000_000.bak".to_string(),
        "g.19700101_000000_000_1.bak".to_string(),
    ];
    assert_eq!(
        FileOperations::free_backup_path("f", &now, &taken),
        "f.19700101_000000_000_1.bak"
    );
    assert_eq!(
        FileOperations::free_backup_path("g", &now, &taken),
        "g.19700101_000000_000.bak"
    );
    let later = Timestamp::clamped(0, 1_000_000);
    assert_eq!(
        FileOperations::free_backup_path("f", &later, &taken),
        "f.19700101_000000_001.bak"
    );
}
