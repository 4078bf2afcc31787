use augment_reset::clock::Timestamp;
use augment_reset::filesystem::Platform;
use augment_reset::jetbrains::{DirectoryOutcome, JetBrainsCleanResult, JetBrainsCleaner};

fn outcome(path: &str, cleared: bool) -> DirectoryOutcome {
    DirectoryOutcome { path: path.to_string(), cleared }
}

#[test]
fn test_jetbrains_clean_result_creation() {
    let result = JetBrainsCleanResult {
        success: true,
        registry_cleared: true,
        jetbrains_dir: "/test/jetbrains".to_string(),
        augment_dir: "/test/augment".to_string(),
        cleared_paths: vec!["/test/path1".to_string(), "/test/path2".to_string()],
        error: None,
        timestamp: Timestamp::now(),
    };

    assert!(result.success);
    assert!(result.registry_cleared);
    assert_eq!(result.cleared_paths.len(), 2);
}

#[test]
fn test_registry_paths() {
    assert!(!JetBrainsCleaner::REGISTRY_PATHS.is_empty());
    assert!(JetBrainsCleaner::REGISTRY_PATHS.contains(&"HKEY_CURRENT_USER\\Software\\JetBrains"));
}

#[test]
fn test_jetbrains_ides() {
    assert!(!JetBrainsCleaner::JETBRAINS_IDES.is_empty());
    assert!(JetBrainsCleaner::JETBRAINS_IDES.contains(&"IntelliJIdea"));
    assert!(JetBrainsCleaner::JETBRAINS_IDES.contains(&"PyCharm"));
}

#[test]
fn test_is_jetbrains_running() {
    assert!(!JetBrainsCleaner::is_jetbrains_running(Platform::Linux, None));
}

#[test]
fn an_ide_runs_if_the_listing_says_so() {
    assert!(JetBrainsCleaner::is_jetbrains_running(Platform::Linux, Some("1234\n")));
    assert!(!JetBrainsCleaner::is_jetbrains_running(Platform::Linux, Some(" \n\t")));
    assert!(!JetBrainsCleaner::is_jetbrains_running(Platform::MacOs, Some("")));
    assert!(JetBrainsCleaner::is_jetbrains_running(Platform::Windows, Some("x idea64.exe 1")));
    assert!(JetBrainsCleaner::is_jetbrains_running(Platform::Windows, Some("pycharm64.exe")));
    assert!(!JetBrainsCleaner::is_jetbrains_running(
        Platform::Windows,
        Some("INFO: No tasks are running")
    ));
    assert!(!JetBrainsCleaner::is_jetbrains_running(Platform::Windows, None));
}

#[test]
fn the_commands() {
    assert_eq!(
        JetBrainsCleaner::kill_command(Platform::Linux),
        "pkill -i \"idea|pycharm|webstorm|phpstorm|clion|datagrip|goland|rider\""
    );
    assert_eq!(
        JetBrainsCleaner::kill_command(Platform::Windows),
        "taskkill /F /IM idea64.exe /T & taskkill /F /IM pycharm64.exe /T & taskkill /F /IM webstorm64.exe /T"
    );
    assert_eq!(
        JetBrainsCleaner::delete_registry_key("HKEY_CURRENT_USER\\Software\\JetBrains"),
        "reg delete \"HKEY_CURRENT_USER\\Software\\JetBrains\" /f"
    );
    assert_eq!(
        JetBrainsCleaner::clear_windows_registry(Platform::Windows),
        vec![
            "reg delete \"HKEY_CURRENT_USER\\Software\\JavaSoft\" /f",
            "reg delete \"HKEY_CURRENT_USER\\Software\\JetBrains\" /f",
        ]
    );
    assert!(JetBrainsCleaner::clear_windows_registry(Platform::Linux).is_empty());
    assert_eq!(JetBrainsCleaner::EDITOR_CLOSE_WAIT_MS, 1500);
}

#[test]
fn closed_if_the_command_ran_and_nothing_runs() {
    assert!(JetBrainsCleaner::kill_jetbrains_process(true, false));
    assert!(!JetBrainsCleaner::kill_jetbrains_process(true, true));
    assert!(!JetBrainsCleaner::kill_jetbrains_process(false, false));
}

#[test]
fn the_directories_of_the_family() {
    let paths = JetBrainsCleaner::get_jetbrains_paths(
        "/h/.config/JetBrains",
        "/h/.cache/JetBrains",
        "/h/.augment",
        Platform::Linux,
    );
    assert_eq!(paths.len(), 21);
    assert_eq!(paths[0], "/h/.config/JetBrains/IntelliJIdea");
    assert_eq!(paths[1], "/h/.cache/JetBrains/IntelliJIdea");
    assert_eq!(paths[2], "/h/.config/JetBrains/PyCharm");
    assert_eq!(paths[19], "/h/.cache/JetBrains/AndroidStudio");
    assert_eq!(paths[20], "/h/.augment");
    let paths = JetBrainsCleaner::get_jetbrains_paths("A\\JetBrains", "L\\JetBrains", "A\\.augment", Platform::Windows);
    assert_eq!(paths[0], "A\\JetBrains\\IntelliJIdea");
}

#[test]
fn an_ide_that_runs_stops_the_clearing() {
    let result = JetBrainsCleaner::clean_jetbrains(false, true, &vec![outcome("/a/JetBrains", true)]);
    assert!(!result.success);
    assert!(!result.registry_cleared);
    assert!(result.cleared_paths.is_empty());
    assert_eq!(result.jetbrains_dir, "");
    assert_eq!(result.augment_dir, "");
    assert_eq!(result.error, Some("无法关闭 JetBrains IDE，请手动关闭后重试".to_string()));
}

#[test]
fn what_was_cleared_is_listed_and_named() {
    let result = JetBrainsCleaner::clean_jetbrains(
        true,
        false,
        &vec![
            outcome("/h/.config/JetBrains/PyCharm", true),
            outcome("/h/.cache/JETBRAINS/CLion", true),
            outcome("/h/.cache/JetBrains/Rider", false),
            outcome("/h/.augment", true),
            outcome("/h/jetbrains/.augment", true),
            outcome("/h/else", true),
        ],
    );
    assert!(result.success);
    assert!(!result.registry_cleared);
    assert_eq!(
        result.cleared_paths,
        vec![
            "/h/.config/JetBrains/PyCharm",
            "/h/.cache/JETBRAINS/CLion",
            "/h/.augment",
            "/h/jetbrains/.augment",
            "/h/else",
        ]
    );
    assert_eq!(result.jetbrains_dir, "/h/jetbrains/.augment");
    assert_eq!(result.augment_dir, "/h/.augment");
    assert_eq!(result.error, None);
}

#[test]
fn nothing_cleared_is_a_failure_unless_the_registry_was() {
    let result = JetBrainsCleaner::clean_jetbrains(true, false, &vec![outcome("/x", false)]);
    assert!(!result.success);
    assert_eq!(result.error, Some("没有成功清理任何项目".to_string()));
    let result = JetBrainsCleaner::clean_jetbrains(true, true, &vec![]);
    assert!(result.success);
    assert!(result.registry_cleared);
    assert_eq!(result.error, None);
    assert!(result.cleared_paths.is_empty());
}
