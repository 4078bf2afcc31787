use augment_reset::clock::Timestamp;
use augment_reset::types::{
    AppConfig, BackupResult, CleanOptions, DatabaseCleanResult, DatabasePath, EditorType,
    OperationResult,
};
use augment_reset::{get_app_info, APP_DESCRIPTION, APP_NAME, VERSION};

#[test]
fn test_app_info() {
    let info = get_app_info();
    assert_eq!(info.name, "augment-reset");
    assert!(!info.version.is_empty());
    assert!(!info.description.is_empty());
}

#[test]
fn test_constants() {
    assert!(!VERSION.is_empty());
    assert!(!APP_NAME.is_empty());
    assert!(!APP_DESCRIPTION.is_empty());
}

#[test]
fn test_editor_type_display() {
    assert_eq!(EditorType::VSCode.to_string(), "VS Code");
    assert_eq!(EditorType::Cursor.to_string(), "Cursor");
    assert_eq!(EditorType::JetBrains.to_string(), "JetBrains");
    assert_eq!(EditorType::Void.to_string(), "Void");
}

#[test]
fn test_database_clean_result() {
    let success_result = DatabaseCleanResult::success(
        "test.db".to_string(),
        Some("backup.db".to_string()),
        5,
        EditorType::VSCode,
    );

    assert!(success_result.success);
    assert_eq!(success_result.deleted_records, 5);
    assert!(success_result.backup_path.is_some());
    assert!(success_result.error.is_none());

    let failure_result = DatabaseCleanResult::failure(
        "test.db".to_string(),
        "Test error".to_string(),
        EditorType::Cursor,
    );

    assert!(!failure_result.success);
    assert_eq!(failure_result.deleted_records, 0);
    assert!(failure_result.backup_path.is_none());
    assert!(failure_result.error.is_some());
}

#[test]
fn test_clean_options() {
    let options = CleanOptions::default();

    assert!(options.clean_vscode);
    assert!(options.clean_cursor);
    assert!(options.clean_jetbrains);
    assert!(options.clean_void);
    assert!(options.backup);
    assert!(options.interactive);
    assert!(!options.force);

    assert!(options.has_any_editor_selected());

    let selected_editors = options.get_selected_editors();
    assert_eq!(selected_editors.len(), 4);
}

#[test]
fn app_info_holds_every_field() {
    let info = get_app_info();
    assert_eq!(info.version, "2.2.0");
    assert_eq!(info.description, "Augment Free Trail - Augment IDE清理工具 (Rust版本)");
    assert_eq!(info.author, "oliyo");
    assert_eq!(info.website, "https://www.oliyo.com");
    assert_eq!(info.public_account, "趣惠赚");
}

#[test]
fn selected_editors_keep_their_order() {
    let mut options = CleanOptions::default();
    options.clean_cursor = false;
    assert_eq!(
        options.get_selected_editors(),
        vec![EditorType::VSCode, EditorType::JetBrains, EditorType::Void]
    );
    options.clean_vscode = false;
    options.clean_jetbrains = false;
    options.clean_void = false;
    assert!(!options.has_any_editor_selected());
    assert!(options.get_selected_editors().is_empty());
}

#[test]
fn database_path_keeps_what_it_is_given() {
    let target = DatabasePath::new(EditorType::Void, "/tmp/state.vscdb".to_string(), true);
    assert_eq!(target.editor_type, EditorType::Void);
    assert_eq!(target.path, "/tmp/state.vscdb");
    assert!(target.exists);
}

#[test]
fn clean_result_records_every_field() {
    let ok = DatabaseCleanResult::success("a.db".to_string(), None, 7, EditorType::Void);
    assert_eq!(ok.db_path, "a.db");
    assert_eq!(ok.backup_path, None);
    assert_eq!(ok.editor_type, "Void");
    let failed =
        DatabaseCleanResult::failure("b.db".to_string(), "why".to_string(), EditorType::JetBrains);
    assert_eq!(failed.db_path, "b.db");
    assert_eq!(failed.error, Some("why".to_string()));
    assert_eq!(failed.editor_type, "JetBrains");
}

#[test]
fn backup_result_records_every_field() {
    let ok = BackupResult::success("a.bak".to_string(), "a".to_string());
    assert!(ok.success);
    assert_eq!(ok.backup_path, "a.bak");
    assert_eq!(ok.original_path, "a");
    assert_eq!(ok.error, None);
    let failed = BackupResult::failure("a".to_string(), "no".to_string());
    assert!(!failed.success);
    assert_eq!(failed.backup_path, "");
    assert_eq!(failed.original_path, "a");
    assert_eq!(failed.error, Some("no".to_string()));
}

#[test]
fn operation_result_records_every_field() {
    let ok = OperationResult::success(5u32);
    assert!(ok.success);
    assert_eq!(ok.data, Some(5));
    assert_eq!(ok.error, None);
    let failed: OperationResult<u32> = OperationResult::failure("no".to_string());
    assert!(!failed.success);
    assert_eq!(failed.data, None);
    assert_eq!(failed.error, Some("no".to_string()));
}

#[test]
fn app_config_defaults() {
    let config = AppConfig::default();
    assert_eq!(config.version, "2.2.0");
    assert_eq!(config.backup_retention_days, 30);
    assert_eq!(config.editor_close_wait_ms, 2000);
    assert_eq!(config.log_file, "augment_reset.log");
}

#[test]
fn timestamps_are_clamped_into_the_supported_range() {
    let early = Timestamp::clamped(-5, 0);
    assert_eq!(early.timestamp(), 0);
    let late = Timestamp::clamped(i64::MAX, 2_000_000_000);
    assert_eq!(late.timestamp(), 253_402_300_799);
    assert_eq!(late.subsec_nanos(), 999_999_999);
    let plain = Timestamp::clamped(1_700_000_000, 123);
    assert_eq!(plain.timestamp(), 1_700_000_000);
    assert_eq!(plain.subsec_nanos(), 123);
}

#[test]
fn days_are_added_and_taken_away_in_seconds() {
    let t = Timestamp::clamped(1_000_000, 5);
    assert_eq!(t.plus_days(14).timestamp(), 1_000_000 + 14 * 86_400);
    assert_eq!(t.plus_days(14).subsec_nanos(), 5);
    assert_eq!(t.minus_days(1).timestamp(), 1_000_000 - 86_400);
    assert_eq!(t.minus_days(30).timestamp(), 0);
    assert_eq!(Timestamp::clamped(253_402_300_000, 0).plus_days(1).timestamp(), 253_402_300_799);
}

#[test]
fn earlier_instants_come_before_later_ones() {
    let a = Timestamp::clamped(10, 5);
    let b = Timestamp::clamped(10, 6);
    let c = Timestamp::clamped(11, 0);
    assert!(a.is_before(&b));
    assert!(b.is_before(&c));
    assert!(!b.is_before(&a));
    assert!(!a.is_before(&a));
    assert!(a < b && b < c);
}

#[test]
fn instants_are_rendered_by_the_calendar() {
    assert_eq!(Timestamp::clamped(0, 0).to_rfc3339(), "1970-01-01T00:00:00+00:00");
    assert_eq!(Timestamp::clamped(1_700_000_000, 0).to_rfc3339(), "2023-11-14T22:13:20+00:00");
    assert_eq!(Timestamp::clamped(0, 0).backup_stamp(), "19700101_000000_000");
    assert_eq!(
        Timestamp::clamped(1_700_000_000, 123_000_000).backup_stamp(),
        "20231114_221320_123"
    );
}

#[test]
fn the_clock_reads_a_time_after_the_year_2020() {
    assert!(Timestamp::now().timestamp() > 1_577_836_800);
}
