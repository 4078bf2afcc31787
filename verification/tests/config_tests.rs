use augment_reset::clock::Timestamp;
use augment_reset::config::{
    ConfigFileType, ConfigGenerator, PlatformInfo, Regeneration,
};
use augment_reset::filesystem::PathEntry;
use augment_reset::idgen::{AugmentConfig, IdGenerator};
use augment_reset::json::JsonValue;
use augment_reset::types::CleanOptions;

fn identity() -> AugmentConfig {
    let start = Timestamp::clamped(1_700_000_000, 0);
    AugmentConfig {
        device_id: "d".repeat(64),
        user_id: "0123456789abcdef0123456789abcdef".to_string(),
        email: "user_a1b2c3@example.com".to_string(),
        session_id: "s".repeat(32),
        trial_start_date: start,
        trial_end_date: start.plus_days(14),
        trial_count: 3,
        reset_history: vec![start, Timestamp::clamped(0, 0)],
    }
}

fn platform() -> PlatformInfo {
    PlatformInfo { os: "linux".to_string(), arch: "x86_64".to_string() }
}

fn names(value: &JsonValue) -> Vec<String> {
    match value {
        JsonValue::Object(members) => members.iter().map(|m| m.0.clone()).collect(),
        _ => panic!("not an object"),
    }
}

fn text(value: &JsonValue, path: &[&str]) -> String {
    let mut current = value;
    for name in path {
        current = current.get(name).unwrap();
    }
    current.as_str().unwrap().to_string()
}

fn number(value: &JsonValue, path: &[&str]) -> String {
    let mut current = value;
    for name in path {
        current = current.get(name).unwrap();
    }
    match current {
        JsonValue::Number(digits) => digits.clone(),
        _ => panic!("not a number"),
    }
}

#[test]
fn test_create_state_config() {
    let account_config = IdGenerator::generate_account_config().unwrap();
    let config = ConfigGenerator::create_state_config(&account_config).unwrap();

    assert!(config.get("deviceId").unwrap().is_string());
    assert!(config.get("userId").unwrap().is_string());
    assert!(config.get("augment").unwrap().get("enabled").unwrap().as_bool().unwrap());
}

#[test]
fn test_create_subscription_config() {
    let account_config = IdGenerator::generate_account_config().unwrap();
    let config = ConfigGenerator::create_subscription_config(&account_config).unwrap();

    assert_eq!(config.get("subscription").unwrap().get("type").unwrap().as_str(), Some("trial"));
    assert_eq!(config.get("subscription").unwrap().get("status").unwrap().as_str(), Some("active"));
    assert!(config.get("user").unwrap().get("email").unwrap().is_string());
}

#[test]
fn test_infer_config_type() {
    assert_eq!(
        ConfigGenerator::infer_config_type_from_path("/path/to/state.json"),
        ConfigFileType::State
    );
    assert_eq!(
        ConfigGenerator::infer_config_type_from_path("/path/to/subscription.json"),
        ConfigFileType::Subscription
    );
    assert_eq!(
        ConfigGenerator::infer_config_type_from_path("/path/to/account.json"),
        ConfigFileType::Account
    );
    assert_eq!(
        ConfigGenerator::infer_config_type_from_path("/path/to/config.json"),
        ConfigFileType::Generic
    );
}

#[test]
fn the_kind_of_a_path_in_any_case_and_in_order() {
    assert_eq!(ConfigGenerator::infer_config_type_from_path("/X/STATE.JSON"), ConfigFileType::State);
    assert_eq!(
        ConfigGenerator::infer_config_type_from_path("/account/state.json"),
        ConfigFileType::State
    );
    assert_eq!(
        ConfigGenerator::infer_config_type_from_path("/account/Subscription"),
        ConfigFileType::Subscription
    );
    assert_eq!(ConfigGenerator::infer_config_type_from_path(""), ConfigFileType::Generic);
    assert_eq!(
        ConfigGenerator::infer_config_type_from_lowered("STATE"),
        ConfigFileType::Generic
    );
    assert_eq!(
        ConfigGenerator::infer_config_type_from_lowered("my account"),
        ConfigFileType::Account
    );
}

#[test]
fn the_state_document() {
    let id = identity();
    let doc = ConfigGenerator::create_state_config(&id).unwrap();
    assert_eq!(
        names(&doc),
        vec!["deviceId", "userId", "sessionId", "lastActivity", "settings", "augment", "telemetry"]
    );
    assert_eq!(text(&doc, &["deviceId"]), id.device_id);
    assert_eq!(text(&doc, &["userId"]), id.user_id);
    assert_eq!(text(&doc, &["sessionId"]), id.session_id);
    assert_eq!(number(&doc, &["lastActivity"]), "1700000000");
    assert_eq!(text(&doc, &["settings", "theme"]), "dark");
    assert_eq!(text(&doc, &["settings", "language"]), "en");
    assert_eq!(doc.get("settings").unwrap().get("autoSave").unwrap().as_bool(), Some(true));
    assert_eq!(text(&doc, &["augment", "trialStartDate"]), "2023-11-14T22:13:20+00:00");
    assert_eq!(text(&doc, &["augment", "trialEndDate"]), "2023-11-28T22:13:20+00:00");
    assert_eq!(number(&doc, &["augment", "trialCount"]), "3");
    assert_eq!(
        names(doc.get("augment").unwrap().get("features").unwrap()),
        vec!["codeCompletion", "chatAssistant", "codeReview"]
    );
    assert_eq!(doc.get("telemetry").unwrap().get("enabled").unwrap().as_bool(), Some(false));
    assert_eq!(text(&doc, &["telemetry", "deviceId"]), id.device_id);
    assert_eq!(text(&doc, &["telemetry", "sessionId"]), id.session_id);
}

#[test]
fn the_subscription_document() {
    let id = identity();
    let doc = ConfigGenerator::create_subscription_config(&id).unwrap();
    assert_eq!(names(&doc), vec!["subscription", "user", "billing", "usage"]);
    assert_eq!(text(&doc, &["subscription", "startDate"]), "2023-11-14T22:13:20+00:00");
    assert_eq!(text(&doc, &["subscription", "endDate"]), "2023-11-28T22:13:20+00:00");
    assert_eq!(number(&doc, &["subscription", "daysRemaining"]), "14");
    match doc.get("subscription").unwrap().get("features").unwrap() {
        JsonValue::Array(items) => {
            let texts: Vec<&str> = items.iter().map(|i| i.as_str().unwrap()).collect();
            assert_eq!(texts, vec!["code_completion", "chat_assistant", "code_review", "refactoring"]);
        }
        _ => panic!("not an array"),
    }
    assert_eq!(text(&doc, &["user", "id"]), id.user_id);
    assert_eq!(text(&doc, &["user", "email"]), id.email);
    assert_eq!(text(&doc, &["user", "deviceId"]), id.device_id);
    assert_eq!(text(&doc, &["user", "registrationDate"]), "2023-11-14T22:13:20+00:00");
    assert_eq!(text(&doc, &["billing", "currency"]), "USD");
    assert!(matches!(doc.get("billing").unwrap().get("nextBillingDate").unwrap(), JsonValue::Null));
    assert!(matches!(doc.get("billing").unwrap().get("paymentMethod").unwrap(), JsonValue::Null));
    assert_eq!(number(&doc, &["usage", "requestsThisMonth"]), "0");
    assert_eq!(number(&doc, &["usage", "requestsTotal"]), "0");
    assert!(matches!(doc.get("usage").unwrap().get("lastRequestDate").unwrap(), JsonValue::Null));
}

#[test]
fn the_account_document() {
    let id = identity();
    let doc = ConfigGenerator::create_account_config(&id, &platform()).unwrap();
    assert_eq!(names(&doc), vec!["account", "device", "session", "preferences", "trial"]);
    assert_eq!(text(&doc, &["account", "id"]), id.user_id);
    assert_eq!(text(&doc, &["account", "displayName"]), "User_01234567");
    assert!(matches!(doc.get("account").unwrap().get("avatar").unwrap(), JsonValue::Null));
    assert_eq!(text(&doc, &["account", "createdAt"]), "2023-11-14T22:13:20+00:00");
    assert_eq!(text(&doc, &["device", "id"]), id.device_id);
    assert_eq!(text(&doc, &["device", "name"]), "Development Machine");
    assert_eq!(text(&doc, &["device", "type"]), "desktop");
    assert_eq!(text(&doc, &["device", "os"]), "linux");
    assert_eq!(text(&doc, &["session", "id"]), id.session_id);
    assert_eq!(text(&doc, &["session", "expiresAt"]), "2023-11-28T22:13:20+00:00");
    assert_eq!(doc.get("preferences").unwrap().get("analytics").unwrap().as_bool(), Some(false));
    assert_eq!(text(&doc, &["preferences", "theme"]), "system");
    assert_eq!(number(&doc, &["trial", "daysUsed"]), "0");
    assert_eq!(number(&doc, &["trial", "resetCount"]), "3");
}

#[test]
fn a_short_user_identifier_has_no_account_document() {
    let mut id = identity();
    id.user_id = "1234567".to_string();
    match ConfigGenerator::create_account_config(&id, &platform()) {
        Err(error) => {
            assert_eq!(error.message(), "无效的参数: user_id = 1234567");
            assert_eq!(error.error_code(), 41);
        }
        Ok(_) => panic!("a document was made"),
    }
    id.user_id = "12345678".to_string();
    let doc = ConfigGenerator::create_account_config(&id, &platform()).unwrap();
    assert_eq!(text(&doc, &["account", "displayName"]), "User_12345678");
}

#[test]
fn the_generic_document() {
    let id = identity();
    let doc = ConfigGenerator::create_generic_config(&id, &platform()).unwrap();
    assert_eq!(
        names(&doc),
        vec![
            "version", "deviceId", "userId", "email", "sessionId", "timestamp", "trial", "features",
            "metadata"
        ]
    );
    assert_eq!(text(&doc, &["version"]), "2.0");
    assert_eq!(text(&doc, &["timestamp"]), "2023-11-14T22:13:20+00:00");
    assert_eq!(number(&doc, &["trial", "count"]), "3");
    assert_eq!(doc.get("features").unwrap().get("augment").unwrap().as_bool(), Some(true));
    assert_eq!(doc.get("features").unwrap().get("premium").unwrap().as_bool(), Some(false));
    assert_eq!(text(&doc, &["metadata", "platform"]), "linux");
    assert_eq!(text(&doc, &["metadata", "arch"]), "x86_64");
    match doc.get("metadata").unwrap().get("resetHistory").unwrap() {
        JsonValue::Array(items) => {
            let texts: Vec<&str> = items.iter().map(|i| i.as_str().unwrap()).collect();
            assert_eq!(texts, vec!["2023-11-14T22:13:20+00:00", "1970-01-01T00:00:00+00:00"]);
        }
        _ => panic!("not an array"),
    }
}

#[test]
fn the_settings_of_the_editors() {
    let id = identity();
    let vscode = ConfigGenerator::create_vscode_config(&id).unwrap();
    assert_eq!(
        names(&vscode),
        vec![
            "augment.deviceId", "augment.userId", "augment.sessionId", "augment.email",
            "augment.trial", "augment.features", "augment.telemetry"
        ]
    );
    assert_eq!(text(&vscode, &["augment.email"]), id.email);
    assert_eq!(text(&vscode, &["augment.trial", "endDate"]), "2023-11-28T22:13:20+00:00");
    assert_eq!(text(&vscode, &["augment.telemetry", "deviceId"]), id.device_id);
    let cursor = ConfigGenerator::create_cursor_config(&id).unwrap();
    assert_eq!(
        names(&cursor),
        vec![
            "cursor.deviceId", "cursor.userId", "cursor.sessionId", "cursor.email", "cursor.trial",
            "cursor.ai", "cursor.privacy"
        ]
    );
    assert_eq!(text(&cursor, &["cursor.ai", "model"]), "gpt-4");
    assert_eq!(number(&cursor, &["cursor.ai", "maxTokens"]), "4096");
    assert_eq!(cursor.get("cursor.privacy").unwrap().get("telemetry").unwrap().as_bool(), Some(false));
}

#[test]
fn documents_by_kind() {
    let id = identity();
    let by = |kind| ConfigGenerator::create_config_by_type(kind, &id, &platform()).unwrap();
    assert_eq!(names(&by(ConfigFileType::State))[0], "deviceId");
    assert_eq!(names(&by(ConfigFileType::Subscription))[0], "subscription");
    assert_eq!(names(&by(ConfigFileType::Account))[0], "account");
    assert_eq!(names(&by(ConfigFileType::Generic))[0], "version");
}

#[test]
fn an_identity_is_needed_for_editors_with_a_store() {
    let mut options = CleanOptions::default();
    assert!(ConfigGenerator::needs_identity(&options));
    options.clean_vscode = false;
    options.clean_cursor = false;
    assert!(ConfigGenerator::needs_identity(&options));
    options.clean_void = false;
    assert!(!ConfigGenerator::needs_identity(&options));
}

#[test]
fn what_is_put_at_a_configuration_path() {
    let id = identity();
    let directory = PathEntry { path: "/c/augment.augment".to_string(), exists: true, is_dir: true };
    let step = ConfigGenerator::regenerate_config_file(&directory, &id, &platform()).unwrap();
    assert!(step.backup_first);
    assert!(matches!(step.action, Regeneration::RemoveDirectory));
    let file = PathEntry { path: "/c/State.json".to_string(), exists: true, is_dir: false };
    let step = ConfigGenerator::regenerate_config_file(&file, &id, &platform()).unwrap();
    assert!(step.backup_first);
    match step.action {
        Regeneration::Write(document) => assert_eq!(names(&document)[0], "deviceId"),
        _ => panic!("nothing is written"),
    }
    let missing = PathEntry { path: "/c/other.json".to_string(), exists: false, is_dir: false };
    let step = ConfigGenerator::regenerate_config_file(&missing, &id, &platform()).unwrap();
    assert!(!step.backup_first);
    match step.action {
        Regeneration::Write(document) => assert_eq!(names(&document)[0], "version"),
        _ => panic!("nothing is written"),
    }
    let mut short = identity();
    short.user_id = "abc".to_string();
    let account = PathEntry { path: "/c/account.json".to_string(), exists: false, is_dir: false };
    assert!(ConfigGenerator::regenerate_config_file(&account, &short, &platform()).is_err());
}
