//! The configuration documents that are written afresh after a scrub.

use crate::error::AugmentError;
use crate::filesystem::operations::PathEntry;
use crate::idgen::AugmentConfig;
use crate::clock::Timestamp;
use crate::json::{ArrayBuilder, JsonTree, JsonValue, ObjectBuilder};
use crate::text::{chars_of, contains_text, is_substring, lower, signed_decimal};
use vstd::prelude::*;

verus! {

/// The kind of a configuration file.
#[derive(Debug, Clone, Copy, PartialEq, Eq, Structural)]
pub enum ConfigFileType {
    /// The state of the plugin.
    State,
    /// The subscription.
    Subscription,
    /// The account.
    Account,
    /// Any other JSON configuration.
    Generic,
}

/// The machine on which the documents are made.
#[derive(Debug, Clone)]
pub struct PlatformInfo {
    pub os: String,
    pub arch: String,
}

/// What to put at a configuration path.
#[derive(Debug)]
pub enum Regeneration {
    /// Remove the directory that lies there, with all that is in it.
    RemoveDirectory,
    /// Write the document there.
    Write(JsonValue),
}

/// What to do at a configuration path: whether to back up first what lies
/// there, and what to put there.
#[derive(Debug)]
pub struct RegenerationStep {
    pub backup_first: bool,
    pub action: Regeneration,
}

/// The maker of configuration documents.
pub struct ConfigGenerator;

/// An object without members, to which members are added with `push`.
pub open spec fn no_members() -> Seq<(Seq<char>, JsonTree)> {
    Seq::empty()
}

/// The features that a state document switches on.
pub open spec fn feature_switches() -> JsonTree {
    JsonTree::Object(
        no_members().push(("codeCompletion"@, JsonTree::Bool(true))).push(
            ("chatAssistant"@, JsonTree::Bool(true)),
        ).push(("codeReview"@, JsonTree::Bool(true))),
    )
}

/// The state document of an identity.
pub open spec fn state_config_tree(identity: AugmentConfig) -> JsonTree {
    JsonTree::Object(
        no_members().push(("deviceId"@, JsonTree::Text(identity.device_id@))).push(
            ("userId"@, JsonTree::Text(identity.user_id@)),
        ).push(("sessionId"@, JsonTree::Text(identity.session_id@))).push(
            ("lastActivity"@, JsonTree::Number(signed_decimal(identity.trial_start_date.secs()))),
        ).push(
            (
                "settings"@,
                JsonTree::Object(
                    no_members().push(("theme"@, JsonTree::Text("dark"@))).push(
                        ("language"@, JsonTree::Text("en"@)),
                    ).push(("autoSave"@, JsonTree::Bool(true))),
                ),
            ),
        ).push(
            (
                "augment"@,
                JsonTree::Object(
                    no_members().push(("enabled"@, JsonTree::Bool(true))).push(
                        ("trialStartDate"@, JsonTree::Text(identity.trial_start_date.rfc3339())),
                    ).push(
                        ("trialEndDate"@, JsonTree::Text(identity.trial_end_date.rfc3339())),
                    ).push(
                        (
                            "trialCount"@,
                            JsonTree::Number(signed_decimal(identity.trial_count as int)),
                        ),
                    ).push(("features"@, feature_switches())),
                ),
            ),
        ).push(
            (
                "telemetry"@,
                JsonTree::Object(
                    no_members().push(("enabled"@, JsonTree::Bool(false))).push(
                        ("deviceId"@, JsonTree::Text(identity.device_id@)),
                    ).push(("sessionId"@, JsonTree::Text(identity.session_id@))),
                ),
            ),
        ),
    )
}

/// An array without items, to which items are added with `push`.
pub open spec fn no_items() -> Seq<JsonTree> {
    Seq::empty()
}

/// The subscription document of an identity.
pub open spec fn subscription_config_tree(identity: AugmentConfig) -> JsonTree {
    JsonTree::Object(
        no_members().push(
            (
                "subscription"@,
                JsonTree::Object(
                    no_members().push(("type"@, JsonTree::Text("trial"@))).push(
                        ("status"@, JsonTree::Text("active"@)),
                    ).push(("startDate"@, JsonTree::Text(identity.trial_start_date.rfc3339()))).push(
                        ("endDate"@, JsonTree::Text(identity.trial_end_date.rfc3339())),
                    ).push(("daysRemaining"@, JsonTree::Number(signed_decimal(14)))).push(
                        (
                            "features"@,
                            JsonTree::Array(
                                no_items().push(JsonTree::Text("code_completion"@)).push(
                                    JsonTree::Text("chat_assistant"@),
                                ).push(JsonTree::Text("code_review"@)).push(
                                    JsonTree::Text("refactoring"@),
                                ),
                            ),
                        ),
                    ),
                ),
            ),
        ).push(
            (
                "user"@,
                JsonTree::Object(
                    no_members().push(("id"@, JsonTree::Text(identity.user_id@))).push(
                        ("email"@, JsonTree::Text(identity.email@)),
                    ).push(("deviceId"@, JsonTree::Text(identity.device_id@))).push(
                        (
                            "registrationDate"@,
                            JsonTree::Text(identity.trial_start_date.rfc3339()),
                        ),
                    ),
                ),
            ),
        ).push(
            (
                "billing"@,
                JsonTree::Object(
                    no_members().push(("currency"@, JsonTree::Text("USD"@))).push(
                        ("nextBillingDate"@, JsonTree::Null),
                    ).push(("paymentMethod"@, JsonTree::Null)),
                ),
            ),
        ).push(
            (
                "usage"@,
                JsonTree::Object(
                    no_members().push(("requestsThisMonth"@, JsonTree::Number(signed_decimal(0)))).push(
                        ("requestsTotal"@, JsonTree::Number(signed_decimal(0))),
                    ).push(("lastRequestDate"@, JsonTree::Null)),
                ),
            ),
        ),
    )
}

/// The account document of an identity, made on a machine that runs the
/// operating system `os`.
pub open spec fn account_config_tree(identity: AugmentConfig, os: Seq<char>) -> JsonTree {
    JsonTree::Object(
        no_members().push(
            (
                "account"@,
                JsonTree::Object(
                    no_members().push(("id"@, JsonTree::Text(identity.user_id@))).push(
                        ("email"@, JsonTree::Text(identity.email@)),
                    ).push(
                        ("displayName"@, JsonTree::Text("User_"@ + identity.user_id@.take(8))),
                    ).push(("avatar"@, JsonTree::Null)).push(
                        ("createdAt"@, JsonTree::Text(identity.trial_start_date.rfc3339())),
                    ).push(("lastLoginAt"@, JsonTree::Text(identity.trial_start_date.rfc3339()))),
                ),
            ),
        ).push(
            (
                "device"@,
                JsonTree::Object(
                    no_members().push(("id"@, JsonTree::Text(identity.device_id@))).push(
                        ("name"@, JsonTree::Text("Development Machine"@)),
                    ).push(("type"@, JsonTree::Text("desktop"@))).push(
                        ("os"@, JsonTree::Text(os)),
                    ).push(("registeredAt"@, JsonTree::Text(identity.trial_start_date.rfc3339()))),
                ),
            ),
        ).push(
            (
                "session"@,
                JsonTree::Object(
                    no_members().push(("id"@, JsonTree::Text(identity.session_id@))).push(
                        ("startedAt"@, JsonTree::Text(identity.trial_start_date.rfc3339())),
                    ).push(("expiresAt"@, JsonTree::Text(identity.trial_end_date.rfc3339()))).push(
                        ("isActive"@, JsonTree::Bool(true)),
                    ),
                ),
            ),
        ).push(
            (
                "preferences"@,
                JsonTree::Object(
                    no_members().push(("notifications"@, JsonTree::Bool(true))).push(
                        ("analytics"@, JsonTree::Bool(false)),
                    ).push(("autoUpdate"@, JsonTree::Bool(true))).push(
                        ("theme"@, JsonTree::Text("system"@)),
                    ),
                ),
            ),
        ).push(
            (
                "trial"@,
                JsonTree::Object(
                    no_members().push(("isActive"@, JsonTree::Bool(true))).push(
                        ("startDate"@, JsonTree::Text(identity.trial_start_date.rfc3339())),
                    ).push(("endDate"@, JsonTree::Text(identity.trial_end_date.rfc3339()))).push(
                        ("daysUsed"@, JsonTree::Number(signed_decimal(0))),
                    ).push(
                        (
                            "resetCount"@,
                            JsonTree::Number(signed_decimal(identity.trial_count as int)),
                        ),
                    ),
                ),
            ),
        ),
    )
}

/// The instants of a history as an array of RFC 3339 texts.
pub open spec fn history_tree(history: Seq<Timestamp>) -> JsonTree {
    JsonTree::Array(Seq::new(history.len(), |i: int| JsonTree::Text(history[i].rfc3339())))
}

/// The generic document of an identity, made on the machine given.
pub open spec fn generic_config_tree(identity: AugmentConfig, os: Seq<char>, arch: Seq<char>) -> JsonTree {
    JsonTree::Object(
        no_members().push(("version"@, JsonTree::Text("2.0"@))).push(
            ("deviceId"@, JsonTree::Text(identity.device_id@)),
        ).push(("userId"@, JsonTree::Text(identity.user_id@))).push(
            ("email"@, JsonTree::Text(identity.email@)),
        ).push(("sessionId"@, JsonTree::Text(identity.session_id@))).push(
            ("timestamp"@, JsonTree::Text(identity.trial_start_date.rfc3339())),
        ).push(
            (
                "trial"@,
                JsonTree::Object(
                    no_members().push(("active"@, JsonTree::Bool(true))).push(
                        ("startDate"@, JsonTree::Text(identity.trial_start_date.rfc3339())),
                    ).push(("endDate"@, JsonTree::Text(identity.trial_end_date.rfc3339()))).push(
                        ("count"@, JsonTree::Number(signed_decimal(identity.trial_count as int))),
                    ),
                ),
            ),
        ).push(
            (
                "features"@,
                JsonTree::Object(
                    no_members().push(("augment"@, JsonTree::Bool(true))).push(
                        ("premium"@, JsonTree::Bool(false)),
                    ),
                ),
            ),
        ).push(
            (
                "metadata"@,
                JsonTree::Object(
                    no_members().push(("platform"@, JsonTree::Text(os))).push(
                        ("arch"@, JsonTree::Text(arch)),
                    ).push(("resetHistory"@, history_tree(identity.reset_history@))),
                ),
            ),
        ),
    )
}

/// The settings that an identity gives to VS Code.
pub open spec fn vscode_config_tree(identity: AugmentConfig) -> JsonTree {
    JsonTree::Object(
        no_members().push(("augment.deviceId"@, JsonTree::Text(identity.device_id@))).push(
            ("augment.userId"@, JsonTree::Text(identity.user_id@)),
        ).push(("augment.sessionId"@, JsonTree::Text(identity.session_id@))).push(
            ("augment.email"@, JsonTree::Text(identity.email@)),
        ).push(
            (
                "augment.trial"@,
                JsonTree::Object(
                    no_members().push(
                        ("startDate"@, JsonTree::Text(identity.trial_start_date.rfc3339())),
                    ).push(("endDate"@, JsonTree::Text(identity.trial_end_date.rfc3339()))).push(
                        ("isActive"@, JsonTree::Bool(true)),
                    ),
                ),
            ),
        ).push(("augment.features"@, feature_switches())).push(
            (
                "augment.telemetry"@,
                JsonTree::Object(
                    no_members().push(("enabled"@, JsonTree::Bool(false))).push(
                        ("deviceId"@, JsonTree::Text(identity.device_id@)),
                    ),
                ),
            ),
        ),
    )
}

/// The settings that an identity gives to Cursor.
pub open spec fn cursor_config_tree(identity: AugmentConfig) -> JsonTree {
    JsonTree::Object(
        no_members().push(("cursor.deviceId"@, JsonTree::Text(identity.device_id@))).push(
            ("cursor.userId"@, JsonTree::Text(identity.user_id@)),
        ).push(("cursor.sessionId"@, JsonTree::Text(identity.session_id@))).push(
            ("cursor.email"@, JsonTree::Text(identity.email@)),
        ).push(
            (
                "cursor.trial"@,
                JsonTree::Object(
                    no_members().push(
                        ("startDate"@, JsonTree::Text(identity.trial_start_date.rfc3339())),
                    ).push(("endDate"@, JsonTree::Text(identity.trial_end_date.rfc3339()))).push(
                        ("isActive"@, JsonTree::Bool(true)),
                    ),
                ),
            ),
        ).push(
            (
                "cursor.ai"@,
                JsonTree::Object(
                    no_members().push(("enabled"@, JsonTree::Bool(true))).push(
                        ("model"@, JsonTree::Text("gpt-4"@)),
                    ).push(("maxTokens"@, JsonTree::Number(signed_decimal(4096)))),
                ),
            ),
        ).push(
            (
                "cursor.privacy"@,
                JsonTree::Object(
                    no_members().push(("telemetry"@, JsonTree::Bool(false))).push(
                        ("analytics"@, JsonTree::Bool(false)),
                    ),
                ),
            ),
        ),
    )
}

/// The kind of the configuration file at a path whose lowercase form is
/// `lowered`: the first of `state`, `subscription` and `account` that the
/// path holds decides, and a path that holds none is generic.
pub open spec fn config_type_of_lowered(lowered: Seq<char>) -> ConfigFileType {
    if is_substring(lowered, "state"@) {
        ConfigFileType::State
    } else if is_substring(lowered, "subscription"@) {
        ConfigFileType::Subscription
    } else if is_substring(lowered, "account"@) {
        ConfigFileType::Account
    } else {
        ConfigFileType::Generic
    }
}

impl ConfigGenerator {
    /// The features that a state document switches on.
    fn feature_switches() -> (value: JsonValue)
        ensures
            value@ == feature_switches(),
    {
        ObjectBuilder::new().with("codeCompletion", JsonValue::Bool(true)).with(
            "chatAssistant",
            JsonValue::Bool(true),
        ).with("codeReview", JsonValue::Bool(true)).build()
    }

    /// The state document of an identity.
    pub fn create_state_config(account_config: &AugmentConfig) -> (outcome: Result<
        JsonValue,
        AugmentError,
    >)
        ensures
            outcome matches Ok(document) && document@ == state_config_tree(*account_config),
    {
        let start = account_config.trial_start_date.to_rfc3339();
        let end = account_config.trial_end_date.to_rfc3339();
        let settings = ObjectBuilder::new().with_text("theme", "dark").with_text(
            "language",
            "en",
        ).with("autoSave", JsonValue::Bool(true)).build();
        let augment = ObjectBuilder::new().with("enabled", JsonValue::Bool(true)).with_text(
            "trialStartDate",
            start.as_str(),
        ).with_text("trialEndDate", end.as_str()).with(
            "trialCount",
            JsonValue::integer(account_config.trial_count as i64),
        ).with("features", Self::feature_switches()).build();
        let telemetry = ObjectBuilder::new().with("enabled", JsonValue::Bool(false)).with_text(
            "deviceId",
            account_config.device_id.as_str(),
        ).with_text("sessionId", account_config.session_id.as_str()).build();
        let document = ObjectBuilder::new().with_text(
            "deviceId",
            account_config.device_id.as_str(),
        ).with_text("userId", account_config.user_id.as_str()).with_text(
            "sessionId",
            account_config.session_id.as_str(),
        ).with("lastActivity", JsonValue::integer(account_config.trial_start_date.timestamp())).with(
            "settings",
            settings,
        ).with("augment", augment).with("telemetry", telemetry).build();
        Ok(document)
    }

    /// The subscription document of an identity.
    pub fn create_subscription_config(account_config: &AugmentConfig) -> (outcome: Result<
        JsonValue,
        AugmentError,
    >)
        ensures
            outcome matches Ok(document) && document@ == subscription_config_tree(*account_config),
    {
        let start = account_config.trial_start_date.to_rfc3339();
        let end = account_config.trial_end_date.to_rfc3339();
        let features = ArrayBuilder::new().with_text("code_completion").with_text(
            "chat_assistant",
        ).with_text("code_review").with_text("refactoring").build();
        let subscription = ObjectBuilder::new().with_text("type", "trial").with_text(
            "status",
            "active",
        ).with_text("startDate", start.as_str()).with_text("endDate", end.as_str()).with(
            "daysRemaining",
            JsonValue::integer(14),
        ).with("features", features).build();
        let user = ObjectBuilder::new().with_text("id", account_config.user_id.as_str()).with_text(
            "email",
            account_config.email.as_str(),
        ).with_text("deviceId", account_config.device_id.as_str()).with_text(
            "registrationDate",
            start.as_str(),
        ).build();
        let billing = ObjectBuilder::new().with_text("currency", "USD").with(
            "nextBillingDate",
            JsonValue::Null,
        ).with("paymentMethod", JsonValue::Null).build();
        let usage = ObjectBuilder::new().with("requestsThisMonth", JsonValue::integer(0)).with(
            "requestsTotal",
            JsonValue::integer(0),
        ).with("lastRequestDate", JsonValue::Null).build();
        let document = ObjectBuilder::new().with("subscription", subscription).with(
            "user",
            user,
        ).with("billing", billing).with("usage", usage).build();
        Ok(document)
    }

    /// The account document of an identity, made on the machine given. An
    /// identity whose user identifier has fewer than eight characters has no
    /// display name and is refused as an argument that is not accepted.
    pub fn create_account_config(account_config: &AugmentConfig, platform: &PlatformInfo) -> (outcome:
        Result<JsonValue, AugmentError>)
        ensures
            match outcome {
                Ok(document) => account_config.user_id@.len() >= 8 && document@
                    == account_config_tree(*account_config, platform.os@),
                Err(error) => account_config.user_id@.len() < 8 && (
                error matches AugmentError::InvalidArgument { param, value } && param@ == "user_id"@
                    && value@ == account_config.user_id@),
            },
    {
        let id_chars = chars_of(account_config.user_id.as_str());
        if id_chars.len() < 8 {
            return Err(
                AugmentError::invalid_argument("user_id", account_config.user_id.as_str()),
            );
        }
        let mut display_name = "User_".to_owned();
        let mut i: usize = 0;
        while i < 8
            invariant
                i <= 8,
                id_chars@.len() >= 8,
                display_name@ == "User_"@ + id_chars@.take(i as int),
            decreases 8 - i,
        {
            display_name.push(id_chars[i]);
            assert(id_chars@.take(i + 1) == id_chars@.take(i as int).push(id_chars@[i as int]));
            i += 1;
        }
        let start = account_config.trial_start_date.to_rfc3339();
        let end = account_config.trial_end_date.to_rfc3339();
        let account = ObjectBuilder::new().with_text("id", account_config.user_id.as_str()).with_text(
            "email",
            account_config.email.as_str(),
        ).with_text("displayName", display_name.as_str()).with("avatar", JsonValue::Null).with_text(
            "createdAt",
            start.as_str(),
        ).with_text("lastLoginAt", start.as_str()).build();
        let device = ObjectBuilder::new().with_text(
            "id",
            account_config.device_id.as_str(),
        ).with_text("name", "Development Machine").with_text("type", "desktop").with_text(
            "os",
            platform.os.as_str(),
        ).with_text("registeredAt", start.as_str()).build();
        let session = ObjectBuilder::new().with_text(
            "id",
            account_config.session_id.as_str(),
        ).with_text("startedAt", start.as_str()).with_text("expiresAt", end.as_str()).with(
            "isActive",
            JsonValue::Bool(true),
        ).build();
        let preferences = ObjectBuilder::new().with("notifications", JsonValue::Bool(true)).with(
            "analytics",
            JsonValue::Bool(false),
        ).with("autoUpdate", JsonValue::Bool(true)).with_text("theme", "system").build();
        let trial = ObjectBuilder::new().with("isActive", JsonValue::Bool(true)).with_text(
            "startDate",
            start.as_str(),
        ).with_text("endDate", end.as_str()).with("daysUsed", JsonValue::integer(0)).with(
            "resetCount",
            JsonValue::integer(account_config.trial_count as i64),
        ).build();
        let document = ObjectBuilder::new().with("account", account).with("device", device).with(
            "session",
            session,
        ).with("preferences", preferences).with("trial", trial).build();
        Ok(document)
    }

    /// The instants of a history as an array of RFC 3339 texts.
    fn history_array(history: &Vec<Timestamp>) -> (value: JsonValue)
        ensures
            value@ == history_tree(history@),
    {
        let mut items: Vec<JsonValue> = Vec::new();
        let mut i: usize = 0;
        while i < history.len()
            invariant
                i <= history.len(),
                items@.len() == i,
                forall|k: int|
                    0 <= k < i ==> (#[trigger] items@[k])@ == JsonTree::Text(
                        history@[k].rfc3339(),
                    ),
            decreases history.len() - i,
        {
            let text = history[i].to_rfc3339();
            items.push(JsonValue::Text(text));
            i += 1;
        }
        let value = JsonValue::Array(items);
        assert(value@->Array_0 =~= history_tree(history@)->Array_0);
        value
    }

    /// The generic document of an identity, made on the machine given.
    pub fn create_generic_config(account_config: &AugmentConfig, platform: &PlatformInfo) -> (outcome:
        Result<JsonValue, AugmentError>)
        ensures
            outcome matches Ok(document) && document@ == generic_config_tree(
                *account_config,
                platform.os@,
                platform.arch@,
            ),
    {
        let start = account_config.trial_start_date.to_rfc3339();
        let end = account_config.trial_end_date.to_rfc3339();
        let trial = ObjectBuilder::new().with("active", JsonValue::Bool(true)).with_text(
            "startDate",
            start.as_str(),
        ).with_text("endDate", end.as_str()).with(
            "count",
            JsonValue::integer(account_config.trial_count as i64),
        ).build();
        let features = ObjectBuilder::new().with("augment", JsonValue::Bool(true)).with(
            "premium",
            JsonValue::Bool(false),
        ).build();
        let metadata = ObjectBuilder::new().with_text("platform", platform.os.as_str()).with_text(
            "arch",
            platform.arch.as_str(),
        ).with("resetHistory", Self::history_array(&account_config.reset_history)).build();
        let document = ObjectBuilder::new().with_text("version", "2.0").with_text(
            "deviceId",
            account_config.device_id.as_str(),
        ).with_text("userId", account_config.user_id.as_str()).with_text(
            "email",
            account_config.email.as_str(),
        ).with_text("sessionId", account_config.session_id.as_str()).with_text(
            "timestamp",
            start.as_str(),
        ).with("trial", trial).with("features", features).with("metadata", metadata).build();
        Ok(document)
    }

    /// The settings that an identity gives to VS Code.
    pub fn create_vscode_config(account_config: &AugmentConfig) -> (outcome: Result<
        JsonValue,
        AugmentError,
    >)
        ensures
            outcome matches Ok(document) && document@ == vscode_config_tree(*account_config),
    {
        let start = account_config.trial_start_date.to_rfc3339();
        let end = account_config.trial_end_date.to_rfc3339();
        let trial = ObjectBuilder::new().with_text("startDate", start.as_str()).with_text(
            "endDate",
            end.as_str(),
        ).with("isActive", JsonValue::Bool(true)).build();
        let telemetry = ObjectBuilder::new().with("enabled", JsonValue::Bool(false)).with_text(
            "deviceId",
            account_config.device_id.as_str(),
        ).build();
        let document = ObjectBuilder::new().with_text(
            "augment.deviceId",
            account_config.device_id.as_str(),
        ).with_text("augment.userId", account_config.user_id.as_str()).with_text(
            "augment.sessionId",
            account_config.session_id.as_str(),
        ).with_text("augment.email", account_config.email.as_str()).with(
            "augment.trial",
            trial,
        ).with("augment.features", Self::feature_switches()).with(
            "augment.telemetry",
            telemetry,
        ).build();
        Ok(document)
    }

    /// The settings that an identity gives to Cursor.
    pub fn create_cursor_config(account_config: &AugmentConfig) -> (outcome: Result<
        JsonValue,
        AugmentError,
    >)
        ensures
            outcome matches Ok(document) && document@ == cursor_config_tree(*account_config),
    {
        let start = account_config.trial_start_date.to_rfc3339();
        let end = account_config.trial_end_date.to_rfc3339();
        let trial = ObjectBuilder::new().with_text("startDate", start.as_str()).with_text(
            "endDate",
            end.as_str(),
        ).with("isActive", JsonValue::Bool(true)).build();
        let assistant = ObjectBuilder::new().with("enabled", JsonValue::Bool(true)).with_text(
            "model",
            "gpt-4",
        ).with("maxTokens", JsonValue::integer(4096)).build();
        let privacy = ObjectBuilder::new().with("telemetry", JsonValue::Bool(false)).with(
            "analytics",
            JsonValue::Bool(false),
        ).build();
        let document = ObjectBuilder::new().with_text(
            "cursor.deviceId",
            account_config.device_id.as_str(),
        ).with_text("cursor.userId", account_config.user_id.as_str()).with_text(
            "cursor.sessionId",
            account_config.session_id.as_str(),
        ).with_text("cursor.email", account_config.email.as_str()).with("cursor.trial", trial).with(
            "cursor.ai",
            assistant,
        ).with("cursor.privacy", privacy).build();
        Ok(document)
    }

    /// The document of the kind asked for, for an identity, made on the
    /// machine given.
    pub fn create_config_by_type(
        file_type: ConfigFileType,
        account_config: &AugmentConfig,
        platform: &PlatformInfo,
    ) -> (outcome: Result<JsonValue, AugmentError>)
        ensures
            match file_type {
                ConfigFileType::State => outcome matches Ok(document) && document@
                    == state_config_tree(*account_config),
                ConfigFileType::Subscription => outcome matches Ok(document) && document@
                    == subscription_config_tree(*account_config),
                ConfigFileType::Account => match outcome {
                    Ok(document) => account_config.user_id@.len() >= 8 && document@
                        == account_config_tree(*account_config, platform.os@),
                    Err(error) => account_config.user_id@.len() < 8 && error is InvalidArgument,
                },
                ConfigFileType::Generic => outcome matches Ok(document) && document@
                    == generic_config_tree(*account_config, platform.os@, platform.arch@),
            },
    {
        match file_type {
            ConfigFileType::State => Self::create_state_config(account_config),
            ConfigFileType::Subscription => Self::create_subscription_config(account_config),
            ConfigFileType::Account => Self::create_account_config(account_config, platform),
            ConfigFileType::Generic => Self::create_generic_config(account_config, platform),
        }
    }

    /// The kind of the configuration file at a path whose lowercase form is
    /// `lowered`.
    pub fn infer_config_type_from_lowered(lowered: &str) -> (file_type: ConfigFileType)
        ensures
            file_type == config_type_of_lowered(lowered@),
    {
        if contains_text(lowered, "state") {
            ConfigFileType::State
        } else if contains_text(lowered, "subscription") {
            ConfigFileType::Subscription
        } else if contains_text(lowered, "account") {
            ConfigFileType::Account
        } else {
            ConfigFileType::Generic
        }
    }

    /// The kind of the configuration file at a path: the first of `state`,
    /// `subscription` and `account` that the path holds, in any case,
    /// decides, and a path that holds none is generic.
    pub fn infer_config_type_from_path(path: &str) -> (file_type: ConfigFileType)
        ensures
            file_type == config_type_of_lowered(lower(path@)),
    {
        let lowered = path.to_lowercase();
        Self::infer_config_type_from_lowered(lowered.as_str())
    }

    /// Whether a run with the given options needs a fresh identity: it does
    /// if an editor with a store is selected.
    pub fn needs_identity(options: &crate::types::CleanOptions) -> (needed: bool)
        ensures
            needed == (options.clean_vscode || options.clean_cursor || options.clean_void),
    {
        options.clean_vscode || options.clean_cursor || options.clean_void
    }

    /// What to do at a configuration path. What lies there is backed up
    /// first. A directory is removed; anything else is replaced by the
    /// document of the kind that the path names, in any case, for the
    /// identity given.
    pub fn regenerate_config_file(entry: &PathEntry, identity: &AugmentConfig, platform: &PlatformInfo) -> (outcome:
        Result<RegenerationStep, AugmentError>)
        ensures
            match outcome {
                Ok(step) => {
                    &&& step.backup_first == entry.exists
                    &&& if entry.exists && entry.is_dir {
                        step.action is RemoveDirectory
                    } else {
                        step.action matches Regeneration::Write(document) && Self::is_document_for(
                            document@,
                            config_type_of_lowered(lower(entry.path@)),
                            *identity,
                            *platform,
                        )
                    }
                },
                Err(error) => {
                    &&& !(entry.exists && entry.is_dir)
                    &&& config_type_of_lowered(lower(entry.path@)) == ConfigFileType::Account
                    &&& identity.user_id@.len() < 8
                    &&& error is InvalidArgument
                },
            },
    {
        if entry.exists && entry.is_dir {
            return Ok(RegenerationStep { backup_first: true, action: Regeneration::RemoveDirectory });
        }
        let file_type = Self::infer_config_type_from_path(entry.path.as_str());
        match Self::create_config_by_type(file_type, identity, platform) {
            Ok(document) => Ok(
                RegenerationStep { backup_first: entry.exists, action: Regeneration::Write(document) },
            ),
            Err(error) => Err(error),
        }
    }

    /// Whether `document` is the document of the kind given for an identity,
    /// made on the machine given.
    pub open spec fn is_document_for(
        document: JsonTree,
        file_type: ConfigFileType,
        identity: AugmentConfig,
        platform: PlatformInfo,
    ) -> bool {
        match file_type {
            ConfigFileType::State => document == state_config_tree(identity),
            ConfigFileType::Subscription => document == subscription_config_tree(identity),
            ConfigFileType::Account => identity.user_id@.len() >= 8 && document
                == account_config_tree(identity, platform.os@),
            ConfigFileType::Generic => document == generic_config_tree(
                identity,
                platform.os@,
                platform.arch@,
            ),
        }
    }
}

} // verus!
