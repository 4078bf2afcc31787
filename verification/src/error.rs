//! The failures that the engine reports, with their messages and exit codes.

use crate::text::{concat2, concat3, decimal_digits, push_decimal};
use vstd::prelude::*;
use vstd::string::*;

verus! {

/// Everything that can go wrong while sanitizing. Failures of the store, of the
/// file system, of JSON handling and of the dialogue carry the text of the
/// underlying failure.
#[derive(Debug, Clone)]
pub enum AugmentError {
    Database(String),
    Filesystem(String),
    Json(String),
    Dialog(String),
    Config { message: String },
    EditorNotFound { editor: String },
    BackupFailed { path: String, reason: String },
    DatabaseNotFound { path: String },
    PermissionDenied { operation: String },
    UserCancelled,
    InvalidArgument { param: String, value: String },
    UnsupportedPlatform { feature: String },
    ProcessError { process: String, reason: String },
    Network(String),
    Timeout { operation: String, timeout_ms: u64 },
    Internal { message: String },
    Unknown(String),
}

impl AugmentError {
    /// The message of the failure.
    pub open spec fn message_text(self) -> Seq<char> {
        match self {
            AugmentError::Database(cause) => "数据库操作失败: "@ + cause@,
            AugmentError::Filesystem(cause) => "文件系统操作失败: "@ + cause@,
            AugmentError::Json(cause) => "JSON 序列化/反序列化失败: "@ + cause@,
            AugmentError::Dialog(cause) => "交互式输入失败: "@ + cause@,
            AugmentError::Config { message } => "配置错误: "@ + message@,
            AugmentError::EditorNotFound { editor } => "编辑器未找到: "@ + editor@,
            AugmentError::BackupFailed { path, reason } => "备份失败: "@ + path@ + " - "@
                + reason@,
            AugmentError::DatabaseNotFound { path } => "数据库文件不存在: "@ + path@,
            AugmentError::PermissionDenied { operation } => "权限不足: "@ + operation@,
            AugmentError::UserCancelled => "操作被用户取消"@,
            AugmentError::InvalidArgument { param, value } => "无效的参数: "@ + param@ + " = "@
                + value@,
            AugmentError::UnsupportedPlatform { feature } => "系统不支持: "@ + feature@,
            AugmentError::ProcessError { process, reason } => "进程操作失败: "@ + process@
                + " - "@ + reason@,
            AugmentError::Network(cause) => "网络错误: "@ + cause@,
            AugmentError::Timeout { operation, timeout_ms } => "超时错误: "@ + operation@
                + " 超时 ("@ + decimal_digits(timeout_ms as nat) + "ms)"@,
            AugmentError::Internal { message } => "内部错误: "@ + message@,
            AugmentError::Unknown(cause) => "未知错误: "@ + cause@,
        }
    }

    /// The exit code of the failure.
    pub open spec fn code(self) -> int {
        match self {
            AugmentError::Database(_) => 10,
            AugmentError::Filesystem(_) => 11,
            AugmentError::Json(_) => 12,
            AugmentError::Dialog(_) => 13,
            AugmentError::Config { .. } => 20,
            AugmentError::EditorNotFound { .. } => 21,
            AugmentError::BackupFailed { .. } => 22,
            AugmentError::DatabaseNotFound { .. } => 23,
            AugmentError::PermissionDenied { .. } => 30,
            AugmentError::UserCancelled => 40,
            AugmentError::InvalidArgument { .. } => 41,
            AugmentError::UnsupportedPlatform { .. } => 50,
            AugmentError::ProcessError { .. } => 51,
            AugmentError::Network(_) => 60,
            AugmentError::Timeout { .. } => 61,
            AugmentError::Internal { .. } => 90,
            AugmentError::Unknown(_) => 99,
        }
    }

    /// A configuration failure with the given message.
    pub fn config(message: &str) -> (e: AugmentError)
        ensures
            e matches AugmentError::Config { message: m } && m@ == message@,
    {
        AugmentError::Config { message: message.to_owned() }
    }

    /// The failure that an editor was not found.
    pub fn editor_not_found(editor: &str) -> (e: AugmentError)
        ensures
            e matches AugmentError::EditorNotFound { editor: m } && m@ == editor@,
    {
        AugmentError::EditorNotFound { editor: editor.to_owned() }
    }

    /// The failure to back up the file at `path`.
    pub fn backup_failed(path: &str, reason: &str) -> (e: AugmentError)
        ensures
            e matches AugmentError::BackupFailed { path: p, reason: r } && p@ == path@ && r@
                == reason@,
    {
        AugmentError::BackupFailed { path: path.to_owned(), reason: reason.to_owned() }
    }

    /// The failure that no store file exists at `path`.
    pub fn database_not_found(path: &str) -> (e: AugmentError)
        ensures
            e matches AugmentError::DatabaseNotFound { path: p } && p@ == path@,
    {
        AugmentError::DatabaseNotFound { path: path.to_owned() }
    }

    /// The failure that an operation was not permitted.
    pub fn permission_denied(operation: &str) -> (e: AugmentError)
        ensures
            e matches AugmentError::PermissionDenied { operation: o } && o@ == operation@,
    {
        AugmentError::PermissionDenied { operation: operation.to_owned() }
    }

    /// The failure that a parameter has a value that is not accepted.
    pub fn invalid_argument(param: &str, value: &str) -> (e: AugmentError)
        ensures
            e matches AugmentError::InvalidArgument { param: p, value: v } && p@ == param@ && v@
                == value@,
    {
        AugmentError::InvalidArgument { param: param.to_owned(), value: value.to_owned() }
    }

    /// The failure that the platform lacks a feature.
    pub fn unsupported_platform(feature: &str) -> (e: AugmentError)
        ensures
            e matches AugmentError::UnsupportedPlatform { feature: f } && f@ == feature@,
    {
        AugmentError::UnsupportedPlatform { feature: feature.to_owned() }
    }

    /// The failure of an operation on a process.
    pub fn process_error(process: &str, reason: &str) -> (e: AugmentError)
        ensures
            e matches AugmentError::ProcessError { process: p, reason: r } && p@ == process@
                && r@ == reason@,
    {
        AugmentError::ProcessError { process: process.to_owned(), reason: reason.to_owned() }
    }

    /// The failure that an operation took longer than `timeout_ms` milliseconds.
    pub fn timeout(operation: &str, timeout_ms: u64) -> (e: AugmentError)
        ensures
            e matches AugmentError::Timeout { operation: o, timeout_ms: t } && o@ == operation@
                && t == timeout_ms,
    {
        AugmentError::Timeout { operation: operation.to_owned(), timeout_ms }
    }

    /// An internal failure with the given message.
    pub fn internal(message: &str) -> (e: AugmentError)
        ensures
            e matches AugmentError::Internal { message: m } && m@ == message@,
    {
        AugmentError::Internal { message: message.to_owned() }
    }

    /// A failure of the file system, with the text of its cause.
    pub fn filesystem(cause: &str) -> (e: AugmentError)
        ensures
            e matches AugmentError::Filesystem(m) && m@ == cause@,
    {
        AugmentError::Filesystem(cause.to_owned())
    }

    /// A failure of the system, reported as an internal failure.
    pub fn system(message: &str) -> (e: AugmentError)
        ensures
            e matches AugmentError::Internal { message: m } && m@ == message@,
    {
        AugmentError::Internal { message: message.to_owned() }
    }

    /// Whether the failure leaves no way to go on: a missing permission, an
    /// unsupported platform or an internal failure.
    pub fn is_fatal(&self) -> (fatal: bool)
        ensures
            fatal == (self is PermissionDenied || self is UnsupportedPlatform || self is Internal),
    {
        match self {
            AugmentError::PermissionDenied { .. } => true,
            AugmentError::UnsupportedPlatform { .. } => true,
            AugmentError::Internal { .. } => true,
            _ => false,
        }
    }

    /// Whether the failure goes back to what the user did: a cancellation, an
    /// argument that is not accepted or an editor that is not there.
    pub fn is_user_error(&self) -> (user: bool)
        ensures
            user == (self is UserCancelled || self is InvalidArgument || self is EditorNotFound),
    {
        match self {
            AugmentError::UserCancelled => true,
            AugmentError::InvalidArgument { .. } => true,
            AugmentError::EditorNotFound { .. } => true,
            _ => false,
        }
    }

    /// The exit code of the failure.
    pub fn error_code(&self) -> (code: i32)
        ensures
            code == self.code(),
    {
        match self {
            AugmentError::Database(_) => 10,
            AugmentError::Filesystem(_) => 11,
            AugmentError::Json(_) => 12,
            AugmentError::Dialog(_) => 13,
            AugmentError::Config { .. } => 20,
            AugmentError::EditorNotFound { .. } => 21,
            AugmentError::BackupFailed { .. } => 22,
            AugmentError::DatabaseNotFound { .. } => 23,
            AugmentError::PermissionDenied { .. } => 30,
            AugmentError::UserCancelled => 40,
            AugmentError::InvalidArgument { .. } => 41,
            AugmentError::UnsupportedPlatform { .. } => 50,
            AugmentError::ProcessError { .. } => 51,
            AugmentError::Network(_) => 60,
            AugmentError::Timeout { .. } => 61,
            AugmentError::Internal { .. } => 90,
            AugmentError::Unknown(_) => 99,
        }
    }

    /// The message of the failure.
    pub fn message(&self) -> (text: String)
        ensures
            text@ == self.message_text(),
    {
        match self {
            AugmentError::Database(cause) => concat2("数据库操作失败: ", cause.as_str()),
            AugmentError::Filesystem(cause) => concat2("文件系统操作失败: ", cause.as_str()),
            AugmentError::Json(cause) => concat2("JSON 序列化/反序列化失败: ", cause.as_str()),
            AugmentError::Dialog(cause) => concat2("交互式输入失败: ", cause.as_str()),
            AugmentError::Config { message } => concat2("配置错误: ", message.as_str()),
            AugmentError::EditorNotFound { editor } => concat2("编辑器未找到: ", editor.as_str()),
            AugmentError::BackupFailed { path, reason } => {
                let mut text = concat3("备份失败: ", path.as_str(), " - ");
                text.append(reason.as_str());
                text
            },
            AugmentError::DatabaseNotFound { path } => concat2("数据库文件不存在: ", path.as_str()),
            AugmentError::PermissionDenied { operation } => concat2(
                "权限不足: ",
                operation.as_str(),
            ),
            AugmentError::UserCancelled => "操作被用户取消".to_owned(),
            AugmentError::InvalidArgument { param, value } => {
                let mut text = concat3("无效的参数: ", param.as_str(), " = ");
                text.append(value.as_str());
                text
            },
            AugmentError::UnsupportedPlatform { feature } => concat2(
                "系统不支持: ",
                feature.as_str(),
            ),
            AugmentError::ProcessError { process, reason } => {
                let mut text = concat3("进程操作失败: ", process.as_str(), " - ");
                text.append(reason.as_str());
                text
            },
            AugmentError::Network(cause) => concat2("网络错误: ", cause.as_str()),
            AugmentError::Timeout { operation, timeout_ms } => {
                let mut text = concat3("超时错误: ", operation.as_str(), " 超时 (");
                push_decimal(&mut text, *timeout_ms);
                text.append("ms)");
                text
            },
            AugmentError::Internal { message } => concat2("内部错误: ", message.as_str()),
            AugmentError::Unknown(cause) => concat2("未知错误: ", cause.as_str()),
        }
    }

    /// The failure `cause`, wrapped as an internal failure whose message is
    /// `context`, a colon and the message of `cause`.
    pub fn with_context(cause: AugmentError, context: &str) -> (e: AugmentError)
        ensures
            e matches AugmentError::Internal { message: m } && m@ == context@ + ": "@
                + cause.message_text(),
    {
        let detail = cause.message();
        AugmentError::Internal { message: concat3(context, ": ", detail.as_str()) }
    }
}

/// Results whose failure can be given a context.
pub trait ErrorContext<T> {
    /// The result itself if it is a success; else an internal failure whose
    /// message is the context that `f` returns, a colon and the message of
    /// the failure.
    fn with_context<F: FnOnce() -> String>(self, f: F) -> (r: Result<T, AugmentError>)
        requires
            f.requires(()),
    ;
}

impl<T> ErrorContext<T> for Result<T, AugmentError> {
    fn with_context<F: FnOnce() -> String>(self, f: F) -> (r: Result<T, AugmentError>)
        ensures
            match self {
                Ok(value) => r == Ok::<T, AugmentError>(value),
                Err(cause) => r matches Err(AugmentError::Internal { message }) && exists|
                    context: String,
                |
                    f.ensures((), context) && message@ == context@ + ": "@ + cause.message_text(),
            },
    {
        match self {
            Ok(value) => Ok(value),
            Err(cause) => {
                let context = f();
                Err(AugmentError::with_context(cause, context.as_str()))
            },
        }
    }
}

} // verus!
