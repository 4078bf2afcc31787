//! Sanitization engine for editor plugin state: identifier generation, JSON
//! configuration rewriting, store scrubbing decisions and result aggregation.

pub mod cli;
pub mod clock;
pub mod config;
pub mod database;
pub mod document;
pub mod error;
pub mod filesystem;
pub mod idgen;
pub mod jetbrains;
pub mod json;
pub mod telemetry;
pub mod text;
pub mod types;

pub use crate::cli::{Cli, Commands};
pub use crate::config::{ConfigFileType, ConfigGenerator};
pub use crate::database::{DatabaseManager, DatabaseStats};
pub use crate::error::{AugmentError, ErrorContext};
pub use crate::filesystem::{FileOperations, PathManager};
pub use crate::idgen::{AugmentConfig, IdGenerator};
pub use crate::jetbrains::{JetBrainsCleanResult, JetBrainsCleaner};
pub use crate::types::{
    AppConfig, BackupResult, CleanOptions, DatabaseCleanResult, DatabasePath, EditorType,
    OperationResult,
};

use vstd::prelude::*;

verus! {

/// The version of the application.
pub const VERSION: &'static str = "2.2.0";

/// The name of the application.
pub const APP_NAME: &'static str = "augment-reset";

/// What the application is.
pub const APP_DESCRIPTION: &'static str = "Augment Free Trail - Augment IDE清理工具 (Rust版本)";

/// What the application says of itself.
#[derive(Debug, Clone)]
pub struct AppInfo {
    pub name: String,
    pub version: String,
    pub description: String,
    pub author: String,
    pub website: String,
    pub public_account: String,
}

/// What the application says of itself.
pub fn get_app_info() -> (info: AppInfo)
    ensures
        info.name@ == APP_NAME@,
        info.version@ == VERSION@,
        info.description@ == APP_DESCRIPTION@,
        info.author@ == "oliyo"@,
        info.website@ == "https://www.oliyo.com"@,
        info.public_account@ == "趣惠赚"@,
{
    AppInfo {
        name: APP_NAME.to_owned(),
        version: VERSION.to_owned(),
        description: APP_DESCRIPTION.to_owned(),
        author: "oliyo".to_owned(),
        website: "https://www.oliyo.com".to_owned(),
        public_account: "趣惠赚".to_owned(),
    }
}

} // verus!
