//! What the engine decides about files: backups, store headers, which files
//! to remove, and where the editors keep their state.

pub mod operations;
pub mod paths;

pub use operations::{BackupCandidate, BackupPlan, FileOperations, PathEntry, Removal, RemovalKind};
pub use paths::{IdeFolder, PathManager, Platform, StoreCandidate, UserDirs};
