//! Scrubbing of key/value stores: the protocol that talks to a store, a
//! store in memory that answers it, the steps taken for one target, and the
//! bounded dispatch of many targets.

pub mod manager;
pub mod scheduler;
pub mod scrub;
pub mod store;

pub use manager::{DatabaseManager, DatabaseStats};
pub use scheduler::{CleanScheduler, CleanSummary, CompletionNote, CompletionStatus, TaskOutcome};
