//! Ferrisync: one-way folder sync with BLAKE3 verification and retention cleanup.

pub mod text;
pub mod error;
pub mod paths;
pub mod config;
pub mod scanner;
pub mod hasher;
pub mod logging;
pub mod queue;
pub mod retention;
pub mod sync_engine;
pub mod compare;
pub mod jobs;
pub mod state_store;

pub use compare::{CompareAction, CompareResult, CompareRow};
pub use config::{CompareMode, Config, PairConfig, RetentionConfig, RetentionMode, DEFAULT_RETENTION_DAYS};
pub use error::Error;
pub use retention::{CleanupStats, PurgeStats, RetentionOptions};
pub use state_store::{FileRecord, FileStatus, StateStore};
pub use sync_engine::{SyncOptions, SyncStats};
