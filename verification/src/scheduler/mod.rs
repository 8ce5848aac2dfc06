//! The periodic jobs that keep the store in step with the remotes.

pub mod laws;
pub mod scheduler;

pub use scheduler::{RefSync, Scheduler, SyncAction, SyncEvent, SyncPhase};
