//! The store as the bridge sees it: its rows, and the rules that sit between
//! a command and the statements that the store runs.

pub mod models;
pub mod queries;

pub use models::{
    Branch, BuildTrigger, JenkinsMapping, PullRequest, Repository, RepositoryPollingHistory,
    SystemSetting, Tag,
};
pub use queries::{NewRepository, Queries, Settings, StoreError};
