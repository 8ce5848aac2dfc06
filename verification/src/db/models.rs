//! The rows of the store, as the bridge reads and writes them.

use vstd::prelude::*;

verus! {

/// A date and time without a time zone, as the store keeps it. The bridge
/// carries such a value from the store to its clients and never looks inside.
#[verifier::external_type_specification]
#[verifier::external_body]
pub struct ExNaiveDateTime(chrono::NaiveDateTime);

/// `chrono::NaiveDateTime` is a plain value that `derive` made `Copy` and
/// `Clone`: its `clone` hands back the value it was given.
pub assume_specification[ <chrono::NaiveDateTime as Clone>::clone ](
    t: &chrono::NaiveDateTime,
) -> (r: chrono::NaiveDateTime)
    ensures
        r == *t,
;

/// A repository under watch. The pair of owner and name names it; the store
/// alone assigns `id`.
#[derive(Debug, Clone)]
pub struct Repository {
    pub id: i32,
    pub owner: String,
    pub name: String,
    pub poll_interval_seconds: Option<i32>,
    pub is_active: bool,
    pub created_at: chrono::NaiveDateTime,
    pub updated_at: chrono::NaiveDateTime,
}

/// One poll of a repository.
#[derive(Debug, Clone)]
pub struct RepositoryPollingHistory {
    pub id: i32,
    pub repository_id: i32,
    pub polled_at: chrono::NaiveDateTime,
    pub created_at: chrono::NaiveDateTime,
}

/// A branch of a repository with the commit at its tip. The pair of
/// repository and name names it.
#[derive(Debug, Clone, PartialEq)]
pub struct Branch {
    pub id: i32,
    pub repository_id: i32,
    pub name: String,
    pub head_sha: String,
    pub created_at: chrono::NaiveDateTime,
    pub updated_at: chrono::NaiveDateTime,
}

/// A tag of a repository. A tag does not move once made.
#[derive(Debug, Clone)]
pub struct Tag {
    pub id: i32,
    pub repository_id: i32,
    pub name: String,
    pub commit_sha: String,
    pub created_at: chrono::NaiveDateTime,
}

/// A pull request of a repository.
#[derive(Debug, Clone)]
pub struct PullRequest {
    pub id: i32,
    pub repository_id: i32,
    pub pr_number: i32,
    pub title: String,
    pub author: Option<String>,
    pub source_branch_id: i32,
    pub target_branch_id: i32,
    pub head_sha: String,
    pub status: String,
    pub last_polled_at: Option<chrono::NaiveDateTime>,
    pub created_at: chrono::NaiveDateTime,
    pub updated_at: chrono::NaiveDateTime,
}

/// One build that was asked of the build server for a pull request.
#[derive(Debug, Clone)]
pub struct BuildTrigger {
    pub id: i32,
    pub pull_request_id: i32,
    pub commit_sha: String,
    pub jenkins_build_number: Option<i32>,
    pub jenkins_build_url: Option<String>,
    pub trigger_status: String,
    pub trigger_message: Option<String>,
    pub triggered_at: chrono::NaiveDateTime,
    pub completed_at: Option<chrono::NaiveDateTime>,
}

/// The build job that belongs to a repository.
#[derive(Debug, Clone)]
pub struct JenkinsMapping {
    pub id: i32,
    pub repository_id: i32,
    pub jenkins_job_name: String,
    pub jenkins_url: Option<String>,
    pub auto_trigger: bool,
    pub created_at: chrono::NaiveDateTime,
    pub updated_at: chrono::NaiveDateTime,
}

/// One system-wide setting: a key and its value as text.
#[derive(Debug, Clone)]
pub struct SystemSetting {
    pub key: String,
    pub value: String,
    pub description: Option<String>,
    pub updated_at: chrono::NaiveDateTime,
}

} // verus!
