//! The messages that cross the hub: commands from a client, responses and
//! events to it.

use crate::db::{BuildTrigger, PullRequest, Repository, RepositoryPollingHistory, SystemSetting};
use vstd::prelude::*;
use vstd::string::*;

verus! {

/// A command envelope: what a client asks, with the request id that its
/// answer will carry, if the client gave one.
#[derive(Debug, Clone)]
pub struct ClientMessage {
    pub id: Option<String>,
    pub payload: ClientMessageType,
}

/// An event envelope: what the hub tells a client. A response carries the id
/// of the request it answers.
#[derive(Debug, Clone)]
pub struct ServerMessage {
    pub id: Option<String>,
    pub payload: ServerMessageType,
}

/// The commands of the protocol.
#[derive(Debug, Clone)]
pub enum ClientMessageType {
    AddRepository { owner: String, name: String, poll_interval_seconds: Option<i32> },
    UpdateRepository { repo_id: i32, is_active: Option<bool>, poll_interval_seconds: Option<i32> },
    DeleteRepository { repo_id: i32 },
    SetJenkinsMapping {
        repo_id: i32,
        jenkins_job_name: String,
        jenkins_url: String,
        auto_trigger: bool,
    },
    DeleteJenkinsMapping { repo_id: i32 },
    TriggerBuild { pr_id: i32 },
    UpdateSystemSetting { key: String, value: String },
    GetRepositories,
    GetRepository { repo_id: i32 },
    GetPullRequests { repo_id: i32, status: Option<String> },
    GetBuildHistory { pr_id: i32 },
    GetSystemSettings,
    GetPollingHistory { repo_id: i32, limit: Option<i32> },
}

/// The responses and events of the protocol.
#[derive(Debug, Clone)]
pub enum ServerMessageType {
    Repositories { repositories: Vec<Repository> },
    Repository { repository: Repository },
    PullRequests { pull_requests: Vec<PullRequest> },
    BuildHistory { builds: Vec<BuildTrigger> },
    SystemSettings { settings: Vec<SystemSetting> },
    PollingHistory { history: Vec<RepositoryPollingHistory> },
    Success { message: String, data: Option<Repository> },
    PrUpdated { repo_id: i32, pr_number: i32, pr_id: i32, status: String, head_sha: String },
    PrOpened { repo_id: i32, pr_number: i32, pr_id: i32, title: String, author: Option<String> },
    PrClosed { repo_id: i32, pr_number: i32, pr_id: i32, merged: bool },
    BuildTriggered {
        pr_id: i32,
        commit_sha: String,
        jenkins_build_number: Option<i32>,
        jenkins_build_url: Option<String>,
    },
    BuildTriggerFailed { pr_id: i32, commit_sha: String, error: String },
    BranchesSynced { repo_id: i32, added: i32, updated: i32, deleted: i32 },
    TagsSynced { repo_id: i32, added: i32 },
    PollingCompleted { repo_id: i32, polled_at: String },
    SettingsChanged { changed_by: String, keys: Vec<String> },
    Error { code: ErrorCode, message: String, details: Option<String> },
    Pong,
}

/// The stable code of an error response.
#[derive(Debug, Clone, Copy, PartialEq, Eq, Structural)]
pub enum ErrorCode {
    InvalidRequest,
    NotFound,
    Unauthorized,
    DatabaseError,
    GithubApiError,
    JenkinsApiError,
    InternalError,
    AlreadyExists,
    ValidationError,
}

impl ErrorCode {
    /// The code as it is written in an envelope.
    pub open spec fn wire_name(&self) -> Seq<char> {
        match *self {
            ErrorCode::InvalidRequest => "invalid_request"@,
            ErrorCode::NotFound => "not_found"@,
            ErrorCode::Unauthorized => "unauthorized"@,
            ErrorCode::DatabaseError => "database_error"@,
            ErrorCode::GithubApiError => "github_api_error"@,
            ErrorCode::JenkinsApiError => "jenkins_api_error"@,
            ErrorCode::InternalError => "internal_error"@,
            ErrorCode::AlreadyExists => "already_exists"@,
            ErrorCode::ValidationError => "validation_error"@,
        }
    }

    /// The code as it is written in an envelope.
    pub fn name(&self) -> (r: &'static str)
        ensures
            r@ == self.wire_name(),
    {
        match self {
            ErrorCode::InvalidRequest => "invalid_request",
            ErrorCode::NotFound => "not_found",
            ErrorCode::Unauthorized => "unauthorized",
            ErrorCode::DatabaseError => "database_error",
            ErrorCode::GithubApiError => "github_api_error",
            ErrorCode::JenkinsApiError => "jenkins_api_error",
            ErrorCode::InternalError => "internal_error",
            ErrorCode::AlreadyExists => "already_exists",
            ErrorCode::ValidationError => "validation_error",
        }
    }
}

impl ServerMessage {
    /// Whether the message is the error response to request `id` with the
    /// given code and text, and without details.
    pub open spec fn is_error(&self, id: Option<String>, code: ErrorCode, text: Seq<char>) -> bool {
        &&& self.id == id
        &&& self.payload matches ServerMessageType::Error { code: c, message, details }
        &&& c == code
        &&& message@ == text
        &&& details is None
    }

    /// Whether the message is the success response to request `id` with the
    /// given text and data.
    pub open spec fn is_success(
        &self,
        id: Option<String>,
        text: Seq<char>,
        data: Option<Repository>,
    ) -> bool {
        &&& self.id == id
        &&& self.payload matches ServerMessageType::Success { message, data: d }
        &&& message@ == text
        &&& d == data
    }

    /// An error response to request `id`.
    pub fn error(id: Option<String>, code: ErrorCode, message: &str, details: Option<String>) -> (r:
        Self)
        ensures
            r.id == id,
            r.payload matches ServerMessageType::Error { code: c, message: m, details: d } && c
                == code && m@ == message@ && d == details,
    {
        ServerMessage {
            id,
            payload: ServerMessageType::Error {
                code,
                message: String::from_str(message),
                details,
            },
        }
    }

    /// A success response to request `id`.
    pub fn success(id: Option<String>, message: &str, data: Option<Repository>) -> (r: Self)
        ensures
            r.is_success(id, message@, data),
    {
        ServerMessage {
            id,
            payload: ServerMessageType::Success { message: String::from_str(message), data },
        }
    }
}

} // verus!
