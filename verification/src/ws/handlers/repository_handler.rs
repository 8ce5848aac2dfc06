//! The repository commands: which store operation each one asks for, and
//! which response each outcome of that operation becomes.

use crate::db::queries::rows_outcome;
use crate::db::{Repository, StoreError};
use crate::ws::ws_message::{ClientMessage, ClientMessageType, ErrorCode, ServerMessage, ServerMessageType};
use vstd::prelude::*;
use vstd::string::*;

verus! {

/// An operation of the store gateway on repositories.
#[derive(Debug, Clone)]
pub enum StoreOp {
    CreateRepository { owner: String, name: String, poll_interval_seconds: Option<i32> },
    UpdateRepository { repo_id: i32, is_active: Option<bool>, poll_interval_seconds: Option<i32> },
    DeleteRepository { repo_id: i32 },
    ListRepositories,
    GetRepository { repo_id: i32 },
}

/// A store operation together with the id of the request that asked for it.
#[derive(Debug, Clone)]
pub struct StoreCall {
    pub msg_id: Option<String>,
    pub op: StoreOp,
}

/// The store operation that a command asks for. The commands that have no
/// handler ask for none.
pub open spec fn store_op(payload: ClientMessageType) -> Option<StoreOp> {
    match payload {
        ClientMessageType::AddRepository { owner, name, poll_interval_seconds } => Some(
            StoreOp::CreateRepository { owner, name, poll_interval_seconds },
        ),
        ClientMessageType::UpdateRepository { repo_id, is_active, poll_interval_seconds } => Some(
            StoreOp::UpdateRepository { repo_id, is_active, poll_interval_seconds },
        ),
        ClientMessageType::DeleteRepository { repo_id } => Some(
            StoreOp::DeleteRepository { repo_id },
        ),
        ClientMessageType::GetRepositories => Some(StoreOp::ListRepositories),
        ClientMessageType::GetRepository { repo_id } => Some(StoreOp::GetRepository { repo_id }),
        _ => None,
    }
}

/// The call that a command envelope asks for, under the envelope's id.
pub open spec fn store_call(msg: ClientMessage) -> Option<StoreCall> {
    match store_op(msg.payload) {
        Some(op) => Some(StoreCall { msg_id: msg.id, op }),
        None => None,
    }
}

/// Whether `reply` answers the addition of a repository whose outcome in the
/// store was `stored`.
pub open spec fn answers_add(
    reply: ServerMessage,
    msg_id: Option<String>,
    stored: Result<Repository, StoreError>,
) -> bool {
    match stored {
        Ok(repository) => reply.is_success(
            msg_id,
            "Repository added successfully"@,
            Some(repository),
        ),
        Err(_) => reply.is_error(msg_id, ErrorCode::DatabaseError, "Failed to add repository"@),
    }
}

/// Whether `reply` answers a request for all repositories whose outcome in
/// the store was `listed`.
pub open spec fn answers_list(
    reply: ServerMessage,
    msg_id: Option<String>,
    listed: Result<Vec<Repository>, StoreError>,
) -> bool {
    match listed {
        Ok(repositories) => reply.id == msg_id && reply.payload
            == (ServerMessageType::Repositories { repositories }),
        Err(_) => reply.is_error(
            msg_id,
            ErrorCode::DatabaseError,
            "Failed to get repository list"@,
        ),
    }
}

/// Whether `reply` answers a request for one repository whose outcome in the
/// store was `found`.
pub open spec fn answers_get(
    reply: ServerMessage,
    msg_id: Option<String>,
    found: Result<Repository, StoreError>,
) -> bool {
    match found {
        Ok(repository) => reply.id == msg_id && reply.payload
            == (ServerMessageType::Repository { repository }),
        Err(_) => reply.is_error(msg_id, ErrorCode::DatabaseError, "Failed to get repository"@),
    }
}

/// Whether `reply` answers the update of a repository whose outcome in the
/// store was `updated`.
pub open spec fn answers_update(
    reply: ServerMessage,
    msg_id: Option<String>,
    updated: Result<Repository, StoreError>,
) -> bool {
    match updated {
        Ok(repository) => reply.is_success(
            msg_id,
            "Repository updated successfully"@,
            Some(repository),
        ),
        Err(_) => reply.is_error(
            msg_id,
            ErrorCode::DatabaseError,
            "Failed to update repository"@,
        ),
    }
}

/// Whether `reply` answers the deletion of a repository whose outcome in the
/// store was `deleted`.
pub open spec fn answers_delete(
    reply: ServerMessage,
    msg_id: Option<String>,
    deleted: Result<(), StoreError>,
) -> bool {
    match deleted {
        Ok(_) => reply.is_success(msg_id, "Repository deleted successfully"@, None),
        Err(_) => reply.is_error(
            msg_id,
            ErrorCode::DatabaseError,
            "Failed to delete repository"@,
        ),
    }
}

/// The deletion of a repository that is not there is answered with a
/// database error: the statement touches no row, which counts as a failure
/// of the store, and every failure of the store becomes that response.
pub proof fn lemma_delete_of_missing_repository(msg_id: Option<String>, reply: ServerMessage)
    requires
        answers_delete(reply, msg_id, rows_outcome(0)),
    ensures
        reply.is_error(msg_id, ErrorCode::DatabaseError, "Failed to delete repository"@),
        reply.payload matches ServerMessageType::Error { code, .. } && code
            == ErrorCode::DatabaseError,
{
}

/// Whatever a store operation on repositories fails with, the response is an
/// error with the code `database_error`, under the id of the request.
pub proof fn lemma_store_failure_is_database_error(
    msg_id: Option<String>,
    failure: StoreError,
    reply: ServerMessage,
)
    requires
        answers_add(reply, msg_id, Err(failure)) || answers_list(reply, msg_id, Err(failure))
            || answers_get(reply, msg_id, Err(failure)) || answers_update(
            reply,
            msg_id,
            Err(failure),
        ) || answers_delete(reply, msg_id, Err(failure)),
    ensures
        reply.id == msg_id,
        reply.payload matches ServerMessageType::Error { code, details, .. } && code
            == ErrorCode::DatabaseError && details is None,
{
}

/// The store operation that a command envelope asks for, if it is one of the
/// repository commands.
pub fn repository_handler(msg: ClientMessage) -> (r: Option<StoreCall>)
    ensures
        r == store_call(msg),
{
    let msg_id = msg.id;
    match msg.payload {
        ClientMessageType::AddRepository { owner, name, poll_interval_seconds } => Some(
            StoreCall {
                msg_id,
                op: StoreOp::CreateRepository { owner, name, poll_interval_seconds },
            },
        ),
        ClientMessageType::UpdateRepository { repo_id, is_active, poll_interval_seconds } => Some(
            StoreCall {
                msg_id,
                op: StoreOp::UpdateRepository { repo_id, is_active, poll_interval_seconds },
            },
        ),
        ClientMessageType::DeleteRepository { repo_id } => Some(
            StoreCall { msg_id, op: StoreOp::DeleteRepository { repo_id } },
        ),
        ClientMessageType::GetRepositories => Some(
            StoreCall { msg_id, op: StoreOp::ListRepositories },
        ),
        ClientMessageType::GetRepository { repo_id } => Some(
            StoreCall { msg_id, op: StoreOp::GetRepository { repo_id } },
        ),
        _ => None,
    }
}

/// The response to `add_repository`: the new repository, or a database error
/// that says nothing of the store's own words.
pub fn add_repository_handler(msg_id: Option<String>, stored: Result<Repository, StoreError>) -> (r:
    ServerMessage)
    ensures
        answers_add(r, msg_id, stored),
{
    match stored {
        Ok(repository) => ServerMessage::success(
            msg_id,
            "Repository added successfully",
            Some(repository),
        ),
        Err(_) => ServerMessage::error(
            msg_id,
            ErrorCode::DatabaseError,
            "Failed to add repository",
            None,
        ),
    }
}

/// The response to `get_repositories`: the repositories as the store listed
/// them, or a database error.
pub fn get_repositories_handler(
    msg_id: Option<String>,
    listed: Result<Vec<Repository>, StoreError>,
) -> (r: ServerMessage)
    ensures
        answers_list(r, msg_id, listed),
{
    match listed {
        Ok(repositories) => ServerMessage {
            id: msg_id,
            payload: ServerMessageType::Repositories { repositories },
        },
        Err(_) => ServerMessage::error(
            msg_id,
            ErrorCode::DatabaseError,
            "Failed to get repository list",
            None,
        ),
    }
}

/// The response to `get_repository`: the repository, or a database error.
pub fn get_repository_handler(msg_id: Option<String>, found: Result<Repository, StoreError>) -> (r:
    ServerMessage)
    ensures
        answers_get(r, msg_id, found),
{
    match found {
        Ok(repository) => ServerMessage {
            id: msg_id,
            payload: ServerMessageType::Repository { repository },
        },
        Err(_) => ServerMessage::error(
            msg_id,
            ErrorCode::DatabaseError,
            "Failed to get repository",
            None,
        ),
    }
}

/// The response to `update_repository`: the repository after the update, or
/// a database error.
pub fn update_repository_handler(
    msg_id: Option<String>,
    updated: Result<Repository, StoreError>,
) -> (r: ServerMessage)
    ensures
        answers_update(r, msg_id, updated),
{
    match updated {
        Ok(repository) => ServerMessage::success(
            msg_id,
            "Repository updated successfully",
            Some(repository),
        ),
        Err(_) => ServerMessage::error(
            msg_id,
            ErrorCode::DatabaseError,
            "Failed to update repository",
            None,
        ),
    }
}

/// The response to `delete_repository`: success without data, or a database
/// error.
pub fn delete_repository_handler(msg_id: Option<String>, deleted: Result<(), StoreError>) -> (r:
    ServerMessage)
    ensures
        answers_delete(r, msg_id, deleted),
{
    match deleted {
        Ok(_) => ServerMessage::success(msg_id, "Repository deleted successfully", None),
        Err(_) => ServerMessage::error(
            msg_id,
            ErrorCode::DatabaseError,
            "Failed to delete repository",
            None,
        ),
    }
}

} // verus!
