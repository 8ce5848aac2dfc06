//! Decision logic of a bridge between source repositories, a build server and
//! live operator clients.
//!
//! The bridge keeps a store in step with git remotes and serves commands over
//! persistent connections. This crate holds what the bridge decides, each
//! decision with a contract that is proved:
//!
//! - [`config`]: the startup configuration and the rule on its credentials;
//! - [`git`]: the credential for a transfer and the branches to record;
//! - [`db`]: the rows of the store and the rules around its statements;
//! - [`scheduler`]: the ref-sync job, as a machine from events to actions,
//!   and what holds of it over whole ticks;
//! - [`ws`]: the session registry, the fate of each frame, the command
//!   router and its responses;
//! - [`text`]: decimal notation, written and read.
//!
//! Nothing here touches a socket, a disk or a database. Whoever runs the
//! bridge performs the actions that these functions ask for and reports
//! what happened.

pub mod config;
pub mod db;
pub mod git;
pub mod scheduler;
pub mod text;
pub mod ws;
