//! The remote git engine's rules: which credential a transfer is given, and
//! which branches of a clone are recorded.

pub mod git_client;

pub use git_client::{Credential, CredentialView, GitClient, RemoteBranch};
