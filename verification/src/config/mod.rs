//! Startup configuration and the rules it must meet before anything runs.

use crate::text::{decimal, push_decimal};
use vstd::prelude::*;
use vstd::string::*;

verus! {

/// What the process is started with.
#[derive(Debug, Clone)]
pub struct Config {
    /// Address the hub listens on.
    pub server_host: String,
    /// Port the hub listens on.
    pub server_port: u16,
    /// Connection string of the store.
    pub database_url: String,
    /// Token for git over HTTPS.
    pub github_token: Option<String>,
    /// Path of the private key for git over SSH.
    pub git_ssh_key_path: Option<String>,
    /// Passphrase of that key, if it has one.
    pub git_ssh_key_passphrase: Option<String>,
    /// Credential mode: `true` selects SSH, `false` the token over HTTPS.
    pub git_use_ssh_agent: bool,
    pub jenkins_url: String,
    pub jenkins_user: String,
    pub jenkins_token: String,
    /// Default poll interval in seconds.
    pub poll_interval_seconds: u64,
}

/// Why a configuration is refused at startup.
#[derive(Debug, Clone, Copy, PartialEq, Eq, Structural)]
pub enum ConfigError {
    /// Token mode is selected and no token is given.
    MissingToken,
    /// SSH mode is selected and no key path is given.
    MissingSshKey,
    /// A system setting that should hold a number of seconds does not.
    InvalidSetting,
}

/// Whether an optional piece of text is there and not empty.
pub open spec fn supplied(value: Option<String>) -> bool {
    value is Some && value->0@.len() > 0
}

/// Whether an optional piece of text is there and not empty.
pub fn is_supplied(value: &Option<String>) -> (r: bool)
    ensures
        r == supplied(*value),
{
    match value {
        Some(text) => !text.as_str().is_empty(),
        None => false,
    }
}

/// The host to listen on where none is configured.
pub fn default_host() -> (r: String)
    ensures
        r@ == "0.0.0.0"@,
{
    String::from_str("0.0.0.0")
}

/// The port to listen on where none is configured.
pub fn default_port() -> (r: u16)
    ensures
        r == 8080,
{
    8080
}

/// The poll interval in seconds where none is configured.
pub fn default_poll_interval() -> (r: u64)
    ensures
        r == 60,
{
    60
}

/// The credential mode where none is configured: the token over HTTPS.
pub fn default_use_ssh_agent() -> (r: bool)
    ensures
        !r,
{
    false
}

impl ConfigError {
    /// The sentence that tells an operator what is wrong.
    pub fn message(&self) -> (r: String)
        ensures
            *self == ConfigError::MissingToken ==> r@
                == "GitHub token is required when use ssh agent is false"@,
            *self == ConfigError::MissingSshKey ==> r@
                == "SSH key path is required when use ssh agent is true"@,
            *self == ConfigError::InvalidSetting ==> r@
                == "A poll interval setting is not a number of seconds"@,
    {
        match self {
            ConfigError::MissingToken => String::from_str(
                "GitHub token is required when use ssh agent is false",
            ),
            ConfigError::MissingSshKey => String::from_str(
                "SSH key path is required when use ssh agent is true",
            ),
            ConfigError::InvalidSetting => String::from_str(
                "A poll interval setting is not a number of seconds",
            ),
        }
    }
}

impl Config {
    /// What is wrong with the credential settings, if anything: token mode
    /// needs a token, SSH mode needs a key path.
    pub open spec fn credential_fault(&self) -> Option<ConfigError> {
        if !self.git_use_ssh_agent && !supplied(self.github_token) {
            Some(ConfigError::MissingToken)
        } else if self.git_use_ssh_agent && !supplied(self.git_ssh_key_path) {
            Some(ConfigError::MissingSshKey)
        } else {
            None
        }
    }

    /// Accepts the values read from the environment, or says why not. The
    /// values come back unchanged exactly when the selected credential mode
    /// has its key material.
    pub fn from_env(loaded: Config) -> (r: Result<Config, ConfigError>)
        ensures
            match loaded.credential_fault() {
                Some(fault) => r == Err::<Config, ConfigError>(fault),
                None => r == Ok::<Config, ConfigError>(loaded),
            },
    {
        if !loaded.git_use_ssh_agent && !is_supplied(&loaded.github_token) {
            return Err(ConfigError::MissingToken);
        }
        if loaded.git_use_ssh_agent && !is_supplied(&loaded.git_ssh_key_path) {
            return Err(ConfigError::MissingSshKey);
        }
        Ok(loaded)
    }

    /// The address to listen on: host, a colon, and the port in decimal.
    pub fn server_addr(&self) -> (r: String)
        ensures
            r@ == self.server_host@ + seq![':'] + decimal(self.server_port as nat),
    {
        let mut addr = self.server_host.clone();
        proof {
            reveal_strlit(":");
        }
        addr.append(":");
        assert(addr@ =~= self.server_host@ + seq![':']);
        push_decimal(&mut addr, self.server_port as u64);
        addr
    }
}

} // verus!
