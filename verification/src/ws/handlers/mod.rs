//! The handlers that the command router hands commands to.

pub mod repository_handler;
