//! The command/event hub: its messages, its sessions and its command router.

pub mod handlers;
pub mod ws_message;
pub mod ws_server;
