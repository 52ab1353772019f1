//! Command core of a chat bot that relays operator commands to game servers.

pub mod error;
pub mod handler;
pub mod slash_commands;
pub mod text;
