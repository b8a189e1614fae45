//! The orchestration core of a chat bot that serves several platforms at once.

pub mod antispam;
pub mod assoc;
pub mod cli;
pub mod commands;
pub mod config;
pub mod creds;
pub mod discord;
pub mod messages;
pub mod scripting;
pub mod server;
pub mod supervisor;
pub mod text;
pub mod twitch;
