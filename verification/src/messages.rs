//! What travels on the bus between the supervisor and the adapters.

use crate::config::Config;
use vstd::prelude::*;

verus! {

/// What the supervisor sends to every adapter.
#[derive(Debug, Clone)]
pub enum CentralMessage {
    Discord(DiscordMessage),
    Twitch(TwitchMessage),
    Server(ServerMessage),
    /// The shared settings have a new version.
    ConfigUpdated,
    /// Every adapter is to stop.
    Shutdown,
}

/// What the Discord adapter sends to the supervisor.
#[derive(Debug, Clone)]
pub enum DiscordMessage {
    Debug(String),
    Error(String),
    /// A document was read and gave these settings.
    ConfigUpdated(Config),
    Ready,
}

/// What the Twitch adapter sends to the supervisor.
#[derive(Debug, Clone)]
pub enum TwitchMessage {
    Debug(String),
    Error(String),
    Ready,
    /// The watched channel is streaming.
    ChannelLive { channel: String, title: String, url: String },
    /// The access token is no longer accepted.
    TokenExpired,
}

/// What the HTTP adapter sends to the supervisor.
#[derive(Debug, Clone)]
pub enum ServerMessage {
    Debug(String),
    Error(String),
    Ready,
}

/// What one look at a channel of the bus gave.
#[derive(Debug, Clone)]
pub enum Received<M> {
    /// The next message.
    Message(M),
    /// Nothing is waiting.
    Empty,
    /// Every sender is gone.
    Closed,
    /// This many messages were missed because the receiver fell behind.
    Lagged(u64),
}

} // verus!
