//! What happens to the connection to the logged-in user.

use vstd::prelude::*;
use crate::error::Error;
use crate::types::DiscordConfig;
use crate::user::User;

verus! {

/// Discord answered the handshake.
#[derive(Debug, Clone)]
pub struct ConnectEvent {
    /// The protocol version; only version 1 exists.
    pub version: u32,
    pub config: DiscordConfig,
    /// The user that is logged in to the Discord that answered.
    pub user: User,
}

/// Details of the logged-in user changed.
#[derive(Debug, Clone)]
pub struct UpdateEvent {
    pub user: User,
}

/// The connection to Discord was lost.
#[derive(Debug, Clone)]
pub struct DisconnectEvent {
    pub reason: Error,
}

/// An event about the logged-in user.
#[derive(Debug, Clone)]
pub enum UserEvent {
    Connect(ConnectEvent),
    Disconnect(DisconnectEvent),
    Update(UpdateEvent),
}

} // verus!
