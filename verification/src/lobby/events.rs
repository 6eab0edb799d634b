//! The events of the lobby class.

use vstd::prelude::*;
use crate::lobby::{Lobby, LobbyId, LobbyMember, LobbyMessage};
use crate::user::UserId;

verus! {

/// A user started or stopped speaking.
#[derive(Debug, Clone, PartialEq, Eq)]
pub struct SpeakingEvent {
    /// The lobby with the voice channel.
    pub lobby_id: LobbyId,
    /// The user in question.
    pub user_id: UserId,
}

/// A member came, went or changed.
#[derive(Debug, Clone, PartialEq, Eq)]
pub struct MemberEvent {
    pub lobby_id: LobbyId,
    pub member: LobbyMember,
}

/// A message was sent to a lobby.
#[derive(Debug, Clone, PartialEq, Eq)]
pub struct MessageEvent {
    pub lobby_id: LobbyId,
    /// The member who sent the message.
    pub sender_id: UserId,
    pub data: LobbyMessage,
}

/// An event of the lobby class.
#[derive(Debug, Clone, PartialEq, Eq)]
pub enum LobbyEvent {
    Create(Lobby),
    Connect(Lobby),
    SpeakingStart(SpeakingEvent),
    SpeakingStop(SpeakingEvent),
    MemberConnect(MemberEvent),
    MemberDisconnect(MemberEvent),
    MemberUpdate(MemberEvent),
    /// The lobby was deleted, or the current user left it.
    Delete { id: LobbyId },
    /// The lobby's own metadata changed; the members are not in it.
    Update(Lobby),
    Message(MessageEvent),
}

} // verus!
