//! The events of the activity class.

use vstd::prelude::*;
use crate::activity::ActivityInvite;
use crate::user::User;

verus! {

/// The secret of a game to join or to watch.
#[derive(Debug, Clone, PartialEq, Eq)]
pub struct SecretEvent {
    pub secret: String,
}

/// A user asks to join the current user's game.
#[derive(Debug, Clone, PartialEq, Eq)]
pub struct JoinRequestEvent {
    pub user: User,
}

/// The current user was invited to another user's game.
#[derive(Debug, Clone, PartialEq, Eq)]
pub struct InviteEvent(pub ActivityInvite);

impl InviteEvent {
    /// The invite itself.
    pub fn as_ref(&self) -> (invite: &ActivityInvite)
        ensures
            *invite == self.0,
    {
        &self.0
    }
}

/// An event of the activity class.
#[derive(Debug, Clone, PartialEq, Eq)]
pub enum ActivityEvent {
    Join(SecretEvent),
    Spectate(SecretEvent),
    JoinRequest(JoinRequestEvent),
    Invite(InviteEvent),
}

} // verus!
