//! Relationships: the users that the current user is tied to, and what they
//! are doing.

pub mod events;
pub mod state;

use vstd::prelude::*;
use crate::activity::{ActivityKind, Assets, Party, Secrets};
use crate::user::User;

verus! {

/// How a user is tied to the current user.
#[derive(Copy, Clone, Debug, PartialEq, Eq, Structural)]
pub enum RelationKind {
    /// Not at all.
    NoRelation,
    Friend,
    Blocked,
    /// The user has asked to be a friend.
    PendingIncoming,
    /// The current user has asked the user to be a friend.
    PendingOutgoing,
    /// No friend, but often around.
    Implicit,
}

impl RelationKind {
    /// The number that stands for the kind on the wire.
    pub open spec fn spec_code(self) -> u8 {
        match self {
            RelationKind::NoRelation => 0,
            RelationKind::Friend => 1,
            RelationKind::Blocked => 2,
            RelationKind::PendingIncoming => 3,
            RelationKind::PendingOutgoing => 4,
            RelationKind::Implicit => 5,
        }
    }

    /// The number that stands for the kind on the wire.
    pub fn code(self) -> (c: u8)
        ensures
            c == self.spec_code(),
    {
        match self {
            RelationKind::NoRelation => 0,
            RelationKind::Friend => 1,
            RelationKind::Blocked => 2,
            RelationKind::PendingIncoming => 3,
            RelationKind::PendingOutgoing => 4,
            RelationKind::Implicit => 5,
        }
    }

    /// Reads a kind from its number; there is none from six up.
    pub fn from_code(code: u8) -> (k: Option<RelationKind>)
        ensures
            match k {
                Some(kind) => kind.spec_code() == code,
                None => code >= 6,
            },
    {
        match code {
            0 => Some(RelationKind::NoRelation),
            1 => Some(RelationKind::Friend),
            2 => Some(RelationKind::Blocked),
            3 => Some(RelationKind::PendingIncoming),
            4 => Some(RelationKind::PendingOutgoing),
            5 => Some(RelationKind::Implicit),
            _ => None,
        }
    }
}

/// Whether a user is around.
#[derive(Copy, Clone, Debug, PartialEq, Eq, Structural)]
pub enum RelationStatus {
    Offline,
    Online,
    Idle,
    DoNotDisturb,
}

/// The start and the end of a user's activity, in milliseconds since the
/// Unix epoch.
#[derive(Copy, Clone, Debug, PartialEq, Eq, Structural)]
pub struct RelationshipActivityTimestamps {
    pub start: Option<i64>,
    pub end: Option<i64>,
}

/// What a user is doing.
#[derive(Clone, Debug, PartialEq, Eq)]
pub struct RelationshipActivity {
    /// The identifier of the session.
    pub session_id: Option<String>,
    /// When the activity was made, in milliseconds since the Unix epoch.
    pub created_at: Option<i64>,
    pub state: Option<String>,
    pub details: Option<String>,
    pub timestamps: Option<RelationshipActivityTimestamps>,
    pub assets: Option<Assets>,
    pub party: Option<Party>,
    pub secrets: Option<Secrets>,
    pub kind: ActivityKind,
    pub instance: bool,
}

/// Whether a user is around, and what the user is doing.
#[derive(Debug, Clone, PartialEq, Eq)]
pub struct RelationshipPresence {
    pub status: RelationStatus,
    pub activity: Option<RelationshipActivity>,
}

/// A user that the current user is tied to.
#[derive(Debug, Clone, PartialEq, Eq)]
pub struct Relationship {
    pub kind: RelationKind,
    pub user: User,
    pub presence: RelationshipPresence,
}

} // verus!
