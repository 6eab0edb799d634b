//! The events that Discord sends without being asked.

use vstd::prelude::*;
use vstd::string::*;
use crate::activity::events::{ActivityEvent, InviteEvent, JoinRequestEvent, SecretEvent};
use crate::error::Error;
use crate::lobby::events::{LobbyEvent, MemberEvent, MessageEvent, SpeakingEvent};
use crate::lobby::{Lobby, LobbyId};
use crate::overlay::events::{OverlayEvent, UpdateEvent as OverlayUpdate};
use crate::relations::events::RelationshipEvent;
use crate::relations::Relationship;
use crate::text::text_eq;
use crate::types::ErrorPayload;
use crate::user::events::{ConnectEvent, DisconnectEvent, UpdateEvent as UserUpdate, UserEvent};
use crate::voice::events::{VoiceEvent, VoiceSettingsUpdateEvent};

verus! {

/// The kind of an event, as named in the `evt` member of a frame.
#[derive(Copy, Clone, Debug, PartialEq, Eq, Structural)]
pub enum EventKind {
    /// The handshake was accepted.
    Ready,
    /// Discord reports a failure.
    Error,
    /// Details of the logged-in user changed.
    CurrentUserUpdate,
    /// A user asks to join the current user's game.
    ActivityJoinRequest,
    /// The current user joins a game.
    ActivityJoin,
    /// The current user spectates a game.
    ActivitySpectate,
    /// The current user was invited to a game.
    ActivityInvite,
    /// A lobby's own metadata changed.
    LobbyUpdate,
    /// A lobby was deleted.
    LobbyDelete,
    /// A user connected to a lobby.
    LobbyMemberConnect,
    /// A lobby member's metadata changed.
    LobbyMemberUpdate,
    /// A user left a lobby.
    LobbyMemberDisconnect,
    /// A message was sent to a lobby.
    LobbyMessage,
    /// A user started speaking in a lobby.
    SpeakingStart,
    /// A user stopped speaking in a lobby.
    SpeakingStop,
    /// The overlay was toggled.
    OverlayUpdate,
    /// A relationship with another user changed.
    RelationshipUpdate,
    /// The user's voice settings changed.
    VoiceSettingsUpdate,
}

impl EventKind {
    /// The name of the kind on the wire.
    pub open spec fn spec_name(self) -> Seq<char> {
        match self {
            EventKind::Ready => "READY"@,
            EventKind::Error => "ERROR"@,
            EventKind::CurrentUserUpdate => "CURRENT_USER_UPDATE"@,
            EventKind::ActivityJoinRequest => "ACTIVITY_JOIN_REQUEST"@,
            EventKind::ActivityJoin => "ACTIVITY_JOIN"@,
            EventKind::ActivitySpectate => "ACTIVITY_SPECTATE"@,
            EventKind::ActivityInvite => "ACTIVITY_INVITE"@,
            EventKind::LobbyUpdate => "LOBBY_UPDATE"@,
            EventKind::LobbyDelete => "LOBBY_DELETE"@,
            EventKind::LobbyMemberConnect => "LOBBY_MEMBER_CONNECT"@,
            EventKind::LobbyMemberUpdate => "LOBBY_MEMBER_UPDATE"@,
            EventKind::LobbyMemberDisconnect => "LOBBY_MEMBER_DISCONNECT"@,
            EventKind::LobbyMessage => "LOBBY_MESSAGE"@,
            EventKind::SpeakingStart => "SPEAKING_START"@,
            EventKind::SpeakingStop => "SPEAKING_STOP"@,
            EventKind::OverlayUpdate => "OVERLAY_UPDATE"@,
            EventKind::RelationshipUpdate => "RELATIONSHIP_UPDATE"@,
            EventKind::VoiceSettingsUpdate => "VOICE_SETTINGS_UPDATE_2"@,
        }
    }

    /// The kind that goes by `name` on the wire, if there is one.
    pub open spec fn spec_from_name(name: Seq<char>) -> Option<EventKind> {
        if name == "READY"@ {
            Some(EventKind::Ready)
        } else if name == "ERROR"@ {
            Some(EventKind::Error)
        } else if name == "CURRENT_USER_UPDATE"@ {
            Some(EventKind::CurrentUserUpdate)
        } else if name == "ACTIVITY_JOIN_REQUEST"@ {
            Some(EventKind::ActivityJoinRequest)
        } else if name == "ACTIVITY_JOIN"@ {
            Some(EventKind::ActivityJoin)
        } else if name == "ACTIVITY_SPECTATE"@ {
            Some(EventKind::ActivitySpectate)
        } else if name == "ACTIVITY_INVITE"@ {
            Some(EventKind::ActivityInvite)
        } else if name == "LOBBY_UPDATE"@ {
            Some(EventKind::LobbyUpdate)
        } else if name == "LOBBY_DELETE"@ {
            Some(EventKind::LobbyDelete)
        } else if name == "LOBBY_MEMBER_CONNECT"@ {
            Some(EventKind::LobbyMemberConnect)
        } else if name == "LOBBY_MEMBER_UPDATE"@ {
            Some(EventKind::LobbyMemberUpdate)
        } else if name == "LOBBY_MEMBER_DISCONNECT"@ {
            Some(EventKind::LobbyMemberDisconnect)
        } else if name == "LOBBY_MESSAGE"@ {
            Some(EventKind::LobbyMessage)
        } else if name == "SPEAKING_START"@ {
            Some(EventKind::SpeakingStart)
        } else if name == "SPEAKING_STOP"@ {
            Some(EventKind::SpeakingStop)
        } else if name == "OVERLAY_UPDATE"@ {
            Some(EventKind::OverlayUpdate)
        } else if name == "RELATIONSHIP_UPDATE"@ {
            Some(EventKind::RelationshipUpdate)
        } else if name == "VOICE_SETTINGS_UPDATE_2"@ {
            Some(EventKind::VoiceSettingsUpdate)
        } else {
            None
        }
    }

    /// The name of the kind on the wire, in upper case with underscores.
    pub fn name(self) -> (name: &'static str)
        ensures
            name@ == self.spec_name(),
    {
        match self {
            EventKind::Ready => "READY",
            EventKind::Error => "ERROR",
            EventKind::CurrentUserUpdate => "CURRENT_USER_UPDATE",
            EventKind::ActivityJoinRequest => "ACTIVITY_JOIN_REQUEST",
            EventKind::ActivityJoin => "ACTIVITY_JOIN",
            EventKind::ActivitySpectate => "ACTIVITY_SPECTATE",
            EventKind::ActivityInvite => "ACTIVITY_INVITE",
            EventKind::LobbyUpdate => "LOBBY_UPDATE",
            EventKind::LobbyDelete => "LOBBY_DELETE",
            EventKind::LobbyMemberConnect => "LOBBY_MEMBER_CONNECT",
            EventKind::LobbyMemberUpdate => "LOBBY_MEMBER_UPDATE",
            EventKind::LobbyMemberDisconnect => "LOBBY_MEMBER_DISCONNECT",
            EventKind::LobbyMessage => "LOBBY_MESSAGE",
            EventKind::SpeakingStart => "SPEAKING_START",
            EventKind::SpeakingStop => "SPEAKING_STOP",
            EventKind::OverlayUpdate => "OVERLAY_UPDATE",
            EventKind::RelationshipUpdate => "RELATIONSHIP_UPDATE",
            EventKind::VoiceSettingsUpdate => "VOICE_SETTINGS_UPDATE_2",
        }
    }

    /// Reads a kind from its name on the wire. Names are matched exactly.
    pub fn from_name(name: &str) -> (kind: Option<EventKind>)
        ensures
            kind == Self::spec_from_name(name@),
    {
        if text_eq(name, "READY") {
            Some(EventKind::Ready)
        } else if text_eq(name, "ERROR") {
            Some(EventKind::Error)
        } else if text_eq(name, "CURRENT_USER_UPDATE") {
            Some(EventKind::CurrentUserUpdate)
        } else if text_eq(name, "ACTIVITY_JOIN_REQUEST") {
            Some(EventKind::ActivityJoinRequest)
        } else if text_eq(name, "ACTIVITY_JOIN") {
            Some(EventKind::ActivityJoin)
        } else if text_eq(name, "ACTIVITY_SPECTATE") {
            Some(EventKind::ActivitySpectate)
        } else if text_eq(name, "ACTIVITY_INVITE") {
            Some(EventKind::ActivityInvite)
        } else if text_eq(name, "LOBBY_UPDATE") {
            Some(EventKind::LobbyUpdate)
        } else if text_eq(name, "LOBBY_DELETE") {
            Some(EventKind::LobbyDelete)
        } else if text_eq(name, "LOBBY_MEMBER_CONNECT") {
            Some(EventKind::LobbyMemberConnect)
        } else if text_eq(name, "LOBBY_MEMBER_UPDATE") {
            Some(EventKind::LobbyMemberUpdate)
        } else if text_eq(name, "LOBBY_MEMBER_DISCONNECT") {
            Some(EventKind::LobbyMemberDisconnect)
        } else if text_eq(name, "LOBBY_MESSAGE") {
            Some(EventKind::LobbyMessage)
        } else if text_eq(name, "SPEAKING_START") {
            Some(EventKind::SpeakingStart)
        } else if text_eq(name, "SPEAKING_STOP") {
            Some(EventKind::SpeakingStop)
        } else if text_eq(name, "OVERLAY_UPDATE") {
            Some(EventKind::OverlayUpdate)
        } else if text_eq(name, "RELATIONSHIP_UPDATE") {
            Some(EventKind::RelationshipUpdate)
        } else if text_eq(name, "VOICE_SETTINGS_UPDATE_2") {
            Some(EventKind::VoiceSettingsUpdate)
        } else {
            None
        }
    }
}

/// What tells the names of the kinds apart: the length of a name, its
/// first character and its third from the end.
spec fn name_mark(name: Seq<char>) -> (nat, char, char) {
    (name.len(), name[0], name[name.len() - 3])
}

/// Every kind has a name of its own: reading the name of a kind gives the
/// kind back. The names are ASCII and short.
pub proof fn lemma_event_names(kind: EventKind)
    ensures
        EventKind::spec_from_name(kind.spec_name()) == Some(kind),
        vstd::utf8::is_ascii_chars(kind.spec_name()),
        1 <= kind.spec_name().len() <= 32,
        vstd::utf8::encode_utf8(kind.spec_name()).len() == kind.spec_name().len(),
{
    reveal_strlit("READY");
    assert(name_mark("READY"@) == (5nat, 'R', 'A'));
    reveal_strlit("ERROR");
    assert(name_mark("ERROR"@) == (5nat, 'E', 'R'));
    reveal_strlit("CURRENT_USER_UPDATE");
    assert(name_mark("CURRENT_USER_UPDATE"@) == (19nat, 'C', 'A'));
    reveal_strlit("ACTIVITY_JOIN_REQUEST");
    assert(name_mark("ACTIVITY_JOIN_REQUEST"@) == (21nat, 'A', 'E'));
    reveal_strlit("ACTIVITY_JOIN");
    assert(name_mark("ACTIVITY_JOIN"@) == (13nat, 'A', 'O'));
    reveal_strlit("ACTIVITY_SPECTATE");
    assert(name_mark("ACTIVITY_SPECTATE"@) == (17nat, 'A', 'A'));
    reveal_strlit("ACTIVITY_INVITE");
    assert(name_mark("ACTIVITY_INVITE"@) == (15nat, 'A', 'I'));
    reveal_strlit("LOBBY_UPDATE");
    assert(name_mark("LOBBY_UPDATE"@) == (12nat, 'L', 'A'));
    reveal_strlit("LOBBY_DELETE");
    assert(name_mark("LOBBY_DELETE"@) == (12nat, 'L', 'E'));
    reveal_strlit("LOBBY_MEMBER_CONNECT");
    assert(name_mark("LOBBY_MEMBER_CONNECT"@) == (20nat, 'L', 'E'));
    reveal_strlit("LOBBY_MEMBER_UPDATE");
    assert(name_mark("LOBBY_MEMBER_UPDATE"@) == (19nat, 'L', 'A'));
    reveal_strlit("LOBBY_MEMBER_DISCONNECT");
    assert(name_mark("LOBBY_MEMBER_DISCONNECT"@) == (23nat, 'L', 'E'));
    reveal_strlit("LOBBY_MESSAGE");
    assert(name_mark("LOBBY_MESSAGE"@) == (13nat, 'L', 'A'));
    reveal_strlit("SPEAKING_START");
    assert(name_mark("SPEAKING_START"@) == (14nat, 'S', 'A'));
    reveal_strlit("SPEAKING_STOP");
    assert(name_mark("SPEAKING_STOP"@) == (13nat, 'S', 'T'));
    reveal_strlit("OVERLAY_UPDATE");
    assert(name_mark("OVERLAY_UPDATE"@) == (14nat, 'O', 'A'));
    reveal_strlit("RELATIONSHIP_UPDATE");
    assert(name_mark("RELATIONSHIP_UPDATE"@) == (19nat, 'R', 'A'));
    reveal_strlit("VOICE_SETTINGS_UPDATE_2");
    assert(name_mark("VOICE_SETTINGS_UPDATE_2"@) == (23nat, 'V', 'E'));
    vstd::utf8::is_ascii_chars_encode_utf8(kind.spec_name());
}

/// Something that Discord tells without being asked, with what it carries.
#[derive(Debug, Clone)]
pub enum Event {
    /// Discord reports a failure.
    Error(ErrorPayload),
    /// Discord answered the handshake.
    Ready(ConnectEvent),
    /// The connection was lost. Discord does not send this; the client
    /// makes it when a session ends.
    Disconnected { reason: Error },
    CurrentUserUpdate(UserUpdate),
    ActivityJoin(SecretEvent),
    ActivitySpectate(SecretEvent),
    ActivityJoinRequest(JoinRequestEvent),
    ActivityInvite(InviteEvent),
    LobbyUpdate(Lobby),
    LobbyDelete { id: LobbyId },
    LobbyMemberConnect(MemberEvent),
    LobbyMemberUpdate(MemberEvent),
    LobbyMemberDisconnect(MemberEvent),
    LobbyMessage(MessageEvent),
    SpeakingStart(SpeakingEvent),
    SpeakingStop(SpeakingEvent),
    OverlayUpdate(OverlayUpdate),
    RelationshipUpdate(Relationship),
    VoiceSettingsUpdate(VoiceSettingsUpdateEvent),
}

/// An event sorted into the class that it belongs to.
#[derive(Debug, Clone)]
pub enum ClassifiedEvent {
    User(UserEvent),
    Activity(ActivityEvent),
    Lobby(LobbyEvent),
    Overlay(OverlayEvent),
    Relations(RelationshipEvent),
    Voice(VoiceEvent),
}

impl Event {
    /// The kind of the event; a disconnect has none, for Discord never
    /// sends one.
    pub open spec fn spec_kind(self) -> Option<EventKind> {
        match self {
            Event::Error(_) => Some(EventKind::Error),
            Event::Ready(_) => Some(EventKind::Ready),
            Event::Disconnected { .. } => None,
            Event::CurrentUserUpdate(_) => Some(EventKind::CurrentUserUpdate),
            Event::ActivityJoin(_) => Some(EventKind::ActivityJoin),
            Event::ActivitySpectate(_) => Some(EventKind::ActivitySpectate),
            Event::ActivityJoinRequest(_) => Some(EventKind::ActivityJoinRequest),
            Event::ActivityInvite(_) => Some(EventKind::ActivityInvite),
            Event::LobbyUpdate(_) => Some(EventKind::LobbyUpdate),
            Event::LobbyDelete { .. } => Some(EventKind::LobbyDelete),
            Event::LobbyMemberConnect(_) => Some(EventKind::LobbyMemberConnect),
            Event::LobbyMemberUpdate(_) => Some(EventKind::LobbyMemberUpdate),
            Event::LobbyMemberDisconnect(_) => Some(EventKind::LobbyMemberDisconnect),
            Event::LobbyMessage(_) => Some(EventKind::LobbyMessage),
            Event::SpeakingStart(_) => Some(EventKind::SpeakingStart),
            Event::SpeakingStop(_) => Some(EventKind::SpeakingStop),
            Event::OverlayUpdate(_) => Some(EventKind::OverlayUpdate),
            Event::RelationshipUpdate(_) => Some(EventKind::RelationshipUpdate),
            Event::VoiceSettingsUpdate(_) => Some(EventKind::VoiceSettingsUpdate),
        }
    }

    /// The kind of the event.
    pub fn kind(&self) -> (kind: Option<EventKind>)
        ensures
            kind == self.spec_kind(),
    {
        match self {
            Event::Error(_) => Some(EventKind::Error),
            Event::Ready(_) => Some(EventKind::Ready),
            Event::Disconnected { .. } => None,
            Event::CurrentUserUpdate(_) => Some(EventKind::CurrentUserUpdate),
            Event::ActivityJoin(_) => Some(EventKind::ActivityJoin),
            Event::ActivitySpectate(_) => Some(EventKind::ActivitySpectate),
            Event::ActivityJoinRequest(_) => Some(EventKind::ActivityJoinRequest),
            Event::ActivityInvite(_) => Some(EventKind::ActivityInvite),
            Event::LobbyUpdate(_) => Some(EventKind::LobbyUpdate),
            Event::LobbyDelete { .. } => Some(EventKind::LobbyDelete),
            Event::LobbyMemberConnect(_) => Some(EventKind::LobbyMemberConnect),
            Event::LobbyMemberUpdate(_) => Some(EventKind::LobbyMemberUpdate),
            Event::LobbyMemberDisconnect(_) => Some(EventKind::LobbyMemberDisconnect),
            Event::LobbyMessage(_) => Some(EventKind::LobbyMessage),
            Event::SpeakingStart(_) => Some(EventKind::SpeakingStart),
            Event::SpeakingStop(_) => Some(EventKind::SpeakingStop),
            Event::OverlayUpdate(_) => Some(EventKind::OverlayUpdate),
            Event::RelationshipUpdate(_) => Some(EventKind::RelationshipUpdate),
            Event::VoiceSettingsUpdate(_) => Some(EventKind::VoiceSettingsUpdate),
        }
    }
}

impl ClassifiedEvent {
    /// The class that an event belongs to, with the event in the form of
    /// its class.
    ///
    /// Ready, a change of the current user and a disconnect are of the user
    /// class; the four activity events of the activity class; everything of
    /// a lobby, its members, its messages and who speaks of the lobby class;
    /// the overlay update of the overlay class; the relationship update of
    /// the relationships class; the voice settings of the voice class.
    pub open spec fn spec_from(eve: Event) -> ClassifiedEvent
        recommends
            !(eve is Error),
    {
        match eve {
            Event::Ready(ce) => ClassifiedEvent::User(UserEvent::Connect(ce)),
            Event::Disconnected { reason } => ClassifiedEvent::User(
                UserEvent::Disconnect(DisconnectEvent { reason }),
            ),
            Event::CurrentUserUpdate(user) => ClassifiedEvent::User(UserEvent::Update(user)),
            Event::ActivityJoin(secret) => ClassifiedEvent::Activity(ActivityEvent::Join(secret)),
            Event::ActivitySpectate(secret) => ClassifiedEvent::Activity(
                ActivityEvent::Spectate(secret),
            ),
            Event::ActivityJoinRequest(jr) => ClassifiedEvent::Activity(
                ActivityEvent::JoinRequest(jr),
            ),
            Event::ActivityInvite(inv) => ClassifiedEvent::Activity(ActivityEvent::Invite(inv)),
            Event::LobbyUpdate(lobby) => ClassifiedEvent::Lobby(LobbyEvent::Update(lobby)),
            Event::LobbyDelete { id } => ClassifiedEvent::Lobby(LobbyEvent::Delete { id }),
            Event::LobbyMemberConnect(me) => ClassifiedEvent::Lobby(LobbyEvent::MemberConnect(me)),
            Event::LobbyMemberUpdate(me) => ClassifiedEvent::Lobby(LobbyEvent::MemberUpdate(me)),
            Event::LobbyMemberDisconnect(me) => ClassifiedEvent::Lobby(
                LobbyEvent::MemberDisconnect(me),
            ),
            Event::LobbyMessage(msg) => ClassifiedEvent::Lobby(LobbyEvent::Message(msg)),
            Event::SpeakingStart(se) => ClassifiedEvent::Lobby(LobbyEvent::SpeakingStart(se)),
            Event::SpeakingStop(se) => ClassifiedEvent::Lobby(LobbyEvent::SpeakingStop(se)),
            Event::OverlayUpdate(update) => ClassifiedEvent::Overlay(OverlayEvent::Update(update)),
            Event::RelationshipUpdate(rel) => ClassifiedEvent::Relations(
                RelationshipEvent::Update(rel),
            ),
            Event::VoiceSettingsUpdate(settings) => ClassifiedEvent::Voice(
                VoiceEvent::Refresh(settings),
            ),
            Event::Error(payload) => arbitrary(),
        }
    }

    /// Sorts an event into its class. Error events are turned into errors
    /// before events are classified, so none may come here.
    pub fn from(eve: Event) -> (r: ClassifiedEvent)
        requires
            !(eve is Error),
        ensures
            r == Self::spec_from(eve),
    {
        match eve {
            Event::Ready(ce) => ClassifiedEvent::User(UserEvent::Connect(ce)),
            Event::Disconnected { reason } => ClassifiedEvent::User(
                UserEvent::Disconnect(DisconnectEvent { reason }),
            ),
            Event::CurrentUserUpdate(user) => ClassifiedEvent::User(UserEvent::Update(user)),
            Event::ActivityJoin(secret) => ClassifiedEvent::Activity(ActivityEvent::Join(secret)),
            Event::ActivitySpectate(secret) => ClassifiedEvent::Activity(
                ActivityEvent::Spectate(secret),
            ),
            Event::ActivityJoinRequest(jr) => ClassifiedEvent::Activity(
                ActivityEvent::JoinRequest(jr),
            ),
            Event::ActivityInvite(inv) => ClassifiedEvent::Activity(ActivityEvent::Invite(inv)),
            Event::LobbyUpdate(lobby) => ClassifiedEvent::Lobby(LobbyEvent::Update(lobby)),
            Event::LobbyDelete { id } => ClassifiedEvent::Lobby(LobbyEvent::Delete { id }),
            Event::LobbyMemberConnect(me) => ClassifiedEvent::Lobby(LobbyEvent::MemberConnect(me)),
            Event::LobbyMemberUpdate(me) => ClassifiedEvent::Lobby(LobbyEvent::MemberUpdate(me)),
            Event::LobbyMemberDisconnect(me) => ClassifiedEvent::Lobby(
                LobbyEvent::MemberDisconnect(me),
            ),
            Event::LobbyMessage(msg) => ClassifiedEvent::Lobby(LobbyEvent::Message(msg)),
            Event::SpeakingStart(se) => ClassifiedEvent::Lobby(LobbyEvent::SpeakingStart(se)),
            Event::SpeakingStop(se) => ClassifiedEvent::Lobby(LobbyEvent::SpeakingStop(se)),
            Event::OverlayUpdate(update) => ClassifiedEvent::Overlay(OverlayEvent::Update(update)),
            Event::RelationshipUpdate(rel) => ClassifiedEvent::Relations(
                RelationshipEvent::Update(rel),
            ),
            Event::VoiceSettingsUpdate(settings) => ClassifiedEvent::Voice(
                VoiceEvent::Refresh(settings),
            ),
            Event::Error(_) => vstd::pervasive::unreached(),
        }
    }
}

} // verus!
