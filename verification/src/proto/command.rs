//! The commands of the RPC protocol.

use vstd::prelude::*;
use vstd::string::*;
use crate::activity::SetActivity;
use crate::lobby::Lobby;
use crate::proto::event::EventKind;
use crate::relations::Relationship;
use crate::text::text_eq;

verus! {

/// The kind of a request, and of the response that answers it.
#[derive(Copy, Clone, Debug, PartialEq, Eq, Structural)]
pub enum CommandKind {
    /// Dispatch of the event named in `evt`.
    Dispatch,
    /// Subscribes to the event named in `evt`.
    Subscribe,
    /// Unsubscribes from the event named in `evt`.
    Unsubscribe,
    /// Updates the user's rich presence.
    SetActivity,
    /// Accepts a request to join.
    SendActivityJoinInvite,
    /// Rejects a request to join.
    CloseActivityJoinRequest,
    /// Invites another user.
    ActivityInviteUser,
    /// Accepts another user's invite.
    AcceptActivityInvite,
    /// Creates a lobby.
    CreateLobby,
    /// Changes the mutable properties of a lobby.
    UpdateLobby,
    /// Searches for lobbies.
    SearchLobbies,
    /// Deletes a lobby.
    DeleteLobby,
    /// Connects to a lobby.
    ConnectToLobby,
    /// Disconnects from a lobby.
    DisconnectFromLobby,
    /// Sends a message to a lobby.
    SendToLobby,
    /// Joins the voice channel of a lobby.
    ConnectToLobbyVoice,
    /// Leaves the voice channel of a lobby.
    DisconnectFromLobbyVoice,
    /// Updates a lobby member's metadata.
    UpdateLobbyMember,
    /// Opens or closes the overlay.
    SetOverlayVisibility,
    /// Opens the activity invite modal.
    OpenOverlayActivityInvite,
    /// Opens the guild invite modal.
    OpenOverlayGuildInvite,
    /// Opens the voice settings.
    OpenOverlayVoiceSettings,
    /// Retrieves the user's relationships.
    GetRelationships,
    /// Changes the user's own voice settings.
    SetVoiceSettings,
    /// Changes how the user hears another user.
    SetUserVoiceSettings,
}

impl CommandKind {
    /// The name of the kind on the wire.
    pub open spec fn spec_name(self) -> Seq<char> {
        match self {
            CommandKind::Dispatch => "DISPATCH"@,
            CommandKind::Subscribe => "SUBSCRIBE"@,
            CommandKind::Unsubscribe => "UNSUBSCRIBE"@,
            CommandKind::SetActivity => "SET_ACTIVITY"@,
            CommandKind::SendActivityJoinInvite => "SEND_ACTIVITY_JOIN_INVITE"@,
            CommandKind::CloseActivityJoinRequest => "CLOSE_ACTIVITY_JOIN_REQUEST"@,
            CommandKind::ActivityInviteUser => "ACTIVITY_INVITE_USER"@,
            CommandKind::AcceptActivityInvite => "ACCEPT_ACTIVITY_INVITE"@,
            CommandKind::CreateLobby => "CREATE_LOBBY"@,
            CommandKind::UpdateLobby => "UPDATE_LOBBY"@,
            CommandKind::SearchLobbies => "SEARCH_LOBBIES"@,
            CommandKind::DeleteLobby => "DELETE_LOBBY"@,
            CommandKind::ConnectToLobby => "CONNECT_TO_LOBBY"@,
            CommandKind::DisconnectFromLobby => "DISCONNECT_FROM_LOBBY"@,
            CommandKind::SendToLobby => "SEND_TO_LOBBY"@,
            CommandKind::ConnectToLobbyVoice => "CONNECT_TO_LOBBY_VOICE"@,
            CommandKind::DisconnectFromLobbyVoice => "DISCONNECT_FROM_LOBBY_VOICE"@,
            CommandKind::UpdateLobbyMember => "UPDATE_LOBBY_MEMBER"@,
            CommandKind::SetOverlayVisibility => "SET_OVERLAY_LOCKED"@,
            CommandKind::OpenOverlayActivityInvite => "OPEN_OVERLAY_ACTIVITY_INVITE"@,
            CommandKind::OpenOverlayGuildInvite => "OPEN_OVERLAY_GUILD_INVITE"@,
            CommandKind::OpenOverlayVoiceSettings => "OPEN_OVERLAY_VOICE_SETTINGS"@,
            CommandKind::GetRelationships => "GET_RELATIONSHIPS"@,
            CommandKind::SetVoiceSettings => "SET_VOICE_SETTINGS"@,
            CommandKind::SetUserVoiceSettings => "SET_USER_VOICE_SETTINGS"@,
        }
    }

    /// The kind that goes by `name` on the wire, if there is one.
    pub open spec fn spec_from_name(name: Seq<char>) -> Option<CommandKind> {
        if name == "DISPATCH"@ {
            Some(CommandKind::Dispatch)
        } else if name == "SUBSCRIBE"@ {
            Some(CommandKind::Subscribe)
        } else if name == "UNSUBSCRIBE"@ {
            Some(CommandKind::Unsubscribe)
        } else if name == "SET_ACTIVITY"@ {
            Some(CommandKind::SetActivity)
        } else if name == "SEND_ACTIVITY_JOIN_INVITE"@ {
            Some(CommandKind::SendActivityJoinInvite)
        } else if name == "CLOSE_ACTIVITY_JOIN_REQUEST"@ {
            Some(CommandKind::CloseActivityJoinRequest)
        } else if name == "ACTIVITY_INVITE_USER"@ {
            Some(CommandKind::ActivityInviteUser)
        } else if name == "ACCEPT_ACTIVITY_INVITE"@ {
            Some(CommandKind::AcceptActivityInvite)
        } else if name == "CREATE_LOBBY"@ {
            Some(CommandKind::CreateLobby)
        } else if name == "UPDATE_LOBBY"@ {
            Some(CommandKind::UpdateLobby)
        } else if name == "SEARCH_LOBBIES"@ {
            Some(CommandKind::SearchLobbies)
        } else if name == "DELETE_LOBBY"@ {
            Some(CommandKind::DeleteLobby)
        } else if name == "CONNECT_TO_LOBBY"@ {
            Some(CommandKind::ConnectToLobby)
        } else if name == "DISCONNECT_FROM_LOBBY"@ {
            Some(CommandKind::DisconnectFromLobby)
        } else if name == "SEND_TO_LOBBY"@ {
            Some(CommandKind::SendToLobby)
        } else if name == "CONNECT_TO_LOBBY_VOICE"@ {
            Some(CommandKind::ConnectToLobbyVoice)
        } else if name == "DISCONNECT_FROM_LOBBY_VOICE"@ {
            Some(CommandKind::DisconnectFromLobbyVoice)
        } else if name == "UPDATE_LOBBY_MEMBER"@ {
            Some(CommandKind::UpdateLobbyMember)
        } else if name == "SET_OVERLAY_LOCKED"@ {
            Some(CommandKind::SetOverlayVisibility)
        } else if name == "OPEN_OVERLAY_ACTIVITY_INVITE"@ {
            Some(CommandKind::OpenOverlayActivityInvite)
        } else if name == "OPEN_OVERLAY_GUILD_INVITE"@ {
            Some(CommandKind::OpenOverlayGuildInvite)
        } else if name == "OPEN_OVERLAY_VOICE_SETTINGS"@ {
            Some(CommandKind::OpenOverlayVoiceSettings)
        } else if name == "GET_RELATIONSHIPS"@ {
            Some(CommandKind::GetRelationships)
        } else if name == "SET_VOICE_SETTINGS"@ {
            Some(CommandKind::SetVoiceSettings)
        } else if name == "SET_USER_VOICE_SETTINGS"@ {
            Some(CommandKind::SetUserVoiceSettings)
        } else {
            None
        }
    }

    /// The name of the kind on the wire, in upper case with underscores.
    pub fn name(self) -> (name: &'static str)
        ensures
            name@ == self.spec_name(),
    {
        match self {
            CommandKind::Dispatch => "DISPATCH",
            CommandKind::Subscribe => "SUBSCRIBE",
            CommandKind::Unsubscribe => "UNSUBSCRIBE",
            CommandKind::SetActivity => "SET_ACTIVITY",
            CommandKind::SendActivityJoinInvite => "SEND_ACTIVITY_JOIN_INVITE",
            CommandKind::CloseActivityJoinRequest => "CLOSE_ACTIVITY_JOIN_REQUEST",
            CommandKind::ActivityInviteUser => "ACTIVITY_INVITE_USER",
            CommandKind::AcceptActivityInvite => "ACCEPT_ACTIVITY_INVITE",
            CommandKind::CreateLobby => "CREATE_LOBBY",
            CommandKind::UpdateLobby => "UPDATE_LOBBY",
            CommandKind::SearchLobbies => "SEARCH_LOBBIES",
            CommandKind::DeleteLobby => "DELETE_LOBBY",
            CommandKind::ConnectToLobby => "CONNECT_TO_LOBBY",
            CommandKind::DisconnectFromLobby => "DISCONNECT_FROM_LOBBY",
            CommandKind::SendToLobby => "SEND_TO_LOBBY",
            CommandKind::ConnectToLobbyVoice => "CONNECT_TO_LOBBY_VOICE",
            CommandKind::DisconnectFromLobbyVoice => "DISCONNECT_FROM_LOBBY_VOICE",
            CommandKind::UpdateLobbyMember => "UPDATE_LOBBY_MEMBER",
            CommandKind::SetOverlayVisibility => "SET_OVERLAY_LOCKED",
            CommandKind::OpenOverlayActivityInvite => "OPEN_OVERLAY_ACTIVITY_INVITE",
            CommandKind::OpenOverlayGuildInvite => "OPEN_OVERLAY_GUILD_INVITE",
            CommandKind::OpenOverlayVoiceSettings => "OPEN_OVERLAY_VOICE_SETTINGS",
            CommandKind::GetRelationships => "GET_RELATIONSHIPS",
            CommandKind::SetVoiceSettings => "SET_VOICE_SETTINGS",
            CommandKind::SetUserVoiceSettings => "SET_USER_VOICE_SETTINGS",
        }
    }

    /// Reads a kind from its name on the wire. Names are matched exactly.
    pub fn from_name(name: &str) -> (kind: Option<CommandKind>)
        ensures
            kind == Self::spec_from_name(name@),
    {
        if text_eq(name, "DISPATCH") {
            Some(CommandKind::Dispatch)
        } else if text_eq(name, "SUBSCRIBE") {
            Some(CommandKind::Subscribe)
        } else if text_eq(name, "UNSUBSCRIBE") {
            Some(CommandKind::Unsubscribe)
        } else if text_eq(name, "SET_ACTIVITY") {
            Some(CommandKind::SetActivity)
        } else if text_eq(name, "SEND_ACTIVITY_JOIN_INVITE") {
            Some(CommandKind::SendActivityJoinInvite)
        } else if text_eq(name, "CLOSE_ACTIVITY_JOIN_REQUEST") {
            Some(CommandKind::CloseActivityJoinRequest)
        } else if text_eq(name, "ACTIVITY_INVITE_USER") {
            Some(CommandKind::ActivityInviteUser)
        } else if text_eq(name, "ACCEPT_ACTIVITY_INVITE") {
            Some(CommandKind::AcceptActivityInvite)
        } else if text_eq(name, "CREATE_LOBBY") {
            Some(CommandKind::CreateLobby)
        } else if text_eq(name, "UPDATE_LOBBY") {
            Some(CommandKind::UpdateLobby)
        } else if text_eq(name, "SEARCH_LOBBIES") {
            Some(CommandKind::SearchLobbies)
        } else if text_eq(name, "DELETE_LOBBY") {
            Some(CommandKind::DeleteLobby)
        } else if text_eq(name, "CONNECT_TO_LOBBY") {
            Some(CommandKind::ConnectToLobby)
        } else if text_eq(name, "DISCONNECT_FROM_LOBBY") {
            Some(CommandKind::DisconnectFromLobby)
        } else if text_eq(name, "SEND_TO_LOBBY") {
            Some(CommandKind::SendToLobby)
        } else if text_eq(name, "CONNECT_TO_LOBBY_VOICE") {
            Some(CommandKind::ConnectToLobbyVoice)
        } else if text_eq(name, "DISCONNECT_FROM_LOBBY_VOICE") {
            Some(CommandKind::DisconnectFromLobbyVoice)
        } else if text_eq(name, "UPDATE_LOBBY_MEMBER") {
            Some(CommandKind::UpdateLobbyMember)
        } else if text_eq(name, "SET_OVERLAY_LOCKED") {
            Some(CommandKind::SetOverlayVisibility)
        } else if text_eq(name, "OPEN_OVERLAY_ACTIVITY_INVITE") {
            Some(CommandKind::OpenOverlayActivityInvite)
        } else if text_eq(name, "OPEN_OVERLAY_GUILD_INVITE") {
            Some(CommandKind::OpenOverlayGuildInvite)
        } else if text_eq(name, "OPEN_OVERLAY_VOICE_SETTINGS") {
            Some(CommandKind::OpenOverlayVoiceSettings)
        } else if text_eq(name, "GET_RELATIONSHIPS") {
            Some(CommandKind::GetRelationships)
        } else if text_eq(name, "SET_VOICE_SETTINGS") {
            Some(CommandKind::SetVoiceSettings)
        } else if text_eq(name, "SET_USER_VOICE_SETTINGS") {
            Some(CommandKind::SetUserVoiceSettings)
        } else {
            None
        }
    }
}

/// What tells the names of the kinds apart: the length of a name, its
/// first character and its last.
spec fn name_mark(name: Seq<char>) -> (nat, char, char) {
    (name.len(), name[0], name[name.len() - 1])
}

/// Every kind has a name of its own: reading the name of a kind gives the
/// kind back. The names are ASCII and short.
pub proof fn lemma_command_names(kind: CommandKind)
    ensures
        CommandKind::spec_from_name(kind.spec_name()) == Some(kind),
        vstd::utf8::is_ascii_chars(kind.spec_name()),
        1 <= kind.spec_name().len() <= 32,
        vstd::utf8::encode_utf8(kind.spec_name()).len() == kind.spec_name().len(),
{
    reveal_strlit("DISPATCH");
    assert(name_mark("DISPATCH"@) == (8nat, 'D', 'H'));
    reveal_strlit("SUBSCRIBE");
    assert(name_mark("SUBSCRIBE"@) == (9nat, 'S', 'E'));
    reveal_strlit("UNSUBSCRIBE");
    assert(name_mark("UNSUBSCRIBE"@) == (11nat, 'U', 'E'));
    reveal_strlit("SET_ACTIVITY");
    assert(name_mark("SET_ACTIVITY"@) == (12nat, 'S', 'Y'));
    reveal_strlit("SEND_ACTIVITY_JOIN_INVITE");
    assert(name_mark("SEND_ACTIVITY_JOIN_INVITE"@) == (25nat, 'S', 'E'));
    reveal_strlit("CLOSE_ACTIVITY_JOIN_REQUEST");
    assert(name_mark("CLOSE_ACTIVITY_JOIN_REQUEST"@) == (27nat, 'C', 'T'));
    reveal_strlit("ACTIVITY_INVITE_USER");
    assert(name_mark("ACTIVITY_INVITE_USER"@) == (20nat, 'A', 'R'));
    reveal_strlit("ACCEPT_ACTIVITY_INVITE");
    assert(name_mark("ACCEPT_ACTIVITY_INVITE"@) == (22nat, 'A', 'E'));
    reveal_strlit("CREATE_LOBBY");
    assert(name_mark("CREATE_LOBBY"@) == (12nat, 'C', 'Y'));
    reveal_strlit("UPDATE_LOBBY");
    assert(name_mark("UPDATE_LOBBY"@) == (12nat, 'U', 'Y'));
    reveal_strlit("SEARCH_LOBBIES");
    assert(name_mark("SEARCH_LOBBIES"@) == (14nat, 'S', 'S'));
    reveal_strlit("DELETE_LOBBY");
    assert(name_mark("DELETE_LOBBY"@) == (12nat, 'D', 'Y'));
    reveal_strlit("CONNECT_TO_LOBBY");
    assert(name_mark("CONNECT_TO_LOBBY"@) == (16nat, 'C', 'Y'));
    reveal_strlit("DISCONNECT_FROM_LOBBY");
    assert(name_mark("DISCONNECT_FROM_LOBBY"@) == (21nat, 'D', 'Y'));
    reveal_strlit("SEND_TO_LOBBY");
    assert(name_mark("SEND_TO_LOBBY"@) == (13nat, 'S', 'Y'));
    reveal_strlit("CONNECT_TO_LOBBY_VOICE");
    assert(name_mark("CONNECT_TO_LOBBY_VOICE"@) == (22nat, 'C', 'E'));
    reveal_strlit("DISCONNECT_FROM_LOBBY_VOICE");
    assert(name_mark("DISCONNECT_FROM_LOBBY_VOICE"@) == (27nat, 'D', 'E'));
    reveal_strlit("UPDATE_LOBBY_MEMBER");
    assert(name_mark("UPDATE_LOBBY_MEMBER"@) == (19nat, 'U', 'R'));
    reveal_strlit("SET_OVERLAY_LOCKED");
    assert(name_mark("SET_OVERLAY_LOCKED"@) == (18nat, 'S', 'D'));
    reveal_strlit("OPEN_OVERLAY_ACTIVITY_INVITE");
    assert(name_mark("OPEN_OVERLAY_ACTIVITY_INVITE"@) == (28nat, 'O', 'E'));
    reveal_strlit("OPEN_OVERLAY_GUILD_INVITE");
    assert(name_mark("OPEN_OVERLAY_GUILD_INVITE"@) == (25nat, 'O', 'E'));
    reveal_strlit("OPEN_OVERLAY_VOICE_SETTINGS");
    assert(name_mark("OPEN_OVERLAY_VOICE_SETTINGS"@) == (27nat, 'O', 'S'));
    reveal_strlit("GET_RELATIONSHIPS");
    assert(name_mark("GET_RELATIONSHIPS"@) == (17nat, 'G', 'S'));
    reveal_strlit("SET_VOICE_SETTINGS");
    assert(name_mark("SET_VOICE_SETTINGS"@) == (18nat, 'S', 'S'));
    reveal_strlit("SET_USER_VOICE_SETTINGS");
    assert(name_mark("SET_USER_VOICE_SETTINGS"@) == (23nat, 'S', 'S'));
    vstd::utf8::is_ascii_chars_encode_utf8(kind.spec_name());
}

/// The response to a request, with what it carries.
#[derive(Debug, Clone, PartialEq, Eq)]
pub enum Command {
    Subscribe { evt: EventKind },
    CreateLobby(Lobby),
    UpdateLobby,
    SearchLobbies(Vec<Lobby>),
    DeleteLobby,
    ConnectToLobby(Lobby),
    DisconnectFromLobby,
    SendToLobby,
    ConnectToLobbyVoice,
    DisconnectFromLobbyVoice,
    UpdateLobbyMember,
    SetActivity(Option<SetActivity>),
    ActivityInviteUser,
    AcceptActivityInvite,
    SendActivityJoinInvite,
    CloseActivityJoinRequest,
    SetOverlayVisibility,
    OpenOverlayActivityInvite,
    OpenOverlayGuildInvite,
    OpenOverlayVoiceSettings,
    GetRelationships { relationships: Vec<Relationship> },
    SetVoiceSettings,
    SetUserVoiceSettings,
}

impl Command {
    /// The kind of command that the response answers.
    pub open spec fn spec_kind(self) -> CommandKind {
        match self {
            Command::Subscribe { .. } => CommandKind::Subscribe,
            Command::CreateLobby(_) => CommandKind::CreateLobby,
            Command::UpdateLobby => CommandKind::UpdateLobby,
            Command::SearchLobbies(_) => CommandKind::SearchLobbies,
            Command::DeleteLobby => CommandKind::DeleteLobby,
            Command::ConnectToLobby(_) => CommandKind::ConnectToLobby,
            Command::DisconnectFromLobby => CommandKind::DisconnectFromLobby,
            Command::SendToLobby => CommandKind::SendToLobby,
            Command::ConnectToLobbyVoice => CommandKind::ConnectToLobbyVoice,
            Command::DisconnectFromLobbyVoice => CommandKind::DisconnectFromLobbyVoice,
            Command::UpdateLobbyMember => CommandKind::UpdateLobbyMember,
            Command::SetActivity(_) => CommandKind::SetActivity,
            Command::ActivityInviteUser => CommandKind::ActivityInviteUser,
            Command::AcceptActivityInvite => CommandKind::AcceptActivityInvite,
            Command::SendActivityJoinInvite => CommandKind::SendActivityJoinInvite,
            Command::CloseActivityJoinRequest => CommandKind::CloseActivityJoinRequest,
            Command::SetOverlayVisibility => CommandKind::SetOverlayVisibility,
            Command::OpenOverlayActivityInvite => CommandKind::OpenOverlayActivityInvite,
            Command::OpenOverlayGuildInvite => CommandKind::OpenOverlayGuildInvite,
            Command::OpenOverlayVoiceSettings => CommandKind::OpenOverlayVoiceSettings,
            Command::GetRelationships { .. } => CommandKind::GetRelationships,
            Command::SetVoiceSettings => CommandKind::SetVoiceSettings,
            Command::SetUserVoiceSettings => CommandKind::SetUserVoiceSettings,
        }
    }

    /// The kind of command that the response answers.
    pub fn kind(&self) -> (kind: CommandKind)
        ensures
            kind == self.spec_kind(),
    {
        match self {
            Command::Subscribe { .. } => CommandKind::Subscribe,
            Command::CreateLobby(_) => CommandKind::CreateLobby,
            Command::UpdateLobby => CommandKind::UpdateLobby,
            Command::SearchLobbies(_) => CommandKind::SearchLobbies,
            Command::DeleteLobby => CommandKind::DeleteLobby,
            Command::ConnectToLobby(_) => CommandKind::ConnectToLobby,
            Command::DisconnectFromLobby => CommandKind::DisconnectFromLobby,
            Command::SendToLobby => CommandKind::SendToLobby,
            Command::ConnectToLobbyVoice => CommandKind::ConnectToLobbyVoice,
            Command::DisconnectFromLobbyVoice => CommandKind::DisconnectFromLobbyVoice,
            Command::UpdateLobbyMember => CommandKind::UpdateLobbyMember,
            Command::SetActivity(_) => CommandKind::SetActivity,
            Command::ActivityInviteUser => CommandKind::ActivityInviteUser,
            Command::AcceptActivityInvite => CommandKind::AcceptActivityInvite,
            Command::SendActivityJoinInvite => CommandKind::SendActivityJoinInvite,
            Command::CloseActivityJoinRequest => CommandKind::CloseActivityJoinRequest,
            Command::SetOverlayVisibility => CommandKind::SetOverlayVisibility,
            Command::OpenOverlayActivityInvite => CommandKind::OpenOverlayActivityInvite,
            Command::OpenOverlayGuildInvite => CommandKind::OpenOverlayGuildInvite,
            Command::OpenOverlayVoiceSettings => CommandKind::OpenOverlayVoiceSettings,
            Command::GetRelationships { .. } => CommandKind::GetRelationships,
            Command::SetVoiceSettings => CommandKind::SetVoiceSettings,
            Command::SetUserVoiceSettings => CommandKind::SetUserVoiceSettings,
        }
    }
}

/// A response together with the nonce of the request that it answers.
#[derive(Debug, Clone, PartialEq, Eq)]
pub struct CommandFrame {
    pub inner: Command,
    pub nonce: u64,
}

} // verus!
