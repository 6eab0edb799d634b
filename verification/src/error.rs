//! The failures a client can meet, and the mapping from Discord's numeric
//! error codes to the ones with a name.

use vstd::prelude::*;
use vstd::string::*;
use crate::proto::command::CommandKind;
use crate::text::{strip_prefix, text_eq};
use crate::types::{opt_text, ErrorPayload};

verus! {

/// Anything that can go wrong between the caller and Discord.
#[derive(Debug, Clone)]
pub enum Error {
    /// No connection could be established with Discord.
    NoConnection,
    /// A queue is full and cannot take another message.
    ChannelFull,
    /// A queue was closed by its other end.
    ChannelDisconnected,
    /// Discord closed the connection, with its reason.
    Close(String),
    /// Discord sent something that only a corrupt stream explains.
    CorruptConnection,
    /// A message lacked a member that should have been there.
    MissingField(&'static str),
    /// A message held a member with a value that cannot be used.
    InvalidField(&'static str),
    /// Reading or writing the stream failed; `action` says what was tried.
    Io { action: &'static str, error: String },
    /// More than one place for the URL among launch arguments.
    TooManyUrls,
    /// A body was not the JSON it should have been.
    Json(String),
    /// A number that names no variant of the kind `kind`.
    UnknownVariant { kind: &'static str, value: u32 },
    /// Registering the application with the system failed.
    AppRegistration(String),
    /// Discord answered, and the answer was an error.
    Discord(DiscordErr),
    /// A lobby secret was not of the form `<lobby_id>:<lobby_secret>`.
    NonCanonicalLobbyActivitySecret,
    /// An operation did not complete in the time it was given.
    TimedOut,
}

/// An error in the use of the RPC interface itself.
#[derive(Debug, Clone)]
pub enum DiscordErr {
    /// The response to request `nonce` was of another command than the request.
    MismatchedResponse { expected: CommandKind, actual: CommandKind, nonce: u64 },
    /// An error event.
    Api(DiscordApiErr),
}

/// An error event sent by Discord. Few codes are known by name.
#[derive(Debug, Clone, PartialEq, Eq)]
pub enum DiscordApiErr {
    AlreadyConnectedToLobby,
    AlreadyConnectingToLobby,
    /// Discord met an error it does not explain.
    Unknown,
    /// The error event held no data.
    NoErrorData,
    /// Discord could not read the command.
    MalformedCommand,
    /// An error that has no variant of its own.
    Generic { code: Option<u32>, message: Option<String> },
    InvalidLobbySecret,
    /// Discord read the command and refused it.
    InvalidCommand { reason: String },
}

/// What a [`DiscordApiErr`] says, with texts as character sequences.
pub enum ApiErrView {
    AlreadyConnectedToLobby,
    AlreadyConnectingToLobby,
    Unknown,
    NoErrorData,
    MalformedCommand,
    Generic { code: Option<u32>, message: Option<Seq<char>> },
    InvalidLobbySecret,
    InvalidCommand { reason: Seq<char> },
}

impl View for DiscordApiErr {
    type V = ApiErrView;

    open spec fn view(&self) -> ApiErrView {
        match *self {
            DiscordApiErr::AlreadyConnectedToLobby => ApiErrView::AlreadyConnectedToLobby,
            DiscordApiErr::AlreadyConnectingToLobby => ApiErrView::AlreadyConnectingToLobby,
            DiscordApiErr::Unknown => ApiErrView::Unknown,
            DiscordApiErr::NoErrorData => ApiErrView::NoErrorData,
            DiscordApiErr::MalformedCommand => ApiErrView::MalformedCommand,
            DiscordApiErr::Generic { code, message } => ApiErrView::Generic {
                code,
                message: opt_text(message),
            },
            DiscordApiErr::InvalidLobbySecret => ApiErrView::InvalidLobbySecret,
            DiscordApiErr::InvalidCommand { reason } => ApiErrView::InvalidCommand {
                reason: reason@,
            },
        }
    }
}

/// The error that a code and a message stand for.
///
/// Code 1000 with the message "Unknown Error" and code 1003 with "protocol
/// error" have names; code 4000 is an invalid command whose reason is the
/// message; code 4002 is one where the message begins with "Invalid command: ",
/// and the reason is what follows. Everything else is kept as it came.
pub open spec fn api_error_of(code: Option<u32>, message: Option<Seq<char>>) -> ApiErrView {
    let generic = ApiErrView::Generic { code, message };
    match code {
        Some(1000) => if message == Some("Unknown Error"@) {
            ApiErrView::Unknown
        } else {
            generic
        },
        Some(1003) => if message == Some("protocol error"@) {
            ApiErrView::MalformedCommand
        } else {
            generic
        },
        Some(4000) => ApiErrView::InvalidCommand {
            reason: match message {
                Some(m) => m,
                None => "unknown problem"@,
            },
        },
        Some(4002) => match message {
            Some(m) => if "Invalid command: "@.is_prefix_of(m) {
                ApiErrView::InvalidCommand { reason: m.skip("Invalid command: "@.len() as int) }
            } else {
                generic
            },
            None => generic,
        },
        _ => generic,
    }
}

/// The error that the body of an error event stands for.
pub open spec fn api_error_of_payload(payload: Option<ErrorPayload>) -> ApiErrView {
    match payload {
        Some(p) => api_error_of(p.code, opt_text(p.message)),
        None => ApiErrView::NoErrorData,
    }
}

impl DiscordApiErr {
    /// Gives the error that the body of an error event stands for. An event
    /// without a body is `NoErrorData`.
    pub fn from_payload(payload: Option<ErrorPayload>) -> (err: DiscordApiErr)
        ensures
            err@ == api_error_of_payload(payload),
    {
        let payload = match payload {
            Some(p) => p,
            None => {
                return DiscordApiErr::NoErrorData;
            },
        };
        let code = payload.code;
        let message = payload.message;
        match code {
            Some(1000) => {
                if Self::message_is(&message, "Unknown Error") {
                    return DiscordApiErr::Unknown;
                }
            },
            Some(1003) => {
                if Self::message_is(&message, "protocol error") {
                    return DiscordApiErr::MalformedCommand;
                }
            },
            Some(4000) => {
                let reason = match message {
                    Some(m) => m,
                    None => "unknown problem".to_owned(),
                };
                return DiscordApiErr::InvalidCommand { reason };
            },
            Some(4002) => {
                if let Some(m) = &message {
                    if let Some(rest) = strip_prefix(m.as_str(), "Invalid command: ") {
                        return DiscordApiErr::InvalidCommand { reason: rest.to_owned() };
                    }
                }
            },
            _ => {},
        }
        DiscordApiErr::Generic { code, message }
    }

    fn message_is(message: &Option<String>, expected: &str) -> (r: bool)
        ensures
            r == (opt_text(*message) == Some(expected@)),
    {
        match message {
            Some(m) => text_eq(m.as_str(), expected),
            None => false,
        }
    }
}

} // verus!
