//! The voice settings of the user.

pub mod events;
pub mod state;

use vstd::prelude::*;
use vstd::string::*;
use crate::error::Error;
use crate::text::text_eq;

verus! {

/// The loudest that a user can be set to, in percent of the default.
pub const MAX_VOLUME: u8 = 200;

/// When the microphone is open.
#[derive(Clone, Debug, PartialEq, Eq)]
pub enum InputMode {
    /// When the user speaks.
    VoiceActivity,
    /// While the keys of the shortcut are held.
    PushToTalk { shortcut: String },
}

/// Whether `r` is the input mode that a kind and a shortcut on the wire
/// stand for. Push to talk without a shortcut has an empty one; a kind
/// other than the two is an invalid field.
pub open spec fn is_input_mode_of(
    kind: Seq<char>,
    shortcut: Option<String>,
    r: Result<InputMode, Error>,
) -> bool {
    if kind == "VOICE_ACTIVITY"@ {
        r matches Ok(InputMode::VoiceActivity)
    } else if kind == "PUSH_TO_TALK"@ {
        r matches Ok(InputMode::PushToTalk { shortcut: s }) && s@ == match shortcut {
            Some(given) => given@,
            None => Seq::<char>::empty(),
        }
    } else {
        r matches Err(Error::InvalidField(f)) && f@ == "type"@
    }
}

impl InputMode {
    /// The name of the mode on the wire.
    pub open spec fn spec_kind(self) -> Seq<char> {
        match self {
            InputMode::VoiceActivity => "VOICE_ACTIVITY"@,
            InputMode::PushToTalk { .. } => "PUSH_TO_TALK"@,
        }
    }

    /// The shortcut that goes out with the mode: Discord wants one that is
    /// not empty even where the mode has none, so voice activity sends `_`.
    pub open spec fn spec_wire_shortcut(self) -> Seq<char> {
        match self {
            InputMode::VoiceActivity => "_"@,
            InputMode::PushToTalk { shortcut } => shortcut@,
        }
    }

    /// The name of the mode on the wire.
    pub fn kind(&self) -> (name: &'static str)
        ensures
            name@ == self.spec_kind(),
    {
        match self {
            InputMode::VoiceActivity => "VOICE_ACTIVITY",
            InputMode::PushToTalk { .. } => "PUSH_TO_TALK",
        }
    }

    /// The shortcut that goes out with the mode.
    pub fn wire_shortcut(&self) -> (shortcut: String)
        ensures
            shortcut@ == self.spec_wire_shortcut(),
    {
        match self {
            InputMode::VoiceActivity => "_".to_owned(),
            InputMode::PushToTalk { shortcut } => shortcut.clone(),
        }
    }

    /// Reads a mode from its kind and its shortcut on the wire.
    pub fn deserialize(kind: &str, shortcut: Option<String>) -> (r: Result<InputMode, Error>)
        ensures
            is_input_mode_of(kind@, shortcut, r),
    {
        if text_eq(kind, "VOICE_ACTIVITY") {
            Ok(InputMode::VoiceActivity)
        } else if text_eq(kind, "PUSH_TO_TALK") {
            let shortcut = match shortcut {
                Some(s) => s,
                None => String::new(),
            };
            Ok(InputMode::PushToTalk { shortcut })
        } else {
            Err(Error::InvalidField("type"))
        }
    }
}

/// The volume that is sent for a user: never more than 200.
pub fn clamp_volume(volume: u8) -> (v: u8)
    ensures
        v == if volume > MAX_VOLUME {
            MAX_VOLUME
        } else {
            volume
        },
{
    if volume > MAX_VOLUME {
        MAX_VOLUME
    } else {
        volume
    }
}

} // verus!
