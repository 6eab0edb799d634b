//! The events of the voice class.

use vstd::prelude::*;
use crate::user::UserId;
use crate::voice::InputMode;

verus! {

/// The voice settings of the user, whole.
#[derive(Clone, Debug, PartialEq, Eq)]
pub struct VoiceSettingsUpdateEvent {
    pub input_mode: Option<InputMode>,
    /// The users that the current user has muted.
    pub local_mute: Vec<UserId>,
    /// The volumes that the current user has given other users.
    pub local_volumes: Vec<(UserId, u8)>,
    pub self_mute: bool,
    pub self_deaf: bool,
}

impl Default for VoiceSettingsUpdateEvent {
    fn default() -> (r: VoiceSettingsUpdateEvent)
        ensures
            r.input_mode is None,
            r.local_mute@.len() == 0,
            r.local_volumes@.len() == 0,
            !r.self_mute,
            !r.self_deaf,
    {
        VoiceSettingsUpdateEvent {
            input_mode: None,
            local_mute: Vec::new(),
            local_volumes: Vec::new(),
            self_mute: false,
            self_deaf: false,
        }
    }
}

/// An event of the voice class.
#[derive(Debug, Clone, PartialEq, Eq)]
pub enum VoiceEvent {
    /// The settings as Discord has them now.
    Refresh(VoiceSettingsUpdateEvent),
}

} // verus!
