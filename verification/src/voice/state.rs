//! The latest voice settings, kept up to date by the events of the voice
//! class.

use vstd::prelude::*;
use crate::voice::events::{VoiceEvent, VoiceSettingsUpdateEvent};

verus! {

/// The voice settings as the last event had them.
#[derive(Debug, Clone, PartialEq, Eq)]
pub struct VoiceState {
    pub state: VoiceSettingsUpdateEvent,
}

impl VoiceState {
    /// The settings before any event: nothing muted, nothing set.
    pub fn new() -> (r: VoiceState)
        ensures
            r.state.input_mode is None,
            r.state.local_mute@.len() == 0,
            r.state.local_volumes@.len() == 0,
            !r.state.self_mute,
            !r.state.self_deaf,
    {
        VoiceState { state: VoiceSettingsUpdateEvent::default() }
    }

    /// Takes an event of the voice class: the settings it carries replace
    /// the ones held.
    pub fn on_event(&mut self, ve: VoiceEvent)
        ensures
            match ve {
                VoiceEvent::Refresh(refresh) => final(self).state == refresh,
            },
    {
        match ve {
            VoiceEvent::Refresh(refresh) => {
                self.state = refresh;
            },
        }
    }
}

} // verus!
