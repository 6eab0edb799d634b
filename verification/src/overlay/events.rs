//! The events of the overlay class.

use vstd::prelude::*;
use crate::overlay::Visibility;

verus! {

/// The overlay was switched on or off, or shown or hidden.
#[derive(Copy, Clone, Debug, PartialEq, Eq, Structural)]
pub struct UpdateEvent {
    /// Whether the user has the overlay switched on. Without it Discord
    /// shows its windows in its own client.
    pub enabled: bool,
    /// Whether the overlay is shown.
    pub visible: Visibility,
}

/// An event of the overlay class.
#[derive(Copy, Clone, Debug, PartialEq, Eq, Structural)]
pub enum OverlayEvent {
    Update(UpdateEvent),
}

} // verus!
