//! The overlay that Discord draws over the application.

pub mod events;

use vstd::prelude::*;
use vstd::string::*;
use crate::text::strip_prefix;

verus! {

/// Whether the overlay is shown.
#[derive(Copy, Clone, Debug, PartialEq, Eq, Structural)]
pub enum Visibility {
    Visible,
    Hidden,
}

impl Visibility {
    /// What the wire calls `locked`: true for a hidden overlay.
    pub fn to_locked(self) -> (locked: bool)
        ensures
            locked == (self == Visibility::Hidden),
    {
        match self {
            Visibility::Visible => false,
            Visibility::Hidden => true,
        }
    }

    /// The visibility that `locked` on the wire stands for.
    pub fn from_locked(locked: bool) -> (v: Visibility)
        ensures
            v == if locked {
                Visibility::Hidden
            } else {
                Visibility::Visible
            },
    {
        if locked {
            Visibility::Hidden
        } else {
            Visibility::Visible
        }
    }
}

/// What the invite modal invites to.
#[derive(Copy, Clone, Debug, PartialEq, Eq, Structural)]
pub enum InviteAction {
    Join,
    Spectate,
}

impl InviteAction {
    /// The number that stands for the action on the wire.
    pub fn code(self) -> (c: u8)
        ensures
            c == match self {
                InviteAction::Join => 1u8,
                InviteAction::Spectate => 2u8,
            },
    {
        match self {
            InviteAction::Join => 1,
            InviteAction::Spectate => 2,
        }
    }
}

/// The argument of commands that only name the process.
#[derive(Copy, Clone, Debug, PartialEq, Eq, Structural)]
pub struct OverlayPidArgs {
    pub pid: u32,
}

impl OverlayPidArgs {
    /// The argument for the process `pid`.
    pub fn new(pid: u32) -> (r: OverlayPidArgs)
        ensures
            r.pid == pid,
    {
        OverlayPidArgs { pid }
    }
}

/// The arguments of the command that shows or hides the overlay.
#[derive(Copy, Clone, Debug, PartialEq, Eq, Structural)]
pub struct OverlayToggle {
    /// The process in which the overlay is drawn.
    pub pid: u32,
    pub visibility: Visibility,
}

impl OverlayToggle {
    /// The arguments for the process `pid`.
    pub fn new(pid: u32, visibility: Visibility) -> (r: OverlayToggle)
        ensures
            r.pid == pid,
            r.visibility == visibility,
    {
        OverlayToggle { pid, visibility }
    }
}

/// The text without `prefix` in front, or the text itself.
pub open spec fn without(text: Seq<char>, prefix: Seq<char>) -> Seq<char> {
    if prefix.is_prefix_of(text) {
        text.skip(prefix.len() as int)
    } else {
        text
    }
}

/// The invite code in a link to a guild: the link without `https://` and
/// then without `discord.gg/` or, failing that, `discordapp.com/invite/`.
pub open spec fn spec_invite_code(link: Seq<char>) -> Seq<char> {
    let rest = without(link, "https://"@);
    if "discord.gg/"@.is_prefix_of(rest) {
        without(rest, "discord.gg/"@)
    } else {
        without(rest, "discordapp.com/invite/"@)
    }
}

/// Takes the invite code out of a link to a guild. A bare code is given
/// back as it is.
pub fn invite_code<'a>(link: &'a str) -> (code: &'a str)
    ensures
        code@ == spec_invite_code(link@),
{
    let mut code = link;
    if let Some(rest) = strip_prefix(code, "https://") {
        code = rest;
    }
    if let Some(rest) = strip_prefix(code, "discord.gg/") {
        code = rest;
    } else if let Some(rest) = strip_prefix(code, "discordapp.com/invite/") {
        code = rest;
    }
    code
}

} // verus!
