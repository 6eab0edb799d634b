//! Activities, also known as rich presence: what the user is doing, as
//! shown on the user's profile.

pub mod events;

use vstd::prelude::*;
use vstd::string::*;
use vstd::utf8::*;
use crate::proto::command::CommandKind;
use crate::text::{limited, spec_limited, starts_with};
use crate::types::{opt_text, Snowflake};
use crate::user::User;

verus! {

/// The most bytes that Discord keeps of a text of the presence.
pub const TEXT_LIMIT: usize = 128;

/// The most bytes of an image key that is no URL.
pub const KEY_LIMIT: usize = 32;

/// Whether a party can be joined without asking.
#[derive(PartialEq, Eq, Structural, Debug, Copy, Clone)]
pub enum PartyPrivacy {
    Private,
    Public,
}

/// A group of users with an identifier of its own.
#[derive(Clone, Debug, PartialEq, Eq)]
pub struct Party {
    /// The identifier of the party.
    pub id: String,
    /// How many are in the party, and how many it takes.
    pub size: Option<(u32, u32)>,
    pub privacy: Option<PartyPrivacy>,
}

/// A point in time that can be given as seconds since the Unix epoch.
pub trait IntoTimestamp: Sized {
    /// The point in time in seconds since the Unix epoch.
    spec fn spec_timestamp(self) -> i64;

    /// Gives the point in time in seconds since the Unix epoch.
    fn into_timestamp(self) -> (ts: i64)
        ensures
            ts == self.spec_timestamp(),
    ;
}

impl IntoTimestamp for i64 {
    open spec fn spec_timestamp(self) -> i64 {
        self
    }

    fn into_timestamp(self) -> (ts: i64) {
        self
    }
}

/// The art shown with the presence. The images have to be uploaded to the
/// application's settings first, or be given as URLs.
#[derive(Clone, Debug, PartialEq, Eq)]
pub struct Assets {
    pub large_image: Option<String>,
    pub large_text: Option<String>,
    pub small_image: Option<String>,
    pub small_text: Option<String>,
}

/// What is kept of an optional text with a limit of 128 bytes.
pub open spec fn spec_truncate(text: Option<String>) -> Option<Seq<char>> {
    match text {
        Some(t) => spec_limited(t@, TEXT_LIMIT as int),
        None => None,
    }
}

/// Cuts a text of the presence to the 128 bytes that Discord keeps, and
/// drops a text that is blank after that. `name` says which text it is.
pub fn truncate(text: Option<String>, name: &str) -> (r: Option<String>)
    ensures
        opt_text(r) == spec_truncate(text),
{
    let _ = name;
    match text {
        Some(t) => limited(t.as_str(), TEXT_LIMIT),
        None => None,
    }
}

impl Assets {
    /// No images and no texts.
    pub open spec fn spec_default() -> Assets {
        Assets { large_image: None, large_text: None, small_image: None, small_text: None }
    }

    /// Whether a key is one that Discord keeps: at most 32 bytes, or a URL
    /// that begins with `http://` or `https://`.
    pub open spec fn spec_validate_key(key: Seq<char>) -> bool {
        ||| encode_utf8(key).len() <= KEY_LIMIT
        ||| "http://"@.is_prefix_of(key)
        ||| "https://"@.is_prefix_of(key)
    }

    /// Whether a key is one that Discord keeps.
    pub fn validate_key(key: &str) -> (ok: bool)
        ensures
            ok == Self::spec_validate_key(key@),
    {
        key.as_bytes().len() <= KEY_LIMIT || starts_with(key, "http://") || starts_with(
            key,
            "https://",
        )
    }

    /// Sets the large image and its text. A key that Discord would not keep
    /// leaves the assets as they were; the text is cut to 128 bytes.
    pub fn large(self, key: String, text: Option<String>) -> (r: Assets)
        ensures
            if Self::spec_validate_key(key@) {
                &&& r.large_image == Some(key)
                &&& opt_text(r.large_text) == spec_truncate(text)
                &&& r.small_image == self.small_image
                &&& r.small_text == self.small_text
            } else {
                r == self
            },
    {
        if !Self::validate_key(key.as_str()) {
            return self;
        }
        let mut assets = self;
        assets.large_image = Some(key);
        assets.large_text = truncate(text, "Large Image Text");
        assets
    }

    /// Sets the small image and its text. A key that Discord would not keep
    /// leaves the assets as they were; the text is cut to 128 bytes.
    pub fn small(self, key: String, text: Option<String>) -> (r: Assets)
        ensures
            if Self::spec_validate_key(key@) {
                &&& r.small_image == Some(key)
                &&& opt_text(r.small_text) == spec_truncate(text)
                &&& r.large_image == self.large_image
                &&& r.large_text == self.large_text
            } else {
                r == self
            },
    {
        if !Self::validate_key(key.as_str()) {
            return self;
        }
        let mut assets = self;
        assets.small_image = Some(key);
        assets.small_text = truncate(text, "Small Image Text");
        assets
    }
}

impl Default for Assets {
    fn default() -> (r: Assets)
        ensures
            r == Assets::spec_default(),
    {
        Assets { large_image: None, large_text: None, small_image: None, small_text: None }
    }
}

/// The start and the end of the activity, in seconds since the Unix epoch.
#[derive(Clone, Copy, Debug, PartialEq, Eq, Structural)]
pub struct Timestamps {
    pub start: Option<i64>,
    pub end: Option<i64>,
}

/// What kind of thing the user is doing.
#[derive(PartialEq, Eq, Structural, Debug, Copy, Clone)]
pub enum ActivityKind {
    Playing,
    Streaming,
    Listening,
    Watching,
    Custom,
    Competing,
}

impl Default for ActivityKind {
    fn default() -> (r: ActivityKind)
        ensures
            r == ActivityKind::Playing,
    {
        ActivityKind::Playing
    }
}

/// What a user can be invited to.
#[derive(PartialEq, Eq, Structural, Debug, Copy, Clone)]
pub enum ActivityActionKind {
    /// To join the game.
    Join,
    /// To watch the game.
    Spectate,
}

impl ActivityActionKind {
    /// The number that stands for the kind on the wire.
    pub fn code(self) -> (c: u8)
        ensures
            c == match self {
                ActivityActionKind::Join => 1u8,
                ActivityActionKind::Spectate => 2u8,
            },
    {
        match self {
            ActivityActionKind::Join => 1,
            ActivityActionKind::Spectate => 2,
        }
    }
}

/// The answer to a user who asked to join.
#[derive(PartialEq, Eq, Structural, Debug, Copy, Clone)]
pub enum JoinRequestReply {
    /// The request is rejected.
    No,
    /// The request is accepted.
    Yes,
    /// The request is ignored, which Discord treats as a rejection.
    Ignore,
}

impl JoinRequestReply {
    /// The command that carries the reply: an invitation for `Yes`; for
    /// `No` and `Ignore` alike the request is closed.
    pub fn command(self) -> (kind: CommandKind)
        ensures
            kind == match self {
                JoinRequestReply::Yes => CommandKind::SendActivityJoinInvite,
                JoinRequestReply::No => CommandKind::CloseActivityJoinRequest,
                JoinRequestReply::Ignore => CommandKind::CloseActivityJoinRequest,
            },
    {
        match self {
            JoinRequestReply::Yes => CommandKind::SendActivityJoinInvite,
            JoinRequestReply::No => CommandKind::CloseActivityJoinRequest,
            JoinRequestReply::Ignore => CommandKind::CloseActivityJoinRequest,
        }
    }

    /// `Yes` for `true`, `No` for `false`.
    pub fn from(b: bool) -> (r: JoinRequestReply)
        ensures
            r == if b {
                JoinRequestReply::Yes
            } else {
                JoinRequestReply::No
            },
    {
        if b {
            JoinRequestReply::Yes
        } else {
            JoinRequestReply::No
        }
    }
}

/// Secrets that let other users join or watch the game.
#[derive(Clone, Debug, PartialEq, Eq)]
pub struct Secrets {
    /// A hash for the match.
    pub match_: Option<String>,
    /// A hash for chat invites and asking to join.
    pub join: Option<String>,
    /// A hash for the spectate button.
    pub spectate: Option<String>,
}

impl Default for Secrets {
    fn default() -> (r: Secrets)
        ensures
            r.match_ is None,
            r.join is None,
            r.spectate is None,
    {
        Secrets { match_: None, join: None, spectate: None }
    }
}

/// A button under the activity that opens a link.
#[derive(Clone, Debug, PartialEq, Eq)]
pub struct Button {
    pub label: String,
    pub url: String,
}

/// A button as Discord sends it back: its label alone, or label and link.
#[derive(Clone, Debug, PartialEq, Eq)]
pub enum ButtonKind {
    Label(String),
    Link(Button),
}

/// An activity holds buttons or secrets, never both.
#[derive(Clone, Debug, PartialEq, Eq)]
pub enum ButtonsOrSecrets {
    Buttons { buttons: Vec<ButtonKind> },
    Secrets { secrets: Secrets },
}

/// What the user is doing.
#[derive(Clone, Debug, PartialEq, Eq)]
pub struct Activity {
    /// The state of the user's party.
    pub state: Option<String>,
    /// What the user is doing.
    pub details: Option<String>,
    pub timestamps: Option<Timestamps>,
    pub assets: Option<Assets>,
    pub party: Option<Party>,
    pub buttons_or_secrets: Option<ButtonsOrSecrets>,
    pub kind: ActivityKind,
    /// Whether the activity is an instance of its own, such as a match.
    pub instance: bool,
}

impl Activity {
    /// The activity that says nothing: playing, no instance, nothing set.
    pub open spec fn spec_default() -> Activity {
        Activity {
            state: None,
            details: None,
            timestamps: None,
            assets: None,
            party: None,
            buttons_or_secrets: None,
            kind: ActivityKind::Playing,
            instance: false,
        }
    }
}

impl Default for Activity {
    fn default() -> (r: Activity)
        ensures
            r == Activity::spec_default(),
    {
        Activity {
            state: None,
            details: None,
            timestamps: None,
            assets: None,
            party: None,
            buttons_or_secrets: None,
            kind: ActivityKind::Playing,
            instance: false,
        }
    }
}

/// The activity that an invite is for.
#[derive(Debug, Clone, PartialEq, Eq)]
pub struct InviteActivity {
    /// The identifier of the session.
    pub session_id: String,
    /// When the activity was made, in milliseconds since the Unix epoch.
    pub created_at: Option<i64>,
    pub details: Activity,
}

/// An invite to another user's activity.
#[derive(Debug, Clone, PartialEq, Eq)]
pub struct ActivityInvite {
    /// The user who sent the invite.
    pub user: User,
    pub activity: InviteActivity,
    pub kind: ActivityActionKind,
    /// The channel that the invite was sent to.
    pub channel_id: Snowflake,
    /// The message that carries the invite.
    pub message_id: Snowflake,
}

/// What Discord answers when the activity was set.
#[derive(Debug, Clone, PartialEq, Eq)]
pub struct SetActivity {
    pub activity: Activity,
    /// The name of the application.
    pub name: Option<String>,
    pub application_id: Option<i64>,
}

/// The arguments of the command that sets the activity.
#[derive(Debug, Clone, PartialEq, Eq)]
pub struct ActivityArgs {
    /// The process that the activity belongs to.
    pub pid: u32,
    /// The activity to show; `None` clears it.
    pub activity: Option<Activity>,
}

impl ActivityArgs {
    /// Arguments that clear the activity of the process `pid`.
    pub fn new(pid: u32) -> (r: ActivityArgs)
        ensures
            r.pid == pid,
            r.activity is None,
    {
        ActivityArgs { pid, activity: None }
    }

    /// The arguments that a builder has put together.
    pub fn from(ab: ActivityBuilder) -> (r: ActivityArgs)
        ensures
            r == ab.inner,
    {
        ab.inner
    }
}

/// Puts an activity together piece by piece.
#[derive(Debug, Clone, PartialEq, Eq)]
pub struct ActivityBuilder {
    pub inner: ActivityArgs,
}

/// The size of a party, where both numbers are given and fit each other.
pub open spec fn spec_party_size(current_size: Option<u32>, max_size: Option<u32>) -> Option<
    (u32, u32),
> {
    match (current_size, max_size) {
        (Some(cur), Some(max)) if 0 < cur <= max => Some((cur, max)),
        _ => None,
    }
}

impl ActivityBuilder {
    /// The activity that further pieces are added to: the one built so far,
    /// or the empty one.
    pub open spec fn base(self) -> Activity {
        match self.inner.activity {
            Some(a) => a,
            None => Activity::spec_default(),
        }
    }

    /// Whether `r` is this builder with the activity `a`.
    pub open spec fn built(self, r: ActivityBuilder, a: Activity) -> bool {
        r.inner.pid == self.inner.pid && r.inner.activity == Some(a)
    }

    /// A builder for the process `pid`, with no activity yet.
    pub fn new(pid: u32) -> (r: ActivityBuilder)
        ensures
            r.inner.pid == pid,
            r.inner.activity is None,
    {
        ActivityBuilder { inner: ActivityArgs::new(pid) }
    }

    /// A builder for the process `pid`, with no activity yet.
    pub fn with_pid(pid: u32) -> (r: ActivityBuilder)
        ensures
            r.inner.pid == pid,
            r.inner.activity is None,
    {
        ActivityBuilder { inner: ActivityArgs { pid, activity: None } }
    }

    fn take(self) -> (r: (u32, Activity))
        ensures
            r.0 == self.inner.pid,
            r.1 == self.base(),
    {
        let pid = self.inner.pid;
        let activity = match self.inner.activity {
            Some(a) => a,
            None => Activity::default(),
        };
        (pid, activity)
    }

    /// Sets the state of the user's party, such as "Playing Solo", cut to
    /// 128 bytes. A blank state clears it.
    pub fn state(self, state: String) -> (r: ActivityBuilder)
        ensures
            r.inner.pid == self.inner.pid,
            r.inner.activity matches Some(a) && opt_text(a.state) == spec_truncate(Some(state)) && a
                == (Activity { state: a.state, ..self.base() }),
    {
        let state = truncate(Some(state), "State");
        let (pid, mut activity) = self.take();
        activity.state = state;
        ActivityBuilder { inner: ActivityArgs { pid, activity: Some(activity) } }
    }

    /// Sets what the user is doing, such as "Exploring the Wilds", cut to
    /// 128 bytes. Blank details clear them.
    pub fn details(self, details: String) -> (r: ActivityBuilder)
        ensures
            r.inner.pid == self.inner.pid,
            r.inner.activity matches Some(a) && opt_text(a.details) == spec_truncate(Some(details))
                && a == (Activity { details: a.details, ..self.base() }),
    {
        let details = truncate(Some(details), "Details");
        let (pid, mut activity) = self.take();
        activity.details = details;
        ActivityBuilder { inner: ActivityArgs { pid, activity: Some(activity) } }
    }

    /// The timestamps after the start was set to `ts`.
    pub open spec fn with_start(self, ts: i64) -> Timestamps {
        match self.base().timestamps {
            Some(t) => Timestamps { start: Some(ts), end: t.end },
            None => Timestamps { start: Some(ts), end: None },
        }
    }

    /// The timestamps after the end was set to `ts`: an end before the
    /// start is not taken.
    pub open spec fn with_end(self, ts: i64) -> Timestamps {
        match self.base().timestamps {
            Some(t) => {
                let start = match t.start {
                    Some(s) => s,
                    None => 0,
                };
                if start > ts {
                    t
                } else {
                    Timestamps { start: t.start, end: Some(ts) }
                }
            },
            None => Timestamps { start: None, end: Some(ts) },
        }
    }

    /// Sets the time at which the activity started. With only the start set,
    /// Discord shows the time elapsed.
    pub fn start_timestamp<T: IntoTimestamp>(self, timestamp: T) -> (r: ActivityBuilder)
        ensures
            self.built(
                r,
                Activity {
                    timestamps: Some(self.with_start(timestamp.spec_timestamp())),
                    ..self.base()
                },
            ),
    {
        let ts: i64 = timestamp.into_timestamp();
        let (pid, mut activity) = self.take();
        activity.timestamps = match activity.timestamps {
            Some(t) => Some(Timestamps { start: Some(ts), end: t.end }),
            None => Some(Timestamps { start: Some(ts), end: None }),
        };
        ActivityBuilder { inner: ActivityArgs { pid, activity: Some(activity) } }
    }

    /// Sets the time at which the activity ends. With only the end set,
    /// Discord shows the time left. An end before the start is not taken.
    pub fn end_timestamp<T: IntoTimestamp>(self, timestamp: T) -> (r: ActivityBuilder)
        ensures
            self.built(
                r,
                Activity {
                    timestamps: Some(self.with_end(timestamp.spec_timestamp())),
                    ..self.base()
                },
            ),
    {
        let ts: i64 = timestamp.into_timestamp();
        let (pid, mut activity) = self.take();
        activity.timestamps = match activity.timestamps {
            Some(t) => {
                let start: i64 = match t.start {
                    Some(s) => s,
                    None => 0,
                };
                if start > ts {
                    Some(t)
                } else {
                    Some(Timestamps { start: t.start, end: Some(ts) })
                }
            },
            None => Some(Timestamps { start: None, end: Some(ts) }),
        };
        ActivityBuilder { inner: ActivityArgs { pid, activity: Some(activity) } }
    }

    /// Sets the start and the end of the activity: the start first, where
    /// one is given, then the end.
    pub fn timestamps<S: IntoTimestamp, E: IntoTimestamp>(
        self,
        start: Option<S>,
        end: Option<E>,
    ) -> (r: ActivityBuilder)
        ensures
            ({
                let started = match start {
                    Some(st) => ActivityBuilder {
                        inner: ActivityArgs {
                            pid: self.inner.pid,
                            activity: Some(
                                Activity {
                                    timestamps: Some(self.with_start(st.spec_timestamp())),
                                    ..self.base()
                                },
                            ),
                        },
                    },
                    None => self,
                };
                match end {
                    Some(et) => started.built(
                        r,
                        Activity {
                            timestamps: Some(started.with_end(et.spec_timestamp())),
                            ..started.base()
                        },
                    ),
                    None => r == started,
                }
            }),
    {
        let mut builder = self;
        if let Some(st) = start {
            builder = builder.start_timestamp(st);
        }
        if let Some(et) = end {
            builder = builder.end_timestamp(et);
        }
        builder
    }

    /// Sets the images of the activity. Assets without any image leave the
    /// builder as it was.
    pub fn assets(self, assets: Assets) -> (r: ActivityBuilder)
        ensures
            if assets.large_image is None && assets.small_image is None {
                r == self
            } else {
                self.built(r, Activity { assets: Some(assets), ..self.base() })
            },
    {
        if assets.large_image.is_none() && assets.small_image.is_none() {
            return self;
        }
        let (pid, mut activity) = self.take();
        activity.assets = Some(assets);
        ActivityBuilder { inner: ActivityArgs { pid, activity: Some(activity) } }
    }

    /// Sets the party: its id, cut to 128 bytes, its size where both numbers
    /// are given and the current one is not above the maximum, and whether
    /// it is open. A size of zero counts as not given. An id that is blank
    /// leaves the builder as it was.
    pub fn party(
        self,
        id: String,
        current_size: Option<u32>,
        max_size: Option<u32>,
        privacy: PartyPrivacy,
    ) -> (r: ActivityBuilder)
        ensures
            match spec_truncate(Some(id)) {
                Some(kept) => {
                    &&& r.inner.pid == self.inner.pid
                    &&& r.inner.activity matches Some(a)
                    &&& r.inner.activity->Some_0.party matches Some(p)
                    &&& r.inner.activity->Some_0.party->Some_0.id@ == kept
                    &&& r.inner.activity->Some_0.party->Some_0.size == spec_party_size(
                        current_size,
                        max_size,
                    )
                    &&& r.inner.activity->Some_0.party->Some_0.privacy == Some(privacy)
                    &&& r.inner.activity->Some_0 == (Activity {
                        party: r.inner.activity->Some_0.party,
                        ..self.base()
                    })
                },
                None => r == self,
            },
    {
        let id = match truncate(Some(id), "Party Id") {
            Some(id) => id,
            None => {
                return self;
            },
        };
        let size: Option<(u32, u32)> = match (current_size, max_size) {
            (Some(cur), Some(max)) => {
                if cur == 0 || cur > max {
                    None
                } else {
                    Some((cur, max))
                }
            },
            _ => None,
        };
        let (pid, mut activity) = self.take();
        activity.party = Some(Party { id, size, privacy: Some(privacy) });
        ActivityBuilder { inner: ActivityArgs { pid, activity: Some(activity) } }
    }

    /// Sets whether the activity is an instance of its own, such as a match.
    pub fn instance(self, is_instance: bool) -> (r: ActivityBuilder)
        ensures
            self.built(r, Activity { instance: is_instance, ..self.base() }),
    {
        let (pid, mut activity) = self.take();
        activity.instance = is_instance;
        ActivityBuilder { inner: ActivityArgs { pid, activity: Some(activity) } }
    }

    /// Adds a button with a label and a link. Buttons take the place of
    /// secrets: the first button replaces them, later ones are added.
    pub fn button(self, button: Button) -> (r: ActivityBuilder)
        ensures
            r.inner.pid == self.inner.pid,
            r.inner.activity matches Some(a) && a.buttons_or_secrets matches Some(
                ButtonsOrSecrets::Buttons { buttons },
            ) && buttons@ == (match self.base().buttons_or_secrets {
                Some(ButtonsOrSecrets::Buttons { buttons: before }) => before@,
                _ => Seq::<ButtonKind>::empty(),
            }).push(ButtonKind::Link(button)) && a == (Activity {
                buttons_or_secrets: a.buttons_or_secrets,
                ..self.base()
            }),
    {
        let (pid, mut activity) = self.take();
        let mut buttons: Vec<ButtonKind> = match activity.buttons_or_secrets {
            Some(ButtonsOrSecrets::Buttons { buttons }) => buttons,
            _ => Vec::new(),
        };
        buttons.push(ButtonKind::Link(button));
        activity.buttons_or_secrets = Some(ButtonsOrSecrets::Buttons { buttons });
        ActivityBuilder { inner: ActivityArgs { pid, activity: Some(activity) } }
    }

    /// Sets the secrets that let others join or watch. Secrets take the
    /// place of buttons. Secrets that are all empty leave the builder as it
    /// was.
    pub fn secrets(self, secrets: Secrets) -> (r: ActivityBuilder)
        ensures
            if secrets.join is None && secrets.match_ is None && secrets.spectate is None {
                r == self
            } else {
                self.built(
                    r,
                    Activity {
                        buttons_or_secrets: Some(ButtonsOrSecrets::Secrets { secrets }),
                        ..self.base()
                    },
                )
            },
    {
        if secrets.join.is_none() && secrets.match_.is_none() && secrets.spectate.is_none() {
            return self;
        }
        let (pid, mut activity) = self.take();
        activity.buttons_or_secrets = Some(ButtonsOrSecrets::Secrets { secrets });
        ActivityBuilder { inner: ActivityArgs { pid, activity: Some(activity) } }
    }
}

} // verus!
