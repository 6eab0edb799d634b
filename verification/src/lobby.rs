//! Lobbies: groups of users with metadata, members and a voice channel.

pub mod events;
pub mod search;
pub mod state;

use vstd::prelude::*;
use vstd::string::*;
use vstd::utf8::*;
use crate::error::Error;
use crate::text::{find_char, strip_prefix, text_eq};
use crate::types::Snowflake;
use crate::user::{User, UserId};
use crate::util::{parse_u64, spec_parse_u64};

verus! {

/// The identifier of a lobby.
pub type LobbyId = Snowflake;

/// The capacity that Discord gives a lobby that asks for none.
pub const DEFAULT_CAPACITY: u32 = 16;

/// The Discord region that hosts a lobby.
#[derive(PartialEq, Eq, Structural, Debug, Copy, Clone)]
pub enum Region {
    Amsterdam,
    Brazil,
    Dubai,
    EuCentral,
    EuWest,
    Europe,
    Frankfurt,
    Hongkong,
    India,
    Japan,
    London,
    Russia,
    Singapore,
    Southafrica,
    SouthKorea,
    Stockholm,
    Sydney,
    UsCentral,
    UsEast,
    UsSouth,
    UsWest,
    VipAmsterdam,
    VipUsEast,
    VipUsWest,
    StPete,
}

/// Whether a lobby is listed for others to find.
#[derive(PartialEq, Eq, Structural, Copy, Clone, Debug)]
pub enum LobbyKind {
    Private,
    Public,
}

/// The pairs of a text and its value that a lobby or a member carries. Every
/// key has one value: setting a key again replaces what it had.
#[derive(Debug, Clone, PartialEq, Eq)]
pub struct Metadata {
    entries: Vec<(String, String)>,
}

/// The value that a list of pairs gives a key: that of the last pair with
/// the key.
pub open spec fn lookup(entries: Seq<(String, String)>, key: Seq<char>) -> Option<Seq<char>>
    decreases entries.len(),
{
    if entries.len() == 0 {
        None
    } else if entries.last().0@ == key {
        Some(entries.last().1@)
    } else {
        lookup(entries.drop_last(), key)
    }
}

/// What the metadata holds after the pairs of `more` were set in order.
pub open spec fn lookup_after(
    before: Seq<(String, String)>,
    more: Seq<(String, String)>,
    key: Seq<char>,
) -> Option<Seq<char>> {
    match lookup(more, key) {
        Some(v) => Some(v),
        None => lookup(before, key),
    }
}

impl Metadata {
    /// The pairs in the order they were set.
    pub closed spec fn entries(&self) -> Seq<(String, String)> {
        self.entries@
    }

    /// The value of `key`, if it has one.
    pub open spec fn spec_get(&self, key: Seq<char>) -> Option<Seq<char>> {
        lookup(self.entries(), key)
    }

    /// Metadata without any pair.
    pub fn new() -> (m: Metadata)
        ensures
            m.entries() == Seq::<(String, String)>::empty(),
            forall|k: Seq<char>| m.spec_get(k) is None,
    {
        Metadata { entries: Vec::new() }
    }

    /// A copy of the metadata, pair for pair.
    pub fn copy(&self) -> (m: Metadata)
        ensures
            m.entries() == self.entries(),
    {
        let mut entries: Vec<(String, String)> = Vec::new();
        let mut i: usize = 0;
        while i < self.entries.len()
            invariant
                0 <= i <= self.entries@.len(),
                entries@ == self.entries@.take(i as int),
            decreases self.entries@.len() - i,
        {
            let pair = &self.entries[i];
            entries.push((pair.0.clone(), pair.1.clone()));
            assert(entries@ =~= self.entries@.take(i + 1));
            i += 1;
        }
        assert(self.entries@.take(i as int) =~= self.entries@);
        Metadata { entries }
    }

    /// Whether no key has a value.
    pub fn is_empty(&self) -> (b: bool)
        ensures
            b == (self.entries().len() == 0),
            b ==> forall|k: Seq<char>| self.spec_get(k) is None,
    {
        self.entries.len() == 0
    }

    /// The value of `key`, if it has one.
    pub fn get(&self, key: &str) -> (r: Option<String>)
        ensures
            match r {
                Some(v) => self.spec_get(key@) == Some(v@),
                None => self.spec_get(key@) is None,
            },
    {
        let mut i: usize = self.entries.len();
        assert(self.entries@.take(i as int) =~= self.entries@);
        while i > 0
            invariant
                0 <= i <= self.entries@.len(),
                lookup(self.entries@, key@) == lookup(self.entries@.take(i as int), key@),
            decreases i,
        {
            proof {
                assert(self.entries@.take(i as int).drop_last() =~= self.entries@.take(i - 1));
            }
            if text_eq(self.entries[i - 1].0.as_str(), key) {
                return Some(self.entries[i - 1].1.clone());
            }
            i -= 1;
        }
        None
    }

    /// Takes the value of `key` away.
    pub fn remove(&mut self, key: &str)
        ensures
            forall|k: Seq<char>|
                final(self).spec_get(k) == if k == key@ {
                    None
                } else {
                    old(self).spec_get(k)
                },
            final(self).entries().len() <= old(self).entries().len(),
    {
        let mut kept: Vec<(String, String)> = Vec::new();
        let mut rest: Vec<(String, String)> = Vec::new();
        core::mem::swap(&mut rest, &mut self.entries);
        let ghost before = rest@;
        let n: usize = rest.len();
        let mut i: usize = 0;
        while i < n
            invariant
                0 <= i <= n,
                n == before.len(),
                rest@.len() == n - i,
                rest@ == before.skip(i as int),
                kept@.len() <= i,
                forall|k: Seq<char>|
                    lookup(kept@, k) == if k == key@ {
                        None
                    } else {
                        lookup(before.take(i as int), k)
                    },
            decreases n - i,
        {
            let entry = rest.remove(0);
            assert(rest@ =~= before.skip(i + 1));
            assert(entry == before[i as int]);
            let ghost grown = before.take(i + 1);
            assert(grown.drop_last() =~= before.take(i as int));
            assert(grown.last() == entry);
            let ghost shorter = kept@;
            if !text_eq(entry.0.as_str(), key) {
                kept.push(entry);
                assert(kept@.drop_last() =~= shorter);
            }
            assert forall|k: Seq<char>|
                lookup(kept@, k) == if k == key@ {
                    None
                } else {
                    lookup(grown, k)
                } by {
                assert(lookup(grown, k) == if entry.0@ == k {
                    Some(entry.1@)
                } else {
                    lookup(before.take(i as int), k)
                });
                if entry.0@ != key@ {
                    assert(lookup(kept@, k) == if entry.0@ == k {
                        Some(entry.1@)
                    } else {
                        lookup(shorter, k)
                    });
                }
            }
            i += 1;
        }
        assert(before.take(n as int) =~= before);
        self.entries = kept;
    }

    /// Gives `key` the value `value`, in place of the one it had.
    pub fn insert(&mut self, key: String, value: String)
        ensures
            forall|k: Seq<char>|
                final(self).spec_get(k) == if k == key@ {
                    Some(value@)
                } else {
                    old(self).spec_get(k)
                },
    {
        self.remove(key.as_str());
        let ghost mid = *self;
        let ghost shorter = self.entries@;
        self.entries.push((key, value));
        assert(self.entries@.drop_last() =~= shorter);
        assert forall|k: Seq<char>|
            lookup(self.entries@, k) == if k == key@ {
                Some(value@)
            } else {
                old(self).spec_get(k)
            } by {
            assert(mid.spec_get(k) == if k == key@ {
                None
            } else {
                old(self).spec_get(k)
            });
            assert(lookup(self.entries@, k) == if key@ == k {
                Some(value@)
            } else {
                lookup(shorter, k)
            });
        }
    }

    /// Sets every pair of `md`, in order: a later pair of one key wins.
    pub fn extend(&mut self, md: Vec<(String, String)>)
        ensures
            forall|k: Seq<char>|
                final(self).spec_get(k) == lookup_after(old(self).entries(), md@, k),
    {
        let mut rest = md;
        let n: usize = rest.len();
        let mut i: usize = 0;
        while i < n
            invariant
                0 <= i <= n,
                n == md@.len(),
                rest@ == md@.skip(i as int),
                forall|k: Seq<char>|
                    self.spec_get(k) == lookup_after(old(self).entries(), md@.take(i as int), k),
            decreases n - i,
        {
            let entry = rest.remove(0);
            assert(rest@ =~= md@.skip(i + 1));
            let ghost grown = md@.take(i + 1);
            assert(grown.drop_last() =~= md@.take(i as int));
            assert(grown.last() == entry);
            self.insert(entry.0, entry.1);
            assert forall|k: Seq<char>|
                self.spec_get(k) == lookup_after(old(self).entries(), grown, k) by {
                assert(lookup(grown, k) == if entry.0@ == k {
                    Some(entry.1@)
                } else {
                    lookup(md@.take(i as int), k)
                });
            }
            i += 1;
        }
        assert(md@.take(n as int) =~= md@);
    }

    /// Hands the pairs out, in the order they were set.
    pub fn into_entries(self) -> (r: Vec<(String, String)>)
        ensures
            r@ == self.entries(),
    {
        self.entries
    }
}

/// The voice state of a member of a lobby.
#[derive(Debug, Clone, PartialEq, Eq)]
pub struct VoiceState {
    pub channel_id: Snowflake,
    pub deaf: bool,
    pub mute: bool,
    pub self_deaf: bool,
    pub self_mute: bool,
    pub self_video: bool,
    pub session_id: String,
    pub suppress: bool,
    pub user_id: UserId,
}

/// A member of a lobby.
#[derive(Debug, Clone, PartialEq, Eq)]
pub struct LobbyMember {
    pub metadata: Metadata,
    pub user: User,
    /// Whether the member is speaking in the voice channel. The events keep
    /// this up to date; the wire does not carry it.
    pub speaking: bool,
}

/// A lobby.
#[derive(Debug, Clone, PartialEq, Eq)]
pub struct Lobby {
    pub id: LobbyId,
    /// How many users the lobby takes.
    pub capacity: u32,
    /// Whether new members are kept out.
    pub locked: bool,
    /// The users in the lobby. Empty in an update of the lobby itself.
    pub members: Vec<LobbyMember>,
    pub metadata: Metadata,
    pub owner_id: UserId,
    pub region: Region,
    /// What a user has to know to join. Discord makes it up.
    pub secret: String,
    pub kind: LobbyKind,
    pub voice_states: Vec<VoiceState>,
}

/// The arguments of the commands that create and update a lobby.
#[derive(Debug, Clone, PartialEq, Eq)]
pub struct LobbyArgs {
    /// The lobby to update; `None` creates one.
    pub id: Option<LobbyId>,
    pub capacity: u32,
    pub kind: LobbyKind,
    pub locked: Option<bool>,
    /// The user to make the owner; only an update has one.
    pub owner_id: Option<UserId>,
    pub metadata: Metadata,
}

impl LobbyArgs {
    /// Writes the arguments of an update into the lobby that was updated:
    /// capacity, kind and metadata as given, locked only if asked for, the
    /// owner only if one was named.
    pub fn modify(self, lobby: &mut Lobby)
        ensures
            *final(lobby) == (Lobby {
                capacity: self.capacity,
                kind: self.kind,
                locked: self.locked == Some(true),
                owner_id: match self.owner_id {
                    Some(owner) => owner,
                    None => old(lobby).owner_id,
                },
                metadata: self.metadata,
                ..*old(lobby)
            }),
    {
        lobby.capacity = self.capacity;
        lobby.kind = self.kind;
        lobby.locked = match self.locked {
            Some(l) => l,
            None => false,
        };
        if let Some(owner) = self.owner_id {
            lobby.owner_id = owner;
        }
        lobby.metadata = self.metadata;
    }
}

impl Default for LobbyArgs {
    /// The arguments that spell out what Discord does by itself: a private
    /// lobby for sixteen.
    fn default() -> (r: LobbyArgs)
        ensures
            r.id is None,
            r.capacity == DEFAULT_CAPACITY,
            r.kind == LobbyKind::Private,
            r.locked is None,
            r.owner_id is None,
            r.metadata.entries() == Seq::<(String, String)>::empty(),
    {
        LobbyArgs {
            id: None,
            capacity: DEFAULT_CAPACITY,
            kind: LobbyKind::Private,
            locked: None,
            owner_id: None,
            metadata: Metadata::new(),
        }
    }
}

/// The capacity that a request stands for: sixteen where none is given. A
/// capacity of zero counts as not given.
pub open spec fn spec_capacity(capacity: Option<u32>) -> u32 {
    match capacity {
        Some(c) if c > 0 => c,
        _ => DEFAULT_CAPACITY,
    }
}

fn capacity_or_default(capacity: Option<u32>) -> (c: u32)
    ensures
        c == spec_capacity(capacity),
{
    match capacity {
        Some(c) => if c > 0 {
            c
        } else {
            DEFAULT_CAPACITY
        },
        None => DEFAULT_CAPACITY,
    }
}

/// Puts the arguments for a new lobby together.
#[derive(Debug, Clone, PartialEq, Eq)]
pub struct CreateLobbyBuilder {
    pub inner: LobbyArgs,
}

impl CreateLobbyBuilder {
    /// A builder with Discord's defaults.
    pub fn new() -> (r: CreateLobbyBuilder)
        ensures
            r.inner.id is None,
            r.inner.capacity == DEFAULT_CAPACITY,
            r.inner.kind == LobbyKind::Private,
            r.inner.locked is None,
            r.inner.owner_id is None,
            r.inner.metadata.entries() == Seq::<(String, String)>::empty(),
    {
        CreateLobbyBuilder { inner: LobbyArgs::default() }
    }

    /// Sets how many users the lobby takes; sixteen where none is given.
    pub fn capacity(self, capacity: Option<u32>) -> (r: CreateLobbyBuilder)
        ensures
            r.inner == (LobbyArgs { capacity: spec_capacity(capacity), ..self.inner }),
    {
        let mut b = self;
        b.inner.capacity = capacity_or_default(capacity);
        b
    }

    /// Sets whether the lobby is listed.
    pub fn kind(self, kind: LobbyKind) -> (r: CreateLobbyBuilder)
        ensures
            r.inner == (LobbyArgs { kind, ..self.inner }),
    {
        let mut b = self;
        b.inner.kind = kind;
        b
    }

    /// Sets whether new members are kept out.
    pub fn locked(self, locked: bool) -> (r: CreateLobbyBuilder)
        ensures
            r.inner == (LobbyArgs { locked: Some(locked), ..self.inner }),
    {
        let mut b = self;
        b.inner.locked = Some(locked);
        b
    }

    /// Sets the pairs of `md` in the metadata, in order.
    pub fn add_metadata(self, md: Vec<(String, String)>) -> (r: CreateLobbyBuilder)
        ensures
            r.inner == (LobbyArgs { metadata: r.inner.metadata, ..self.inner }),
            forall|k: Seq<char>|
                r.inner.metadata.spec_get(k) == lookup_after(self.inner.metadata.entries(), md@, k),
    {
        let mut b = self;
        b.inner.metadata.extend(md);
        b
    }
}

/// Puts the arguments for the update of a lobby together.
#[derive(Debug, Clone, PartialEq, Eq)]
pub struct UpdateLobbyBuilder {
    pub inner: LobbyArgs,
}

impl UpdateLobbyBuilder {
    /// A builder that starts from the lobby as it is. A lobby that is not
    /// locked leaves that unsaid.
    pub fn new(to_update: &Lobby) -> (r: UpdateLobbyBuilder)
        ensures
            r.inner.id == Some(to_update.id),
            r.inner.capacity == to_update.capacity,
            r.inner.kind == to_update.kind,
            r.inner.locked == if to_update.locked {
                Some(true)
            } else {
                None
            },
            r.inner.owner_id == Some(to_update.owner_id),
            r.inner.metadata.entries() == to_update.metadata.entries(),
    {
        UpdateLobbyBuilder {
            inner: LobbyArgs {
                id: Some(to_update.id),
                capacity: to_update.capacity,
                kind: to_update.kind,
                locked: if to_update.locked {
                    Some(true)
                } else {
                    None
                },
                owner_id: Some(to_update.owner_id),
                metadata: to_update.metadata.copy(),
            },
        }
    }

    /// Sets how many users the lobby takes; sixteen where none is given.
    pub fn capacity(self, capacity: Option<u32>) -> (r: UpdateLobbyBuilder)
        ensures
            r.inner == (LobbyArgs { capacity: spec_capacity(capacity), ..self.inner }),
    {
        let mut b = self;
        b.inner.capacity = capacity_or_default(capacity);
        b
    }

    /// Sets whether the lobby is listed.
    pub fn kind(self, kind: LobbyKind) -> (r: UpdateLobbyBuilder)
        ensures
            r.inner == (LobbyArgs { kind, ..self.inner }),
    {
        let mut b = self;
        b.inner.kind = kind;
        b
    }

    /// Sets whether new members are kept out.
    pub fn locked(self, locked: bool) -> (r: UpdateLobbyBuilder)
        ensures
            r.inner == (LobbyArgs { locked: Some(locked), ..self.inner }),
    {
        let mut b = self;
        b.inner.locked = Some(locked);
        b
    }

    /// Names the user to make the owner, or leaves the owner as it is.
    pub fn owner(self, owner: Option<UserId>) -> (r: UpdateLobbyBuilder)
        ensures
            r.inner == (LobbyArgs { owner_id: owner, ..self.inner }),
    {
        let mut b = self;
        b.inner.owner_id = owner;
        b
    }

    /// Sets the pairs of `md` in the metadata, in order.
    pub fn add_metadata(self, md: Vec<(String, String)>) -> (r: UpdateLobbyBuilder)
        ensures
            r.inner == (LobbyArgs { metadata: r.inner.metadata, ..self.inner }),
            forall|k: Seq<char>|
                r.inner.metadata.spec_get(k) == lookup_after(self.inner.metadata.entries(), md@, k),
    {
        let mut b = self;
        b.inner.metadata.extend(md);
        b
    }

    /// Takes the keys of `to_remove` out of the metadata.
    pub fn delete_metadata(self, to_remove: Vec<String>) -> (r: UpdateLobbyBuilder)
        ensures
            r.inner == (LobbyArgs { metadata: r.inner.metadata, ..self.inner }),
            forall|k: Seq<char>|
                r.inner.metadata.spec_get(k) == if exists|i: int|
                    0 <= i < to_remove@.len() && to_remove@[i]@ == k {
                    None
                } else {
                    self.inner.metadata.spec_get(k)
                },
    {
        let mut b = self;
        let mut i: usize = 0;
        while i < to_remove.len()
            invariant
                0 <= i <= to_remove@.len(),
                b.inner == (LobbyArgs { metadata: b.inner.metadata, ..self.inner }),
                forall|k: Seq<char>|
                    b.inner.metadata.spec_get(k) == if exists|j: int|
                        0 <= j < i && to_remove@[j]@ == k {
                        None
                    } else {
                        self.inner.metadata.spec_get(k)
                    },
            decreases to_remove@.len() - i,
        {
            b.inner.metadata.remove(to_remove[i].as_str());
            i += 1;
        }
        b
    }
}

/// What it takes to connect to a lobby: its id and its secret.
#[derive(Debug, Clone, PartialEq, Eq)]
pub struct ConnectLobby {
    pub id: LobbyId,
    pub secret: String,
}

/// Whether `r` is what reading `s` as `<lobby_id>:<lobby_secret>` gives: the
/// id is the decimal number before the first colon, the secret all that
/// follows it.
pub open spec fn is_connect_lobby_of(s: Seq<char>, r: Result<ConnectLobby, Error>) -> bool {
    if exists|i: int| 0 <= i < s.len() && s[i] == ':' {
        let sep = choose|i: int|
            0 <= i < s.len() && s[i] == ':' && forall|j: int| 0 <= j < i ==> s[j] != ':';
        match spec_parse_u64(encode_utf8(s.take(sep))) {
            Some(id) => r matches Ok(c) && c.id == Snowflake(id) && c.secret@ == s.skip(sep + 1),
            None => r matches Err(Error::NonCanonicalLobbyActivitySecret),
        }
    } else {
        r matches Err(Error::NonCanonicalLobbyActivitySecret)
    }
}

impl ConnectLobby {
    /// Reads the secret of an activity of the form
    /// `<lobby_id>:<lobby_secret>`.
    pub fn try_from(s: &str) -> (r: Result<ConnectLobby, Error>)
        ensures
            is_connect_lobby_of(s@, r),
    {
        let sep: usize = match find_char(s, ':') {
            Some(i) => i,
            None => {
                return Err(Error::NonCanonicalLobbyActivitySecret);
            },
        };
        proof {
            let found = choose|i: int|
                0 <= i < s@.len() && s@[i] == ':' && forall|j: int| 0 <= j < i ==> s@[j] != ':';
            assert(found == sep);
        }
        let n: usize = s.unicode_len();
        let head = s.substring_char(0, sep);
        let tail = s.substring_char(sep + 1, n);
        assert(head@ =~= s@.take(sep as int));
        assert(tail@ =~= s@.skip(sep + 1));
        match parse_u64(head.as_bytes()) {
            Some(id) => Ok(ConnectLobby { id: Snowflake(id), secret: tail.to_owned() }),
            None => Err(Error::NonCanonicalLobbyActivitySecret),
        }
    }
}

/// What `base64` writes for `bin` in its standard alphabet without padding.
pub uninterp spec fn base64_text(bin: Seq<u8>) -> Seq<char>;

/// The bytes that `base64` reads from `text` in its standard alphabet
/// without padding, or `None` where it refuses the text.
pub uninterp spec fn base64_bytes(text: Seq<char>) -> Option<Seq<u8>>;

/// The error of `base64::decode_config`: why a text is no base64.
#[verifier::external_type_specification]
#[verifier::external_body]
pub struct ExDecodeError(base64::DecodeError);

/// Calls `base64::encode_config` with `STANDARD_NO_PAD`. It panics where the
/// length of its output does not fit in `usize`, which the precondition
/// rules out. The claim is only that the text is a function of the bytes.
#[verifier::external_body]
fn base64_encode(bin: &[u8]) -> (text: String)
    requires
        (bin@.len() / 3 + 1) * 4 <= usize::MAX,
    ensures
        text@ == base64_text(bin@),
{
    base64::encode_config(bin, base64::STANDARD_NO_PAD)
}

/// Calls `base64::decode_config` with `STANDARD_NO_PAD`. It panics where the
/// length of the text plus seven does not fit in `usize`, which the
/// precondition rules out. The claim is only that success and the bytes are
/// a function of the text.
#[verifier::external_body]
fn base64_decode(text: &str) -> (r: Result<Vec<u8>, base64::DecodeError>)
    requires
        encode_utf8(text@).len() + 7 <= usize::MAX,
    ensures
        match r {
            Ok(bin) => base64_bytes(text@) == Some(bin@),
            Err(_) => base64_bytes(text@) is None,
        },
{
    base64::decode_config(text, base64::STANDARD_NO_PAD)
}

/// A message that a user sends to a lobby.
#[derive(Debug, PartialEq, Eq, Clone)]
pub enum LobbyMessage {
    Binary(Vec<u8>),
    Text(String),
}

/// Whether `r` is the message that the text `wire` stands for, given what
/// `decoded` says of the part behind the marker of a binary message.
pub open spec fn is_message_of(
    wire: Seq<char>,
    decoded: Option<Seq<u8>>,
    r: Result<LobbyMessage, Error>,
) -> bool {
    if "data:text/plain;base64,"@.is_prefix_of(wire) {
        match decoded {
            Some(bin) => r matches Ok(LobbyMessage::Binary(b)) && b@ == bin,
            None => r matches Err(Error::InvalidField(f)) && f@ == "data"@,
        }
    } else {
        r matches Ok(LobbyMessage::Text(t)) && t@ == wire
    }
}

impl LobbyMessage {
    /// A message of text.
    pub fn text(text: String) -> (m: LobbyMessage)
        ensures
            m == LobbyMessage::Text(text),
    {
        LobbyMessage::Text(text)
    }

    /// A message of bytes.
    pub fn binary(bin: Vec<u8>) -> (m: LobbyMessage)
        ensures
            m == LobbyMessage::Binary(bin),
    {
        LobbyMessage::Binary(bin)
    }

    /// The text that carries the message on the wire: a text as it is, bytes
    /// as base64 behind `data:text/plain;base64,`.
    pub open spec fn spec_wire(self) -> Seq<char> {
        match self {
            LobbyMessage::Binary(bin) => "data:text/plain;base64,"@ + base64_text(bin@),
            LobbyMessage::Text(t) => t@,
        }
    }

    /// Writes the message as the text that carries it on the wire. Bytes
    /// too many to encode are an invalid field.
    pub fn serialize(&self) -> (r: Result<String, Error>)
        ensures
            match self {
                LobbyMessage::Binary(bin) if (bin@.len() / 3 + 1) * 4 > usize::MAX => r matches Err(
                    Error::InvalidField(f),
                ) && f@ == "data"@,
                _ => r matches Ok(wire) && wire@ == self.spec_wire(),
            },
    {
        match self {
            LobbyMessage::Binary(bin) => {
                if bin.len() / 3 >= usize::MAX / 4 {
                    return Err(Error::InvalidField("data"));
                }
                let mut data = "data:text/plain;base64,".to_owned();
                let encoded = base64_encode(bin.as_slice());
                data.append(encoded.as_str());
                Ok(data)
            },
            LobbyMessage::Text(text) => Ok(text.clone()),
        }
    }

    /// Makes the message that `wire` stands for from what `base64` read
    /// behind the marker of a binary message.
    pub fn from_decoded(wire: &str, decoded: Option<Vec<u8>>) -> (r: Result<LobbyMessage, Error>)
        ensures
            is_message_of(
                wire@,
                match decoded {
                    Some(b) => Some(b@),
                    None => None,
                },
                r,
            ),
    {
        match strip_prefix(wire, "data:text/plain;base64,") {
            Some(_) => match decoded {
                Some(bin) => Ok(LobbyMessage::Binary(bin)),
                None => Err(Error::InvalidField("data")),
            },
            None => Ok(LobbyMessage::Text(wire.to_owned())),
        }
    }

    /// Reads a message from the text that carries it on the wire: bytes
    /// where the text begins with `data:text/plain;base64,`, else the text
    /// itself. Bytes that are no base64 are an invalid field.
    pub fn deserialize(wire: &str) -> (r: Result<LobbyMessage, Error>)
        ensures
            is_message_of(
                wire@,
                base64_bytes(wire@.skip("data:text/plain;base64,"@.len() as int)),
                r,
            ),
    {
        match strip_prefix(wire, "data:text/plain;base64,") {
            Some(encoded) => {
                // The part behind the marker is shorter than the whole text
                let whole: usize = wire.as_bytes().len();
                proof {
                    reveal_strlit("data:text/plain;base64,");
                    is_ascii_chars_encode_utf8("data:text/plain;base64,"@);
                    assert(encode_utf8(encoded@).len() + 23 == whole);
                }
                match base64_decode(encoded) {
                    Ok(bin) => Self::from_decoded(wire, Some(bin)),
                    Err(_) => Self::from_decoded(wire, None),
                }
            },
            None => Self::from_decoded(wire, None),
        }
    }
}

} // verus!
