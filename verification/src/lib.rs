//! A client for Discord's local IPC protocol: the frame codec, the connection
//! state machines, request/response correlation and event routing, all as
//! pure state transitions that a driver feeds with bytes and timer ticks.

pub mod activity;
pub mod error;
pub mod handler;
pub mod io;
pub mod json;
pub mod lobby;
pub mod overlay;
pub mod proto;
pub mod registration;
pub mod relations;
pub mod text;
pub mod types;
pub mod user;
pub mod util;
pub mod voice;

pub use error::{DiscordApiErr, DiscordErr, Error};
pub use handler::{DiscordHandler, DiscordMsg};
pub use proto::{Command, CommandKind, Event};
pub use types::Snowflake;

use vstd::prelude::*;
use crate::io::{frame_bytes, OpCode, SendQueue, SEND_QUEUE_CAPACITY};
use crate::proto::{rpc_body, Rpc};
use crate::registration::Application;

verus! {

/// The identifier of an application.
pub type AppId = i64;

/// What is known of the application that connects.
pub enum DiscordApp {
    /// The application is to be registered, so that Discord can start it.
    Register(Application),
    /// Only the id: Discord cannot start the application unless it was
    /// registered some other way.
    PlainId(AppId),
}

impl DiscordApp {
    /// The id of the application.
    pub open spec fn spec_id(self) -> AppId {
        match self {
            DiscordApp::Register(app) => app.id,
            DiscordApp::PlainId(id) => id,
        }
    }

    /// The id of the application.
    pub fn id(&self) -> (id: AppId)
        ensures
            id == self.spec_id(),
    {
        match self {
            DiscordApp::Register(app) => app.id,
            DiscordApp::PlainId(id) => *id,
        }
    }

    /// An application known by its id alone.
    pub fn from(id: AppId) -> (app: DiscordApp)
        ensures
            app == DiscordApp::PlainId(id),
    {
        DiscordApp::PlainId(id)
    }
}

/// The bit that stands for the activity class in a set of subscriptions.
pub const ACTIVITY: u32 = 0x1;

/// The bit that stands for the lobby class.
pub const LOBBY: u32 = 0x2;

/// The bit that stands for the user class.
pub const USER: u32 = 0x4;

/// The bit that stands for the overlay class.
pub const OVERLAY: u32 = 0x8;

/// The bit that stands for the relationships class.
pub const RELATIONSHIPS: u32 = 0x10;

/// The bit that stands for the voice class.
pub const VOICE: u32 = 0x20;

/// The bits of all six classes.
pub const ALL: u32 = 0x3f;

/// The classes of events that the caller wants to hear of. The set is
/// chosen once, when the client is made.
#[derive(Copy, Clone, Debug, PartialEq, Eq, Structural)]
pub struct Subscriptions {
    pub activity: bool,
    pub lobby: bool,
    pub user: bool,
    pub overlay: bool,
    pub relationships: bool,
    pub voice: bool,
}

/// One where the flag is set, else zero.
pub open spec fn bit(flag: bool) -> int {
    if flag {
        1
    } else {
        0
    }
}

impl Subscriptions {
    /// The set as bits: one bit for each class that is in it.
    pub open spec fn spec_bits(self) -> int {
        bit(self.activity) * 1 + bit(self.lobby) * 2 + bit(self.user) * 4 + bit(self.overlay) * 8
            + bit(self.relationships) * 16 + bit(self.voice) * 32
    }

    /// The set that the lowest six bits of `bits` stand for.
    pub open spec fn spec_from_bits(bits: u32) -> Subscriptions {
        Subscriptions {
            activity: bits % 2 == 1,
            lobby: bits / 2 % 2 == 1,
            user: bits / 4 % 2 == 1,
            overlay: bits / 8 % 2 == 1,
            relationships: bits / 16 % 2 == 1,
            voice: bits / 32 % 2 == 1,
        }
    }

    /// The set without any class.
    pub fn empty() -> (s: Subscriptions)
        ensures
            s == Self::spec_from_bits(0),
            s.spec_bits() == 0,
    {
        Subscriptions {
            activity: false,
            lobby: false,
            user: false,
            overlay: false,
            relationships: false,
            voice: false,
        }
    }

    /// The set of all six classes.
    pub fn all() -> (s: Subscriptions)
        ensures
            s == Self::spec_from_bits(ALL),
            s.spec_bits() == ALL,
    {
        Subscriptions {
            activity: true,
            lobby: true,
            user: true,
            overlay: true,
            relationships: true,
            voice: true,
        }
    }

    /// The set as bits.
    pub fn bits(self) -> (bits: u32)
        ensures
            bits == self.spec_bits(),
            bits <= ALL,
    {
        let mut bits: u32 = 0;
        if self.activity {
            bits = bits + ACTIVITY;
        }
        if self.lobby {
            bits = bits + LOBBY;
        }
        if self.user {
            bits = bits + USER;
        }
        if self.overlay {
            bits = bits + OVERLAY;
        }
        if self.relationships {
            bits = bits + RELATIONSHIPS;
        }
        if self.voice {
            bits = bits + VOICE;
        }
        bits
    }

    /// The set that bits stand for. Bits that stand for no class are
    /// dropped.
    pub fn from_bits_truncate(bits: u32) -> (s: Subscriptions)
        ensures
            s == Self::spec_from_bits(bits),
    {
        Subscriptions {
            activity: bits % 2 == 1,
            lobby: bits / 2 % 2 == 1,
            user: bits / 4 % 2 == 1,
            overlay: bits / 8 % 2 == 1,
            relationships: bits / 16 % 2 == 1,
            voice: bits / 32 % 2 == 1,
        }
    }

    /// The set of the classes that are in either set.
    pub fn union(self, other: Subscriptions) -> (s: Subscriptions)
        ensures
            s == (Subscriptions {
                activity: self.activity || other.activity,
                lobby: self.lobby || other.lobby,
                user: self.user || other.user,
                overlay: self.overlay || other.overlay,
                relationships: self.relationships || other.relationships,
                voice: self.voice || other.voice,
            }),
    {
        Subscriptions {
            activity: self.activity || other.activity,
            lobby: self.lobby || other.lobby,
            user: self.user || other.user,
            overlay: self.overlay || other.overlay,
            relationships: self.relationships || other.relationships,
            voice: self.voice || other.voice,
        }
    }

    /// Whether every class of `other` is in this set.
    pub fn contains(self, other: Subscriptions) -> (b: bool)
        ensures
            b == ((other.activity ==> self.activity) && (other.lobby ==> self.lobby) && (other.user
                ==> self.user) && (other.overlay ==> self.overlay) && (other.relationships
                ==> self.relationships) && (other.voice ==> self.voice)),
    {
        (!other.activity || self.activity) && (!other.lobby || self.lobby) && (!other.user
            || self.user) && (!other.overlay || self.overlay) && (!other.relationships
            || self.relationships) && (!other.voice || self.voice)
    }
}

/// A set is known by its bits: the set that the bits of a set stand for is
/// that set.
pub proof fn lemma_bits_round_trip(s: Subscriptions)
    ensures
        0 <= s.spec_bits() <= ALL,
        Subscriptions::spec_from_bits(s.spec_bits() as u32) == s,
{
    let a = bit(s.activity);
    let b = bit(s.lobby) + 2 * bit(s.user) + 4 * bit(s.overlay) + 8 * bit(s.relationships) + 16
        * bit(s.voice);
    let c = bit(s.user) + 2 * bit(s.overlay) + 4 * bit(s.relationships) + 8 * bit(s.voice);
    let d = bit(s.overlay) + 2 * bit(s.relationships) + 4 * bit(s.voice);
    let e = bit(s.relationships) + 2 * bit(s.voice);
    let bits = s.spec_bits();
    assert(bits == a + 2 * b);
    assert(b == bit(s.lobby) + 2 * c);
    assert(c == bit(s.user) + 2 * d);
    assert(d == bit(s.overlay) + 2 * e);
    assert(bits / 2 == b);
    assert(bits / 4 == c);
    assert(bits / 8 == d);
    assert(bits / 16 == e);
    assert(bits / 32 == bit(s.voice));
}

/// A request that waits for its response.
pub struct NotifyItem<T> {
    /// The nonce that went out with the request and comes back with the
    /// response.
    pub nonce: u64,
    /// The handle through which the caller is answered.
    pub tx: T,
    /// The kind of command that the response has to be of.
    pub cmd: CommandKind,
}

/// Whether `i` is the place of the first request with the nonce `nonce`.
pub open spec fn is_first_pending<T>(pending: Seq<NotifyItem<T>>, nonce: u64, i: int) -> bool {
    &&& 0 <= i < pending.len()
    &&& pending[i].nonce == nonce
    &&& forall|j: int| 0 <= j < i ==> (#[trigger] pending[j]).nonce != nonce
}

/// Whether no request with the nonce `nonce` waits.
pub open spec fn no_pending<T>(pending: Seq<NotifyItem<T>>, nonce: u64) -> bool {
    forall|j: int| 0 <= j < pending.len() ==> (#[trigger] pending[j]).nonce != nonce
}

/// Whether no two of the requests that wait have the same nonce.
pub open spec fn distinct_nonces<T>(pending: Seq<NotifyItem<T>>) -> bool {
    forall|i: int, j: int|
        0 <= i < j < pending.len() ==> (#[trigger] pending[i]).nonce != (#[trigger] pending[j]).nonce
}

/// What the facade and the correlator share: the nonce of the next request
/// and the requests that wait for their responses.
pub struct State<T> {
    next_nonce: u64,
    notify_queue: Vec<NotifyItem<T>>,
}

impl<T> State<T> {
    /// Nonces start at one, every request that waits has a nonce that was
    /// given out, and no two of them have the same.
    pub closed spec fn wf(&self) -> bool {
        &&& self.next_nonce >= 1
        &&& forall|j: int|
            0 <= j < self.notify_queue@.len() ==> (#[trigger] self.notify_queue@[j]).nonce
                < self.next_nonce
        &&& distinct_nonces(self.notify_queue@)
    }

    /// Whether `after` is this state once a request was registered and got
    /// the nonce `nonce`.
    pub open spec fn registers(&self, after: &State<T>, nonce: u64) -> bool {
        &&& nonce == self.spec_next_nonce()
        &&& after.spec_next_nonce() == nonce + 1
        &&& after.pending().len() == self.pending().len() + 1
        &&& after.pending().drop_last() == self.pending()
        &&& after.pending().last().nonce == nonce
    }

    /// Whether `after` is this state once a request was registered, or
    /// after anything that gives out no nonce: a request that stops
    /// waiting, a message that is handled.
    pub open spec fn steps_to(&self, after: &State<T>) -> bool {
        ||| after.spec_next_nonce() == self.spec_next_nonce()
        ||| self.registers(after, self.spec_next_nonce())
    }

    /// The nonce that the next request gets.
    pub closed spec fn spec_next_nonce(&self) -> u64 {
        self.next_nonce
    }

    /// The requests that wait, in the order kept.
    pub closed spec fn pending(&self) -> Seq<NotifyItem<T>> {
        self.notify_queue@
    }

    /// No request waits, and the first nonce is one.
    pub fn new() -> (s: State<T>)
        ensures
            s.wf(),
            s.spec_next_nonce() == 1,
            s.pending().len() == 0,
    {
        State { next_nonce: 1, notify_queue: Vec::new() }
    }

    /// The nonce that the next request gets.
    pub fn next_nonce(&self) -> (n: u64)
        ensures
            n == self.spec_next_nonce(),
    {
        self.next_nonce
    }

    /// How many requests wait.
    pub fn pending_len(&self) -> (n: usize)
        ensures
            n == self.pending().len(),
    {
        self.notify_queue.len()
    }

    /// Every nonce that waits was given out before the next one, and to one
    /// request only.
    pub proof fn lemma_pending_below_next(&self)
        requires
            self.wf(),
        ensures
            no_pending(self.pending(), self.spec_next_nonce()),
            forall|j: int|
                0 <= j < self.pending().len() ==> (#[trigger] self.pending()[j]).nonce
                    < self.spec_next_nonce(),
            distinct_nonces(self.pending()),
    {
    }

    /// Gives out the nonce for a request for `cmd` and lets it wait with the
    /// reply handle `tx`. Nonces count up by one; when they run out the
    /// handle is given back.
    pub fn register(&mut self, cmd: CommandKind, tx: T) -> (r: Result<u64, T>)
        requires
            old(self).wf(),
        ensures
            final(self).wf(),
            match r {
                Ok(nonce) => {
                    &&& nonce == old(self).spec_next_nonce()
                    &&& old(self).registers(final(self), nonce)
                    &&& forall|j: int|
                        0 <= j < old(self).pending().len() ==> (#[trigger] old(
                            self,
                        ).pending()[j]).nonce < nonce
                    &&& final(self).spec_next_nonce() == nonce + 1
                    &&& final(self).pending() == old(self).pending().push(
                        NotifyItem { nonce, tx, cmd },
                    )
                },
                Err(back) => {
                    &&& old(self).spec_next_nonce() == u64::MAX
                    &&& back == tx
                    &&& final(self).spec_next_nonce() == old(self).spec_next_nonce()
                    &&& final(self).pending() == old(self).pending()
                },
            },
    {
        if self.next_nonce == u64::MAX {
            return Err(tx);
        }
        let nonce: u64 = self.next_nonce;
        self.next_nonce = nonce + 1;
        self.notify_queue.push(NotifyItem { nonce, tx, cmd });
        assert(self.notify_queue@.drop_last() =~= old(self).notify_queue@);
        Ok(nonce)
    }

    /// Takes the first request with the nonce `nonce` out of those that
    /// wait; the last one takes its place.
    pub fn pop_nonce(&mut self, nonce: u64) -> (r: Option<NotifyItem<T>>)
        requires
            old(self).wf(),
        ensures
            final(self).wf(),
            final(self).spec_next_nonce() == old(self).spec_next_nonce(),
            match r {
                Some(item) => {
                    &&& final(self).pending().len() == old(self).pending().len() - 1
                    &&& item.nonce == nonce
                    &&& no_pending(final(self).pending(), nonce)
                    &&& exists|i: int| #[trigger] is_first_pending(old(self).pending(), nonce, i)
                    &&& forall|i: int| #[trigger]
                        is_first_pending(old(self).pending(), nonce, i) ==> {
                            &&& item == old(self).pending()[i]
                            &&& final(self).pending() == old(self).pending().update(
                                i,
                                old(self).pending().last(),
                            ).drop_last()
                        }
                },
                None => no_pending(old(self).pending(), nonce) && final(self).pending() == old(
                    self,
                ).pending(),
            },
    {
        let ghost before = self.notify_queue@;
        let mut i: usize = 0;
        while i < self.notify_queue.len()
            invariant
                0 <= i <= self.notify_queue@.len(),
                self.notify_queue@ == before,
                before == old(self).notify_queue@,
                self.next_nonce == old(self).next_nonce,
                self.next_nonce >= 1,
                forall|j: int| 0 <= j < before.len() ==> (#[trigger] before[j]).nonce < self.next_nonce,
                distinct_nonces(before),
                forall|j: int| 0 <= j < i ==> (#[trigger] before[j]).nonce != nonce,
            decreases self.notify_queue@.len() - i,
        {
            if self.notify_queue[i].nonce == nonce {
                let item = self.notify_queue.swap_remove(i);
                proof {
                    assert(is_first_pending(before, nonce, i as int));
                    assert forall|i2: int| #[trigger]
                        is_first_pending(before, nonce, i2) implies i2 == i by {
                        if i2 < i {
                            assert(before[i2].nonce != nonce);
                        } else if i < i2 {
                            assert(before[i as int].nonce != nonce);
                        }
                    }
                    let after = self.notify_queue@;
                    let last = before.len() - 1;
                    assert forall|j: int| 0 <= j < after.len() implies (#[trigger] after[j])
                        == before[if j == i {
                        last
                    } else {
                        j
                    }] by {}
                    assert forall|j: int| 0 <= j < after.len() implies (#[trigger] after[j]).nonce
                        < self.next_nonce by {
                        if j == i {
                            assert(before[last].nonce < self.next_nonce);
                        } else {
                            assert(before[j].nonce < self.next_nonce);
                        }
                    }
                    assert forall|j: int| 0 <= j < after.len() implies (#[trigger] after[j]).nonce
                        != nonce by {
                        if j == i {
                            assert(before[i as int].nonce != before[last].nonce);
                        } else if j < i {
                            assert(before[j].nonce != before[i as int].nonce);
                        } else {
                            assert(before[i as int].nonce != before[j].nonce);
                        }
                    }
                    assert forall|a: int, b: int| 0 <= a < b < after.len() implies (
                    #[trigger] after[a]).nonce != (#[trigger] after[b]).nonce by {
                        let x = if a == i {
                            last
                        } else {
                            a
                        };
                        let y = if b == i {
                            last
                        } else {
                            b
                        };
                        if x < y {
                            assert(before[x].nonce != before[y].nonce);
                        } else {
                            assert(before[y].nonce != before[x].nonce);
                        }
                    }
                }
                return Some(item);
            }
            i += 1;
        }
        None
    }
}

/// Of two requests, the one that was registered first has the smaller
/// nonce, whatever happened to the requests in between.
///
/// `states` are the states that the requests went through, each a step
/// from the one before; the first request was registered in the step from
/// `states[i]`, the second in a later step, from `states[j]`.
pub proof fn lemma_nonces_increase<T>(
    states: Seq<State<T>>,
    i: int,
    j: int,
    first: u64,
    second: u64,
)
    requires
        forall|k: int| 0 <= k < states.len() - 1 ==> (#[trigger] states[k]).steps_to(&states[k + 1]),
        0 <= i < j < states.len() - 1,
        states[i].registers(&states[i + 1], first),
        states[j].registers(&states[j + 1], second),
    ensures
        first < second,
{
    lemma_nonce_never_falls(states, i + 1, j);
}

/// The nonce of the next request never falls from step to step.
pub proof fn lemma_nonce_never_falls<T>(states: Seq<State<T>>, a: int, b: int)
    requires
        forall|k: int| 0 <= k < states.len() - 1 ==> (#[trigger] states[k]).steps_to(&states[k + 1]),
        0 <= a <= b < states.len(),
    ensures
        states[a].spec_next_nonce() <= states[b].spec_next_nonce(),
    decreases b - a,
{
    if a < b {
        lemma_nonce_never_falls(states, a, b - 1);
        assert(states[b - 1].steps_to(&states[b]));
    }
}

/// The facade's side of a connection: the requests that wait and the queue
/// of frames on their way out.
pub struct Discord<T> {
    pub state: State<T>,
    pub send_queue: SendQueue,
}

impl<T> Discord<T> {
    /// The state and the queue are well-formed.
    pub open spec fn wf(&self) -> bool {
        self.state.wf() && self.send_queue.wf()
    }

    /// A facade with no request waiting and nothing on its way out.
    pub fn new() -> (d: Discord<T>)
        ensures
            d.wf(),
            d.state.spec_next_nonce() == 1,
            d.state.pending().len() == 0,
            d.send_queue.pending().len() == 0,
            !d.send_queue.is_closed(),
    {
        Discord { state: State::new(), send_queue: SendQueue::new() }
    }

    /// Sends the request for `cmd` with the arguments `args`, which are
    /// JSON, and lets it wait for its response with the reply handle `tx`.
    ///
    /// The request gets the next nonce, waits, and its frame goes to the end
    /// of the send queue. A queue that is closed means that there is no
    /// connection; the request then waits all the same, and a response that
    /// never comes is never matched. Nonces that ran out and a queue that
    /// is full are a full channel, and a body too long for a frame is an
    /// invalid field; in these cases nothing changes, and the caller may
    /// try again.
    pub fn send_rpc(&mut self, cmd: CommandKind, args: &[u8], tx: T) -> (r: Result<u64, Error>)
        requires
            old(self).wf(),
        ensures
            final(self).wf(),
            final(self).send_queue.is_closed() == old(self).send_queue.is_closed(),
            ({
                let nonce = old(self).state.spec_next_nonce();
                let body = rpc_body(cmd, nonce, None, Some(args@));
                let queue = old(self).send_queue;
                if nonce == u64::MAX || (!queue.is_closed() && queue.pending().len()
                    >= SEND_QUEUE_CAPACITY) {
                    &&& r matches Err(Error::ChannelFull)
                    &&& final(self).state.pending() == old(self).state.pending()
                    &&& final(self).state.spec_next_nonce() == nonce
                    &&& final(self).send_queue.pending() == queue.pending()
                } else if body.len() > u32::MAX {
                    &&& r matches Err(Error::InvalidField(f)) && f@ == "args"@
                    &&& final(self).state.pending() == old(self).state.pending()
                    &&& final(self).state.spec_next_nonce() == nonce
                    &&& final(self).send_queue.pending() == queue.pending()
                } else {
                    &&& old(self).state.registers(&final(self).state, nonce)
                    &&& final(self).state.pending() == old(self).state.pending().push(
                        NotifyItem { nonce, tx, cmd },
                    )
                    &&& if queue.is_closed() {
                        r matches Err(Error::NoConnection) && final(self).send_queue.pending()
                            == queue.pending()
                    } else {
                        &&& r == Ok::<u64, Error>(nonce)
                        &&& final(self).send_queue.pending().len() == queue.pending().len() + 1
                        &&& final(self).send_queue.pending().drop_last() == queue.pending()
                        &&& final(self).send_queue.pending().last() matches Some(frame)
                        &&& final(self).send_queue.pending().last()->Some_0@ == frame_bytes(
                            OpCode::Frame,
                            body,
                        )
                    }
                }
            }),
    {
        let nonce: u64 = self.state.next_nonce();
        if nonce == u64::MAX || self.send_queue.is_full() {
            return Err(Error::ChannelFull);
        }
        let rpc = Rpc { cmd, nonce, evt: None, args: Some(crate::io::copy_bytes(args)) };
        let body = rpc.body();
        if body.len() > 0xffff_ffff {
            return Err(Error::InvalidField("args"));
        }
        let frame = crate::io::make_message(OpCode::Frame, body.as_slice());
        match self.state.register(cmd, tx) {
            Ok(_) => {},
            Err(_) => {
                return Err(Error::ChannelFull);
            },
        }
        let ghost queued = self.send_queue.pending();
        match self.send_queue.send(Some(frame)) {
            Ok(()) => {
                assert(self.send_queue.pending().drop_last() =~= queued);
                Ok(nonce)
            },
            Err(e) => Err(e),
        }
    }

    /// Asks the I/O loop to shut down: the sentinel goes to the end of the
    /// send queue. A queue that is closed has no connection to shut down,
    /// and a full one takes no sentinel; the requests wait on either way.
    pub fn disconnect(&mut self) -> (r: Result<(), Error>)
        requires
            old(self).wf(),
        ensures
            final(self).wf(),
            final(self).state.pending() == old(self).state.pending(),
            final(self).state.spec_next_nonce() == old(self).state.spec_next_nonce(),
            if old(self).send_queue.is_closed() {
                r matches Err(Error::NoConnection) && final(self).send_queue.pending() == old(
                    self,
                ).send_queue.pending()
            } else if old(self).send_queue.pending().len() >= SEND_QUEUE_CAPACITY {
                r matches Err(Error::ChannelFull) && final(self).send_queue.pending() == old(
                    self,
                ).send_queue.pending()
            } else {
                r is Ok && final(self).send_queue.pending() == old(self).send_queue.pending().push(
                    None,
                )
            },
    {
        self.send_queue.send(None)
    }
}

} // verus!
