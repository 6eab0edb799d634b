//! The event wheel: one spoke for each class of events. Stream spokes hand
//! every event to every subscriber, in order, as long as the subscriber
//! keeps up; latest-value spokes hold the last value for whoever looks.

use vstd::prelude::*;
use crate::activity::events::ActivityEvent;
use crate::error::{api_error_of_payload, DiscordApiErr, DiscordErr, Error};
use crate::handler::DiscordMsg;
use crate::lobby::events::LobbyEvent;
use crate::overlay::events::OverlayEvent;
use crate::overlay::Visibility;
use crate::proto::event::{ClassifiedEvent, Event};
use crate::relations::events::RelationshipEvent;
use crate::user::events::UserEvent;
use crate::user::User;

verus! {

/// How many events a stream spoke holds for subscribers that are behind.
pub const SPOKE_CAPACITY: usize = 10;

/// The place of a subscriber in the stream of a spoke: the number of the
/// next event it is to get, counted from the first ever sent.
#[derive(Copy, Clone, Debug, PartialEq, Eq, Structural)]
pub struct Cursor {
    pub next: u64,
}

/// What a subscriber gets when it asks a stream spoke for its next event.
#[derive(Debug)]
pub enum Recv<'a, T> {
    /// The next event.
    Value(&'a T),
    /// So many events were dropped before the subscriber got to them; the
    /// subscriber goes on with the oldest that is still held.
    Lagged(u64),
    /// The subscriber has had every event that was sent.
    Empty,
}

/// A stream that many subscribers read at their own pace. It holds the last
/// events up to its capacity; older ones are dropped, and a subscriber that
/// did not get to them is told how many it lost.
pub struct Ring<T> {
    items: Vec<T>,
    sent: u64,
    capacity: usize,
    history: Ghost<Seq<T>>,
}

impl<T> Ring<T> {
    /// Every event ever sent, oldest first.
    pub closed spec fn history(&self) -> Seq<T> {
        self.history@
    }

    /// How many events the ring holds at most.
    pub closed spec fn spec_capacity(&self) -> int {
        self.capacity as int
    }

    /// The number of the oldest event that is still held.
    pub closed spec fn first_held(&self) -> int {
        self.history@.len() - self.items@.len()
    }

    /// The ring holds the last events of its history, as many as fit.
    pub closed spec fn wf(&self) -> bool {
        &&& self.capacity >= 1
        &&& self.sent == self.history@.len()
        &&& self.items@.len() <= self.capacity
        &&& self.items@.len() <= self.history@.len()
        &&& self.items@ == self.history@.skip(self.history@.len() - self.items@.len())
        &&& self.history@.len() >= self.capacity ==> self.items@.len() == self.capacity
        &&& self.history@.len() < self.capacity ==> self.items@.len() == self.history@.len()
    }

    /// What a well-formed ring holds: the last events, at most as many as
    /// its capacity.
    pub proof fn lemma_first_held(&self)
        requires
            self.wf(),
        ensures
            self.first_held() == if self.history().len() > self.spec_capacity() {
                self.history().len() - self.spec_capacity()
            } else {
                0
            },
    {
    }

    /// An empty ring that holds up to `capacity` events, and at least one.
    pub fn new(capacity: usize) -> (r: Ring<T>)
        ensures
            r.wf(),
            r.history() == Seq::<T>::empty(),
            r.spec_capacity() == if capacity == 0 {
                1
            } else {
                capacity as int
            },
    {
        let capacity: usize = if capacity == 0 {
            1
        } else {
            capacity
        };
        let r = Ring { items: Vec::new(), sent: 0, capacity, history: Ghost(Seq::empty()) };
        assert(r.items@ =~= r.history@.skip(0));
        r
    }

    /// Sends an event to every subscriber. A full ring drops its oldest
    /// event. The result is `false`, and nothing happens, only after 2^64-1
    /// events.
    pub fn send(&mut self, value: T) -> (accepted: bool)
        requires
            old(self).wf(),
        ensures
            final(self).wf(),
            final(self).spec_capacity() == old(self).spec_capacity(),
            accepted == (old(self).history().len() < u64::MAX),
            accepted ==> final(self).history() == old(self).history().push(value),
            !accepted ==> final(self).history() == old(self).history(),
    {
        if self.sent == u64::MAX {
            return false;
        }
        let ghost value_seen = value;
        let ghost before = self.history@;
        let ghost held = self.items@;
        if self.items.len() == self.capacity {
            self.items.remove(0);
        }
        self.items.push(value);
        self.sent = self.sent + 1;
        self.history = Ghost(before.push(value_seen));
        assert(self.items@ =~= self.history@.skip(self.history@.len() - self.items@.len()));
        true
    }

    /// Subscribes: the subscriber gets the events sent from now on.
    pub fn subscribe(&self) -> (c: Cursor)
        requires
            self.wf(),
        ensures
            c.next == self.history().len(),
    {
        Cursor { next: self.sent }
    }

    /// Whether `r` and `after` are what a subscriber whose cursor is `before`
    /// gets from this ring: the event at its cursor; or, where that one was
    /// dropped, the count of those it lost and a cursor at the oldest that
    /// is held; or nothing, where it has had them all.
    pub open spec fn gives<'a>(&self, before: Cursor, r: Recv<'a, T>, after: Cursor) -> bool {
        if before.next >= self.history().len() {
            r is Empty && after == before
        } else if before.next < self.first_held() {
            &&& r matches Recv::Lagged(lost)
            &&& lost == self.first_held() - before.next
            &&& after.next == self.first_held()
        } else {
            &&& r matches Recv::Value(v)
            &&& *v == self.history()[before.next as int]
            &&& after.next == before.next + 1
        }
    }

    /// Gives a subscriber its next event.
    ///
    /// The event is the one whose number the cursor holds, so a subscriber
    /// gets the events in the order they were sent and none twice. Where
    /// that event was dropped, the subscriber learns how many it lost and
    /// goes on with the oldest that is held: it never gets an event that is
    /// older than one it has had.
    pub fn recv<'a>(&'a self, cursor: &mut Cursor) -> (r: Recv<'a, T>)
        requires
            self.wf(),
        ensures
            self.gives(*old(cursor), r, *final(cursor)),
    {
        if cursor.next >= self.sent {
            return Recv::Empty;
        }
        let first: u64 = self.sent - self.items.len() as u64;
        if cursor.next < first {
            let lost: u64 = first - cursor.next;
            cursor.next = first;
            return Recv::Lagged(lost);
        }
        let at: usize = (cursor.next - first) as usize;
        cursor.next = cursor.next + 1;
        Recv::Value(&self.items[at])
    }
}

/// A subscriber that fell behind by more than the ring holds is told so,
/// and how many events it lost; it gets no event in their place, and goes on
/// with the oldest that is held.
pub proof fn lemma_lag_is_signalled<'a, T>(
    ring: &Ring<T>,
    before: Cursor,
    r: Recv<'a, T>,
    after: Cursor,
)
    requires
        ring.wf(),
        ring.gives(before, r, after),
        before.next + ring.spec_capacity() < ring.history().len(),
    ensures
        r matches Recv::Lagged(lost) && lost == ring.history().len() - ring.spec_capacity()
            - before.next,
        after.next == ring.history().len() - ring.spec_capacity(),
{
    ring.lemma_first_held();
}

/// A subscriber gets its events in the order in which they were sent: of
/// two events that it gets, the later one was sent later, however many
/// events were sent and dropped in between.
///
/// `first` is the ring when the subscriber got the one event, `second` the
/// ring when it got the other; the ring only grew, and the subscriber's
/// cursor was moved by nothing but what it got.
pub proof fn lemma_delivery_in_order<'a, 'b, T>(
    first: &Ring<T>,
    second: &Ring<T>,
    start: Cursor,
    one: Recv<'a, T>,
    between: Cursor,
    resumed: Cursor,
    other: Recv<'b, T>,
    end: Cursor,
)
    requires
        first.wf(),
        second.wf(),
        first.history().is_prefix_of(second.history()),
        first.gives(start, one, between),
        between.next <= resumed.next,
        second.gives(resumed, other, end),
        one is Value,
        other is Value,
    ensures
        start.next < resumed.next < second.history().len(),
        *one->Value_0 == second.history()[start.next as int],
        *other->Value_0 == second.history()[resumed.next as int],
{
    first.lemma_first_held();
    second.lemma_first_held();
}

/// A cursor never moves back, and never past the events that were sent
/// unless it was there before. Once a subscriber has asked, its cursor is
/// at the oldest event that is held or further on: what it gets next is in
/// the ring.
pub proof fn lemma_cursor_advances<'a, T>(
    ring: &Ring<T>,
    before: Cursor,
    r: Recv<'a, T>,
    after: Cursor,
)
    requires
        ring.wf(),
        ring.gives(before, r, after),
    ensures
        before.next <= after.next,
        before.next <= ring.history().len() ==> after.next <= ring.history().len(),
        ring.history().len() - ring.spec_capacity() <= after.next,
{
    ring.lemma_first_held();
}

/// A single value that is replaced by every send and kept for whoever looks,
/// however late.
pub struct Latest<T> {
    value: T,
    version: u64,
}

impl<T> View for Latest<T> {
    type V = T;

    /// The value that was sent last.
    closed spec fn view(&self) -> T {
        self.value
    }
}

/// The count of sends after one more: it starts again at zero once 64
/// bits are used up.
pub open spec fn next_version(version: u64) -> u64 {
    if version == u64::MAX {
        0
    } else {
        (version + 1) as u64
    }
}

impl<T> Latest<T> {
    /// How many values were sent, as far as 64 bits count.
    pub closed spec fn spec_version(&self) -> u64 {
        self.version
    }

    /// A spoke that holds `initial` until something is sent.
    pub fn new(initial: T) -> (l: Latest<T>)
        ensures
            l@ == initial,
            l.spec_version() == 0,
    {
        Latest { value: initial, version: 0 }
    }

    /// Replaces the value, whether or not anybody looks.
    pub fn send(&mut self, value: T)
        ensures
            final(self)@ == value,
            final(self).spec_version() == next_version(old(self).spec_version()),
    {
        self.value = value;
        self.version = if self.version == u64::MAX {
            0
        } else {
            self.version + 1
        };
    }

    /// The value that was sent last. Every look gets it, and none an older
    /// one.
    pub fn borrow(&self) -> (v: &T)
        ensures
            *v == self@,
    {
        &self.value
    }

    /// The count of sends, for a subscriber to tell whether the value
    /// changed since it looked.
    pub fn version(&self) -> (n: u64)
        ensures
            n == self.spec_version(),
    {
        self.version
    }
}

/// Whether the client is connected, and to whom.
#[derive(Debug, Clone)]
pub enum UserState {
    Connected(User),
    Disconnected(Error),
}

/// The state of the overlay.
#[derive(Debug, Clone, Copy, PartialEq, Eq, Structural)]
pub struct OverlayState {
    /// Whether the user has the overlay switched on.
    pub enabled: bool,
    /// Whether the overlay is shown.
    pub visible: Visibility,
}

/// Something that takes the errors that no request waits for.
pub trait OnError {
    /// Takes an error.
    fn on_error(&self, error: Error);
}

/// A subscription to the activity spoke.
#[derive(Copy, Clone, Debug, PartialEq, Eq, Structural)]
pub struct ActivitySpoke(pub Cursor);

/// A subscription to the lobby spoke.
#[derive(Copy, Clone, Debug, PartialEq, Eq, Structural)]
pub struct LobbySpoke(pub Cursor);

/// A subscription to the relationships spoke.
#[derive(Copy, Clone, Debug, PartialEq, Eq, Structural)]
pub struct RelationshipSpoke(pub Cursor);

/// A look at the user spoke: the count of sends when it was taken.
#[derive(Copy, Clone, Debug, PartialEq, Eq, Structural)]
pub struct UserSpoke(pub u64);

/// A look at the overlay spoke: the count of sends when it was taken.
#[derive(Copy, Clone, Debug, PartialEq, Eq, Structural)]
pub struct OverlaySpoke(pub u64);

/// The event wheel.
pub struct Wheel {
    pub activity: Ring<ActivityEvent>,
    pub lobby: Ring<LobbyEvent>,
    pub relations: Ring<RelationshipEvent>,
    pub user: Latest<UserState>,
    pub overlay: Latest<OverlayState>,
}

/// The user state that an event of the user class leaves.
pub open spec fn user_state_of(event: UserEvent) -> UserState {
    match event {
        UserEvent::Connect(e) => UserState::Connected(e.user),
        UserEvent::Update(e) => UserState::Connected(e.user),
        UserEvent::Disconnect(e) => UserState::Disconnected(e.reason),
    }
}

/// The overlay state that an event of the overlay class leaves.
pub open spec fn overlay_state_of(event: OverlayEvent) -> OverlayState {
    match event {
        OverlayEvent::Update(u) => OverlayState { enabled: u.enabled, visible: u.visible },
    }
}

/// The overlay state after the messages `msgs`, in their order, turned a
/// wheel that held `start`: what the last overlay update among them left,
/// or `start` where there was none.
pub open spec fn overlay_after(start: OverlayState, msgs: Seq<DiscordMsg>) -> OverlayState
    decreases msgs.len(),
{
    if msgs.len() == 0 {
        start
    } else {
        match msgs.last() {
            DiscordMsg::Event(Event::OverlayUpdate(update)) => OverlayState {
                enabled: update.enabled,
                visible: update.visible,
            },
            _ => overlay_after(start, msgs.drop_last()),
        }
    }
}

/// Whether `msg` turns the wheel `before` into `after`, whatever goes back
/// to the error sink.
pub open spec fn is_turn(before: Wheel, msg: DiscordMsg, after: Wheel) -> bool {
    exists|back: Option<Error>| #[trigger] before.is_turned(msg, &after, back)
}

/// Whether `wheels` are the states that a wheel went through as it took the
/// messages `msgs` one after the other.
pub open spec fn is_run(wheels: Seq<Wheel>, msgs: Seq<DiscordMsg>) -> bool {
    &&& wheels.len() == msgs.len() + 1
    &&& forall|i: int|
        0 <= i < msgs.len() ==> is_turn(wheels[i], #[trigger] msgs[i], wheels[i + 1])
}

/// Whoever looks at the overlay spoke, however late, finds what the last
/// overlay update left, and never what an older one did.
pub proof fn lemma_latest_retained(wheels: Seq<Wheel>, msgs: Seq<DiscordMsg>)
    requires
        is_run(wheels, msgs),
    ensures
        wheels.last().overlay@ == overlay_after(wheels[0].overlay@, msgs),
    decreases msgs.len(),
{
    if msgs.len() > 0 {
        let n = msgs.len() - 1;
        let shorter = wheels.drop_last();
        let earlier = msgs.drop_last();
        assert forall|i: int| 0 <= i < earlier.len() implies is_turn(
            shorter[i],
            #[trigger] earlier[i],
            shorter[i + 1],
        ) by {
            assert(is_turn(wheels[i], msgs[i], wheels[i + 1]));
        }
        lemma_latest_retained(shorter, earlier);
        assert(is_turn(wheels[n], msgs[n], wheels[n + 1]));
        assert(shorter.last() == wheels[n]);
        assert(shorter[0] == wheels[0]);
    }
}

impl Wheel {
    /// The three rings are well-formed.
    pub open spec fn wf(&self) -> bool {
        self.activity.wf() && self.lobby.wf() && self.relations.wf()
    }

    /// Whether `after` is `self` but for the named spokes. The rings hold
    /// as many events as before in any case.
    pub open spec fn same_but(
        &self,
        after: &Wheel,
        activity: bool,
        lobby: bool,
        relations: bool,
        user: bool,
        overlay: bool,
    ) -> bool {
        &&& after.activity.spec_capacity() == self.activity.spec_capacity()
        &&& after.lobby.spec_capacity() == self.lobby.spec_capacity()
        &&& after.relations.spec_capacity() == self.relations.spec_capacity()
        &&& activity || after.activity.history() == self.activity.history()
        &&& lobby || after.lobby.history() == self.lobby.history()
        &&& relations || after.relations.history() == self.relations.history()
        &&& user || (after.user@ == self.user@ && after.user.spec_version()
            == self.user.spec_version())
        &&& overlay || (after.overlay@ == self.overlay@ && after.overlay.spec_version()
            == self.overlay.spec_version())
    }

    /// A wheel on which nothing has turned yet: no connection, and an
    /// overlay that is off and hidden.
    pub fn new() -> (w: Wheel)
        ensures
            w.wf(),
            w.activity.history().len() == 0,
            w.lobby.history().len() == 0,
            w.relations.history().len() == 0,
            w.activity.spec_capacity() == SPOKE_CAPACITY,
            w.lobby.spec_capacity() == SPOKE_CAPACITY,
            w.relations.spec_capacity() == SPOKE_CAPACITY,
            w.user@ matches UserState::Disconnected(Error::NoConnection),
            w.overlay@ == (OverlayState { enabled: false, visible: Visibility::Hidden }),
            w.user.spec_version() == 0,
            w.overlay.spec_version() == 0,
    {
        Wheel {
            activity: Ring::new(SPOKE_CAPACITY),
            lobby: Ring::new(SPOKE_CAPACITY),
            relations: Ring::new(SPOKE_CAPACITY),
            user: Latest::new(UserState::Disconnected(Error::NoConnection)),
            overlay: Latest::new(OverlayState { enabled: false, visible: Visibility::Hidden }),
        }
    }

    /// Subscribes to the activity spoke.
    pub fn activity(&self) -> (s: ActivitySpoke)
        requires
            self.wf(),
        ensures
            s.0.next == self.activity.history().len(),
    {
        ActivitySpoke(self.activity.subscribe())
    }

    /// Subscribes to the lobby spoke.
    pub fn lobby(&self) -> (s: LobbySpoke)
        requires
            self.wf(),
        ensures
            s.0.next == self.lobby.history().len(),
    {
        LobbySpoke(self.lobby.subscribe())
    }

    /// Subscribes to the relationships spoke.
    pub fn relationships(&self) -> (s: RelationshipSpoke)
        requires
            self.wf(),
        ensures
            s.0.next == self.relations.history().len(),
    {
        RelationshipSpoke(self.relations.subscribe())
    }

    /// Looks at the user spoke.
    pub fn user(&self) -> (s: UserSpoke)
        ensures
            s.0 == self.user.spec_version(),
    {
        UserSpoke(self.user.version())
    }

    /// Looks at the overlay spoke.
    pub fn overlay(&self) -> (s: OverlaySpoke)
        ensures
            s.0 == self.overlay.spec_version(),
    {
        OverlaySpoke(self.overlay.version())
    }

    /// Whether `after` and `back` are what a message makes of the wheel.
    ///
    /// An error goes back to be handed to the error sink, and so does an
    /// error event, as the API error that it stands for. Any other event
    /// goes to the spoke of its class: the user and overlay spokes take the
    /// state that the event leaves, the stream spokes the event itself.
    /// Voice settings have no spoke.
    pub open spec fn is_turned(&self, msg: DiscordMsg, after: &Wheel, back: Option<Error>) -> bool {
        match msg {
            DiscordMsg::Error(err) => back == Some(err) && self.same_but(
                after,
                false,
                false,
                false,
                false,
                false,
            ),
            DiscordMsg::Event(Event::Error(payload)) => {
                &&& back matches Some(Error::Discord(DiscordErr::Api(api)))
                &&& back->Some_0->Discord_0->Api_0@ == api_error_of_payload(Some(payload))
                &&& self.same_but(after, false, false, false, false, false)
            },
            DiscordMsg::Event(eve) => back is None && match ClassifiedEvent::spec_from(eve) {
                ClassifiedEvent::User(user) => {
                    &&& after.user@ == user_state_of(user)
                    &&& after.user.spec_version() == next_version(self.user.spec_version())
                    &&& self.same_but(after, false, false, false, true, false)
                },
                ClassifiedEvent::Overlay(overlay) => {
                    &&& after.overlay@ == overlay_state_of(overlay)
                    &&& after.overlay.spec_version() == next_version(self.overlay.spec_version())
                    &&& self.same_but(after, false, false, false, false, true)
                },
                ClassifiedEvent::Activity(activity) => {
                    &&& after.activity.history() == if self.activity.history().len() < u64::MAX {
                        self.activity.history().push(activity)
                    } else {
                        self.activity.history()
                    }
                    &&& self.same_but(after, true, false, false, false, false)
                },
                ClassifiedEvent::Lobby(lobby) => {
                    &&& after.lobby.history() == if self.lobby.history().len() < u64::MAX {
                        self.lobby.history().push(lobby)
                    } else {
                        self.lobby.history()
                    }
                    &&& self.same_but(after, false, true, false, false, false)
                },
                ClassifiedEvent::Relations(re) => {
                    &&& after.relations.history() == if self.relations.history().len() < u64::MAX {
                        self.relations.history().push(re)
                    } else {
                        self.relations.history()
                    }
                    &&& self.same_but(after, false, false, true, false, false)
                },
                ClassifiedEvent::Voice(_) => self.same_but(
                    after,
                    false,
                    false,
                    false,
                    false,
                    false,
                ),
            },
        }
    }

    /// Takes a message of the correlator onto the wheel. What comes back is
    /// the error for the error sink, if the message was one.
    pub fn on_message(&mut self, msg: DiscordMsg) -> (back: Option<Error>)
        requires
            old(self).wf(),
        ensures
            final(self).wf(),
            old(self).is_turned(msg, final(self), back),
    {
        let eve = match msg {
            DiscordMsg::Error(err) => {
                return Some(err);
            },
            DiscordMsg::Event(eve) => eve,
        };
        let eve = match eve {
            Event::Error(payload) => {
                return Some(
                    Error::Discord(DiscordErr::Api(DiscordApiErr::from_payload(Some(payload)))),
                );
            },
            other => other,
        };
        match ClassifiedEvent::from(eve) {
            ClassifiedEvent::User(user) => {
                let us = match user {
                    UserEvent::Connect(e) => UserState::Connected(e.user),
                    UserEvent::Update(e) => UserState::Connected(e.user),
                    UserEvent::Disconnect(e) => UserState::Disconnected(e.reason),
                };
                self.user.send(us);
            },
            ClassifiedEvent::Relations(re) => {
                self.relations.send(re);
            },
            ClassifiedEvent::Activity(activity) => {
                self.activity.send(activity);
            },
            ClassifiedEvent::Lobby(lobby) => {
                self.lobby.send(lobby);
            },
            ClassifiedEvent::Overlay(overlay) => {
                let os = match overlay {
                    OverlayEvent::Update(update) => OverlayState {
                        enabled: update.enabled,
                        visible: update.visible,
                    },
                };
                self.overlay.send(os);
            },
            ClassifiedEvent::Voice(_) => {},
        }
        None
    }

    /// Takes a message onto the wheel and hands an error to the sink.
    pub fn dispatch<E: OnError>(&mut self, msg: DiscordMsg, sink: &E) -> (handed: bool)
        requires
            old(self).wf(),
        ensures
            final(self).wf(),
            exists|back: Option<Error>|
                #![auto]
                old(self).is_turned(msg, final(self), back) && handed == (back is Some),
    {
        match self.on_message(msg) {
            Some(err) => {
                let ghost shown = Some(err);
                sink.on_error(err);
                assert(old(self).is_turned(msg, self, shown));
                true
            },
            None => {
                assert(old(self).is_turned(msg, self, None));
                false
            },
        }
    }
}

} // verus!
