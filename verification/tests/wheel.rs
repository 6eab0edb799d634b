use discord_sdk::activity::events::{ActivityEvent, SecretEvent};
use discord_sdk::error::{DiscordApiErr, DiscordErr, Error};
use discord_sdk::handler::handlers::{Forwarder, Level, Printer};
use discord_sdk::handler::wheel::{
    Cursor, Latest, OnError, OverlayState, Recv, Ring, UserState, Wheel,
};
use discord_sdk::handler::{DiscordHandler, DiscordMsg};
use discord_sdk::lobby::events::LobbyEvent;
use discord_sdk::overlay::events::UpdateEvent;
use discord_sdk::overlay::Visibility;
use discord_sdk::proto::{ClassifiedEvent, Event};
use discord_sdk::types::{DiscordConfig, Environment, ErrorPayload};
use discord_sdk::user::events::{ConnectEvent, UserEvent};
use discord_sdk::user::User;
use discord_sdk::Snowflake;
use std::cell::RefCell;

fn join(secret: &str) -> DiscordMsg {
    DiscordMsg::Event(Event::ActivityJoin(SecretEvent { secret: secret.to_owned() }))
}

fn user(name: &str) -> User {
    User {
        id: Snowflake(1),
        username: name.to_owned(),
        discriminator: None,
        avatar: None,
        is_bot: false,
    }
}

#[test]
fn wheel_starts_disconnected_with_the_overlay_hidden() {
    let wheel = Wheel::new();
    assert!(matches!(wheel.user.borrow(), UserState::Disconnected(Error::NoConnection)));
    assert_eq!(
        *wheel.overlay.borrow(),
        OverlayState { enabled: false, visible: Visibility::Hidden }
    );
    let mut spoke = wheel.activity();
    assert!(matches!(wheel.activity.recv(&mut spoke.0), Recv::Empty));
}

#[test]
fn latest_value_is_kept_for_late_subscribers() {
    let mut wheel = Wheel::new();
    let early = wheel.overlay();
    for (enabled, visible) in [(true, Visibility::Visible), (true, Visibility::Hidden), (false, Visibility::Visible)] {
        let back = wheel.on_message(DiscordMsg::Event(Event::OverlayUpdate(UpdateEvent { enabled, visible })));
        assert!(back.is_none());
    }
    // a subscriber that comes after the updates sees the last one, and only that
    let late = wheel.overlay();
    assert_eq!(
        *wheel.overlay.borrow(),
        OverlayState { enabled: false, visible: Visibility::Visible }
    );
    assert_eq!(early.0, 0);
    assert_eq!(late.0, 3);

    let mut latest = Latest::new(1);
    latest.send(2);
    latest.send(3);
    assert_eq!(*latest.borrow(), 3);
    assert_eq!(latest.version(), 2);
}

#[test]
fn lagging_subscriber_sees_a_loss_and_then_the_oldest_held() {
    let mut ring: Ring<u32> = Ring::new(10);
    let mut slow = ring.subscribe();
    for v in 0..25u32 {
        assert!(ring.send(v));
    }
    let mut late = ring.subscribe();
    match ring.recv(&mut slow) {
        Recv::Lagged(lost) => assert_eq!(lost, 15),
        other => panic!("loss expected, got {:?}", other),
    }
    let mut seen = Vec::new();
    while let Recv::Value(v) = ring.recv(&mut slow) {
        seen.push(*v);
    }
    assert_eq!(seen, (15..25).collect::<Vec<u32>>());
    assert!(matches!(ring.recv(&mut slow), Recv::Empty));
    assert!(matches!(ring.recv(&mut late), Recv::Empty));
    assert!(ring.send(25));
    assert!(matches!(ring.recv(&mut late), Recv::Value(&25)));
    assert!(matches!(ring.recv(&mut slow), Recv::Value(&25)));
    // a cursor from beyond the end gets nothing
    let mut wild = Cursor { next: 1000 };
    assert!(matches!(ring.recv(&mut wild), Recv::Empty));
    assert_eq!(wild.next, 1000);
}

#[test]
fn subscriber_that_keeps_up_gets_every_event_in_order() {
    let mut ring: Ring<u32> = Ring::new(10);
    let mut cursor = ring.subscribe();
    let mut seen = Vec::new();
    for v in 0..40u32 {
        ring.send(v);
        match ring.recv(&mut cursor) {
            Recv::Value(got) => seen.push(*got),
            other => panic!("value expected, got {:?}", other),
        }
    }
    assert_eq!(seen, (0..40).collect::<Vec<u32>>());
    // a ring of capacity zero holds one
    let mut tiny: Ring<u8> = Ring::new(0);
    let mut c = tiny.subscribe();
    tiny.send(1);
    tiny.send(2);
    assert!(matches!(tiny.recv(&mut c), Recv::Lagged(1)));
    assert!(matches!(tiny.recv(&mut c), Recv::Value(&2)));
}

#[test]
fn events_go_to_the_spoke_of_their_class() {
    let mut wheel = Wheel::new();
    let mut activity = wheel.activity();
    let mut lobby = wheel.lobby();
    let mut relations = wheel.relationships();
    assert!(wheel.on_message(join("one")).is_none());
    assert!(wheel.on_message(join("two")).is_none());
    assert!(wheel
        .on_message(DiscordMsg::Event(Event::LobbyDelete { id: Snowflake(9) }))
        .is_none());
    match wheel.activity.recv(&mut activity.0) {
        Recv::Value(ActivityEvent::Join(s)) => assert_eq!(s.secret, "one"),
        other => panic!("join expected, got {:?}", other),
    }
    match wheel.activity.recv(&mut activity.0) {
        Recv::Value(ActivityEvent::Join(s)) => assert_eq!(s.secret, "two"),
        other => panic!("join expected, got {:?}", other),
    }
    assert!(matches!(wheel.activity.recv(&mut activity.0), Recv::Empty));
    assert!(matches!(
        wheel.lobby.recv(&mut lobby.0),
        Recv::Value(LobbyEvent::Delete { id: Snowflake(9) })
    ));
    assert!(matches!(wheel.relations.recv(&mut relations.0), Recv::Empty));
}

#[test]
fn user_spoke_follows_the_connection() {
    let mut wheel = Wheel::new();
    let seen = wheel.user();
    let ready = Event::Ready(ConnectEvent {
        version: 1,
        config: DiscordConfig {
            cdn_host: "cdn".to_owned(),
            environment: Environment::Production,
            api_endpoint: "//api".to_owned(),
        },
        user: user("jake"),
    });
    assert!(wheel.on_message(DiscordMsg::Event(ready)).is_none());
    match wheel.user.borrow() {
        UserState::Connected(u) => assert_eq!(u.username, "jake"),
        other => panic!("connected expected, got {:?}", other),
    }
    assert!(wheel.user().0 != seen.0);
    let lost = Event::Disconnected { reason: Error::Close("Too many".to_owned()) };
    assert!(wheel.on_message(DiscordMsg::Event(lost)).is_none());
    assert!(matches!(
        wheel.user.borrow(),
        UserState::Disconnected(Error::Close(m)) if m == "Too many"
    ));
}

struct Sink(RefCell<Vec<String>>);

impl OnError for Sink {
    fn on_error(&self, error: Error) {
        self.0.borrow_mut().push(format!("{:?}", error));
    }
}

#[test]
fn errors_go_to_the_sink() {
    let mut wheel = Wheel::new();
    let back = wheel.on_message(DiscordMsg::Error(Error::TimedOut));
    assert!(matches!(back, Some(Error::TimedOut)));
    let payload = ErrorPayload { code: Some(1000), message: Some("Unknown Error".to_owned()) };
    let back = wheel.on_message(DiscordMsg::Event(Event::Error(payload)));
    assert!(matches!(back, Some(Error::Discord(DiscordErr::Api(DiscordApiErr::Unknown)))));
    let sink = Sink(RefCell::new(Vec::new()));
    assert!(wheel.dispatch(DiscordMsg::Error(Error::ChannelFull), &sink));
    assert!(!wheel.dispatch(join("x"), &sink));
    assert_eq!(*sink.0.borrow(), vec!["ChannelFull".to_owned()]);
}

#[test]
fn events_are_classified() {
    assert!(matches!(
        ClassifiedEvent::from(Event::CurrentUserUpdate(discord_sdk::user::events::UpdateEvent {
            user: user("a")
        })),
        ClassifiedEvent::User(UserEvent::Update(_))
    ));
    assert!(matches!(
        ClassifiedEvent::from(Event::ActivitySpectate(SecretEvent { secret: "s".to_owned() })),
        ClassifiedEvent::Activity(ActivityEvent::Spectate(_))
    ));
    assert!(matches!(
        ClassifiedEvent::from(Event::Disconnected { reason: Error::NoConnection }),
        ClassifiedEvent::User(UserEvent::Disconnect(_))
    ));
    assert_eq!(Event::LobbyDelete { id: Snowflake(1) }.kind().unwrap().name(), "LOBBY_DELETE");
    assert!(Event::Disconnected { reason: Error::NoConnection }.kind().is_none());
}

#[test]
fn ready_made_handlers() {
    let mut printer = Printer::new();
    printer.on_message(join("a"));
    printer.on_message(DiscordMsg::Error(Error::TimedOut));
    printer.on_message(join("b"));
    assert_eq!((printer.events, printer.errors), (2, 1));
    assert_eq!(Printer::level(&join("a")), Level::Debug);
    assert_eq!(Printer::level(&DiscordMsg::Error(Error::TimedOut)), Level::Warn);
    assert_eq!(printer.note(&DiscordMsg::Error(Error::TimedOut)), Level::Warn);
    assert_eq!((printer.events, printer.errors), (2, 2));
    let mut full = Printer { events: u64::MAX, errors: 0 };
    assert_eq!(full.note(&join("c")), Level::Debug);
    assert_eq!((full.events, full.errors), (u64::MAX, 0));
    let mut forwarder = Forwarder::new();
    forwarder.on_message(join("a"));
    forwarder.forward(DiscordMsg::Error(Error::TimedOut));
    let msgs = forwarder.take();
    assert_eq!(msgs.len(), 2);
    assert!(matches!(msgs[1], DiscordMsg::Error(Error::TimedOut)));
    assert!(forwarder.take().is_empty());
}
