use discord_sdk::error::Error;
use discord_sdk::lobby::events::{LobbyEvent, MemberEvent, MessageEvent, SpeakingEvent};
use discord_sdk::lobby::search::{
    LobbySearchCast, LobbySearchComparison, LobbySearchDistance, SearchKey, SearchQuery,
    SearchValue,
};
use discord_sdk::lobby::state::{find_member, LobbyStates};
use discord_sdk::lobby::{
    ConnectLobby, CreateLobbyBuilder, Lobby, LobbyArgs, LobbyKind, LobbyMember, LobbyMessage,
    Metadata, Region, UpdateLobbyBuilder,
};
use discord_sdk::user::User;
use discord_sdk::Snowflake;

fn pair(k: &str, v: &str) -> (String, String) {
    (k.to_owned(), v.to_owned())
}

fn member(id: u64, name: &str) -> LobbyMember {
    LobbyMember {
        metadata: Metadata::new(),
        user: User {
            id: Snowflake(id),
            username: name.to_owned(),
            discriminator: None,
            avatar: None,
            is_bot: false,
        },
        speaking: false,
    }
}

fn lobby(id: u64) -> Lobby {
    Lobby {
        id: Snowflake(id),
        capacity: 16,
        locked: false,
        members: vec![member(1, "one")],
        metadata: Metadata::new(),
        owner_id: Snowflake(1),
        region: Region::EuWest,
        secret: "sekret".to_owned(),
        kind: LobbyKind::Private,
        voice_states: Vec::new(),
    }
}

#[test]
fn metadata_keeps_one_value_for_each_key() {
    let mut md = Metadata::new();
    assert!(md.is_empty());
    md.insert("crab".to_owned(), "1".to_owned());
    md.insert("fish".to_owned(), "2".to_owned());
    md.insert("crab".to_owned(), "3".to_owned());
    assert_eq!(md.get("crab"), Some("3".to_owned()));
    assert_eq!(md.get("fish"), Some("2".to_owned()));
    assert_eq!(md.get("bird"), None);
    assert_eq!(md.clone().into_entries().len(), 2);
    md.remove("fish");
    assert_eq!(md.get("fish"), None);
    md.remove("nothing");
    md.extend(vec![pair("a", "1"), pair("crab", "4"), pair("a", "2")]);
    assert_eq!(md.get("a"), Some("2".to_owned()));
    assert_eq!(md.get("crab"), Some("4".to_owned()));
    assert_eq!(md.into_entries().len(), 2);
}

#[test]
fn create_builder_has_the_defaults_of_discord() {
    let args = CreateLobbyBuilder::new().inner;
    assert_eq!(args.id, None);
    assert_eq!(args.capacity, 16);
    assert_eq!(args.kind, LobbyKind::Private);
    assert_eq!(args.locked, None);
    assert_eq!(args.owner_id, None);
    assert!(args.metadata.is_empty());
    assert_eq!(LobbyArgs::default(), args);
    let args = CreateLobbyBuilder::new()
        .capacity(Some(2))
        .kind(LobbyKind::Public)
        .locked(true)
        .add_metadata(vec![pair("crab", "1")])
        .inner;
    assert_eq!(args.capacity, 2);
    assert_eq!(args.kind, LobbyKind::Public);
    assert_eq!(args.locked, Some(true));
    assert_eq!(args.metadata.get("crab"), Some("1".to_owned()));
    assert_eq!(CreateLobbyBuilder::new().capacity(Some(4)).capacity(None).inner.capacity, 16);
    assert_eq!(CreateLobbyBuilder::new().capacity(Some(0)).inner.capacity, 16);
}

#[test]
fn update_builder_starts_from_the_lobby() {
    let mut start = lobby(7);
    start.metadata.insert("one".to_owned(), "1".to_owned());
    start.metadata.insert("two".to_owned(), "2".to_owned());
    let args = UpdateLobbyBuilder::new(&start).inner;
    assert_eq!(args.id, Some(Snowflake(7)));
    assert_eq!(args.locked, None);
    assert_eq!(args.owner_id, Some(Snowflake(1)));
    assert_eq!(args.metadata.get("two"), Some("2".to_owned()));
    let args = UpdateLobbyBuilder::new(&start)
        .capacity(Some(4))
        .kind(LobbyKind::Public)
        .locked(false)
        .owner(Some(Snowflake(2)))
        .add_metadata(vec![pair("three", "3")])
        .delete_metadata(vec!["one".to_owned(), "nothing".to_owned()])
        .inner;
    assert_eq!(args.capacity, 4);
    assert_eq!(args.locked, Some(false));
    assert_eq!(args.owner_id, Some(Snowflake(2)));
    assert_eq!(args.metadata.get("one"), None);
    assert_eq!(args.metadata.get("two"), Some("2".to_owned()));
    assert_eq!(args.metadata.get("three"), Some("3".to_owned()));
    let mut target = lobby(7);
    target.locked = true;
    args.modify(&mut target);
    assert_eq!(target.capacity, 4);
    assert_eq!(target.kind, LobbyKind::Public);
    assert!(!target.locked);
    assert_eq!(target.owner_id, Snowflake(2));
    assert_eq!(target.metadata.get("three"), Some("3".to_owned()));
    assert_eq!(target.secret, "sekret");
    assert_eq!(target.members.len(), 1);
}

#[test]
fn lobby_secrets_are_id_and_secret() {
    let c = ConnectLobby::try_from("123:abc:def").unwrap();
    assert_eq!(c, ConnectLobby { id: Snowflake(123), secret: "abc:def".to_owned() });
    let c = ConnectLobby::try_from("5:").unwrap();
    assert_eq!(c, ConnectLobby { id: Snowflake(5), secret: String::new() });
    for bad in ["123", "", ":abc", "x1:abc", "18446744073709551616:s", "1 :s"] {
        assert!(matches!(
            ConnectLobby::try_from(bad),
            Err(Error::NonCanonicalLobbyActivitySecret)
        ));
    }
}

#[test]
fn messages_are_text_or_base64() {
    let text = LobbyMessage::text("I'm leaving".to_owned());
    assert_eq!(text.serialize().unwrap(), "I'm leaving");
    assert_eq!(LobbyMessage::deserialize("I'm leaving").unwrap(), text);
    let bin = LobbyMessage::binary(b"hello".to_vec());
    assert_eq!(bin.serialize().unwrap(), "data:text/plain;base64,aGVsbG8");
    assert_eq!(LobbyMessage::deserialize("data:text/plain;base64,aGVsbG8").unwrap(), bin);
    assert_eq!(
        LobbyMessage::binary(vec![0xfb, 0xff]).serialize().unwrap(),
        "data:text/plain;base64,+/8"
    );
    assert_eq!(
        LobbyMessage::deserialize("data:text/plain;base64,").unwrap(),
        LobbyMessage::Binary(Vec::new())
    );
    assert!(matches!(
        LobbyMessage::deserialize("data:text/plain;base64,a!b"),
        Err(Error::InvalidField("data"))
    ));
    assert_eq!(
        LobbyMessage::from_decoded("data:text/plain;base64,xx", Some(vec![1])).unwrap(),
        LobbyMessage::Binary(vec![1])
    );
    assert_eq!(
        LobbyMessage::from_decoded("plain", Some(vec![1])).unwrap(),
        LobbyMessage::Text("plain".to_owned())
    );
}

#[test]
fn search_queries_are_put_together() {
    let q = SearchQuery::default();
    assert_eq!(q.limit, 25);
    assert_eq!(q.distance, LobbySearchDistance::Default);
    let q = q
        .add_filter(SearchKey::from("crab"), LobbySearchComparison::Equal, SearchValue::number(-12))
        .add_filter(SearchKey::OwnerId, LobbySearchComparison::NotEqual, SearchValue::string("me".to_owned()))
        .add_sort(SearchKey::Slots, SearchValue::number(3))
        .limit(Some(5))
        .limit(None)
        .limit(Some(0))
        .distance(LobbySearchDistance::Global);
    assert_eq!(q.filter.len(), 2);
    assert_eq!(q.filter[0].key, "metadata.crab");
    assert_eq!(q.filter[0].cast, LobbySearchCast::Number);
    assert_eq!(q.filter[0].value, "-12");
    assert_eq!(q.filter[1].key, "owner_id");
    assert_eq!(q.filter[1].cast, LobbySearchCast::String);
    assert_eq!(q.filter[1].comparison, LobbySearchComparison::NotEqual);
    assert_eq!(q.sort[0].key, "slots");
    assert_eq!(q.sort[0].near_value, "3");
    assert_eq!(q.limit, 5);
    assert_eq!(q.distance, LobbySearchDistance::Global);
    assert_eq!(SearchKey::Capacity.to_text(), "capacity");
    assert_eq!(LobbySearchComparison::LessThanOrEqual.code(), -2);
    assert_eq!(LobbySearchComparison::NotEqual.code(), 3);
    assert_eq!(SearchValue::number(i64::MIN).into_string(), "-9223372036854775808");
    assert_eq!(SearchValue::number(0).cast(), LobbySearchCast::Number);
}

#[test]
fn lobby_states_follow_the_events() {
    let mut states = LobbyStates::new();
    states.on_event(LobbyEvent::Create(lobby(1)));
    states.on_event(LobbyEvent::Connect(lobby(2)));
    states.on_event(LobbyEvent::Connect(lobby(3)));
    assert_eq!(states.lobbies.len(), 3);
    assert_eq!(states.find_lobby(Snowflake(2)), Some(1));
    assert_eq!(states.find_lobby(Snowflake(9)), None);

    states.on_event(LobbyEvent::MemberConnect(MemberEvent {
        lobby_id: Snowflake(2),
        member: member(2, "two"),
    }));
    assert_eq!(states.lobbies[1].lobby.members.len(), 2);
    assert_eq!(find_member(&states.lobbies[1].lobby.members, Snowflake(2)), Some(1));

    states.on_event(LobbyEvent::SpeakingStart(SpeakingEvent {
        lobby_id: Snowflake(2),
        user_id: Snowflake(2),
    }));
    assert!(states.lobbies[1].lobby.members[1].speaking);
    // an update of the member keeps whether it speaks
    let mut updated = member(2, "two again");
    updated.metadata.insert("k".to_owned(), "v".to_owned());
    states.on_event(LobbyEvent::MemberUpdate(MemberEvent {
        lobby_id: Snowflake(2),
        member: updated,
    }));
    assert_eq!(states.lobbies[1].lobby.members[1].user.username, "two again");
    assert_eq!(states.lobbies[1].lobby.members[1].metadata.get("k"), Some("v".to_owned()));
    assert!(states.lobbies[1].lobby.members[1].speaking);
    states.on_event(LobbyEvent::SpeakingStop(SpeakingEvent {
        lobby_id: Snowflake(2),
        user_id: Snowflake(2),
    }));
    assert!(!states.lobbies[1].lobby.members[1].speaking);

    states.on_event(LobbyEvent::Message(MessageEvent {
        lobby_id: Snowflake(2),
        sender_id: Snowflake(2),
        data: LobbyMessage::text("that makes me very sad".to_owned()),
    }));
    assert_eq!(states.lobbies[1].messages, vec![LobbyMessage::Text("that makes me very sad".to_owned())]);

    let mut changed = lobby(2);
    changed.capacity = 4;
    changed.locked = true;
    changed.owner_id = Snowflake(2);
    changed.kind = LobbyKind::Public;
    changed.members = Vec::new();
    changed.secret = "other".to_owned();
    changed.metadata.insert("crab".to_owned(), "1".to_owned());
    states.on_event(LobbyEvent::Update(changed));
    let l = &states.lobbies[1].lobby;
    assert_eq!((l.capacity, l.locked, l.owner_id, l.kind), (4, true, Snowflake(2), LobbyKind::Public));
    assert_eq!(l.metadata.get("crab"), Some("1".to_owned()));
    assert_eq!(l.members.len(), 2);
    assert_eq!(l.secret, "sekret");

    states.on_event(LobbyEvent::MemberDisconnect(MemberEvent {
        lobby_id: Snowflake(2),
        member: member(1, "one"),
    }));
    assert_eq!(states.lobbies[1].lobby.members.len(), 1);
    assert_eq!(states.lobbies[1].lobby.members[0].user.id, Snowflake(2));

    // events for lobbies and members that are not there change nothing
    let before = states.clone();
    states.on_event(LobbyEvent::Delete { id: Snowflake(9) });
    states.on_event(LobbyEvent::SpeakingStart(SpeakingEvent { lobby_id: Snowflake(2), user_id: Snowflake(9) }));
    states.on_event(LobbyEvent::MemberDisconnect(MemberEvent { lobby_id: Snowflake(9), member: member(1, "x") }));
    states.on_event(LobbyEvent::Update(lobby(9)));
    assert_eq!(states, before);

    // the last lobby takes the place of the deleted one
    states.on_event(LobbyEvent::Delete { id: Snowflake(1) });
    assert_eq!(states.lobbies.len(), 2);
    assert_eq!(states.lobbies[0].lobby.id, Snowflake(3));
    assert_eq!(states.lobbies[1].lobby.id, Snowflake(2));
}
