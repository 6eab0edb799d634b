use discord_sdk::activity::{
    truncate, ActivityActionKind, ActivityKind, Assets, JoinRequestReply, Party,
};
use discord_sdk::handler::wheel::{Recv, Wheel};
use discord_sdk::handler::DiscordMsg;
use discord_sdk::proto::{Event, EventKind};
use discord_sdk::error::Error;
use discord_sdk::overlay::{invite_code, InviteAction, OverlayPidArgs, OverlayToggle, Visibility};
use discord_sdk::registration::{create_command, BinArg, LaunchCommand};
use discord_sdk::relations::events::RelationshipEvent;
use discord_sdk::relations::state::Relationships;
use discord_sdk::relations::{
    RelationKind, RelationStatus, Relationship, RelationshipActivity,
    RelationshipActivityTimestamps, RelationshipPresence,
};
use discord_sdk::text::{
    blank, find_char, limited, starts_with, strip_prefix, text_eq, truncate_bytes, white_space,
};
use discord_sdk::user::User;
use discord_sdk::util::{decimal_bytes, parse_u64, push_signed_decimal};
use discord_sdk::voice::events::{VoiceEvent, VoiceSettingsUpdateEvent};
use discord_sdk::voice::state::VoiceState;
use discord_sdk::voice::{clamp_volume, InputMode};
use discord_sdk::{DiscordApp, Snowflake};

#[test]
fn invite_codes_are_taken_out_of_links() {
    assert_eq!(invite_code("https://discord.gg/abc123"), "abc123");
    assert_eq!(invite_code("discord.gg/abc123"), "abc123");
    assert_eq!(invite_code("https://discordapp.com/invite/abc123"), "abc123");
    assert_eq!(invite_code("discordapp.com/invite/abc123"), "abc123");
    assert_eq!(invite_code("abc123"), "abc123");
    assert_eq!(invite_code("https://example.com/abc"), "example.com/abc");
    assert_eq!(invite_code("http://discord.gg/abc"), "http://discord.gg/abc");
    assert_eq!(invite_code("discord.gg/discordapp.com/invite/x"), "discordapp.com/invite/x");
}

#[test]
fn overlay_values_go_by_their_wire_form() {
    assert!(Visibility::Hidden.to_locked());
    assert!(!Visibility::Visible.to_locked());
    assert_eq!(Visibility::from_locked(true), Visibility::Hidden);
    assert_eq!(Visibility::from_locked(false), Visibility::Visible);
    assert_eq!(InviteAction::Join.code(), 1);
    assert_eq!(InviteAction::Spectate.code(), 2);
    assert_eq!(OverlayPidArgs::new(7).pid, 7);
    assert_eq!(
        OverlayToggle::new(7, Visibility::Visible),
        OverlayToggle { pid: 7, visibility: Visibility::Visible }
    );
    assert_eq!(ActivityActionKind::Spectate.code(), 2);
    assert_eq!(JoinRequestReply::from(true), JoinRequestReply::Yes);
    assert_eq!(JoinRequestReply::from(false), JoinRequestReply::No);
    assert_eq!(ActivityKind::default(), ActivityKind::Playing);
}

#[test]
fn voice_settings() {
    assert_eq!(clamp_volume(100), 100);
    assert_eq!(clamp_volume(200), 200);
    assert_eq!(clamp_volume(201), 200);
    assert_eq!(clamp_volume(255), 200);
    assert_eq!(InputMode::deserialize("VOICE_ACTIVITY", Some("x".to_owned())).unwrap(), InputMode::VoiceActivity);
    assert_eq!(
        InputMode::deserialize("PUSH_TO_TALK", Some("ctrl".to_owned())).unwrap(),
        InputMode::PushToTalk { shortcut: "ctrl".to_owned() }
    );
    assert_eq!(
        InputMode::deserialize("PUSH_TO_TALK", None).unwrap(),
        InputMode::PushToTalk { shortcut: String::new() }
    );
    assert!(matches!(InputMode::deserialize("SHOUT", None), Err(Error::InvalidField("type"))));
    assert_eq!(InputMode::VoiceActivity.kind(), "VOICE_ACTIVITY");
    assert_eq!(InputMode::VoiceActivity.wire_shortcut(), "_");
    let ptt = InputMode::PushToTalk { shortcut: "ctrl".to_owned() };
    assert_eq!(ptt.kind(), "PUSH_TO_TALK");
    assert_eq!(ptt.wire_shortcut(), "ctrl");

    let mut state = VoiceState::new();
    assert!(!state.state.self_mute);
    let refresh = VoiceSettingsUpdateEvent {
        input_mode: Some(ptt),
        local_mute: vec![Snowflake(3)],
        local_volumes: vec![(Snowflake(4), 150)],
        self_mute: true,
        self_deaf: false,
    };
    state.on_event(VoiceEvent::Refresh(refresh.clone()));
    assert_eq!(state.state, refresh);
}

fn relation(id: u64, kind: RelationKind) -> Relationship {
    Relationship {
        kind,
        user: User {
            id: Snowflake(id),
            username: format!("user{}", id),
            discriminator: Some(52),
            avatar: None,
            is_bot: false,
        },
        presence: RelationshipPresence { status: RelationStatus::Online, activity: None },
    }
}

#[test]
fn relationships_are_kept_one_for_each_user() {
    let mut rels = Relationships::new(vec![
        relation(1, RelationKind::Friend),
        relation(2, RelationKind::Blocked),
    ]);
    rels.on_event(RelationshipEvent::Update(relation(2, RelationKind::Friend)));
    assert_eq!(rels.relationships.len(), 2);
    assert_eq!(rels.relationships[1].kind, RelationKind::Friend);
    rels.on_event(RelationshipEvent::Update(relation(3, RelationKind::Implicit)));
    assert_eq!(rels.relationships.len(), 3);
    assert_eq!(rels.relationships[2].user.id, Snowflake(3));
    assert_eq!(rels.find(Snowflake(3)), Some(2));
    assert_eq!(rels.find(Snowflake(9)), None);
    assert_eq!(RelationKind::from_code(1), Some(RelationKind::Friend));
    assert_eq!(RelationKind::from_code(0), Some(RelationKind::NoRelation));
    assert_eq!(RelationKind::from_code(6), None);
    assert_eq!(RelationKind::PendingOutgoing.code(), 4);
}

#[test]
fn launch_commands() {
    let cmd = create_command(
        "/usr/bin/game".to_owned(),
        vec![BinArg::Arg("--join".to_owned()), BinArg::Url, BinArg::from("two words".to_owned())],
        "%u",
    );
    assert_eq!(cmd, r#""/usr/bin/game" --join %u "two words""#);
    assert_eq!(create_command("g".to_owned(), Vec::new(), "%u"), r#""g""#);
    let ok = LaunchCommand::current_exe("/g".to_owned(), vec![BinArg::Url, BinArg::Arg("x".to_owned())]);
    assert_eq!(
        ok.unwrap(),
        LaunchCommand::Bin { path: "/g".to_owned(), args: vec![BinArg::Url, BinArg::Arg("x".to_owned())] }
    );
    assert!(matches!(
        LaunchCommand::current_exe("/g".to_owned(), vec![BinArg::Url, BinArg::Arg("x".to_owned()), BinArg::Url]),
        Err(Error::TooManyUrls)
    ));
    assert_eq!(DiscordApp::from(310270644849737729).id(), 310270644849737729);
}

#[test]
fn texts_are_compared_and_cut() {
    assert!(text_eq("héllo", "héllo"));
    assert!(!text_eq("hello", "hellO"));
    assert!(!text_eq("hello", "hell"));
    assert!(starts_with("https://x", "https://"));
    assert!(starts_with("abc", ""));
    assert!(!starts_with("http", "https://"));
    assert_eq!(strip_prefix("a_123", "a_"), Some("123"));
    assert_eq!(strip_prefix("123", "a_"), None);
    assert_eq!(find_char("é:b:c", ':'), Some(1));
    assert_eq!(find_char("abc", ':'), None);
    assert_eq!(truncate_bytes("héllo", 2), "h");
    assert_eq!(truncate_bytes("héllo", 3), "hé");
    assert_eq!(truncate_bytes("héllo", 0), "");
    assert_eq!(truncate_bytes("héllo", 100), "héllo");
    assert!(blank(""));
    assert!(blank(" \t\n\u{a0}\u{2003}\u{3000}"));
    assert!(!blank("  x "));
    assert!(!blank("\u{200b}"));
    for c in ['\u{9}', '\u{d}', ' ', '\u{85}', '\u{1680}', '\u{2028}', '\u{205f}'] {
        assert!(white_space(c));
        assert!(c.is_whitespace());
    }
    for c in ['a', '\u{8}', '\u{e}', '\u{200b}', '\u{180e}', '\u{feff}'] {
        assert!(!white_space(c));
        assert!(!c.is_whitespace());
    }
    assert_eq!(limited("  abc  ", 128), Some("  abc  ".to_owned()));
    assert_eq!(limited("   ", 128), None);
    assert_eq!(limited("ab    ", 2), Some("ab".to_owned()));
    assert_eq!(limited("  ab", 2), None);
    assert_eq!(truncate(Some("x".to_owned()), "State"), Some("x".to_owned()));
    assert_eq!(truncate(None, "State"), None);
    assert_eq!(truncate(Some(String::new()), "State"), None);
}

#[test]
fn numbers_are_decimal() {
    assert_eq!(decimal_bytes(0), b"0".to_vec());
    assert_eq!(decimal_bytes(u64::MAX), b"18446744073709551615".to_vec());
    assert_eq!(parse_u64(b"18446744073709551615"), Some(u64::MAX));
    assert_eq!(parse_u64(b"18446744073709551616"), None);
    assert_eq!(parse_u64(b"+"), None);
    assert_eq!(parse_u64(b"12a"), None);
    for n in [0u64, 9, 10, 99, 100, 12345678901234567890] {
        assert_eq!(parse_u64(&decimal_bytes(n)), Some(n));
        assert_eq!(decimal_bytes(n), n.to_string().into_bytes());
    }
    let mut out = b"x".to_vec();
    push_signed_decimal(i64::MIN, &mut out);
    push_signed_decimal(7, &mut out);
    assert_eq!(out, b"x-92233720368547758087".to_vec());
}

#[test]
fn relations_serde() {
    let relationship = Relationship {
        kind: RelationKind::Friend,
        user: User {
            id: Snowflake(123414231424),
            username: "name".to_owned(),
            discriminator: Some(52),
            avatar: Some([
                0xf6, 0x2f, 0x2a, 0x75, 0x5c, 0xb1, 0x8c, 0x94, 0xdc, 0x5c, 0xda, 0x94, 0x44, 0x10,
                0x24, 0xf1,
            ]),
            is_bot: false,
        },
        presence: RelationshipPresence {
            status: RelationStatus::DoNotDisturb,
            activity: Some(RelationshipActivity {
                session_id: Some("6bb1ddaea510750e905615286709d632".to_owned()),
                created_at: Some(1628629162447),
                assets: Some(Assets {
                    large_image: Some(
                        "spotify:ab67616d0000b273d1e326d10706f3d8562d77f8".to_owned(),
                    ),
                    large_text: Some("To the Moon".to_owned()),
                    small_image: None,
                    small_text: None,
                }),
                details: Some("To the Moon".to_owned()),
                instance: false,
                kind: ActivityKind::Listening,
                party: Some(Party {
                    id: "spotify: 216453179196440576".to_owned(),
                    size: None,
                    privacy: None,
                }),
                secrets: None,
                state: Some("Rob Curly".to_owned()),
                timestamps: Some(RelationshipActivityTimestamps {
                    start: Some(1628629161811),
                    end: Some(1628629327961),
                }),
            }),
        },
    };

    // the event reaches the relationships spoke as it is
    let eve = Event::RelationshipUpdate(relationship.clone());
    assert_eq!(eve.kind(), Some(EventKind::RelationshipUpdate));
    let mut wheel = Wheel::new();
    let mut spoke = wheel.relationships();
    assert!(wheel.on_message(DiscordMsg::Event(eve)).is_none());
    match wheel.relations.recv(&mut spoke.0) {
        Recv::Value(RelationshipEvent::Update(got)) => assert_eq!(*got, relationship),
        other => panic!("an update expected, got {:?}", other),
    }

    // and the state keeps it under its user
    let mut rels = Relationships::new(vec![relation(123414231424, RelationKind::Blocked)]);
    rels.on_event(RelationshipEvent::Update(relationship.clone()));
    assert_eq!(rels.relationships, vec![relationship]);
    assert_eq!(rels.relationships[0].user.display_name(), "name#52");
}

#[test]
fn snowflakes_are_decimal_on_the_wire() {
    assert_eq!(Snowflake::from_text("682969165652689005"), Some(Snowflake(682969165652689005)));
    assert_eq!(Snowflake::from_text("+5"), Some(Snowflake(5)));
    assert_eq!(Snowflake::from_text("18446744073709551615"), Some(Snowflake(u64::MAX)));
    assert_eq!(Snowflake::from_text("18446744073709551616"), None);
    assert_eq!(Snowflake::from_text(""), None);
    assert_eq!(Snowflake::from_text("-5"), None);
    assert_eq!(Snowflake::from_text("12a"), None);
    assert_eq!(Snowflake::from_signed(0), Some(Snowflake(0)));
    assert_eq!(Snowflake::from_signed(i64::MAX), Some(Snowflake(9223372036854775807)));
    assert_eq!(Snowflake::from_signed(-1), None);
    assert_eq!(Snowflake(0).to_text(), "0");
    assert_eq!(Snowflake(682969165652689005).to_text(), "682969165652689005");
    assert_eq!(Snowflake(u64::MAX).to_text(), "18446744073709551615");
}
