use discord_sdk::error::{DiscordApiErr, DiscordErr, Error};
use discord_sdk::handler::{
    classify, deserialize, deserialize_opt, disconnected, expand_subscriptions, finish_command,
    finish_event, handle_msg, on_io_msg, process_frame, raw_from_members, read_error_payload,
    read_raw, subscribe_frames, DiscordMsg, Msg, Parsed, RawMsg,
};
use discord_sdk::io::{decode_message, IoMsg, OpCode};
use discord_sdk::proto::{Command, CommandKind, Event, EventKind, Rpc};
use discord_sdk::types::ErrorPayload;
use discord_sdk::{Discord, State, Subscriptions};

fn frames_of(mut bytes: &[u8]) -> Vec<Vec<u8>> {
    let mut frames = Vec::new();
    while !bytes.is_empty() {
        let (op, body, used) = decode_message(bytes).unwrap().unwrap();
        assert_eq!(op, OpCode::Frame);
        frames.push(body);
        bytes = &bytes[used..];
    }
    frames
}

#[test]
fn rpc_body_is_exact() {
    let rpc = Rpc {
        cmd: CommandKind::SetActivity,
        nonce: 2,
        evt: None,
        args: Some(br#"{"pid":9999}"#.to_vec()),
    };
    assert_eq!(rpc.body(), br#"{"cmd":"SET_ACTIVITY","nonce":"2","args":{"pid":9999}}"#.to_vec());
    let rpc = Rpc {
        cmd: CommandKind::Subscribe,
        nonce: 1152921504606846977,
        evt: Some(EventKind::ActivityJoin),
        args: None,
    };
    assert_eq!(
        rpc.body(),
        br#"{"cmd":"SUBSCRIBE","nonce":"1152921504606846977","evt":"ACTIVITY_JOIN"}"#.to_vec()
    );
}

#[test]
fn kinds_go_by_their_wire_names() {
    assert_eq!(CommandKind::SetOverlayVisibility.name(), "SET_OVERLAY_LOCKED");
    assert_eq!(CommandKind::from_name("SET_OVERLAY_LOCKED"), Some(CommandKind::SetOverlayVisibility));
    assert_eq!(CommandKind::from_name("DISCONNECT_FROM_LOBBY_VOICE"), Some(CommandKind::DisconnectFromLobbyVoice));
    assert_eq!(CommandKind::from_name("set_activity"), None);
    assert_eq!(EventKind::from_name("READY"), Some(EventKind::Ready));
    assert_eq!(EventKind::SpeakingStop.name(), "SPEAKING_STOP");
    assert_eq!(EventKind::from_name("NOPE"), None);
}

#[test]
fn nonces_rise_by_one() {
    let mut state: State<&str> = State::new();
    assert_eq!(state.next_nonce(), 1);
    let n1 = state.register(CommandKind::SetActivity, "a").unwrap();
    let n2 = state.register(CommandKind::CreateLobby, "b").unwrap();
    let n3 = state.register(CommandKind::SetActivity, "c").unwrap();
    assert_eq!((n1, n2, n3), (1, 2, 3));
    assert!(n1 < n2 && n2 < n3);
    assert_eq!(state.pending_len(), 3);
    // taking a request out does not bring its nonce back
    assert_eq!(state.pop_nonce(2).unwrap().tx, "b");
    assert_eq!(state.register(CommandKind::SetActivity, "d").unwrap(), 4);
}

#[test]
fn responses_answer_the_request_with_their_nonce() {
    let mut state: State<u8> = State::new();
    state.register(CommandKind::SetActivity, 10).unwrap();
    state.register(CommandKind::CreateLobby, 20).unwrap();
    state.register(CommandKind::DeleteLobby, 30).unwrap();
    // out of order: the second request is answered first
    let msg = finish_command(CommandKind::CreateLobby, 2, Ok(Command::DeleteLobby));
    let out = handle_msg(&mut state, msg);
    assert!(!out.subscribe);
    assert!(out.user.is_none());
    let (tx, answer) = out.reply.unwrap();
    assert_eq!(tx, 20);
    // the kind in the frame decides, and it matched what was waited for
    assert_eq!(answer.unwrap(), Command::DeleteLobby);
    assert_eq!(state.pending_len(), 2);
    let msg = finish_command(CommandKind::SetActivity, 1, Ok(Command::SetActivity(None)));
    let out = handle_msg(&mut state, msg);
    assert_eq!(out.reply.unwrap().0, 10);
    assert_eq!(state.pending_len(), 1);
    // nobody waits for nonce 9
    let msg = finish_command(CommandKind::SetActivity, 9, Ok(Command::SetActivity(None)));
    let out = handle_msg(&mut state, msg);
    assert!(out.reply.is_none() && out.user.is_none());
    assert_eq!(state.pending_len(), 1);
}

#[test]
fn mismatched_response_is_detected() {
    let mut state: State<u8> = State::new();
    state.register(CommandKind::SetActivity, 10).unwrap();
    let msg = finish_command(CommandKind::CreateLobby, 1, Ok(Command::UpdateLobby));
    let out = handle_msg(&mut state, msg);
    let (tx, answer) = out.reply.unwrap();
    assert_eq!(tx, 10);
    match answer {
        Err(Error::Discord(DiscordErr::MismatchedResponse { expected, actual, nonce })) => {
            assert_eq!(expected, CommandKind::SetActivity);
            assert_eq!(actual, CommandKind::CreateLobby);
            assert_eq!(nonce, 1);
        }
        other => panic!("mismatch expected, got {:?}", other),
    }
    assert_eq!(state.pending_len(), 0);
}

#[test]
fn subscription_acknowledgements_are_dropped() {
    let mut state: State<u8> = State::new();
    state.register(CommandKind::SetActivity, 10).unwrap();
    let msg = finish_command(
        CommandKind::Subscribe,
        1,
        Ok(Command::Subscribe { evt: EventKind::ActivityJoin }),
    );
    let out = handle_msg(&mut state, msg);
    assert!(out.reply.is_none() && out.user.is_none() && !out.subscribe);
    assert_eq!(state.pending_len(), 1);
}

#[test]
fn errors_go_to_the_request_or_to_the_user() {
    let mut state: State<u8> = State::new();
    state.register(CommandKind::SetActivity, 10).unwrap();
    let out = handle_msg(&mut state, Msg::Error { nonce: Some(1), error: Error::TimedOut });
    assert!(out.user.is_none());
    let (tx, answer) = out.reply.unwrap();
    assert_eq!(tx, 10);
    assert!(matches!(answer, Err(Error::TimedOut)));
    assert_eq!(state.pending_len(), 0);
    let out = handle_msg(&mut state, Msg::Error { nonce: Some(1), error: Error::TimedOut });
    assert!(out.reply.is_none());
    assert!(matches!(out.user, Some(DiscordMsg::Error(Error::TimedOut))));
    let out = handle_msg(&mut state, Msg::Error { nonce: None, error: Error::CorruptConnection });
    assert!(matches!(out.user, Some(DiscordMsg::Error(Error::CorruptConnection))));
}

#[test]
fn events_go_to_the_user_and_ready_subscribes() {
    let mut state: State<u8> = State::new();
    state.register(CommandKind::SetActivity, 10).unwrap();
    let event = Event::LobbyDelete { id: discord_sdk::Snowflake(5) };
    let out = handle_msg(&mut state, finish_event(None, Ok(event)));
    assert!(!out.subscribe);
    assert!(matches!(out.user, Some(DiscordMsg::Event(Event::LobbyDelete { .. }))));
    assert_eq!(state.pending_len(), 1);
    let msg = finish_event(Some(3), Err("bad payload".to_owned()));
    assert!(matches!(msg, Msg::Error { nonce: Some(3), error: Error::Json(ref m) } if m == "bad payload"));
    let msg = finish_command(CommandKind::SetActivity, 3, Err("bad".to_owned()));
    assert!(matches!(msg, Msg::Error { nonce: Some(3), error: Error::Json(ref m) } if m == "bad"));
}

#[test]
fn disconnects_reach_the_user_and_leave_requests_waiting() {
    match on_io_msg(IoMsg::Disconnected(Error::NoConnection)) {
        Ok(DiscordMsg::Event(Event::Disconnected { reason })) => {
            assert!(matches!(reason, Error::NoConnection))
        }
        other => panic!("disconnect expected, got {:?}", other),
    }
    assert_eq!(on_io_msg(IoMsg::Frame(vec![1, 2])).unwrap_err(), vec![1, 2]);
    assert!(matches!(
        disconnected(Error::Close("Too many".to_owned())),
        DiscordMsg::Event(Event::Disconnected { reason: Error::Close(ref m) }) if m == "Too many"
    ));
}

#[test]
fn heads_of_frames_are_read() {
    let raw = read_raw(br#"{"cmd":"SET_ACTIVITY","data":{},"evt":null,"nonce":"17"}"#).unwrap();
    assert_eq!(raw, RawMsg { cmd: Some(CommandKind::SetActivity), evt: None, nonce: Some(17) });
    let raw = read_raw(br#"{"cmd":"DISPATCH","evt":"READY","data":{},"nonce":null}"#).unwrap();
    assert_eq!(
        raw,
        RawMsg { cmd: Some(CommandKind::Dispatch), evt: Some(EventKind::Ready), nonce: None }
    );
    assert!(matches!(read_raw(b"{broken"), Err(Error::Json(_))));
    assert!(matches!(read_raw(br#"{"cmd":"WHAT"}"#), Err(Error::InvalidField("cmd"))));
    assert!(matches!(read_raw(br#"{"cmd":7}"#), Err(Error::InvalidField("cmd"))));
    assert!(matches!(read_raw(br#"{"evt":"WHAT"}"#), Err(Error::InvalidField("evt"))));
    assert!(matches!(read_raw(br#"{"nonce":"x1"}"#), Err(Error::InvalidField("nonce"))));
    assert!(matches!(read_raw(br#"{"nonce":12}"#), Err(Error::InvalidField("nonce"))));
    assert!(matches!(
        raw_from_members(None, Some("ERROR".to_owned()), Some("3".to_owned())),
        Ok(RawMsg { cmd: None, evt: Some(EventKind::Error), nonce: Some(3) })
    ));
}

#[test]
fn nonces_are_decimal_strings() {
    assert_eq!(deserialize("0").unwrap(), 0);
    assert_eq!(deserialize("18446744073709551615").unwrap(), u64::MAX);
    assert_eq!(deserialize("+7").unwrap(), 7);
    assert_eq!(deserialize("007").unwrap(), 7);
    assert!(matches!(deserialize("18446744073709551616"), Err(Error::InvalidField("nonce"))));
    assert!(matches!(deserialize(""), Err(Error::InvalidField("nonce"))));
    assert!(matches!(deserialize("-1"), Err(Error::InvalidField("nonce"))));
    assert!(matches!(deserialize(" 1"), Err(Error::InvalidField("nonce"))));
    assert_eq!(deserialize_opt(None).unwrap(), None);
    assert_eq!(deserialize_opt(Some("12")).unwrap(), Some(12));
    assert!(deserialize_opt(Some("1x")).is_err());
}

#[test]
fn error_payloads_are_read() {
    let p = read_error_payload(br#"{"evt":"ERROR","data":{"code":4000,"message":"bad"}}"#).unwrap();
    assert_eq!(p, Some(ErrorPayload { code: Some(4000), message: Some("bad".to_owned()) }));
    assert_eq!(read_error_payload(br#"{"evt":"ERROR"}"#).unwrap(), None);
    assert_eq!(read_error_payload(br#"{"data":null}"#).unwrap(), None);
    assert_eq!(
        read_error_payload(br#"{"data":{}}"#).unwrap(),
        Some(ErrorPayload { code: None, message: None })
    );
    assert!(matches!(
        read_error_payload(br#"{"data":{"code":-1}}"#),
        Err(Error::InvalidField("code"))
    ));
    assert!(matches!(
        read_error_payload(br#"{"data":{"code":4294967296}}"#),
        Err(Error::InvalidField("code"))
    ));
    assert!(matches!(
        read_error_payload(br#"{"data":{"message":[]}}"#),
        Err(Error::InvalidField("message"))
    ));
    // escapes in the message are resolved
    let p = read_error_payload(br#"{"data":{"message":"a\"b\u0041"}}"#).unwrap().unwrap();
    assert_eq!(p.message, Some("a\"bA".to_owned()));
}

#[test]
fn error_frame_fails_the_request() {
    let frame = br#"{"cmd":"DISPATCH","evt":"ERROR","data":{"code":4000,"message":"bad"},"nonce":"1"}"#;
    let msg = match process_frame(frame) {
        Parsed::Done(msg) => msg,
        other => panic!("error expected, got {:?}", other),
    };
    let mut state: State<u8> = State::new();
    state.register(CommandKind::SetActivity, 10).unwrap();
    let out = handle_msg(&mut state, msg);
    let (tx, answer) = out.reply.unwrap();
    assert_eq!(tx, 10);
    match answer {
        Err(Error::Discord(DiscordErr::Api(DiscordApiErr::InvalidCommand { reason }))) => {
            assert_eq!(reason, "bad")
        }
        other => panic!("invalid command expected, got {:?}", other),
    }
    assert_eq!(state.pending_len(), 0);
}

#[test]
fn frames_are_classified() {
    assert!(matches!(
        process_frame(br#"{"cmd":"DISPATCH","evt":"READY","data":{"v":1},"nonce":null}"#),
        Parsed::Event { event: EventKind::Ready, tag: None }
    ));
    assert!(matches!(
        process_frame(br#"{"cmd":"SET_ACTIVITY","data":{},"nonce":"1"}"#),
        Parsed::Command { kind: CommandKind::SetActivity, nonce: 1 }
    ));
    assert!(matches!(
        process_frame(br#"{"cmd":"SUBSCRIBE","data":{"evt":"ACTIVITY_JOIN"},"nonce":"1152921504606846977"}"#),
        Parsed::Command { kind: CommandKind::Subscribe, nonce: 1152921504606846977 }
    ));
    assert!(matches!(
        process_frame(b"garbage"),
        Parsed::Done(Msg::Error { nonce: None, error: Error::Json(_) })
    ));
    assert!(matches!(
        process_frame(br#"{"data":{},"nonce":"4"}"#),
        Parsed::Done(Msg::Error { nonce: Some(4), error: Error::MissingField("cmd") })
    ));
    assert!(matches!(
        process_frame(br#"{"cmd":"SET_ACTIVITY"}"#),
        Parsed::Done(Msg::Error { nonce: None, error: Error::MissingField("nonce") })
    ));
    // an error event without data
    assert!(matches!(
        process_frame(br#"{"cmd":"DISPATCH","evt":"ERROR"}"#),
        Parsed::Done(Msg::Error {
            nonce: None,
            error: Error::Discord(DiscordErr::Api(DiscordApiErr::NoErrorData))
        })
    ));
    // an error event whose data cannot be read
    match classify(
        Ok(RawMsg { cmd: None, evt: Some(EventKind::Error), nonce: Some(2) }),
        Err(Error::InvalidField("code")),
    ) {
        Parsed::Done(Msg::Error {
            nonce: Some(2),
            error: Error::Discord(DiscordErr::Api(DiscordApiErr::Generic { code: None, message })),
        }) => assert_eq!(message, Some("failed to deserialize error".to_owned())),
        other => panic!("generic error expected, got {:?}", other),
    }
}

#[test]
fn send_rpc_queues_the_frame_and_waits() {
    let mut discord: Discord<u8> = Discord::new();
    let nonce = discord.send_rpc(CommandKind::SetActivity, br#"{"pid":9999}"#, 1).unwrap();
    assert_eq!(nonce, 1);
    let nonce = discord.send_rpc(CommandKind::GetRelationships, b"null", 2).unwrap();
    assert_eq!(nonce, 2);
    assert_eq!(discord.state.pending_len(), 2);
    let frame = discord.send_queue.try_recv().unwrap().unwrap();
    let (op, body, used) = decode_message(&frame).unwrap().unwrap();
    assert_eq!(op, OpCode::Frame);
    assert_eq!(used, frame.len());
    assert_eq!(body, br#"{"cmd":"SET_ACTIVITY","nonce":"1","args":{"pid":9999}}"#.to_vec());
    // the response is matched with the request
    let msg = match process_frame(br#"{"cmd":"SET_ACTIVITY","data":{"state":"hi"},"nonce":"1"}"#) {
        Parsed::Command { kind, nonce } => finish_command(kind, nonce, Ok(Command::SetActivity(None))),
        other => panic!("command expected, got {:?}", other),
    };
    let out = handle_msg(&mut discord.state, msg);
    assert_eq!(out.reply.unwrap().0, 1);
    assert_eq!(discord.state.pending_len(), 1);
    // after a disconnect nothing more can be sent
    discord.disconnect().unwrap();
    while let Some(msg) = discord.send_queue.try_recv() {
        if msg.is_none() {
            break;
        }
    }
    assert!(matches!(
        discord.send_rpc(CommandKind::SetActivity, b"{}", 3),
        Err(Error::NoConnection)
    ));
}

#[test]
fn subscribe_expansion() {
    let subs = Subscriptions::from_bits_truncate(discord_sdk::ACTIVITY | discord_sdk::USER);
    assert_eq!(
        expand_subscriptions(subs),
        vec![
            EventKind::ActivityInvite,
            EventKind::ActivityJoin,
            EventKind::ActivityJoinRequest,
            EventKind::ActivitySpectate,
            EventKind::CurrentUserUpdate,
        ]
    );
    let frames = frames_of(&subscribe_frames(subs, 4242));
    assert_eq!(frames.len(), 5);
    let expected = [
        "ACTIVITY_INVITE",
        "ACTIVITY_JOIN",
        "ACTIVITY_JOIN_REQUEST",
        "ACTIVITY_SPECTATE",
        "CURRENT_USER_UPDATE",
    ];
    for (i, frame) in frames.iter().enumerate() {
        let body = format!(
            r#"{{"cmd":"SUBSCRIBE","nonce":"{}","evt":"{}"}}"#,
            0x1000_0000_0000_0000u64 + i as u64 + 1,
            expected[i]
        );
        assert_eq!(frame, body.as_bytes());
    }
}

#[test]
fn overlay_subscription_carries_the_pid() {
    let subs = Subscriptions::from_bits_truncate(discord_sdk::OVERLAY);
    let frames = frames_of(&subscribe_frames(subs, 4242));
    assert_eq!(frames.len(), 1);
    assert_eq!(
        frames[0],
        br#"{"cmd":"SUBSCRIBE","nonce":"1152921504606846977","evt":"OVERLAY_UPDATE","args":{"pid":4242}}"#.to_vec()
    );
    assert_eq!(expand_subscriptions(Subscriptions::all()).len(), 16);
    assert!(subscribe_frames(Subscriptions::empty(), 1).is_empty());

    // with every class the overlay comes last, and it alone has arguments
    let frames = frames_of(&subscribe_frames(Subscriptions::all(), 1));
    assert_eq!(frames.len(), 16);
    assert_eq!(
        frames[13],
        br#"{"cmd":"SUBSCRIBE","nonce":"1152921504606846990","evt":"RELATIONSHIP_UPDATE"}"#.to_vec()
    );
    assert_eq!(
        frames[15],
        br#"{"cmd":"SUBSCRIBE","nonce":"1152921504606846992","evt":"OVERLAY_UPDATE","args":{"pid":1}}"#.to_vec()
    );
    for frame in &frames[..15] {
        assert!(!frame.windows(6).any(|w| w == b"\"args\""));
    }
}

#[test]
fn subscriptions_are_bits() {
    let subs = Subscriptions::from_bits_truncate(0x15);
    assert!(subs.activity && subs.user && subs.relationships);
    assert!(!subs.lobby && !subs.overlay && !subs.voice);
    assert_eq!(subs.bits(), 0x15);
    assert_eq!(Subscriptions::all().bits(), discord_sdk::ALL);
    assert_eq!(Subscriptions::empty().bits(), 0);
    assert_eq!(Subscriptions::from_bits_truncate(0xffff_ffc2).bits(), discord_sdk::LOBBY);
    let both = subs.union(Subscriptions::from_bits_truncate(discord_sdk::VOICE));
    assert_eq!(both.bits(), 0x35);
    assert!(both.contains(subs));
    assert!(!subs.contains(both));
}

#[test]
fn deserializes() {
    let event = br#"{"cmd":"DISPATCH","data":{"type":1,"user":{"id":"682969165652689005","username":"jake.shadle","discriminator":"7557","avatar":"15bbd75c8ee6610d045852e7ea998a35","bot":false,"flags":0,"premium_type":0},"presence":{"status":"online","activity":{"created_at":"1632819046295","id":"e92ece5eb4ce629","name":"Ark [dev debug]","timestamps":{"start":"1632819046199"},"type":0}}},"evt":"RELATIONSHIP_UPDATE","nonce":null}"#;

    let raw = read_raw(event).expect("failed to deserialize");
    assert_eq!(
        raw,
        RawMsg {
            cmd: Some(CommandKind::Dispatch),
            evt: Some(EventKind::RelationshipUpdate),
            nonce: None
        }
    );
    assert!(matches!(
        process_frame(event),
        Parsed::Event { event: EventKind::RelationshipUpdate, tag: None }
    ));
}

#[test]
fn an_earlier_request_has_the_smaller_nonce() {
    let mut discord: Discord<u8> = Discord::new();
    let first = discord.send_rpc(CommandKind::SetActivity, b"{}", 1).unwrap();
    // whatever happens in between gives out no nonce
    let answered = handle_msg(
        &mut discord.state,
        finish_command(CommandKind::SetActivity, first, Ok(Command::SetActivity(None))),
    );
    assert!(matches!(answered.reply, Some((1, Ok(Command::SetActivity(None))))));
    handle_msg(&mut discord.state, Msg::Error { nonce: Some(77), error: Error::TimedOut });
    let second = discord.send_rpc(CommandKind::GetRelationships, b"{}", 2).unwrap();
    let third = discord.send_rpc(CommandKind::GetRelationships, b"{}", 3).unwrap();
    assert_eq!((first, second, third), (1, 2, 3));
    assert_eq!(discord.state.pending_len(), 2);
}

#[test]
fn a_full_queue_takes_no_request_and_gives_out_no_nonce() {
    let mut discord: Discord<u8> = Discord::new();
    for i in 0..100u64 {
        assert_eq!(discord.send_rpc(CommandKind::GetRelationships, b"null", 0).unwrap(), i + 1);
    }
    assert!(discord.send_queue.is_full());
    assert!(matches!(
        discord.send_rpc(CommandKind::GetRelationships, b"null", 0),
        Err(Error::ChannelFull)
    ));
    assert!(matches!(discord.disconnect(), Err(Error::ChannelFull)));
    assert_eq!(discord.state.pending_len(), 100);
    assert_eq!(discord.state.next_nonce(), 101);
    // once there is room the request goes out with the next nonce
    discord.send_queue.try_recv().unwrap();
    assert!(!discord.send_queue.is_full());
    assert_eq!(discord.send_rpc(CommandKind::GetRelationships, b"null", 0).unwrap(), 101);
}
