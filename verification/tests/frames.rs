use discord_sdk::error::Error;
use discord_sdk::io::{
    decode_message, dispatch_frame, make_handshake_body, make_message, parse_close_frame,
    parse_frame_header, runtime_dir, serialize_message, socket_candidates,
    AfterSession, Backoff, CloseFrame, Connection, Dispatch, FrameReader, OpCode, Phase, ReadStep,
    SendQueue, Session,
};

#[test]
fn header_is_little_endian() {
    let mut bytes = vec![1u8, 0, 0, 0, 5, 0, 0, 0];
    bytes.extend_from_slice(b"hello");
    let (op, body, used) = decode_message(&bytes).unwrap().unwrap();
    assert_eq!(op, OpCode::Frame);
    assert_eq!(body, b"hello".to_vec());
    assert_eq!(used, 13);
    assert_eq!(parse_frame_header([1, 0, 0, 0, 5, 0, 0, 0]).unwrap(), (OpCode::Frame, 5));
    assert_eq!(
        parse_frame_header([4, 0, 0, 0, 0x78, 0x56, 0x34, 0x12]).unwrap(),
        (OpCode::Pong, 0x12345678)
    );
}

#[test]
fn frame_round_trip() {
    for op in [OpCode::Handshake, OpCode::Frame, OpCode::Close, OpCode::Ping, OpCode::Pong] {
        for body in [&b""[..], &b"keepalive"[..], &[0u8, 255, 7][..]] {
            let msg = make_message(op, body);
            assert_eq!(msg.len(), 8 + body.len());
            let (got_op, got_body, used) = decode_message(&msg).unwrap().unwrap();
            assert_eq!(got_op, op);
            assert_eq!(got_body, body.to_vec());
            assert_eq!(used, msg.len());
        }
    }
}

#[test]
fn encode_writes_exact_bytes() {
    let msg = make_message(OpCode::Close, b"ab");
    assert_eq!(msg, vec![2, 0, 0, 0, 2, 0, 0, 0, b'a', b'b']);
    let mut buffer = vec![9u8];
    serialize_message(OpCode::Ping, &[0u8; 300], &mut buffer);
    assert_eq!(&buffer[..9], &[9, 3, 0, 0, 0, 0x2c, 0x01, 0, 0]);
    assert_eq!(buffer.len(), 1 + 8 + 300);
}

#[test]
fn unknown_opcode_is_refused() {
    for code in [5u8, 6, 200, 255] {
        let r = parse_frame_header([code, 0, 0, 0, 0, 0, 0, 0]);
        match r {
            Err(Error::UnknownVariant { kind, value }) => {
                assert_eq!(kind, "OpCode");
                assert_eq!(value, code as u32);
            }
            other => panic!("unknown variant expected, got {:?}", other),
        }
    }
    // the opcode is all four bytes, not the first one alone
    let r = parse_frame_header([1, 1, 0, 0, 0, 0, 0, 0]);
    assert!(matches!(r, Err(Error::UnknownVariant { kind: "OpCode", value: 257 })));
    let r = decode_message(&[7, 0, 0, 0, 0, 0, 0, 0]);
    assert!(matches!(r, Err(Error::UnknownVariant { kind: "OpCode", value: 7 })));
}

#[test]
fn incomplete_frames_wait() {
    assert!(matches!(decode_message(&[1, 0, 0]), Ok(None)));
    assert!(matches!(decode_message(&[1, 0, 0, 0, 5, 0, 0, 0, b'h']), Ok(None)));
}

#[test]
fn reader_assembles_frames_from_pieces() {
    let frame = make_message(OpCode::Frame, b"hello");
    let mut reader = FrameReader::new();
    assert_eq!(reader.wanted(), 8);
    let (used, r) = reader.feed(&frame[..3]);
    assert_eq!(used, 3);
    assert!(matches!(r, Ok(None)));
    assert_eq!(reader.wanted(), 5);
    let (used, r) = reader.feed(&frame[3..10]);
    assert_eq!(used, 7);
    assert!(matches!(r, Ok(None)));
    assert_eq!(reader.wanted(), 3);
    // bytes behind the end of the frame are left alone
    let mut rest = frame[10..].to_vec();
    rest.extend_from_slice(&[3, 0]);
    let (used, r) = reader.feed(&rest);
    assert_eq!(used, 3);
    assert_eq!(r.unwrap(), Some((OpCode::Frame, b"hello".to_vec())));
    assert_eq!(reader.wanted(), 8);
}

#[test]
fn reader_takes_empty_bodies_and_refuses_unknown_opcodes() {
    let mut reader = FrameReader::new();
    let (used, r) = reader.feed(&make_message(OpCode::Pong, b""));
    assert_eq!(used, 8);
    assert_eq!(r.unwrap(), Some((OpCode::Pong, Vec::new())));
    let (used, r) = reader.feed(&[9, 0, 0, 0, 1, 0, 0, 0, 42]);
    assert_eq!(used, 8);
    assert!(matches!(r, Err(Error::UnknownVariant { kind: "OpCode", value: 9 })));
    assert_eq!(reader.wanted(), 8);
}

#[test]
fn handshake_body_is_exact() {
    assert_eq!(
        make_handshake_body(310270644849737729),
        br#"{"v":1,"client_id":"310270644849737729"}"#.to_vec()
    );
    assert_eq!(make_handshake_body(-5), br#"{"v":1,"client_id":"-5"}"#.to_vec());
    let (session, frame) = Session::open(42);
    assert!(session.wants_message());
    let (op, body, _) = decode_message(&frame).unwrap().unwrap();
    assert_eq!(op, OpCode::Handshake);
    assert_eq!(body, br#"{"v":1,"client_id":"42"}"#.to_vec());
}

#[test]
fn close_frame_gives_the_reason() {
    let frame = parse_close_frame(br#"{"code":4009,"message":"Too many"}"#).unwrap();
    assert_eq!(frame, CloseFrame { code: Some(4009), message: Some("Too many".to_owned()) });
    assert!(matches!(frame.into_error(), Error::Close(m) if m == "Too many"));
    let frame = parse_close_frame(br#"{}"#).unwrap();
    assert_eq!(frame, CloseFrame { code: None, message: None });
    assert!(matches!(frame.into_error(), Error::Close(m) if m == "unknown reason"));
    assert!(matches!(parse_close_frame(b"{nope"), Err(Error::Json(_))));
    assert!(matches!(
        parse_close_frame(br#"{"code":"x"}"#),
        Err(Error::InvalidField("code"))
    ));
    assert!(matches!(
        parse_close_frame(br#"{"code":4294967296}"#),
        Err(Error::InvalidField("code"))
    ));
    assert!(matches!(
        parse_close_frame(br#"{"message":5}"#),
        Err(Error::InvalidField("message"))
    ));
}

#[test]
fn frames_are_dispatched_by_opcode() {
    match dispatch_frame(OpCode::Frame, b"{}".to_vec()) {
        Dispatch::Deliver(body) => assert_eq!(body, b"{}".to_vec()),
        other => panic!("deliver expected, got {:?}", other),
    }
    match dispatch_frame(OpCode::Ping, b"keepalive".to_vec()) {
        Dispatch::Reply(pong) => assert_eq!(pong, make_message(OpCode::Pong, b"keepalive")),
        other => panic!("reply expected, got {:?}", other),
    }
    assert!(matches!(dispatch_frame(OpCode::Pong, Vec::new()), Dispatch::Ignore));
    assert!(matches!(
        dispatch_frame(OpCode::Handshake, Vec::new()),
        Dispatch::Fail(Error::CorruptConnection)
    ));
    match dispatch_frame(OpCode::Close, br#"{"code":4009,"message":"Too many"}"#.to_vec()) {
        Dispatch::Fail(Error::Close(reason)) => assert_eq!(reason, "Too many"),
        other => panic!("close expected, got {:?}", other),
    }
    assert!(matches!(
        dispatch_frame(OpCode::Close, b"not json".to_vec()),
        Dispatch::Fail(Error::Json(_))
    ));
}

#[test]
fn session_reads_and_writes_in_pieces() {
    let (mut session, _) = Session::open(1);
    assert!(matches!(session.on_read(&[]), Err(Error::NoConnection)));
    let ping = make_message(OpCode::Ping, b"keepalive");
    assert_eq!(session.read_size(), 8);
    let (used, step) = session.on_read(&ping[..8]).unwrap();
    assert_eq!(used, 8);
    assert!(matches!(step, ReadStep::Pending));
    assert_eq!(session.read_size(), 9);
    let (used, step) = session.on_read(&ping[8..]).unwrap();
    assert_eq!(used, 9);
    match step {
        ReadStep::Frame(Dispatch::Reply(pong)) => {
            assert_eq!(pong, make_message(OpCode::Pong, b"keepalive"))
        }
        other => panic!("pong expected, got {:?}", other),
    }

    assert!(session.pending_write().is_none());
    assert!(!session.on_message(Some(b"abcdef".to_vec())));
    assert!(!session.wants_message());
    assert_eq!(session.pending_write().unwrap(), b"abcdef");
    session.on_written(4);
    assert_eq!(session.pending_write().unwrap(), b"ef");
    session.on_written(2);
    assert!(session.pending_write().is_none());
    assert!(session.wants_message());
    // an empty message leaves the write side free, the sentinel shuts down
    assert!(!session.on_message(Some(Vec::new())));
    assert!(session.wants_message());
    assert!(session.on_message(None));
}

#[test]
fn backoff_doubles_up_to_a_minute() {
    let mut backoff = Backoff::new();
    let mut delays = Vec::new();
    for _ in 0..10 {
        delays.push(backoff.next_delay());
    }
    assert_eq!(delays, vec![500, 1000, 2000, 4000, 8000, 16000, 32000, 60000, 60000, 60000]);
    backoff.reset();
    assert_eq!(backoff.next_delay(), 500);
    assert_eq!(backoff.next_delay(), 1000);
}

#[test]
fn connection_reconnects_unless_closed() {
    let mut conn = Connection::new();
    assert_eq!(conn.phase(), Phase::Connecting);
    assert_eq!(conn.on_connect_failed(), 500);
    assert_eq!(conn.on_connect_failed(), 1000);
    assert_eq!(conn.phase(), Phase::Connecting);
    conn.on_ready();
    assert_eq!(conn.phase(), Phase::Connecting);
    conn.on_connected();
    assert_eq!(conn.phase(), Phase::HandshakeSent);
    conn.on_ready();
    assert_eq!(conn.phase(), Phase::Ready);
    // a lost session is retried after the first delay
    let next = conn.on_session_end(Some(&Error::NoConnection), false);
    assert_eq!(next, AfterSession::Reconnect { delay_ms: 500 });
    assert_eq!(conn.phase(), Phase::Reconnecting);
    conn.on_connected();
    // a close by the peer is final
    let next = conn.on_session_end(Some(&Error::Close("Too many".to_owned())), false);
    assert_eq!(next, AfterSession::Exit);
    assert_eq!(conn.phase(), Phase::Closed);
    // and what is closed stays closed
    conn.on_connected();
    assert_eq!(conn.phase(), Phase::Closed);
    conn.on_ready();
    assert_eq!(conn.phase(), Phase::Closed);
    conn.on_connect_failed();
    assert_eq!(conn.phase(), Phase::Closed);
    assert_eq!(conn.on_session_end(Some(&Error::NoConnection), false), AfterSession::Exit);
    assert_eq!(conn.phase(), Phase::Closed);

    let mut conn = Connection::new();
    conn.on_connected();
    assert_eq!(conn.on_session_end(None, false), AfterSession::Exit);
    let mut conn = Connection::new();
    conn.on_connected();
    assert_eq!(conn.on_session_end(Some(&Error::CorruptConnection), true), AfterSession::Exit);
}

#[test]
fn send_queue_is_bounded_and_first_in_first_out() {
    let mut queue = SendQueue::new();
    for i in 0..100u8 {
        assert!(queue.send(Some(vec![i])).is_ok());
    }
    assert_eq!(queue.len(), 100);
    assert!(matches!(queue.send(Some(vec![0])), Err(Error::ChannelFull)));
    assert_eq!(queue.try_recv(), Some(Some(vec![0])));
    assert_eq!(queue.try_recv(), Some(Some(vec![1])));
    assert!(queue.send(None).is_ok());
    assert!(queue.send(Some(vec![200])).is_ok());
    for _ in 2..100 {
        assert!(matches!(queue.try_recv(), Some(Some(_))));
    }
    // the sentinel closes the queue: what is behind it is never handed out
    assert_eq!(queue.try_recv(), Some(None));
    assert_eq!(queue.try_recv(), None);
    assert!(matches!(queue.send(Some(vec![1])), Err(Error::NoConnection)));
}

#[test]
fn drain_empties_the_queue_and_finds_the_sentinel() {
    let mut queue = SendQueue::new();
    queue.send(Some(vec![1])).unwrap();
    queue.send(Some(vec![2])).unwrap();
    assert!(!queue.drain());
    assert_eq!(queue.len(), 0);
    queue.send(Some(vec![1])).unwrap();
    queue.send(None).unwrap();
    queue.send(Some(vec![3])).unwrap();
    assert!(queue.drain());
    assert_eq!(queue.len(), 1);
    assert!(matches!(queue.send(Some(vec![4])), Err(Error::NoConnection)));
}

#[test]
fn a_closed_queue_takes_nothing() {
    let mut queue = SendQueue::new();
    queue.send(Some(vec![1])).unwrap();
    queue.close();
    assert_eq!(queue.len(), 1);
    assert!(matches!(queue.send(Some(vec![2])), Err(Error::NoConnection)));
    assert!(matches!(queue.send(None), Err(Error::NoConnection)));
    assert!(queue.try_recv().is_none());
}

#[test]
fn a_read_asks_for_what_the_frame_lacks() {
    let (mut session, _handshake) = Session::open(1);
    assert_eq!(session.read_size(), 8);
    session.on_read(&[1, 0, 0]).unwrap();
    assert_eq!(session.read_size(), 5);
    session.on_read(&[0, 5, 0, 0, 0]).unwrap();
    assert_eq!(session.read_size(), 5);
    session.on_read(b"he").unwrap();
    assert_eq!(session.read_size(), 3);
    let (used, step) = session.on_read(b"llo").unwrap();
    assert_eq!(used, 3);
    assert!(matches!(step, ReadStep::Frame(Dispatch::Deliver(body)) if body == b"hello"));
    assert_eq!(session.read_size(), 8);
}

#[test]
fn socket_candidates_are_tried_in_order() {
    let paths = socket_candidates("/run/user/1000", false, None);
    assert_eq!(paths.len(), 10);
    assert_eq!(paths[0], "/run/user/1000/discord-ipc-0");
    assert_eq!(paths[9], "/run/user/1000/discord-ipc-9");
    let paths = socket_candidates("/ignored", true, None);
    assert_eq!(paths[3], r"\\?\pipe\discord-ipc-3");
    // a pinned instance is the only candidate
    assert_eq!(socket_candidates("/tmp", false, Some("7")), vec!["/tmp/discord-ipc-7".to_owned()]);
    assert_eq!(
        socket_candidates("/tmp", true, Some("12")),
        vec![r"\\?\pipe\discord-ipc-12".to_owned()]
    );
}

#[test]
fn runtime_dir_takes_the_first_that_is_set() {
    let s = |t: &str| Some(t.to_owned());
    assert_eq!(runtime_dir(s("/a"), s("/b"), s("/c"), s("/d")), "/a");
    assert_eq!(runtime_dir(None, s("/b"), s("/c"), s("/d")), "/b");
    assert_eq!(runtime_dir(None, None, s("/c"), s("/d")), "/c");
    assert_eq!(runtime_dir(None, None, None, s("/d")), "/d");
    assert_eq!(runtime_dir(None, None, None, None), "/tmp");
}
