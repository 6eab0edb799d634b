use discord_sdk::error::DiscordApiErr;
use discord_sdk::types::ErrorPayload;

fn payload(code: Option<u32>, message: Option<&str>) -> Option<ErrorPayload> {
    Some(ErrorPayload { code, message: message.map(|m| m.to_owned()) })
}

#[test]
fn known_codes_have_names() {
    assert_eq!(
        DiscordApiErr::from_payload(payload(Some(1000), Some("Unknown Error"))),
        DiscordApiErr::Unknown
    );
    assert_eq!(
        DiscordApiErr::from_payload(payload(Some(1003), Some("protocol error"))),
        DiscordApiErr::MalformedCommand
    );
    assert_eq!(
        DiscordApiErr::from_payload(payload(Some(4000), Some("bad"))),
        DiscordApiErr::InvalidCommand { reason: "bad".to_owned() }
    );
    assert_eq!(
        DiscordApiErr::from_payload(payload(Some(4000), None)),
        DiscordApiErr::InvalidCommand { reason: "unknown problem".to_owned() }
    );
    assert_eq!(
        DiscordApiErr::from_payload(payload(Some(4002), Some("Invalid command: NOPE"))),
        DiscordApiErr::InvalidCommand { reason: "NOPE".to_owned() }
    );
    assert_eq!(
        DiscordApiErr::from_payload(payload(Some(4002), Some("Invalid command: "))),
        DiscordApiErr::InvalidCommand { reason: String::new() }
    );
    assert_eq!(DiscordApiErr::from_payload(None), DiscordApiErr::NoErrorData);
}

#[test]
fn everything_else_is_generic() {
    let cases = [
        (Some(1000), Some("unknown error")),
        (Some(1000), None),
        (Some(1003), Some("Protocol Error")),
        (Some(4002), Some("Already connected to lobby.")),
        (Some(4002), Some("invalid command: x")),
        (Some(4002), None),
        (Some(4001), Some("Invalid command: x")),
        (Some(0), Some("")),
        (None, Some("Unknown Error")),
        (None, None),
    ];
    for (code, message) in cases {
        assert_eq!(
            DiscordApiErr::from_payload(payload(code, message)),
            DiscordApiErr::Generic { code, message: message.map(|m| m.to_owned()) }
        );
    }
}
