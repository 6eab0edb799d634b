use discord_sdk::error::Error;
use discord_sdk::types::Snowflake;
use discord_sdk::user::{de_user, hex_digit, parse_avatar, DeUser, User};

fn raw() -> DeUser {
    DeUser {
        id: Some(Snowflake(682969165652689005)),
        username: Some("jake.shadle".to_owned()),
        discriminator: Some("7557".to_owned()),
        avatar: Some("15bbd75c8ee6610d045852e7ea998a35".to_owned()),
        bot: Some(false),
    }
}

#[test]
fn user_is_read_from_the_wire_form() {
    let user = User::try_from(raw()).unwrap();
    assert_eq!(user.id, Snowflake(682969165652689005));
    assert_eq!(user.username, "jake.shadle");
    assert_eq!(user.discriminator, Some(7557));
    assert_eq!(
        user.avatar,
        Some([
            0x15, 0xbb, 0xd7, 0x5c, 0x8e, 0xe6, 0x61, 0x0d, 0x04, 0x58, 0x52, 0xe7, 0xea, 0x99,
            0x8a, 0x35
        ])
    );
    assert!(!user.is_bot);
    assert_eq!(user.display_name(), "jake.shadle#7557");
    assert_eq!(de_user(raw()).unwrap(), user);
}

#[test]
fn missing_and_invalid_members_are_refused() {
    assert!(matches!(User::try_from(DeUser { id: None, ..raw() }), Err(Error::MissingField("id"))));
    assert!(matches!(
        User::try_from(DeUser { username: None, ..raw() }),
        Err(Error::MissingField("username"))
    ));
    // the id is looked at first
    assert!(matches!(
        User::try_from(DeUser { id: None, username: None, ..raw() }),
        Err(Error::MissingField("id"))
    ));
    for bad in ["75x7", "", "-1", "4294967296"] {
        assert!(matches!(
            User::try_from(DeUser { discriminator: Some(bad.to_owned()), ..raw() }),
            Err(Error::InvalidField("discriminator"))
        ));
    }
    let user = User::try_from(DeUser { discriminator: None, bot: None, ..raw() }).unwrap();
    assert_eq!(user.discriminator, None);
    assert!(!user.is_bot);
    assert_eq!(user.display_name(), "jake.shadle");
    let user = User::try_from(DeUser { discriminator: Some("4294967295".to_owned()), bot: Some(true), ..raw() }).unwrap();
    assert_eq!(user.discriminator, Some(u32::MAX));
    assert!(user.is_bot);
    assert_eq!(user.display_name(), "jake.shadle#4294967295");
}

#[test]
fn avatars_are_hex_hashes() {
    let hash = [
        0xf6, 0x2f, 0x2a, 0x75, 0x5c, 0xb1, 0x8c, 0x94, 0xdc, 0x5c, 0xda, 0x94, 0x44, 0x10, 0x24,
        0xf1,
    ];
    assert_eq!(parse_avatar("f62f2a755cb18c94dc5cda94441024f1"), Some(hash));
    assert_eq!(parse_avatar("F62F2A755CB18C94DC5CDA94441024F1"), Some(hash));
    assert_eq!(parse_avatar("a_f62f2a755cb18c94dc5cda94441024f1"), Some(hash));
    assert_eq!(parse_avatar("f62f2a755cb18c94dc5cda94441024f"), None);
    assert_eq!(parse_avatar("f62f2a755cb18c94dc5cda94441024f1f"), None);
    assert_eq!(parse_avatar("g62f2a755cb18c94dc5cda94441024f1"), None);
    assert_eq!(parse_avatar("f62f2a755cb18c94dc5cda94441024fz"), None);
    assert_eq!(parse_avatar(""), None);
    assert_eq!(parse_avatar("a_"), None);
    let user = User::try_from(DeUser { avatar: Some("nope".to_owned()), ..raw() }).unwrap();
    assert_eq!(user.avatar, None);
    assert_eq!(hex_digit(b'0'), Some(0));
    assert_eq!(hex_digit(b'9'), Some(9));
    assert_eq!(hex_digit(b'a'), Some(10));
    assert_eq!(hex_digit(b'F'), Some(15));
    assert_eq!(hex_digit(b'g'), None);
    assert_eq!(hex_digit(b'/'), None);
}

#[test]
fn snowflakes_carry_their_time() {
    let id = Snowflake(175928847299117063);
    assert_eq!(id.timestamp_millis(), 1462015105796);
    assert_eq!(id.timestamp(), (1462015105, 796000000));
    assert_eq!(Snowflake(0).timestamp_millis(), 1420070400000);
    assert_eq!(Snowflake(u64::MAX).timestamp(), (5818116911, 103000000));
}
