use discord_sdk::activity::{
    Activity, ActivityBuilder, ActivityKind, Assets, Button, ButtonKind, ButtonsOrSecrets,
    JoinRequestReply, PartyPrivacy, Secrets, Timestamps,
};
use discord_sdk::proto::{CommandKind, Rpc};

#[test]
fn asset_keys() {
    assert!(Assets::validate_key("tiny_key"));
    assert!(Assets::validate_key("_-_thirtytwocharacterassetkey_-_"));
    assert!(!Assets::validate_key("_-_thirtythreecharacterassetkey_-"));
    assert!(Assets::validate_key("http://shortboi.com/image"));
    assert!(Assets::validate_key(
        "https://superlongboibutthatsokbecauseitshttps.com/image"
    ));
}

#[test]
fn activity_serde() {
    let args = ActivityBuilder::with_pid(9999)
        .details("deetz".to_owned())
        .state("       ".to_owned())
        .start_timestamp(1628629161811i64)
        .end_timestamp(1628629327961i64)
        .party("parrrrty".to_owned(), Some(1), Some(2), PartyPrivacy::Private)
        .secrets(Secrets {
            join: Some("sekret".to_owned()),
            match_: None,
            spectate: None,
        })
        .inner;
    assert_eq!(args.pid, 9999);
    let activity = args.activity.unwrap();
    assert_eq!(activity.details, Some("deetz".to_owned()));
    assert_eq!(activity.state, None);
    assert_eq!(
        activity.timestamps,
        Some(Timestamps { start: Some(1628629161811), end: Some(1628629327961) })
    );
    let party = activity.party.unwrap();
    assert_eq!(party.id, "parrrrty");
    assert_eq!(party.size, Some((1, 2)));
    assert_eq!(party.privacy, Some(PartyPrivacy::Private));
    assert_eq!(activity.kind, ActivityKind::Playing);
    assert!(!activity.instance);
    match activity.buttons_or_secrets {
        Some(ButtonsOrSecrets::Secrets { secrets }) => {
            assert_eq!(secrets.join, Some("sekret".to_owned()))
        }
        other => panic!("secrets expected, got {:?}", other),
    }

    let cmd = Rpc {
        cmd: CommandKind::SetActivity,
        nonce: 2,
        evt: None,
        args: Some(br#"{"pid":9999,"activity":{"details":"deetz"}}"#.to_vec()),
    };
    assert_eq!(
        cmd.body(),
        br#"{"cmd":"SET_ACTIVITY","nonce":"2","args":{"pid":9999,"activity":{"details":"deetz"}}}"#
            .to_vec()
    );
}

#[test]
fn join_requests_are_answered_by_two_commands() {
    assert_eq!(JoinRequestReply::Yes.command(), CommandKind::SendActivityJoinInvite);
    assert_eq!(JoinRequestReply::No.command(), CommandKind::CloseActivityJoinRequest);
    assert_eq!(JoinRequestReply::Ignore.command(), CommandKind::CloseActivityJoinRequest);
    assert_eq!(JoinRequestReply::from(true), JoinRequestReply::Yes);
    assert_eq!(JoinRequestReply::from(false), JoinRequestReply::No);
}

#[test]
fn long_text_is_cut_to_128_bytes() {
    let long = "x".repeat(200);
    let activity = ActivityBuilder::new(1).state(long).inner.activity.unwrap();
    assert_eq!(activity.state, Some("x".repeat(128)));
    // a character that straddles the limit is dropped whole
    let mut text = "y".repeat(127);
    text.push('é');
    let activity = ActivityBuilder::new(1).details(text).inner.activity.unwrap();
    assert_eq!(activity.details, Some("y".repeat(127)));
}

#[test]
fn end_before_start_is_not_taken() {
    let activity = ActivityBuilder::new(1)
        .start_timestamp(100i64)
        .end_timestamp(50i64)
        .inner
        .activity
        .unwrap();
    assert_eq!(activity.timestamps, Some(Timestamps { start: Some(100), end: None }));
}

#[test]
fn party_size_needs_both_numbers_in_order() {
    let a = ActivityBuilder::new(1)
        .party("p".to_owned(), Some(3), Some(2), PartyPrivacy::Public)
        .inner
        .activity
        .unwrap();
    assert_eq!(a.party.unwrap().size, None);
    let b = ActivityBuilder::new(1)
        .party("p".to_owned(), Some(3), None, PartyPrivacy::Public)
        .inner
        .activity
        .unwrap();
    assert_eq!(b.party.unwrap().size, None);
    // a blank id sets no party
    let c = ActivityBuilder::new(1).party("  ".to_owned(), Some(1), Some(2), PartyPrivacy::Public);
    assert_eq!(c.inner.activity, None);
}

#[test]
fn buttons_replace_secrets_and_add_up() {
    let b = ActivityBuilder::new(1)
        .secrets(Secrets { join: Some("s".to_owned()), match_: None, spectate: None })
        .button(Button { label: "a".to_owned(), url: "https://a".to_owned() })
        .button(Button { label: "b".to_owned(), url: "https://b".to_owned() });
    match b.inner.activity.unwrap().buttons_or_secrets {
        Some(ButtonsOrSecrets::Buttons { buttons }) => {
            assert_eq!(buttons.len(), 2);
            assert_eq!(
                buttons[1],
                ButtonKind::Link(Button { label: "b".to_owned(), url: "https://b".to_owned() })
            );
        }
        other => panic!("buttons expected, got {:?}", other),
    }
}

#[test]
fn assets_without_image_are_ignored() {
    let b = ActivityBuilder::new(1).assets(Assets::default());
    assert_eq!(b.inner.activity, None);
    let assets = Assets::default()
        .large("key".to_owned(), Some("text".to_owned()))
        .small("_-_thirtythreecharacterassetkey_-".to_owned(), Some("no".to_owned()));
    assert_eq!(assets.large_image, Some("key".to_owned()));
    assert_eq!(assets.large_text, Some("text".to_owned()));
    assert_eq!(assets.small_image, None);
    assert_eq!(assets.small_text, None);
    let b = ActivityBuilder::new(1).assets(assets.clone()).instance(true);
    let a: Activity = b.inner.activity.unwrap();
    assert_eq!(a.assets, Some(assets));
    assert!(a.instance);
}
