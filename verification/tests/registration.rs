use discord_sdk::registration::linux::{
    desktop_entry, desktop_file, exec_line, mime_list, scheme_line,
};
use discord_sdk::registration::mac::{
    app_path, bundle_id, is_up_to_date, make_script, plist, script_hash, shim, shim_file,
    steam_url, write_script_args,
};
use discord_sdk::registration::{Application, BinArg, LaunchCommand};
use discord_sdk::text::find_text;

fn game() -> LaunchCommand {
    LaunchCommand::Bin {
        path: "/usr/bin/game".to_owned(),
        args: vec![
            BinArg::Arg("--join".to_owned()),
            BinArg::Url,
            BinArg::Arg("two words".to_owned()),
        ],
    }
}

#[test]
fn texts_are_found_at_their_first_place() {
    assert_eq!(find_text("abcabc", "bc"), Some(1));
    assert_eq!(find_text("abcabc", "abc"), Some(0));
    assert_eq!(find_text("abcabc", "cab"), Some(2));
    assert_eq!(find_text("abcabc", "abcabc"), Some(0));
    assert_eq!(find_text("abcabc", "abcabcd"), None);
    assert_eq!(find_text("abcabc", "x"), None);
    assert_eq!(find_text("abcabc", ""), Some(0));
    assert_eq!(find_text("", ""), Some(0));
    assert_eq!(find_text("", "a"), None);
    // places are counted in characters
    assert_eq!(find_text("héllo wörld", "wö"), Some(6));
    assert_eq!(find_text("aab", "ab"), Some(1));
}

#[test]
fn desktop_entries_run_the_command() {
    assert_eq!(
        exec_line(LaunchCommand::Url("https://example.com/game".to_owned())),
        "xdg-open https://example.com/game"
    );
    assert_eq!(exec_line(LaunchCommand::Steam(480)), "xdg-open steam://rungameid/480");
    assert_eq!(exec_line(game()), "\"/usr/bin/game\" --join %u \"two words\"");
    assert_eq!(desktop_file(310270644849737729), "discord-310270644849737729.desktop");

    let entry = desktop_entry(Application {
        id: 310270644849737729,
        name: Some("My Game".to_owned()),
        command: LaunchCommand::Steam(480),
    });
    assert_eq!(
        entry,
        "[Desktop Entry]\n        Name=My Game\n        Exec=xdg-open steam://rungameid/480\n        Type=Application\n        NoDisplay=true\n        Categories=Discord;Games;\n        MimeType=x-scheme-handler/discord-310270644849737729;\n        "
    );

    // without a name the id stands in
    let entry = desktop_entry(Application { id: 42, name: None, command: game() });
    assert!(entry.starts_with("[Desktop Entry]\n        Name=42\n        Exec=\"/usr/bin/game\" --join %u"));
    assert!(entry.contains("MimeType=x-scheme-handler/discord-42;\n"));
}

#[test]
fn the_scheme_is_added_to_the_default_applications_once() {
    let line = "x-scheme-handler/discord-42=discord-42.desktop\n";
    assert_eq!(scheme_line(42), line);

    // no list yet
    assert_eq!(mime_list(None, 42), Some(format!("[Default Applications]\n{}", line)));

    // the line goes right behind the first heading
    let list = "[Added Associations]\nx=y\n[Default Applications]\ntext/html=firefox.desktop\n[Default Applications]\n";
    assert_eq!(
        mime_list(Some(list), 42),
        Some(format!(
            "[Added Associations]\nx=y\n[Default Applications]\n{}text/html=firefox.desktop\n[Default Applications]\n",
            line
        ))
    );

    // text that is no ASCII stays whole
    let list = "# défaut\n[Default Applications]\n";
    assert_eq!(
        mime_list(Some(list), 42),
        Some(format!("# défaut\n[Default Applications]\n{}", line))
    );

    // a list that has the line stays as it is
    let list = format!("[Default Applications]\n{}text/html=firefox.desktop\n", line);
    assert_eq!(mime_list(Some(&list), 42), None);
    // the line of another application does not count
    assert!(mime_list(Some(&list), 4).is_some());

    // a list without the heading stays as it is
    assert_eq!(mime_list(Some("[Added Associations]\n"), 42), None);
    assert_eq!(mime_list(Some(""), 42), None);
}

#[test]
fn scripts_are_hashed() {
    assert_eq!(script_hash(b""), 5381);
    assert_eq!(script_hash(b"a"), 177670);
    assert_eq!(script_hash(b"hello world, this is a long script to overflow"), 3029727262);
}

#[test]
fn scripts_start_the_binary() {
    let args =
        vec![BinArg::Arg("--join".to_owned()), BinArg::Url, BinArg::Arg("two words".to_owned())];
    assert_eq!(write_script_args(&args), " --join '\" & this_URL & \"' 'two words'");
    assert_eq!(write_script_args(&Vec::new()), "");
    assert_eq!(
        make_script("/Applications/Game.app/game", &args),
        "\non run\n\tdo shell script \"/Applications/Game.app/game > /dev/null 2>&1 &\"\nend run\n\non open location this_URL\n\tdo shell script \"/Applications/Game.app/game --join '\" & this_URL & \"' 'two words' > /dev/null 2>&1 &\"\nend open location\n    "
    );
}

#[test]
fn property_lists_name_the_bundle() {
    assert_eq!(app_path(42), "/Applications/discord-42.app");
    assert_eq!(bundle_id(177670, 42), "<string>com.177670.AppleScript.discord-42</string>");
    let text = plist(177670, 42);
    assert!(text.starts_with("\n    <?xml version=\"1.0\" encoding=\"UTF-8\"?>\n"));
    assert!(text.ends_with("\n    </dict>\n    </plist>"));
    assert_eq!(text.matches("<string>discord-42</string>").count(), 3);
    assert!(is_up_to_date(&text, 177670, 42));
    assert!(!is_up_to_date(&text, 177671, 42));
    assert!(!is_up_to_date(&text, 177670, 4));
    assert!(!is_up_to_date("", 177670, 42));
}

#[test]
fn notes_tell_discord_what_to_open() {
    assert_eq!(shim("https://example.com/game"), "{\"command\": \"https://example.com/game\"}");
    assert_eq!(shim_file(42), "42.json");
    assert_eq!(steam_url(480), "steam://rungameid/480");
    assert_eq!(shim(&steam_url(480)), "{\"command\": \"steam://rungameid/480\"}");
}
