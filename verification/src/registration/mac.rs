//! What macOS needs of an application that Discord is to start. A command
//! cannot be registered there, so a binary is started by a small
//! AppleScript application that handles the scheme, and a URL by a note
//! that is left among Discord's own files.

use vstd::prelude::*;
use vstd::string::*;
use crate::registration::BinArg;
use crate::text::{
    decimal_text, find_char, find_text, occurs, push_decimal_text, signed_decimal_string,
    signed_decimal_text,
};

verus! {

/// The hash of a script, by which an application that is up to date is
/// known: from 5381, each byte is added to 33 times the hash so far, in 32
/// bits.
pub open spec fn spec_script_hash(script: Seq<u8>) -> u32
    decreases script.len(),
{
    if script.len() == 0 {
        5381
    } else {
        ((spec_script_hash(script.drop_last()) * 33 + script.last()) % 0x1_0000_0000) as u32
    }
}

/// Computes the hash of a script.
pub fn script_hash(script: &[u8]) -> (hash: u32)
    ensures
        hash == spec_script_hash(script@),
{
    let mut hash: u32 = 5381;
    let mut i: usize = 0;
    while i < script.len()
        invariant
            0 <= i <= script@.len(),
            hash == spec_script_hash(script@.take(i as int)),
        decreases script@.len() - i,
    {
        proof {
            assert(script@.take(i + 1).drop_last() =~= script@.take(i as int));
        }
        let wide: u64 = hash as u64 * 33 + script[i] as u64;
        hash = (wide % 0x1_0000_0000) as u32;
        i += 1;
    }
    assert(script@.take(i as int) =~= script@);
    hash
}

/// The text that one argument adds to the command of the script: the URL
/// that was opened for the place of the URL, the argument for any other,
/// in single quotes where it holds a blank.
pub open spec fn script_arg(arg: BinArg) -> Seq<char> {
    match arg {
        BinArg::Url => " '\" & this_URL & \"'"@,
        BinArg::Arg(a) => if a@.contains(' ') {
            " '"@ + a@ + "'"@
        } else {
            " "@ + a@
        },
    }
}

/// The text that the arguments add to the command of the script, in order.
pub open spec fn script_args(args: Seq<BinArg>) -> Seq<char>
    decreases args.len(),
{
    if args.len() == 0 {
        Seq::<char>::empty()
    } else {
        script_args(args.drop_last()) + script_arg(args.last())
    }
}

/// The script that starts the binary at `exe`: as it is when the
/// application is run, and with `args` when a URL is opened. Both run in
/// the background, so that the script itself ends.
pub open spec fn spec_script(exe: Seq<char>, args: Seq<char>) -> Seq<char> {
    "\non run\n\tdo shell script \""@
        + exe
        + " > /dev/null 2>&1 &\"\nend run\n\non open location this_URL\n\tdo shell script \""@
        + exe
        + args
        + " > /dev/null 2>&1 &\"\nend open location\n    "@
}

/// Writes the arguments of the command of the script.
pub fn write_script_args(args: &Vec<BinArg>) -> (text: String)
    ensures
        text@ == script_args(args@),
{
    let mut text = String::new();
    let mut i: usize = 0;
    while i < args.len()
        invariant
            0 <= i <= args@.len(),
            text@ == script_args(args@.take(i as int)),
        decreases args@.len() - i,
    {
        proof {
            assert(args@.take(i + 1).drop_last() =~= args@.take(i as int));
        }
        let ghost so_far = text@;
        match &args[i] {
            BinArg::Url => {
                text.append(" '\" & this_URL & \"'");
            },
            BinArg::Arg(a) => {
                if find_char(a.as_str(), ' ').is_some() {
                    text.append(" '");
                    text.append(a.as_str());
                    text.append("'");
                } else {
                    text.append(" ");
                    text.append(a.as_str());
                }
            },
        }
        assert(text@ =~= so_far + script_arg(args@[i as int]));
        i += 1;
    }
    assert(args@.take(i as int) =~= args@);
    text
}

/// Writes the script that starts the binary at `path` with `args`.
pub fn make_script(path: &str, args: &Vec<BinArg>) -> (script: String)
    ensures
        script@ == spec_script(path@, script_args(args@)),
{
    let sargs = write_script_args(args);
    let mut script = "\non run\n\tdo shell script \"".to_owned();
    script.append(path);
    script.append(" > /dev/null 2>&1 &\"\nend run\n\non open location this_URL\n\tdo shell script \"");
    script.append(path);
    script.append(sargs.as_str());
    script.append(" > /dev/null 2>&1 &\"\nend open location\n    ");
    assert(script@ =~= spec_script(path@, script_args(args@)));
    script
}

/// The path of the application that handles the scheme of `id`.
pub open spec fn spec_app_path(id: i64) -> Seq<char> {
    "/Applications/discord-"@ + signed_decimal_text(id as int) + ".app"@
}

/// Writes the path of the application that handles the scheme of `id`.
pub fn app_path(id: i64) -> (path: String)
    ensures
        path@ == spec_app_path(id),
{
    let mut path = "/Applications/discord-".to_owned();
    path.append(signed_decimal_string(id).as_str());
    path.append(".app");
    path
}

/// The line of a property list that names the bundle: it holds the hash of
/// the script and the id of the application.
pub open spec fn spec_bundle_id(hash: u32, id: i64) -> Seq<char> {
    "<string>com."@ + decimal_text(hash as nat) + ".AppleScript.discord-"@ + signed_decimal_text(
        id as int,
    ) + "</string>"@
}

/// Writes the line of a property list that names the bundle.
pub fn bundle_id(hash: u32, id: i64) -> (line: String)
    ensures
        line@ == spec_bundle_id(hash, id),
{
    let mut line = "<string>com.".to_owned();
    push_decimal_text(hash as u64, &mut line);
    line.append(".AppleScript.discord-");
    line.append(signed_decimal_string(id).as_str());
    line.append("</string>");
    line
}

/// Whether the property list `plist` belongs to the script with the hash
/// `hash` for the application `id`: it then names that bundle, and the
/// application need not be made again.
pub fn is_up_to_date(plist: &str, hash: u32, id: i64) -> (current: bool)
    ensures
        current == occurs(plist@, spec_bundle_id(hash, id)),
{
    let line = bundle_id(hash, id);
    find_text(plist, line.as_str()).is_some()
}

/// The property list of the application: the bundle is named after the
/// hash of the script and the id, and handles the scheme `discord-<id>`.
pub open spec fn spec_plist(hash: Seq<char>, id: Seq<char>) -> Seq<char> {
    "\n    <?xml version=\"1.0\" encoding=\"UTF-8\"?>\n    <!DOCTYPE plist PUBLIC \"-//Apple//DTD PLIST 1.0//EN\" \"http://www.apple.com/DTDs/PropertyList-1.0.dtd\">\n    <plist version=\"1.0\">\n    <dict>\n        <key>CFBundleExecutable</key>\n        <string>applet</string>\n        <key>CFBundleIconFile</key>\n        <string>applet</string>\n        <key>CFBundleIdentifier</key>\n        <string>com."@
        + hash
        + ".AppleScript.discord-"@
        + id
        + "</string>\n        <key>CFBundleInfoDictionaryVersion</key>\n        <string>6.0</string>\n        <key>CFBundleName</key>\n        <string>discord-"@
        + id
        + "</string>\n        <key>CFBundlePackageType</key>\n        <string>APPL</string>\n        <key>CFBundleSignature</key>\n        <string>aplt</string>\n        <key>CFBundleURLTypes</key>\n        <array>\n            <dict>\n                <key>CFBundleURLName</key>\n                <string>discord-"@
        + id
        + "</string>\n                <key>CFBundleURLSchemes</key>\n                <array>\n                    <string>discord-"@
        + id
        + "</string>\n                </array>\n            </dict>\n        </array>\n        <key>LSRequiresCarbon</key>\n        <true/>\n    </dict>\n    </plist>"@
}

/// Writes the property list of the application.
pub fn plist(script_hash: u32, app_id: i64) -> (text: String)
    ensures
        text@ == spec_plist(decimal_text(script_hash as nat), signed_decimal_text(app_id as int)),
{
    let mut hash = String::new();
    push_decimal_text(script_hash as u64, &mut hash);
    assert(hash@ =~= decimal_text(script_hash as nat));
    let id = signed_decimal_string(app_id);
    let mut text = "\n    <?xml version=\"1.0\" encoding=\"UTF-8\"?>\n    <!DOCTYPE plist PUBLIC \"-//Apple//DTD PLIST 1.0//EN\" \"http://www.apple.com/DTDs/PropertyList-1.0.dtd\">\n    <plist version=\"1.0\">\n    <dict>\n        <key>CFBundleExecutable</key>\n        <string>applet</string>\n        <key>CFBundleIconFile</key>\n        <string>applet</string>\n        <key>CFBundleIdentifier</key>\n        <string>com.".to_owned();
    text.append(hash.as_str());
    text.append(".AppleScript.discord-");
    text.append(id.as_str());
    text.append("</string>\n        <key>CFBundleInfoDictionaryVersion</key>\n        <string>6.0</string>\n        <key>CFBundleName</key>\n        <string>discord-");
    text.append(id.as_str());
    text.append("</string>\n        <key>CFBundlePackageType</key>\n        <string>APPL</string>\n        <key>CFBundleSignature</key>\n        <string>aplt</string>\n        <key>CFBundleURLTypes</key>\n        <array>\n            <dict>\n                <key>CFBundleURLName</key>\n                <string>discord-");
    text.append(id.as_str());
    text.append("</string>\n                <key>CFBundleURLSchemes</key>\n                <array>\n                    <string>discord-");
    text.append(id.as_str());
    text.append("</string>\n                </array>\n            </dict>\n        </array>\n        <key>LSRequiresCarbon</key>\n        <true/>\n    </dict>\n    </plist>");
    assert(text@ =~= spec_plist(hash@, id@));
    text
}

/// The note that tells Discord what to open for an application.
pub open spec fn spec_shim(url: Seq<char>) -> Seq<char> {
    "{\"command\": \""@ + url + "\"}"@
}

/// Writes the note that tells Discord what to open for an application.
pub fn shim(url: &str) -> (note: String)
    ensures
        note@ == spec_shim(url@),
{
    let mut note = "{\"command\": \"".to_owned();
    note.append(url);
    note.append("\"}");
    note
}

/// Writes the name of the file that holds the note for the application
/// `id`.
pub fn shim_file(id: i64) -> (name: String)
    ensures
        name@ == signed_decimal_text(id as int) + ".json"@,
{
    let mut name = signed_decimal_string(id);
    name.append(".json");
    name
}

/// Writes the URL that asks Steam for a game.
pub fn steam_url(steam_id: u32) -> (url: String)
    ensures
        url@ == "steam://rungameid/"@ + decimal_text(steam_id as nat),
{
    let mut url = "steam://rungameid/".to_owned();
    push_decimal_text(steam_id as u64, &mut url);
    url
}

} // verus!
