//! What a Linux desktop needs of an application that Discord is to start:
//! a desktop entry, and a line in the list of default applications.

use vstd::prelude::*;
use vstd::string::*;
use crate::registration::{create_command, spec_command, Application, LaunchCommand};
use crate::text::{
    decimal_text, find_text, is_first_occurrence, occurs, push_decimal_text, signed_decimal_string,
    signed_decimal_text,
};

verus! {

/// The command of the desktop entry: a URL and a Steam game are opened
/// through `xdg-open`, a binary is run with `%u` where the URL goes.
pub open spec fn spec_exec(command: LaunchCommand) -> Seq<char> {
    match command {
        LaunchCommand::Url(url) => "xdg-open "@ + url@,
        LaunchCommand::Bin { path, args } => spec_command(path@, args@, "%u"@),
        LaunchCommand::Steam(id) => "xdg-open steam://rungameid/"@ + decimal_text(id as nat),
    }
}

/// Writes the command of the desktop entry.
pub fn exec_line(command: LaunchCommand) -> (exec: String)
    ensures
        exec@ == spec_exec(command),
{
    match command {
        LaunchCommand::Url(url) => {
            let mut exec = "xdg-open ".to_owned();
            exec.append(url.as_str());
            exec
        },
        LaunchCommand::Bin { path, args } => create_command(path, args, "%u"),
        LaunchCommand::Steam(id) => {
            let mut exec = "xdg-open steam://rungameid/".to_owned();
            push_decimal_text(id as u64, &mut exec);
            exec
        },
    }
}

/// The name that the desktop shows: the application's, or its id where it
/// has none.
pub open spec fn spec_entry_name(name: Option<String>, id: i64) -> Seq<char> {
    match name {
        Some(n) => n@,
        None => signed_decimal_text(id as int),
    }
}

/// The name of the file that holds the desktop entry.
pub open spec fn spec_desktop_file(id: i64) -> Seq<char> {
    "discord-"@ + signed_decimal_text(id as int) + ".desktop"@
}

/// Writes the name of the file that holds the desktop entry.
pub fn desktop_file(id: i64) -> (name: String)
    ensures
        name@ == spec_desktop_file(id),
{
    let mut name = "discord-".to_owned();
    name.append(signed_decimal_string(id).as_str());
    name.append(".desktop");
    name
}

/// The desktop entry of an application with the name `name`, the command
/// `exec` and the id `id`. It handles the scheme `discord-<id>`.
pub open spec fn spec_desktop_entry(name: Seq<char>, exec: Seq<char>, id: i64) -> Seq<char> {
    "[Desktop Entry]\n        Name="@ + name + "\n        Exec="@ + exec
        + "\n        Type=Application\n        NoDisplay=true\n        Categories=Discord;Games;\n        MimeType=x-scheme-handler/discord-"@
        + signed_decimal_text(id as int) + ";\n        "@
}

/// Writes the desktop entry of an application.
pub fn desktop_entry(app: Application) -> (entry: String)
    ensures
        entry@ == spec_desktop_entry(
            spec_entry_name(app.name, app.id),
            spec_exec(app.command),
            app.id,
        ),
{
    let id: i64 = app.id;
    let name = match app.name {
        Some(n) => n,
        None => signed_decimal_string(id),
    };
    let exec = exec_line(app.command);
    let mut entry = "[Desktop Entry]\n        Name=".to_owned();
    entry.append(name.as_str());
    entry.append("\n        Exec=");
    entry.append(exec.as_str());
    entry.append(
        "\n        Type=Application\n        NoDisplay=true\n        Categories=Discord;Games;\n        MimeType=x-scheme-handler/discord-",
    );
    entry.append(signed_decimal_string(id).as_str());
    entry.append(";\n        ");
    entry
}

/// The line that makes the desktop entry the handler of the scheme
/// `discord-<id>`.
pub open spec fn spec_scheme_line(id: i64) -> Seq<char> {
    "x-scheme-handler/discord-"@ + signed_decimal_text(id as int) + "=discord-"@
        + signed_decimal_text(id as int) + ".desktop\n"@
}

/// Writes the line that makes the desktop entry the handler of its scheme.
pub fn scheme_line(id: i64) -> (line: String)
    ensures
        line@ == spec_scheme_line(id),
{
    let mut line = "x-scheme-handler/discord-".to_owned();
    line.append(signed_decimal_string(id).as_str());
    line.append("=discord-");
    line.append(signed_decimal_string(id).as_str());
    line.append(".desktop\n");
    line
}

/// Whether `r` is what is to be written in place of the list of default
/// applications `list`, if anything.
///
/// Where there is no list, one is made of the heading and the line. A list
/// that holds the line already stays as it is, and so does one without the
/// heading. Else the line goes right behind the first heading.
pub open spec fn is_mime_list(list: Option<Seq<char>>, id: i64, r: Option<Seq<char>>) -> bool {
    let heading = "[Default Applications]\n"@;
    let line = spec_scheme_line(id);
    match list {
        None => r == Some(heading + line),
        Some(l) => if occurs(l, line) || !occurs(l, heading) {
            r is None
        } else {
            forall|i: int| #[trigger]
                is_first_occurrence(l, heading, i) ==> r == Some(
                    l.take(i + heading.len()) + line + l.skip(i + heading.len()),
                )
        },
    }
}

/// Decides what to write in place of the list of default applications so
/// that the scheme of the application `id` has its handler: `None` where
/// nothing is to be written.
pub fn mime_list(list: Option<&str>, id: i64) -> (r: Option<String>)
    ensures
        is_mime_list(
            match list {
                Some(l) => Some(l@),
                None => None,
            },
            id,
            match r {
                Some(s) => Some(s@),
                None => None,
            },
        ),
{
    let line = scheme_line(id);
    let heading = "[Default Applications]\n";
    let list = match list {
        Some(l) => l,
        None => {
            let mut made = heading.to_owned();
            made.append(line.as_str());
            return Some(made);
        },
    };
    if find_text(list, line.as_str()).is_some() {
        return None;
    }
    match find_text(list, heading) {
        None => None,
        Some(at) => {
            let n: usize = list.unicode_len();
            let cut: usize = at + heading.unicode_len();
            let head = list.substring_char(0, cut);
            let tail = list.substring_char(cut, n);
            let mut made = head.to_owned();
            made.append(line.as_str());
            made.append(tail);
            proof {
                assert(head@ =~= list@.take(cut as int));
                assert(tail@ =~= list@.skip(cut as int));
                assert forall|i: int| #[trigger]
                    is_first_occurrence(list@, heading@, i) implies i == at by {
                    if i < at {
                        assert(!crate::text::occurs_at(list@, heading@, i));
                    } else if at < i {
                        assert(!crate::text::occurs_at(list@, heading@, at as int));
                    }
                }
            }
            Some(made)
        },
    }
}

} // verus!
