//! What Discord needs to know to start the application.

pub mod linux;
pub mod mac;

use vstd::prelude::*;
use vstd::string::*;
use crate::error::Error;
use crate::text::find_char;

verus! {

/// An argument of the command that starts the application.
#[derive(Debug, Clone, PartialEq, Eq)]
pub enum BinArg {
    /// The place that is filled with the URL that was opened.
    Url,
    /// An argument that goes in as it is.
    Arg(String),
}

impl BinArg {
    /// An argument that goes in as it is.
    pub fn from(s: String) -> (arg: BinArg)
        ensures
            arg == BinArg::Arg(s),
    {
        BinArg::Arg(s)
    }
}

/// How the application is started.
#[derive(Debug, Clone, PartialEq, Eq)]
pub enum LaunchCommand {
    /// By opening a URL.
    Url(String),
    /// By running a binary with arguments.
    Bin {
        /// The path of the binary, or its name where it is on the path.
        path: String,
        args: Vec<BinArg>,
    },
    /// By asking Steam for a game.
    Steam(u32),
}

/// The application that registers itself.
#[derive(Debug, Clone, PartialEq, Eq)]
pub struct Application {
    /// The id of the application.
    pub id: i64,
    /// The name of the application; the id stands in where it has none.
    pub name: Option<String>,
    pub command: LaunchCommand,
}

/// How many of the arguments are the place for the URL.
pub open spec fn url_count(args: Seq<BinArg>) -> nat
    decreases args.len(),
{
    if args.len() == 0 {
        0
    } else {
        url_count(args.drop_last()) + if args.last() is Url {
            1nat
        } else {
            0nat
        }
    }
}

/// The text that one argument adds to a command: a blank and the URL for
/// the place of the URL, a blank and the argument for any other, in double
/// quotes where the argument holds a blank.
pub open spec fn arg_text(arg: BinArg, url_str: Seq<char>) -> Seq<char> {
    match arg {
        BinArg::Url => " "@ + url_str,
        BinArg::Arg(s) => if s@.contains(' ') {
            " \""@ + s@ + "\""@
        } else {
            " "@ + s@
        },
    }
}

/// The text that the arguments add to a command, in order.
pub open spec fn args_text(args: Seq<BinArg>, url_str: Seq<char>) -> Seq<char>
    decreases args.len(),
{
    if args.len() == 0 {
        Seq::<char>::empty()
    } else {
        args_text(args.drop_last(), url_str) + arg_text(args.last(), url_str)
    }
}

/// The command line that starts the binary at `path`: the path in double
/// quotes, then the arguments.
pub open spec fn spec_command(path: Seq<char>, args: Seq<BinArg>, url_str: Seq<char>) -> Seq<char> {
    "\""@ + path + "\""@ + args_text(args, url_str)
}

impl LaunchCommand {
    /// The command that runs the binary at `path`, which is that of the
    /// running program. More than one place for the URL is refused.
    pub fn current_exe(path: String, args: Vec<BinArg>) -> (r: Result<LaunchCommand, Error>)
        ensures
            if url_count(args@) > 1 {
                r matches Err(Error::TooManyUrls)
            } else {
                r matches Ok(LaunchCommand::Bin { path: p, args: a }) && p == path && a == args
            },
    {
        let mut count: usize = 0;
        let mut i: usize = 0;
        while i < args.len()
            invariant
                0 <= i <= args@.len(),
                count <= i,
                count == url_count(args@.take(i as int)),
            decreases args@.len() - i,
        {
            proof {
                assert(args@.take(i + 1).drop_last() =~= args@.take(i as int));
            }
            match &args[i] {
                BinArg::Url => {
                    count += 1;
                },
                BinArg::Arg(_) => {},
            }
            i += 1;
        }
        assert(args@.take(i as int) =~= args@);
        if count > 1 {
            return Err(Error::TooManyUrls);
        }
        Ok(LaunchCommand::Bin { path, args })
    }
}

/// Writes the command line that starts the binary at `path` with `args`;
/// `url_str` stands where the URL goes.
pub fn create_command(path: String, args: Vec<BinArg>, url_str: &str) -> (cmd: String)
    ensures
        cmd@ == spec_command(path@, args@, url_str@),
{
    let mut cmd = "\"".to_owned();
    cmd.append(path.as_str());
    cmd.append("\"");
    let mut i: usize = 0;
    while i < args.len()
        invariant
            0 <= i <= args@.len(),
            cmd@ == "\""@ + path@ + "\""@ + args_text(args@.take(i as int), url_str@),
        decreases args@.len() - i,
    {
        proof {
            assert(args@.take(i + 1).drop_last() =~= args@.take(i as int));
        }
        let ghost so_far = cmd@;
        match &args[i] {
            BinArg::Url => {
                cmd.append(" ");
                cmd.append(url_str);
            },
            BinArg::Arg(s) => {
                let has_blank = match find_char(s.as_str(), ' ') {
                    Some(_) => true,
                    None => false,
                };
                if has_blank {
                    cmd.append(" \"");
                    cmd.append(s.as_str());
                    cmd.append("\"");
                } else {
                    cmd.append(" ");
                    cmd.append(s.as_str());
                }
            },
        }
        assert(cmd@ =~= so_far + arg_text(args@[i as int], url_str@));
        i += 1;
    }
    assert(args@.take(i as int) =~= args@);
    cmd
}

} // verus!
