//! The RPC protocol: the names of commands and events, and the envelope that
//! carries a request.

pub mod command;
pub mod event;

pub use command::{Command, CommandFrame, CommandKind};
pub use event::{ClassifiedEvent, Event, EventKind};

use vstd::prelude::*;
use vstd::string::*;
use vstd::utf8::*;
use crate::text::push_text;
use crate::util::{decimal_digits, push_decimal};

verus! {

/// The UTF-8 encoding of a text.
pub open spec fn utf8(text: Seq<char>) -> Seq<u8> {
    encode_utf8(text)
}

/// The JSON body of a request: the command, the nonce as a string, the
/// event where the request subscribes to one, and the arguments where it
/// has any. The arguments are JSON already and go in as they are.
pub open spec fn rpc_body(
    cmd: CommandKind,
    nonce: u64,
    evt: Option<EventKind>,
    args: Option<Seq<u8>>,
) -> Seq<u8> {
    utf8("{\"cmd\":\""@) + utf8(cmd.spec_name()) + utf8("\",\"nonce\":\""@) + decimal_digits(
        nonce as nat,
    ) + utf8("\""@) + (match evt {
        Some(e) => utf8(",\"evt\":\""@) + utf8(e.spec_name()) + utf8("\""@),
        None => Seq::<u8>::empty(),
    }) + (match args {
        Some(a) => utf8(",\"args\":"@) + a,
        None => Seq::<u8>::empty(),
    }) + utf8("}"@)
}

/// The body of a request is at most 128 bytes longer than its arguments.
pub proof fn lemma_rpc_body_len(
    cmd: CommandKind,
    nonce: u64,
    evt: Option<EventKind>,
    args: Option<Seq<u8>>,
)
    ensures
        rpc_body(cmd, nonce, evt, args).len() <= 128 + (match args {
            Some(a) => a.len(),
            None => 0,
        }),
{
    reveal_strlit("{\"cmd\":\"");
    reveal_strlit("\",\"nonce\":\"");
    reveal_strlit("\"");
    reveal_strlit(",\"evt\":\"");
    reveal_strlit(",\"args\":");
    reveal_strlit("}");
    is_ascii_chars_encode_utf8("{\"cmd\":\""@);
    is_ascii_chars_encode_utf8("\",\"nonce\":\""@);
    is_ascii_chars_encode_utf8("\""@);
    is_ascii_chars_encode_utf8(",\"evt\":\""@);
    is_ascii_chars_encode_utf8(",\"args\":"@);
    is_ascii_chars_encode_utf8("}"@);
    command::lemma_command_names(cmd);
    if let Some(e) = evt {
        event::lemma_event_names(e);
    }
    crate::util::lemma_decimal_digits_bounded(nonce);
}

/// An RPC that goes out: the command, the nonce that the answer will carry,
/// the event of a subscription and the arguments as JSON.
#[derive(Debug, Clone, PartialEq, Eq)]
pub struct Rpc {
    pub cmd: CommandKind,
    pub nonce: u64,
    pub evt: Option<EventKind>,
    pub args: Option<Vec<u8>>,
}

impl Rpc {
    /// The JSON body of the request.
    pub open spec fn spec_body(self) -> Seq<u8> {
        rpc_body(
            self.cmd,
            self.nonce,
            self.evt,
            match self.args {
                Some(a) => Some(a@),
                None => None,
            },
        )
    }

    /// Appends the JSON body of the request to `out`.
    pub fn write_body(&self, out: &mut Vec<u8>)
        ensures
            final(out)@ == old(out)@ + self.spec_body(),
    {
        push_text(out, "{\"cmd\":\"");
        push_text(out, self.cmd.name());
        push_text(out, "\",\"nonce\":\"");
        push_decimal(self.nonce, out);
        push_text(out, "\"");
        let ghost with_evt = out@;
        if let Some(e) = self.evt {
            push_text(out, ",\"evt\":\"");
            push_text(out, e.name());
            push_text(out, "\"");
        }
        if let Some(a) = &self.args {
            push_text(out, ",\"args\":");
            out.extend_from_slice(a.as_slice());
        }
        push_text(out, "}");
        assert(out@ =~= old(out)@ + self.spec_body());
    }

    /// Writes the JSON body of the request.
    pub fn body(&self) -> (body: Vec<u8>)
        ensures
            body@ == self.spec_body(),
    {
        let mut body: Vec<u8> = Vec::new();
        self.write_body(&mut body);
        assert(body@ =~= self.spec_body());
        body
    }
}

} // verus!
