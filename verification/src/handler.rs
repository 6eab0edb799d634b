//! The correlator: it reads the frames that Discord sends, pairs responses
//! with the requests that wait for them, and hands events on.

pub mod handlers;
pub mod wheel;

use vstd::prelude::*;
use vstd::string::*;
use vstd::utf8::*;
use crate::error::{api_error_of_payload, DiscordApiErr, DiscordErr, Error};
use crate::io::{frame_bytes, serialize_message, IoMsg, OpCode};
use crate::json::{
    check_json, json_error, json_member, member, spec_text_member, spec_unsigned_member,
    text_member, unsigned_member, Member,
};
use crate::proto::command::{Command, CommandFrame, CommandKind};
use crate::proto::event::{Event, EventKind};
use crate::proto::{rpc_body, Rpc};
use crate::text::push_text;
use crate::types::{opt_text, ErrorPayload};
use crate::util::{decimal_digits, parse_u64, push_decimal, spec_parse_u64};
use crate::{NotifyItem, State, Subscriptions};

verus! {

/// What goes to the handler that the caller supplied.
#[derive(Debug, Clone)]
pub enum DiscordMsg {
    /// An event from Discord, or the disconnect that the client reports.
    Event(Event),
    /// An error that no request waits for.
    Error(Error),
}

/// Something that takes the messages of the correlator.
pub trait DiscordHandler {
    /// Takes an event, or an error that no request waits for.
    fn on_message(&mut self, msg: DiscordMsg);
}

/// The head of a frame's body: what is needed to tell what the frame is.
#[derive(Debug, Clone, Copy, PartialEq, Eq, Structural)]
pub struct RawMsg {
    pub cmd: Option<CommandKind>,
    pub evt: Option<EventKind>,
    /// The nonce, which the wire has as a decimal string.
    pub nonce: Option<u64>,
}

/// A frame after it was read.
#[derive(Debug, Clone)]
pub enum Msg {
    /// A response to a request.
    Command { command: CommandFrame, kind: CommandKind },
    /// An event.
    Event(Event),
    /// An error, for the request with the nonce if there is one.
    Error { nonce: Option<u64>, error: Error },
}

/// How far the head of a frame decides what the frame is.
#[derive(Debug, Clone)]
pub enum Parsed {
    /// The frame is read: an error, whatever else it holds.
    Done(Msg),
    /// The frame is an event of this kind; what it carries is still to be
    /// read.
    Event { event: EventKind, tag: Option<u64> },
    /// The frame is a response to a command of this kind; what it carries
    /// is still to be read.
    Command { kind: CommandKind, nonce: u64 },
}

/// Reads a number from its decimal string.
pub fn deserialize(text: &str) -> (r: Result<u64, Error>)
    ensures
        match spec_parse_u64(encode_utf8(text@)) {
            Some(n) => r == Ok::<u64, Error>(n),
            None => r matches Err(Error::InvalidField(f)) && f@ == "nonce"@,
        },
{
    match parse_u64(text.as_bytes()) {
        Some(n) => Ok(n),
        None => Err(Error::InvalidField("nonce")),
    }
}

/// Reads a number that may be missing from its decimal string.
pub fn deserialize_opt(text: Option<&str>) -> (r: Result<Option<u64>, Error>)
    ensures
        match text {
            None => r matches Ok(None),
            Some(t) => match spec_parse_u64(encode_utf8(t@)) {
                Some(n) => r == Ok::<Option<u64>, Error>(Some(n)),
                None => r matches Err(Error::InvalidField(f)) && f@ == "nonce"@,
            },
        },
{
    match text {
        None => Ok(None),
        Some(t) => match deserialize(t) {
            Ok(n) => Ok(Some(n)),
            Err(e) => Err(e),
        },
    }
}

/// Whether `r` is the head that the three members give: the names of the
/// command and the event have to be known, the nonce a decimal number.
pub open spec fn is_raw_of_members(
    cmd: Option<Seq<char>>,
    evt: Option<Seq<char>>,
    nonce: Option<Seq<char>>,
    r: Result<RawMsg, Error>,
) -> bool {
    if cmd is Some && CommandKind::spec_from_name(cmd->Some_0) is None {
        r matches Err(Error::InvalidField(f)) && f@ == "cmd"@
    } else if evt is Some && EventKind::spec_from_name(evt->Some_0) is None {
        r matches Err(Error::InvalidField(f)) && f@ == "evt"@
    } else if nonce is Some && spec_parse_u64(encode_utf8(nonce->Some_0)) is None {
        r matches Err(Error::InvalidField(f)) && f@ == "nonce"@
    } else {
        r == Ok::<RawMsg, Error>(
            RawMsg {
                cmd: match cmd {
                    Some(c) => CommandKind::spec_from_name(c),
                    None => None,
                },
                evt: match evt {
                    Some(e) => EventKind::spec_from_name(e),
                    None => None,
                },
                nonce: match nonce {
                    Some(n) => spec_parse_u64(encode_utf8(n)),
                    None => None,
                },
            },
        )
    }
}

/// Makes the head of a frame from the texts of its three members.
pub fn raw_from_members(cmd: Option<String>, evt: Option<String>, nonce: Option<String>) -> (r:
    Result<RawMsg, Error>)
    ensures
        is_raw_of_members(opt_text(cmd), opt_text(evt), opt_text(nonce), r),
{
    let cmd = match &cmd {
        Some(name) => match CommandKind::from_name(name.as_str()) {
            Some(kind) => Some(kind),
            None => {
                return Err(Error::InvalidField("cmd"));
            },
        },
        None => None,
    };
    let evt = match &evt {
        Some(name) => match EventKind::from_name(name.as_str()) {
            Some(kind) => Some(kind),
            None => {
                return Err(Error::InvalidField("evt"));
            },
        },
        None => None,
    };
    let nonce = match &nonce {
        Some(text) => match deserialize(text.as_str()) {
            Ok(n) => Some(n),
            Err(e) => {
                return Err(e);
            },
        },
        None => None,
    };
    Ok(RawMsg { cmd, evt, nonce })
}

/// Whether `r` is the head of the frame body `data`: a JSON error for a
/// body that is no JSON, an invalid field for a member of the wrong type,
/// else what the three members give.
pub open spec fn is_raw_of(data: Seq<u8>, r: Result<RawMsg, Error>) -> bool {
    match json_error(data) {
        Some(reason) => r matches Err(Error::Json(text)) && text@ == reason,
        None => match spec_text_member(data, "cmd"@) {
            Member::Mismatch => r matches Err(Error::InvalidField(f)) && f@ == "cmd"@,
            cmd => match spec_text_member(data, "evt"@) {
                Member::Mismatch => r matches Err(Error::InvalidField(f)) && f@ == "evt"@,
                evt => match spec_text_member(data, "nonce"@) {
                    Member::Mismatch => r matches Err(Error::InvalidField(f)) && f@ == "nonce"@,
                    nonce => is_raw_of_members(
                        member_text(cmd),
                        member_text(evt),
                        member_text(nonce),
                        r,
                    ),
                },
            },
        },
    }
}

/// The text of a member that holds one.
pub open spec fn member_text(m: Member<Seq<char>>) -> Option<Seq<char>> {
    match m {
        Member::Value(t) => Some(t),
        _ => None,
    }
}

/// Reads the head of a frame's body.
pub fn read_raw(data: &[u8]) -> (r: Result<RawMsg, Error>)
    ensures
        is_raw_of(data@, r),
{
    match check_json(data) {
        Err(e) => {
            return Err(e);
        },
        Ok(()) => {},
    }
    let cmd = match text_member(data, "cmd") {
        Ok(c) => c,
        Err(e) => {
            return Err(e);
        },
    };
    let evt = match text_member(data, "evt") {
        Ok(c) => c,
        Err(e) => {
            return Err(e);
        },
    };
    let nonce = match text_member(data, "nonce") {
        Ok(c) => c,
        Err(e) => {
            return Err(e);
        },
    };
    raw_from_members(cmd, evt, nonce)
}

/// Whether `r` is what the body of an error event says: the `data` member
/// with its code and its message, or nothing where there is no `data`. A
/// code that is no 32-bit number and a message that is no string are
/// invalid fields.
pub open spec fn is_error_payload_of(data: Seq<u8>, r: Result<Option<ErrorPayload>, Error>) -> bool {
    match json_member(data, "data"@) {
        None => r matches Ok(None),
        Some(inner) => match spec_unsigned_member(inner, "code"@) {
            Member::Mismatch => r matches Err(Error::InvalidField(f)) && f@ == "code"@,
            Member::Value(c) if c > u32::MAX => r matches Err(Error::InvalidField(f)) && f@
                == "code"@,
            code => match spec_text_member(inner, "message"@) {
                Member::Mismatch => r matches Err(Error::InvalidField(f)) && f@ == "message"@,
                message => {
                    &&& r matches Ok(Some(payload))
                    &&& r->Ok_0->Some_0.code == match code {
                        Member::Value(c) => Some(c as u32),
                        _ => None,
                    }
                    &&& opt_text(r->Ok_0->Some_0.message) == member_text(message)
                },
            },
        },
    }
}

/// Reads what the body of an error event says.
pub fn read_error_payload(data: &[u8]) -> (r: Result<Option<ErrorPayload>, Error>)
    ensures
        is_error_payload_of(data@, r),
{
    let inner = match member(data, "data") {
        Some(inner) => inner,
        None => {
            return Ok(None);
        },
    };
    let code: Option<u32> = match unsigned_member(inner.as_slice(), "code") {
        Err(e) => {
            return Err(e);
        },
        Ok(None) => None,
        Ok(Some(c)) => {
            if c > 0xffff_ffff {
                return Err(Error::InvalidField("code"));
            }
            Some(c as u32)
        },
    };
    let message = match text_member(inner.as_slice(), "message") {
        Err(e) => {
            return Err(e);
        },
        Ok(m) => m,
    };
    Ok(Some(ErrorPayload { code, message }))
}

/// Whether `p` is what the head and, for an error event, the payload make
/// of a frame.
///
/// A head that could not be read is an error without a nonce. An error
/// event is an API error for the request with its nonce; a payload that
/// could not be read makes it a generic one without a code. Any other
/// event is an event. Without an event the frame is the response to a
/// command, which needs a command and a nonce.
pub open spec fn is_classified(
    raw: Result<RawMsg, Error>,
    payload: Result<Option<ErrorPayload>, Error>,
    p: Parsed,
) -> bool {
    match raw {
        Err(e) => p matches Parsed::Done(Msg::Error { nonce, error }) && nonce is None && error
            == e,
        Ok(rm) => match rm.evt {
            Some(EventKind::Error) => {
                &&& p matches Parsed::Done(Msg::Error { nonce, error })
                &&& p->Done_0->Error_nonce == rm.nonce
                &&& p->Done_0->Error_error matches Error::Discord(DiscordErr::Api(api))
                &&& match payload {
                    Ok(data) => p->Done_0->Error_error->Discord_0->Api_0@ == api_error_of_payload(data),
                    Err(_) => p->Done_0->Error_error->Discord_0->Api_0 matches DiscordApiErr::Generic {
                        code,
                        message,
                    } && code is None && opt_text(message) == Some(
                        "failed to deserialize error"@,
                    ),
                }
            },
            Some(kind) => p matches Parsed::Event { event, tag } && event == kind && tag
                == rm.nonce,
            None => match (rm.cmd, rm.nonce) {
                (Some(kind), Some(n)) => p matches Parsed::Command { kind: k, nonce } && k == kind
                    && nonce == n,
                (None, _) => {
                    &&& p matches Parsed::Done(Msg::Error { nonce, error })
                    &&& p->Done_0->Error_nonce == rm.nonce
                    &&& p->Done_0->Error_error matches Error::MissingField(f) && f@ == "cmd"@
                },
                (Some(_), None) => {
                    &&& p matches Parsed::Done(Msg::Error { nonce, error })
                    &&& p->Done_0->Error_nonce is None
                    &&& p->Done_0->Error_error matches Error::MissingField(f) && f@ == "nonce"@
                },
            },
        },
    }
}

/// Decides what a frame is from its head and, for an error event, its
/// payload.
pub fn classify(raw: Result<RawMsg, Error>, payload: Result<Option<ErrorPayload>, Error>) -> (p:
    Parsed)
    ensures
        is_classified(raw, payload, p),
{
    let rm = match raw {
        Ok(rm) => rm,
        Err(e) => {
            return Parsed::Done(Msg::Error { nonce: None, error: e });
        },
    };
    match rm.evt {
        Some(EventKind::Error) => {
            let api = match payload {
                Ok(data) => DiscordApiErr::from_payload(data),
                Err(_) => DiscordApiErr::Generic {
                    code: None,
                    message: Some("failed to deserialize error".to_owned()),
                },
            };
            Parsed::Done(Msg::Error { nonce: rm.nonce, error: Error::Discord(DiscordErr::Api(api)) })
        },
        Some(kind) => Parsed::Event { event: kind, tag: rm.nonce },
        None => match (rm.cmd, rm.nonce) {
            (Some(kind), Some(n)) => Parsed::Command { kind, nonce: n },
            (None, _) => Parsed::Done(
                Msg::Error { nonce: rm.nonce, error: Error::MissingField("cmd") },
            ),
            (Some(_), None) => Parsed::Done(
                Msg::Error { nonce: None, error: Error::MissingField("nonce") },
            ),
        },
    }
}

/// Reads the body of a frame as far as the head decides: the result says
/// what the frame is, and an error frame is read to the end.
pub fn process_frame(data: &[u8]) -> (p: Parsed)
    ensures
        exists|raw: Result<RawMsg, Error>, payload: Result<Option<ErrorPayload>, Error>|
            #![auto]
            is_raw_of(data@, raw) && is_error_payload_of(data@, payload) && is_classified(
                raw,
                payload,
                p,
            ),
{
    let raw = read_raw(data);
    let payload = read_error_payload(data);
    let ghost shown_raw = raw;
    let ghost shown_payload = payload;
    let p = classify(raw, payload);
    assert(is_raw_of(data@, shown_raw) && is_error_payload_of(data@, shown_payload)
        && is_classified(shown_raw, shown_payload, p));
    p
}

/// Makes the message of an event frame from what reading its payload gave:
/// the event, or the words of the JSON error.
pub fn finish_event(nonce: Option<u64>, event: Result<Event, String>) -> (msg: Msg)
    ensures
        match event {
            Ok(e) => msg matches Msg::Event(got) && got == e,
            Err(reason) => msg matches Msg::Error { nonce: n, error: Error::Json(text) } && n
                == nonce && text == reason,
        },
{
    match event {
        Ok(e) => Msg::Event(e),
        Err(reason) => Msg::Error { nonce, error: Error::Json(reason) },
    }
}

/// Makes the message of a response frame from what reading its payload
/// gave: the response, or the words of the JSON error.
pub fn finish_command(kind: CommandKind, nonce: u64, command: Result<Command, String>) -> (msg:
    Msg)
    ensures
        match command {
            Ok(c) => msg matches Msg::Command { command: frame, kind: k } && frame.inner == c
                && frame.nonce == nonce && k == kind,
            Err(reason) => msg matches Msg::Error { nonce: n, error: Error::Json(text) } && n
                == Some(nonce) && text == reason,
        },
{
    match command {
        Ok(c) => Msg::Command { command: CommandFrame { inner: c, nonce }, kind },
        Err(reason) => Msg::Error { nonce: Some(nonce), error: Error::Json(reason) },
    }
}

/// What the correlator does with a message.
pub struct Outcome<T> {
    /// Whether the subscriptions are to be sent: Discord is ready.
    pub subscribe: bool,
    /// What goes to the caller's handler.
    pub user: Option<DiscordMsg>,
    /// The request that is answered, by its reply handle, and the answer.
    pub reply: Option<(T, Result<Command, Error>)>,
}

/// What a response of kind `kind` means for a request that waits for
/// `expected`: the response, or a mismatch that names both kinds.
pub open spec fn spec_answer(expected: CommandKind, kind: CommandKind, frame: CommandFrame) -> Result<
    Command,
    Error,
> {
    if expected == kind {
        Ok(frame.inner)
    } else {
        Err(
            Error::Discord(
                DiscordErr::MismatchedResponse { expected, actual: kind, nonce: frame.nonce },
            ),
        )
    }
}

/// Whether `out` and `after` are what `msg` makes of the requests `before`
/// that wait.
///
/// An event goes to the user, and ready asks for the subscriptions. The
/// acknowledgement of a subscription is dropped. Any other response
/// answers the first request with its nonce, which stops waiting; a
/// response that nobody waits for is dropped. An error answers the request
/// with its nonce and goes to the user where there is none.
pub open spec fn is_outcome<T>(
    before: Seq<NotifyItem<T>>,
    msg: Msg,
    after: Seq<NotifyItem<T>>,
    out: Outcome<T>,
) -> bool {
    match msg {
        Msg::Event(event) => {
            &&& after == before
            &&& out.subscribe == (event is Ready)
            &&& out.user matches Some(DiscordMsg::Event(e)) && e == event
            &&& out.reply is None
        },
        Msg::Command { command, kind } => {
            &&& !out.subscribe
            &&& out.user is None
            &&& if kind == CommandKind::Subscribe || crate::no_pending(before, command.nonce) {
                after == before && out.reply is None
            } else {
                forall|i: int| #[trigger]
                    crate::is_first_pending(before, command.nonce, i) ==> {
                        &&& after == before.update(i, before.last()).drop_last()
                        &&& out.reply == Some(
                            (before[i].tx, spec_answer(before[i].cmd, kind, command)),
                        )
                    }
            }
        },
        Msg::Error { nonce, error } => {
            &&& !out.subscribe
            &&& if nonce is None || crate::no_pending(before, nonce->Some_0) {
                &&& after == before
                &&& out.reply is None
                &&& out.user matches Some(DiscordMsg::Error(e)) && e == error
            } else {
                &&& out.user is None
                &&& forall|i: int| #[trigger]
                    crate::is_first_pending(before, nonce->Some_0, i) ==> {
                        &&& after == before.update(i, before.last()).drop_last()
                        &&& out.reply == Some((before[i].tx, Err::<Command, Error>(error)))
                    }
            }
        },
    }
}

/// A response is given to the request that went out with its nonce and to
/// no other, and that request stops waiting: the requests that wait are
/// one fewer, none of them has the nonce any more, and every other request
/// waits on.
pub proof fn lemma_correlation<T>(
    before: Seq<NotifyItem<T>>,
    command: CommandFrame,
    kind: CommandKind,
    after: Seq<NotifyItem<T>>,
    out: Outcome<T>,
)
    requires
        crate::distinct_nonces(before),
        is_outcome(before, Msg::Command { command, kind }, after, out),
        out.reply is Some,
    ensures
        after.len() == before.len() - 1,
        exists|i: int|
            0 <= i < before.len() && (#[trigger] before[i]).nonce == command.nonce
                && out.reply->Some_0.0 == before[i].tx,
        crate::no_pending(after, command.nonce),
        forall|j: int|
            0 <= j < before.len() && (#[trigger] before[j]).nonce != command.nonce
                ==> after.contains(before[j]),
{
    let i = choose|i: int| 0 <= i < before.len() && (#[trigger] before[i]).nonce == command.nonce;
    lemma_taken(before, command.nonce, i);
    assert(crate::is_first_pending(before, command.nonce, i));
}

/// A response of another kind than the request with its nonce waits for
/// is reported to that request as a mismatch that names both kinds, and
/// the request stops waiting. The acknowledgement of a subscription is
/// answered to nobody, so it is left out here.
pub proof fn lemma_mismatch<T>(
    before: Seq<NotifyItem<T>>,
    command: CommandFrame,
    kind: CommandKind,
    after: Seq<NotifyItem<T>>,
    out: Outcome<T>,
    i: int,
)
    requires
        crate::distinct_nonces(before),
        is_outcome(before, Msg::Command { command, kind }, after, out),
        0 <= i < before.len(),
        before[i].nonce == command.nonce,
        before[i].cmd != kind,
        kind != CommandKind::Subscribe,
    ensures
        out.reply == Some(
            (
                before[i].tx,
                Err::<Command, Error>(
                    Error::Discord(
                        DiscordErr::MismatchedResponse {
                            expected: before[i].cmd,
                            actual: kind,
                            nonce: command.nonce,
                        },
                    ),
                ),
            ),
        ),
        after.len() == before.len() - 1,
        crate::no_pending(after, command.nonce),
{
    lemma_taken(before, command.nonce, i);
    assert(crate::is_first_pending(before, command.nonce, i));
}

/// A request that was registered last and is answered by a response of its
/// own kind gets the response, and the requests that waited before it wait
/// on as they were.
pub proof fn lemma_answer_reaches_request<T>(
    waiting: Seq<NotifyItem<T>>,
    item: NotifyItem<T>,
    command: CommandFrame,
    after: Seq<NotifyItem<T>>,
    out: Outcome<T>,
)
    requires
        crate::distinct_nonces(waiting.push(item)),
        command.nonce == item.nonce,
        item.cmd != CommandKind::Subscribe,
        is_outcome(waiting.push(item), Msg::Command { command, kind: item.cmd }, after, out),
    ensures
        out.reply == Some((item.tx, Ok::<Command, Error>(command.inner))),
        after == waiting,
{
    let before = waiting.push(item);
    let i = waiting.len() as int;
    assert(before[i] == item);
    lemma_taken(before, command.nonce, i);
    assert(crate::is_first_pending(before, command.nonce, i));
    assert(before.update(i, before.last()).drop_last() =~= waiting);
}

/// An error that names a request that waits is given to that request and
/// not to the user, and the request stops waiting.
pub proof fn lemma_error_reaches_request<T>(
    before: Seq<NotifyItem<T>>,
    error: Error,
    after: Seq<NotifyItem<T>>,
    out: Outcome<T>,
    i: int,
)
    requires
        crate::distinct_nonces(before),
        0 <= i < before.len(),
        is_outcome(before, Msg::Error { nonce: Some(before[i].nonce), error }, after, out),
    ensures
        out.reply == Some((before[i].tx, Err::<Command, Error>(error))),
        out.user is None,
        after.len() == before.len() - 1,
        crate::no_pending(after, before[i].nonce),
{
    lemma_taken(before, before[i].nonce, i);
    assert(crate::is_first_pending(before, before[i].nonce, i));
}

/// Where no two requests have the same nonce, the request with a nonce is
/// the first with it, and once the last has taken its place no request has
/// the nonce and all the others are still there.
proof fn lemma_taken<T>(before: Seq<NotifyItem<T>>, nonce: u64, i: int)
    requires
        crate::distinct_nonces(before),
        0 <= i < before.len(),
        before[i].nonce == nonce,
    ensures
        crate::is_first_pending(before, nonce, i),
        !crate::no_pending(before, nonce),
        crate::no_pending(before.update(i, before.last()).drop_last(), nonce),
        forall|j: int|
            0 <= j < before.len() && (#[trigger] before[j]).nonce != nonce ==> before.update(
                i,
                before.last(),
            ).drop_last().contains(before[j]),
{
    let after = before.update(i, before.last()).drop_last();
    let last = before.len() - 1;
    assert forall|j: int| 0 <= j < i implies (#[trigger] before[j]).nonce != nonce by {
        assert(before[j].nonce != before[i].nonce);
    }
    assert forall|j: int| 0 <= j < after.len() implies (#[trigger] after[j]).nonce != nonce by {
        if j == i {
            assert(before[i].nonce != before[last].nonce);
        } else if j < i {
            assert(before[j].nonce != before[i].nonce);
        } else {
            assert(before[i].nonce != before[j].nonce);
        }
    }
    assert forall|j: int| 0 <= j < before.len() && (#[trigger] before[j]).nonce
        != nonce implies after.contains(before[j]) by {
        if j == last {
            assert(after[i] == before[j]);
        } else {
            assert(after[j] == before[j]);
        }
    }
}

/// The message that tells the user of a lost connection.
pub fn disconnected(reason: Error) -> (msg: DiscordMsg)
    ensures
        msg matches DiscordMsg::Event(Event::Disconnected { reason: r }) && r == reason,
{
    DiscordMsg::Event(Event::Disconnected { reason })
}

/// Takes what the I/O loop hands over: a lost connection becomes the
/// message for the user, and the requests that wait go on waiting; the
/// body of a frame is given back to be read.
pub fn on_io_msg(io_msg: IoMsg) -> (r: Result<DiscordMsg, Vec<u8>>)
    ensures
        match io_msg {
            IoMsg::Disconnected(e) => r matches Ok(DiscordMsg::Event(Event::Disconnected { reason }))
                && reason == e,
            IoMsg::Frame(body) => r == Err::<DiscordMsg, Vec<u8>>(body),
        },
{
    match io_msg {
        IoMsg::Disconnected(e) => Ok(disconnected(e)),
        IoMsg::Frame(body) => Err(body),
    }
}

/// Takes a message that was read from a frame and decides what happens.
pub fn handle_msg<T>(state: &mut State<T>, msg: Msg) -> (out: Outcome<T>)
    requires
        old(state).wf(),
    ensures
        final(state).wf(),
        final(state).spec_next_nonce() == old(state).spec_next_nonce(),
        is_outcome(old(state).pending(), msg, final(state).pending(), out),
{
    match msg {
        Msg::Event(event) => {
            let subscribe = match &event {
                Event::Ready(_) => true,
                _ => false,
            };
            Outcome { subscribe, user: Some(DiscordMsg::Event(event)), reply: None }
        },
        Msg::Command { command, kind } => {
            if kind == CommandKind::Subscribe {
                return Outcome { subscribe: false, user: None, reply: None };
            }
            match state.pop_nonce(command.nonce) {
                Some(ni) => {
                    let answer = if ni.cmd == kind {
                        Ok(command.inner)
                    } else {
                        Err(
                            Error::Discord(
                                DiscordErr::MismatchedResponse {
                                    expected: ni.cmd,
                                    actual: kind,
                                    nonce: command.nonce,
                                },
                            ),
                        )
                    };
                    Outcome { subscribe: false, user: None, reply: Some((ni.tx, answer)) }
                },
                None => Outcome { subscribe: false, user: None, reply: None },
            }
        },
        Msg::Error { nonce, error } => {
            match nonce {
                Some(n) => match state.pop_nonce(n) {
                    Some(ni) => Outcome {
                        subscribe: false,
                        user: None,
                        reply: Some((ni.tx, Err(error))),
                    },
                    None => Outcome {
                        subscribe: false,
                        user: Some(DiscordMsg::Error(error)),
                        reply: None,
                    },
                },
                None => Outcome {
                    subscribe: false,
                    user: Some(DiscordMsg::Error(error)),
                    reply: None,
                },
            }
        },
    }
}

/// What is added to the count of a subscription to make its nonce, so
/// that it cannot be taken for the nonce of a request.
pub const SUBSCRIBE_NONCE_BIT: u64 = 0x1000_0000_0000_0000;

/// The events of the activity class that are subscribed to.
pub open spec fn activity_kinds() -> Seq<EventKind> {
    seq![
        EventKind::ActivityInvite,
        EventKind::ActivityJoin,
        EventKind::ActivityJoinRequest,
        EventKind::ActivitySpectate,
    ]
}

/// The events of the lobby class that are subscribed to.
pub open spec fn lobby_kinds() -> Seq<EventKind> {
    seq![
        EventKind::LobbyDelete,
        EventKind::LobbyMemberConnect,
        EventKind::LobbyMemberDisconnect,
        EventKind::LobbyMemberUpdate,
        EventKind::LobbyMessage,
        EventKind::LobbyUpdate,
        EventKind::SpeakingStart,
        EventKind::SpeakingStop,
    ]
}

/// The events that a set of subscriptions stands for, in the order in
/// which they are subscribed to: activity, lobby, user, relationships and
/// voice, and last the overlay, whose subscription alone has arguments.
pub open spec fn subscription_kinds(subs: Subscriptions) -> Seq<EventKind> {
    kinds_if(subs.activity, activity_kinds()) + kinds_if(subs.lobby, lobby_kinds()) + kinds_if(
        subs.user,
        seq![EventKind::CurrentUserUpdate],
    ) + kinds_if(subs.relationships, seq![EventKind::RelationshipUpdate]) + kinds_if(
        subs.voice,
        seq![EventKind::VoiceSettingsUpdate],
    ) + kinds_if(subs.overlay, seq![EventKind::OverlayUpdate])
}

/// The arguments of the subscription to an event: the overlay update wants
/// the process id, the others want none.
pub open spec fn subscribe_args(kind: EventKind, pid: u32) -> Option<Seq<u8>> {
    if kind == EventKind::OverlayUpdate {
        Some(encode_utf8("{\"pid\":"@) + decimal_digits(pid as nat) + encode_utf8("}"@))
    } else {
        None
    }
}

/// The body of the request that subscribes to one event, as the `count`-th
/// subscription: its nonce is the count with the distinguishing bit set.
pub open spec fn subscribe_body(kind: EventKind, count: nat, pid: u32) -> Seq<u8> {
    rpc_body(
        CommandKind::Subscribe,
        (SUBSCRIBE_NONCE_BIT + count) as u64,
        Some(kind),
        subscribe_args(kind, pid),
    )
}

/// The frame that subscribes to one event, as the `count`-th subscription.
pub open spec fn subscribe_frame(kind: EventKind, count: nat, pid: u32) -> Seq<u8> {
    frame_bytes(OpCode::Frame, subscribe_body(kind, count, pid))
}

/// A subscription is short: its body always fits a frame.
pub proof fn lemma_subscribe_fits(kind: EventKind, count: nat, pid: u32)
    ensures
        subscribe_body(kind, count, pid).len() <= 160,
{
    crate::proto::lemma_rpc_body_len(
        CommandKind::Subscribe,
        (SUBSCRIBE_NONCE_BIT + count) as u64,
        Some(kind),
        subscribe_args(kind, pid),
    );
    if kind == EventKind::OverlayUpdate {
        reveal_strlit("{\"pid\":");
        reveal_strlit("}");
        is_ascii_chars_encode_utf8("{\"pid\":"@);
        is_ascii_chars_encode_utf8("}"@);
        crate::util::lemma_decimal_digits_bounded(pid as u64);
    }
}

/// The frames that subscribe to `kinds`, back to back, counted from one.
pub open spec fn subscribe_bytes(kinds: Seq<EventKind>, pid: u32) -> Seq<u8>
    decreases kinds.len(),
{
    if kinds.len() == 0 {
        Seq::<u8>::empty()
    } else {
        subscribe_bytes(kinds.drop_last(), pid) + subscribe_frame(kinds.last(), kinds.len(), pid)
    }
}

/// The events of one class where the class is subscribed to, none where
/// it is not.
pub open spec fn kinds_if(subscribed: bool, kinds: Seq<EventKind>) -> Seq<EventKind> {
    if subscribed {
        kinds
    } else {
        Seq::<EventKind>::empty()
    }
}

/// Lists the events that a set of subscriptions stands for.
pub fn expand_subscriptions(subs: Subscriptions) -> (kinds: Vec<EventKind>)
    ensures
        kinds@ == subscription_kinds(subs),
        kinds@.len() <= 16,
{
    let mut kinds: Vec<EventKind> = Vec::new();
    if subs.activity {
        kinds.push(EventKind::ActivityInvite);
        kinds.push(EventKind::ActivityJoin);
        kinds.push(EventKind::ActivityJoinRequest);
        kinds.push(EventKind::ActivitySpectate);
    }
    let ghost activity = kinds_if(subs.activity, activity_kinds());
    assert(kinds@ =~= activity);
    if subs.lobby {
        kinds.push(EventKind::LobbyDelete);
        kinds.push(EventKind::LobbyMemberConnect);
        kinds.push(EventKind::LobbyMemberDisconnect);
        kinds.push(EventKind::LobbyMemberUpdate);
        kinds.push(EventKind::LobbyMessage);
        kinds.push(EventKind::LobbyUpdate);
        kinds.push(EventKind::SpeakingStart);
        kinds.push(EventKind::SpeakingStop);
    }
    let ghost lobby = activity + kinds_if(subs.lobby, lobby_kinds());
    assert(kinds@ =~= lobby);
    if subs.user {
        kinds.push(EventKind::CurrentUserUpdate);
    }
    let ghost user = lobby + kinds_if(subs.user, seq![EventKind::CurrentUserUpdate]);
    assert(kinds@ =~= user);
    if subs.relationships {
        kinds.push(EventKind::RelationshipUpdate);
    }
    let ghost relations = user + kinds_if(
        subs.relationships,
        seq![EventKind::RelationshipUpdate],
    );
    assert(kinds@ =~= relations);
    if subs.voice {
        kinds.push(EventKind::VoiceSettingsUpdate);
    }
    let ghost voice = relations + kinds_if(subs.voice, seq![EventKind::VoiceSettingsUpdate]);
    assert(kinds@ =~= voice);
    if subs.overlay {
        kinds.push(EventKind::OverlayUpdate);
    }
    assert(kinds@ =~= voice + kinds_if(subs.overlay, seq![EventKind::OverlayUpdate]));
    kinds
}

/// Each class that is subscribed to adds its own events and no others: four
/// for activity, eight for lobbies, one for each of the other classes. The
/// one subscription that carries arguments, the overlay's, is there exactly
/// when the overlay class is subscribed to, and then it is the last.
pub proof fn lemma_subscription_kinds(subs: Subscriptions, pid: u32)
    ensures
        subscription_kinds(subs).len() == kinds_if(subs.activity, activity_kinds()).len()
            + kinds_if(subs.lobby, lobby_kinds()).len() + (if subs.user {
            1int
        } else {
            0
        }) + (if subs.relationships {
            1int
        } else {
            0
        }) + (if subs.voice {
            1int
        } else {
            0
        }) + (if subs.overlay {
            1int
        } else {
            0
        }),
        activity_kinds().len() == 4,
        lobby_kinds().len() == 8,
        forall|i: int|
            0 <= i < subscription_kinds(subs).len() ==> (subscribe_args(
                #[trigger] subscription_kinds(subs)[i],
                pid,
            ) is Some <==> subs.overlay && i == subscription_kinds(subs).len() - 1),
{
    let a = kinds_if(subs.activity, activity_kinds());
    let l = a + kinds_if(subs.lobby, lobby_kinds());
    let u = l + kinds_if(subs.user, seq![EventKind::CurrentUserUpdate]);
    let r = u + kinds_if(subs.relationships, seq![EventKind::RelationshipUpdate]);
    let v = r + kinds_if(subs.voice, seq![EventKind::VoiceSettingsUpdate]);
    let all = subscription_kinds(subs);
    assert(all == v + kinds_if(subs.overlay, seq![EventKind::OverlayUpdate]));
    assert forall|i: int| 0 <= i < all.len() implies (subscribe_args(#[trigger] all[i], pid)
        is Some <==> subs.overlay && i == all.len() - 1) by {
        if i < a.len() {
            assert(all[i] == activity_kinds()[i]);
        } else if i < l.len() {
            assert(all[i] == lobby_kinds()[i - a.len()]);
        } else if i < u.len() {
            assert(all[i] == EventKind::CurrentUserUpdate);
        } else if i < r.len() {
            assert(all[i] == EventKind::RelationshipUpdate);
        } else if i < v.len() {
            assert(all[i] == EventKind::VoiceSettingsUpdate);
        } else {
            assert(all[i] == EventKind::OverlayUpdate);
        }
    }
}

/// Writes the frames that subscribe to the events of `subs` into one
/// buffer, back to back, so that they reach Discord in one write. `pid` is
/// the id of this process, which the overlay subscription carries.
pub fn subscribe_frames(subs: Subscriptions, pid: u32) -> (buffer: Vec<u8>)
    ensures
        buffer@ == subscribe_bytes(subscription_kinds(subs), pid),
{
    let kinds = expand_subscriptions(subs);
    let mut buffer: Vec<u8> = Vec::new();
    let mut i: usize = 0;
    while i < kinds.len()
        invariant
            0 <= i <= kinds@.len(),
            kinds@.len() <= 16,
            buffer@ == subscribe_bytes(kinds@.take(i as int), pid),
        decreases kinds@.len() - i,
    {
        proof {
            assert(kinds@.take(i + 1).drop_last() =~= kinds@.take(i as int));
        }
        let kind = kinds[i];
        let args: Option<Vec<u8>> = match kind {
            EventKind::OverlayUpdate => {
                let mut a: Vec<u8> = Vec::new();
                push_text(&mut a, "{\"pid\":");
                push_decimal(pid as u64, &mut a);
                push_text(&mut a, "}");
                assert(a@ =~= subscribe_args(kind, pid)->Some_0);
                Some(a)
            },
            _ => None,
        };
        let rpc = Rpc {
            cmd: CommandKind::Subscribe,
            nonce: SUBSCRIBE_NONCE_BIT + (i as u64 + 1),
            evt: Some(kind),
            args,
        };
        let body = rpc.body();
        proof {
            lemma_subscribe_fits(kind, (i + 1) as nat, pid);
        }
        serialize_message(OpCode::Frame, body.as_slice(), &mut buffer);
        i += 1;
    }
    assert(kinds@.take(i as int) =~= kinds@);
    buffer
}

} // verus!
