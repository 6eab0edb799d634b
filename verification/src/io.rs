//! The frame codec: eight bytes of header, an opcode and a length, both
//! little-endian, and then as many bytes of body as the length says.

use vstd::prelude::*;
use vstd::arithmetic::div_mod::lemma_fundamental_div_mod_converse;
use vstd::slice::*;
use vstd::string::*;
use crate::error::Error;
use crate::json::{
    check_json, json_error, signed_member, spec_signed_member, spec_text_member, text_member,
    Member,
};
use crate::text::{decimal_text, push_decimal_text, push_text};
use crate::util::{decimal_digits, push_decimal, push_signed_decimal, signed_decimal_digits};

verus! {

/// The version of the RPC protocol that the handshake announces.
pub const RPC_VERSION: u32 = 1;

/// The number of bytes in a frame header.
pub const HEADER_LEN: usize = 8;

/// The class of a frame.
#[derive(Clone, Copy, Debug, PartialEq, Eq, Structural)]
pub enum OpCode {
    Handshake,
    Frame,
    Close,
    Ping,
    Pong,
}

impl OpCode {
    /// The number that stands for the opcode in a header.
    pub open spec fn spec_code(self) -> u32 {
        match self {
            OpCode::Handshake => 0,
            OpCode::Frame => 1,
            OpCode::Close => 2,
            OpCode::Ping => 3,
            OpCode::Pong => 4,
        }
    }

    /// The opcode that a number stands for; there is none from five up.
    pub open spec fn spec_from_code(code: u32) -> Option<OpCode> {
        match code {
            0 => Some(OpCode::Handshake),
            1 => Some(OpCode::Frame),
            2 => Some(OpCode::Close),
            3 => Some(OpCode::Ping),
            4 => Some(OpCode::Pong),
            _ => None,
        }
    }

    /// The number that stands for the opcode in a header.
    pub fn code(self) -> (code: u32)
        ensures
            code == self.spec_code(),
    {
        match self {
            OpCode::Handshake => 0,
            OpCode::Frame => 1,
            OpCode::Close => 2,
            OpCode::Ping => 3,
            OpCode::Pong => 4,
        }
    }

    /// Reads an opcode from its number.
    pub fn from_code(code: u32) -> (op: Option<OpCode>)
        ensures
            op == Self::spec_from_code(code),
    {
        match code {
            0 => Some(OpCode::Handshake),
            1 => Some(OpCode::Frame),
            2 => Some(OpCode::Close),
            3 => Some(OpCode::Ping),
            4 => Some(OpCode::Pong),
            _ => None,
        }
    }
}

/// The number that four bytes spell, least significant byte first.
pub open spec fn le_value(b: Seq<u8>) -> int
    recommends
        b.len() == 4,
{
    b[0] + 256 * b[1] + 65536 * b[2] + 16777216 * b[3]
}

/// The four bytes that spell `v`, least significant byte first.
pub open spec fn le_bytes(v: u32) -> Seq<u8> {
    seq![
        (v % 256) as u8,
        (v / 256 % 256) as u8,
        (v / 65536 % 256) as u8,
        (v / 16777216) as u8,
    ]
}

/// The header of a frame with opcode `op` and a body of `len` bytes.
pub open spec fn header_bytes(op: OpCode, len: u32) -> Seq<u8> {
    le_bytes(op.spec_code()) + le_bytes(len)
}

/// The whole frame that carries `body` under opcode `op`.
pub open spec fn frame_bytes(op: OpCode, body: Seq<u8>) -> Seq<u8>
    recommends
        body.len() <= u32::MAX,
{
    header_bytes(op, body.len() as u32) + body
}

/// What eight bytes of header say: the opcode and the length of the body, or
/// the number in the opcode's place where it names no opcode.
pub open spec fn spec_parse_header(header: Seq<u8>) -> Result<(OpCode, u32), u32>
    recommends
        header.len() == 8,
{
    let code = le_value(header.subrange(0, 4)) as u32;
    match OpCode::spec_from_code(code) {
        Some(op) => Ok((op, le_value(header.subrange(4, 8)) as u32)),
        None => Err(code),
    }
}

/// What the start of a byte stream holds.
pub enum Decoded {
    /// Less than a whole frame.
    Incomplete,
    /// A header whose opcode is this number, which names none.
    UnknownOpCode(u32),
    /// A whole frame, and the bytes that follow it.
    Message { op: OpCode, body: Seq<u8>, rest: Seq<u8> },
}

/// Reads the first frame from the start of a byte stream.
pub open spec fn spec_decode(bytes: Seq<u8>) -> Decoded {
    if bytes.len() < 8 {
        Decoded::Incomplete
    } else {
        match spec_parse_header(bytes.subrange(0, 8)) {
            Err(code) => Decoded::UnknownOpCode(code),
            Ok((op, len)) => if bytes.len() < 8 + len {
                Decoded::Incomplete
            } else {
                Decoded::Message {
                    op,
                    body: bytes.subrange(8, 8 + len),
                    rest: bytes.skip(8 + len),
                }
            },
        }
    }
}

/// Four bytes spell the number they were made from.
pub proof fn lemma_le_round_trip(v: u32)
    ensures
        le_bytes(v).len() == 4,
        le_value(le_bytes(v)) == v,
{
}

/// A number spelt by four bytes is spelt by no other four.
pub proof fn lemma_le_bytes_of_value(b: Seq<u8>)
    requires
        b.len() == 4,
    ensures
        0 <= le_value(b) <= u32::MAX,
        le_bytes(le_value(b) as u32) == b,
{
    let b0 = b[0] as int;
    let b1 = b[1] as int;
    let b2 = b[2] as int;
    let b3 = b[3] as int;
    let v = le_value(b);
    lemma_fundamental_div_mod_converse(v, 256, b1 + 256 * b2 + 65536 * b3, b0);
    lemma_fundamental_div_mod_converse(v / 256, 256, b2 + 256 * b3, b1);
    lemma_fundamental_div_mod_converse(v, 65536, b2 + 256 * b3, b0 + 256 * b1);
    lemma_fundamental_div_mod_converse(v / 65536, 256, b3, b2);
    lemma_fundamental_div_mod_converse(v, 16777216, b3, b0 + 256 * b1 + 65536 * b2);
    assert(le_bytes(v as u32) =~= b);
}

/// The header of a frame reads back as the opcode and length it was made from.
pub proof fn lemma_header_round_trip(op: OpCode, len: u32)
    ensures
        header_bytes(op, len).len() == 8,
        spec_parse_header(header_bytes(op, len)) == Ok::<(OpCode, u32), u32>((op, len)),
{
    let h = header_bytes(op, len);
    lemma_le_round_trip(op.spec_code());
    lemma_le_round_trip(len);
    assert(h.subrange(0, 4) =~= le_bytes(op.spec_code()));
    assert(h.subrange(4, 8) =~= le_bytes(len));
}

/// Decoding what was encoded gives back the opcode and the body, whatever
/// follows the frame in the stream.
pub proof fn lemma_frame_round_trip(op: OpCode, body: Seq<u8>, rest: Seq<u8>)
    requires
        body.len() <= u32::MAX,
    ensures
        spec_decode(frame_bytes(op, body) + rest) == (Decoded::Message { op, body, rest }),
{
    let len = body.len() as u32;
    let bytes = frame_bytes(op, body) + rest;
    lemma_header_round_trip(op, len);
    assert(bytes.subrange(0, 8) =~= header_bytes(op, len));
    assert(bytes.subrange(8, 8 + len) =~= body);
    assert(bytes.skip(8 + len) =~= rest);
}

/// A frame that has arrived in part is waited for: no proper prefix of a
/// frame reads as a frame or as an error, however the stream is cut.
pub proof fn lemma_partial_frame_waits(op: OpCode, body: Seq<u8>, k: int)
    requires
        body.len() <= u32::MAX,
        0 <= k < 8 + body.len(),
    ensures
        spec_decode(frame_bytes(op, body).take(k)) is Incomplete,
{
    let len = body.len() as u32;
    let part = frame_bytes(op, body).take(k);
    if k >= 8 {
        lemma_header_round_trip(op, len);
        assert(part.subrange(0, 8) =~= header_bytes(op, len));
    }
}

/// A header is refused exactly when the number in the opcode's place is five
/// or more, and the refusal carries that number.
pub proof fn lemma_unknown_opcode(header: Seq<u8>)
    requires
        header.len() == 8,
    ensures
        le_value(header.subrange(0, 4)) >= 5 <==> spec_parse_header(header) is Err,
        spec_parse_header(header) is Err ==> spec_parse_header(header)->Err_0 == le_value(
            header.subrange(0, 4),
        ),
{
    lemma_le_bytes_of_value(header.subrange(0, 4));
}

/// Reads four bytes at `at` as a number, least significant byte first.
pub fn read_u32_le(bytes: &[u8], at: usize) -> (v: u32)
    requires
        at + 4 <= bytes.len(),
    ensures
        v == le_value(bytes@.subrange(at as int, at + 4)),
{
    let b0: u32 = bytes[at] as u32;
    let b1: u32 = bytes[at + 1] as u32;
    let b2: u32 = bytes[at + 2] as u32;
    let b3: u32 = bytes[at + 3] as u32;
    b0 + 256 * b1 + 65536 * b2 + 16777216 * b3
}

/// Appends the four bytes of `v` to `out`, least significant byte first.
pub fn push_u32_le(v: u32, out: &mut Vec<u8>)
    ensures
        final(out)@ == old(out)@ + le_bytes(v),
{
    out.push((v % 256) as u8);
    out.push((v / 256 % 256) as u8);
    out.push((v / 65536 % 256) as u8);
    out.push((v / 16777216) as u8);
    assert(out@ =~= old(out)@ + le_bytes(v));
}

/// Copies bytes into a buffer of their own.
pub fn copy_bytes(bytes: &[u8]) -> (copy: Vec<u8>)
    ensures
        copy@ == bytes@,
{
    slice_to_vec(bytes)
}

/// Reads a frame header: four bytes of opcode, four bytes of length. An
/// opcode from five up is refused as an unknown variant of `OpCode`.
pub fn parse_frame_header(header: [u8; 8]) -> (r: Result<(OpCode, u32), Error>)
    ensures
        match spec_parse_header(header@) {
            Ok(parsed) => r == Ok::<(OpCode, u32), Error>(parsed),
            Err(code) => r matches Err(Error::UnknownVariant { kind, value }) && kind@ == "OpCode"@
                && value == code,
        },
{
    let bytes = header.as_slice();
    assert(bytes@ == header@);
    let code: u32 = read_u32_le(bytes, 0);
    let op = match OpCode::from_code(code) {
        Some(op) => op,
        None => {
            return Err(Error::UnknownVariant { kind: "OpCode", value: code });
        },
    };
    let len: u32 = read_u32_le(bytes, 4);
    Ok((op, len))
}

/// Makes the frame that carries `data` under `op_code`.
pub fn make_message(op_code: OpCode, data: &[u8]) -> (msg: Vec<u8>)
    requires
        data@.len() <= u32::MAX,
    ensures
        msg@ == frame_bytes(op_code, data@),
        msg@.len() == 8 + data@.len(),
{
    let mut msg: Vec<u8> = Vec::with_capacity(data.len().saturating_add(8));
    serialize_message(op_code, data, &mut msg);
    assert(msg@ =~= frame_bytes(op_code, data@));
    msg
}

/// Appends to `buffer` the frame that carries `data` under `op_code`. What
/// the buffer held stays in front.
pub fn serialize_message(op_code: OpCode, data: &[u8], buffer: &mut Vec<u8>)
    requires
        data@.len() <= u32::MAX,
    ensures
        final(buffer)@ == old(buffer)@ + frame_bytes(op_code, data@),
{
    push_u32_le(op_code.code(), buffer);
    push_u32_le(data.len() as u32, buffer);
    buffer.extend_from_slice(data);
    assert(buffer@ =~= old(buffer)@ + frame_bytes(op_code, data@));
}

/// Reads the first frame of `bytes`: `None` where less than a whole frame is
/// there, else the opcode, the body, and how many bytes the frame took.
pub fn decode_message(bytes: &[u8]) -> (r: Result<Option<(OpCode, Vec<u8>, usize)>, Error>)
    ensures
        match spec_decode(bytes@) {
            Decoded::Incomplete => r matches Ok(None),
            Decoded::UnknownOpCode(code) => r matches Err(Error::UnknownVariant { kind, value })
                && kind@ == "OpCode"@ && value == code,
            Decoded::Message { op, body, rest } => r matches Ok(Some(m)) && m.0 == op && m.1@
                == body && m.2 == bytes@.len() - rest.len(),
        },
{
    if bytes.len() < 8 {
        return Ok(None);
    }
    assert(bytes@.subrange(0, 8).subrange(0, 4) =~= bytes@.subrange(0, 4));
    assert(bytes@.subrange(0, 8).subrange(4, 8) =~= bytes@.subrange(4, 8));
    let code: u32 = read_u32_le(bytes, 0);
    let op = match OpCode::from_code(code) {
        Some(op) => op,
        None => {
            return Err(Error::UnknownVariant { kind: "OpCode", value: code });
        },
    };
    let len: u32 = read_u32_le(bytes, 4);
    if bytes.len() - 8 < len as usize {
        return Ok(None);
    }
    let end: usize = 8 + len as usize;
    let body = slice_to_vec(slice_subrange(bytes, 8, end));
    Ok(Some((op, body, end)))
}

/// How many more bytes the frame in progress takes, given the bytes of it
/// that have arrived: the rest of the header, or, once the header is there,
/// the rest of the body.
pub open spec fn wanted_after(buffered: Seq<u8>) -> int {
    if buffered.len() < 8 {
        8 - buffered.len()
    } else {
        8 + le_value(buffered.subrange(4, 8)) - buffered.len()
    }
}

/// Assembles frames from a stream that arrives in pieces of any size.
///
/// The reader holds the bytes of the frame in progress: first the header,
/// then, once the header says how long it is, the body.
pub struct FrameReader {
    header: Vec<u8>,
    expect: Option<(OpCode, u32)>,
    body: Vec<u8>,
}

impl View for FrameReader {
    type V = Seq<u8>;

    /// The bytes of the frame in progress that have arrived.
    closed spec fn view(&self) -> Seq<u8> {
        self.header@ + self.body@
    }
}

impl FrameReader {
    /// The reader holds less than one frame, and what it knows of the header
    /// is what the header bytes say.
    pub closed spec fn wf(&self) -> bool {
        match self.expect {
            None => self.header@.len() < 8 && self.body@.len() == 0,
            Some((op, len)) => {
                &&& self.header@.len() == 8
                &&& spec_parse_header(self.header@) == Ok::<(OpCode, u32), u32>((op, len))
                &&& self.body@.len() < len
            },
        }
    }

    /// How many more bytes the part in progress takes: the rest of the
    /// header, or the rest of the body.
    pub closed spec fn spec_wanted(&self) -> int {
        match self.expect {
            None => 8 - self.header@.len(),
            Some((_, len)) => len - self.body@.len(),
        }
    }

    /// A reader at the start of a frame.
    pub fn new() -> (r: FrameReader)
        ensures
            r.wf(),
            r@ == Seq::<u8>::empty(),
    {
        let r = FrameReader { header: Vec::new(), expect: None, body: Vec::new() };
        assert(r@ =~= Seq::<u8>::empty());
        r
    }

    /// What a well-formed reader holds is never a whole frame, and what
    /// it waits for is what is missing of the frame in progress.
    pub proof fn lemma_incomplete(&self)
        requires
            self.wf(),
        ensures
            spec_decode(self@) is Incomplete,
            self.spec_wanted() >= 1,
            self.spec_wanted() == wanted_after(self@),
    {
        if self.expect is Some {
            assert(self@.subrange(0, 8) =~= self.header@);
            assert(self@.subrange(4, 8) =~= self.header@.subrange(4, 8));
            lemma_le_bytes_of_value(self.header@.subrange(4, 8));
        } else {
            assert(self@ =~= self.header@);
        }
    }

    /// How many bytes to ask the stream for next: what is missing of the
    /// header or of the body, and never zero.
    pub fn wanted(&self) -> (n: usize)
        requires
            self.wf(),
        ensures
            n == self.spec_wanted(),
            n == wanted_after(self@),
            n >= 1,
    {
        proof {
            self.lemma_incomplete();
        }
        match self.expect {
            None => 8 - self.header.len(),
            Some((_, len)) => len as usize - self.body.len(),
        }
    }

    /// Takes bytes from the stream, up to the end of the frame in progress.
    ///
    /// Returns how many bytes of `chunk` were taken, and the frame if they
    /// completed one. Bytes behind the end of the frame are left to the next
    /// call. After a frame or an error the reader is at the start of a frame.
    pub fn feed(&mut self, chunk: &[u8]) -> (r: (usize, Result<Option<(OpCode, Vec<u8>)>, Error>))
        requires
            old(self).wf(),
        ensures
            final(self).wf(),
            r.0 <= chunk@.len(),
            match spec_decode(old(self)@ + chunk@) {
                Decoded::Incomplete => {
                    &&& r.0 == chunk@.len()
                    &&& r.1 matches Ok(None)
                    &&& final(self)@ == old(self)@ + chunk@
                },
                Decoded::UnknownOpCode(code) => {
                    &&& r.0 == 8 - old(self)@.len()
                    &&& r.1 matches Err(Error::UnknownVariant { kind, value })
                    &&& r.1->Err_0->UnknownVariant_kind@ == "OpCode"@
                    &&& r.1->Err_0->UnknownVariant_value == code
                    &&& final(self)@ == Seq::<u8>::empty()
                },
                Decoded::Message { op, body, rest } => {
                    &&& r.0 == chunk@.len() - rest.len()
                    &&& r.1 matches Ok(Some(m))
                    &&& r.1->Ok_0->Some_0.0 == op
                    &&& r.1->Ok_0->Some_0.1@ == body
                    &&& final(self)@ == Seq::<u8>::empty()
                },
            },
    {
        let ghost stream = old(self)@ + chunk@;
        let mut used: usize = 0;
        if self.expect.is_none() {
            let need: usize = 8 - self.header.len();
            let k: usize = if chunk.len() < need {
                chunk.len()
            } else {
                need
            };
            self.header.extend_from_slice(slice_subrange(chunk, 0, k));
            used = k;
            assert(self.header@ =~= stream.subrange(0, self.header@.len() as int));
            if self.header.len() < 8 {
                assert(self@ =~= stream);
                return (used, Ok(None));
            }
            let bytes = self.header.as_slice();
            assert(bytes@ == stream.subrange(0, 8));
            let code: u32 = read_u32_le(bytes, 0);
            match OpCode::from_code(code) {
                None => {
                    self.header.clear();
                    assert(self@ =~= Seq::<u8>::empty());
                    return (used, Err(Error::UnknownVariant { kind: "OpCode", value: code }));
                },
                Some(op) => {
                    let len: u32 = read_u32_le(bytes, 4);
                    self.expect = Some((op, len));
                },
            }
        } else {
            assert(stream.subrange(0, 8) =~= self.header@);
        }
        let (op, len) = match self.expect {
            Some(e) => e,
            None => {
                return (used, Ok(None));
            },
        };
        assert(spec_parse_header(stream.subrange(0, 8)) == Ok::<(OpCode, u32), u32>((op, len)));
        let need: usize = len as usize - self.body.len();
        let avail: usize = chunk.len() - used;
        let k: usize = if avail < need {
            avail
        } else {
            need
        };
        self.body.extend_from_slice(slice_subrange(chunk, used, used + k));
        used = used + k;
        assert(self.body@ =~= stream.subrange(8, 8 + self.body@.len() as int));
        if self.body.len() == len as usize {
            let mut body: Vec<u8> = Vec::new();
            core::mem::swap(&mut body, &mut self.body);
            self.header.clear();
            self.expect = None;
            assert(self@ =~= Seq::<u8>::empty());
            return (used, Ok(Some((op, body))));
        }
        assert(self@ =~= stream);
        (used, Ok(None))
    }
}

/// The first delay between attempts to connect, in milliseconds.
pub const INITIAL_RECONNECT_MS: u64 = 500;

/// The longest delay between attempts to connect, in milliseconds.
pub const MAX_RECONNECT_MS: u64 = 60000;

/// The delay before the attempt that follows `failures` failed ones, in
/// milliseconds: 500 at first, twice the last after each failure, and never
/// more than a minute.
pub open spec fn spec_reconnect_delay(failures: nat) -> nat
    decreases failures,
{
    if failures == 0 {
        500
    } else {
        let doubled = 2 * spec_reconnect_delay((failures - 1) as nat);
        if doubled > 60000 {
            60000
        } else {
            doubled
        }
    }
}

/// How long to wait before the next attempt to connect.
#[derive(Clone, Copy, Debug, PartialEq, Eq)]
pub struct Backoff {
    delay_ms: u64,
}

impl View for Backoff {
    type V = nat;

    /// The delay that the next failure will be given, in milliseconds.
    closed spec fn view(&self) -> nat {
        self.delay_ms as nat
    }
}

impl Backoff {
    /// The delay lies between the first and the longest.
    pub closed spec fn wf(&self) -> bool {
        INITIAL_RECONNECT_MS <= self.delay_ms <= MAX_RECONNECT_MS
    }

    /// The backoff before any failure.
    pub fn new() -> (b: Backoff)
        ensures
            b.wf(),
            b@ == spec_reconnect_delay(0),
    {
        Backoff { delay_ms: INITIAL_RECONNECT_MS }
    }

    /// Notes a failed attempt to connect. Returns how long to sleep before
    /// the next one, in milliseconds, and doubles the delay for the failure
    /// after that, up to a minute.
    pub fn next_delay(&mut self) -> (delay: u64)
        requires
            old(self).wf(),
        ensures
            final(self).wf(),
            delay == old(self)@,
            final(self)@ == if 2 * old(self)@ > 60000 {
                60000
            } else {
                2 * old(self)@
            },
            forall|k: nat|
                old(self)@ == spec_reconnect_delay(k) ==> final(self)@ == #[trigger] spec_reconnect_delay(
                    k + 1,
                ),
    {
        let delay: u64 = self.delay_ms;
        let doubled: u64 = delay * 2;
        self.delay_ms = if doubled > MAX_RECONNECT_MS {
            MAX_RECONNECT_MS
        } else {
            doubled
        };
        assert forall|k: nat| old(self)@ == spec_reconnect_delay(k) implies self@
            == #[trigger] spec_reconnect_delay(k + 1) by {
            assert(spec_reconnect_delay(k + 1) == if 2 * spec_reconnect_delay(k) > 60000 {
                60000
            } else {
                2 * spec_reconnect_delay(k)
            });
        }
        delay
    }

    /// Notes a session that was established: the next failure waits the
    /// first delay again.
    pub fn reset(&mut self)
        ensures
            final(self).wf(),
            final(self)@ == spec_reconnect_delay(0),
    {
        self.delay_ms = INITIAL_RECONNECT_MS;
    }
}

/// The delays in a run of failures are 500 ms, 1 s, 2 s, 4 s, 8 s, 16 s, 32 s
/// and from then on a minute each.
pub proof fn lemma_reconnect_schedule()
    ensures
        spec_reconnect_delay(0) == 500,
        spec_reconnect_delay(1) == 1000,
        spec_reconnect_delay(2) == 2000,
        spec_reconnect_delay(3) == 4000,
        spec_reconnect_delay(4) == 8000,
        spec_reconnect_delay(5) == 16000,
        spec_reconnect_delay(6) == 32000,
        forall|k: nat| k >= 7 ==> #[trigger] spec_reconnect_delay(k) == 60000,
{
    reveal_with_fuel(spec_reconnect_delay, 8);
    assert(spec_reconnect_delay(7) == 60000);
    assert forall|k: nat| k >= 7 implies #[trigger] spec_reconnect_delay(k) == 60000 by {
        lemma_reconnect_capped(k);
    }
}

proof fn lemma_reconnect_capped(k: nat)
    requires
        k >= 7,
    ensures
        spec_reconnect_delay(k) == 60000,
    decreases k,
{
    if k == 7 {
        reveal_with_fuel(spec_reconnect_delay, 8);
    } else {
        lemma_reconnect_capped((k - 1) as nat);
    }
}

/// The body of the handshake that opens a session: the protocol version and
/// the application id, the id as a string.
pub open spec fn handshake_body(app_id: i64) -> Seq<u8> {
    "{\"v\":".spec_bytes() + decimal_digits(RPC_VERSION as nat) + ",\"client_id\":\"".spec_bytes()
        + signed_decimal_digits(app_id as int) + "\"}".spec_bytes()
}

/// The handshake is short: it fits a frame whatever the application id.
pub proof fn lemma_handshake_fits(app_id: i64)
    ensures
        handshake_body(app_id).len() <= 42,
{
    reveal_strlit("{\"v\":");
    reveal_strlit(",\"client_id\":\"");
    reveal_strlit("\"}");
    vstd::utf8::is_ascii_chars_encode_utf8("{\"v\":"@);
    vstd::utf8::is_ascii_chars_encode_utf8(",\"client_id\":\""@);
    vstd::utf8::is_ascii_chars_encode_utf8("\"}"@);
    crate::util::lemma_decimal_digits_bounded(RPC_VERSION as u64);
    crate::util::lemma_signed_decimal_digits_bounded(app_id);
}

/// Writes the body of the handshake for the application `app_id`.
pub fn make_handshake_body(app_id: i64) -> (body: Vec<u8>)
    ensures
        body@ == handshake_body(app_id),
{
    let mut body: Vec<u8> = Vec::new();
    push_text(&mut body, "{\"v\":");
    push_decimal(RPC_VERSION as u64, &mut body);
    push_text(&mut body, ",\"client_id\":\"");
    push_signed_decimal(app_id, &mut body);
    push_text(&mut body, "\"}");
    assert(body@ =~= handshake_body(app_id));
    body
}

/// The body of a close frame: Discord's code and its reason, both optional.
#[derive(Debug, Clone, PartialEq, Eq)]
pub struct CloseFrame {
    pub code: Option<i32>,
    pub message: Option<String>,
}

impl CloseFrame {
    /// The reason that the error carries: Discord's message, or "unknown
    /// reason" where it sent none.
    pub open spec fn spec_reason(self) -> Seq<char> {
        match self.message {
            Some(m) => m@,
            None => "unknown reason"@,
        }
    }

    /// The error that ends the session: a close with Discord's reason.
    pub fn into_error(self) -> (e: Error)
        ensures
            e matches Error::Close(reason) && reason@ == self.spec_reason(),
    {
        match self.message {
            Some(m) => Error::Close(m),
            None => Error::Close("unknown reason".to_owned()),
        }
    }
}

/// Whether `r` is what reading `body` as a close frame gives: a JSON error
/// for a body that is no JSON, an invalid field for a code that is no 32-bit
/// integer or a message that is no string, else the two members.
pub open spec fn is_close_frame_of(body: Seq<u8>, r: Result<CloseFrame, Error>) -> bool {
    match json_error(body) {
        Some(reason) => r matches Err(Error::Json(text)) && text@ == reason,
        None => match spec_signed_member(body, "code"@) {
            Member::Mismatch => r matches Err(Error::InvalidField(k)) && k@ == "code"@,
            Member::Value(c) if c < i32::MIN || c > i32::MAX => r matches Err(
                Error::InvalidField(k),
            ) && k@ == "code"@,
            code => match spec_text_member(body, "message"@) {
                Member::Mismatch => r matches Err(Error::InvalidField(k)) && k@ == "message"@,
                message => {
                    &&& r matches Ok(frame)
                    &&& match code {
                        Member::Value(c) => frame.code == Some(c as i32),
                        _ => frame.code is None,
                    }
                    &&& match message {
                        Member::Value(t) => frame.message matches Some(m) && m@ == t,
                        _ => frame.message is None,
                    }
                },
            },
        },
    }
}

/// Reads the body of a close frame.
pub fn parse_close_frame(body: &[u8]) -> (r: Result<CloseFrame, Error>)
    ensures
        is_close_frame_of(body@, r),
{
    match check_json(body) {
        Err(e) => {
            return Err(e);
        },
        Ok(()) => {},
    }
    let code: Option<i32> = match signed_member(body, "code") {
        Err(e) => {
            return Err(e);
        },
        Ok(None) => None,
        Ok(Some(c)) => {
            if c < -2147483648i64 || c > 2147483647i64 {
                return Err(Error::InvalidField("code"));
            }
            Some(c as i32)
        },
    };
    let message = match text_member(body, "message") {
        Err(e) => {
            return Err(e);
        },
        Ok(m) => m,
    };
    Ok(CloseFrame { code, message })
}

/// What the I/O loop hands to the correlator.
#[derive(Debug, Clone)]
pub enum IoMsg {
    /// The session ended with this error.
    Disconnected(Error),
    /// The body of a frame with opcode FRAME.
    Frame(Vec<u8>),
}

/// What a received frame asks of the I/O loop.
#[derive(Debug, Clone)]
pub enum Dispatch {
    /// Hand the body to the correlator.
    Deliver(Vec<u8>),
    /// Put this frame on the send queue.
    Reply(Vec<u8>),
    /// Nothing: go on reading.
    Ignore,
    /// End the session with this error.
    Fail(Error),
}

/// Whether `d` is what a frame with opcode `op` and body `body` asks for.
///
/// A FRAME is delivered. A PING is answered with a PONG of the same body. A
/// PONG is ignored. A HANDSHAKE from the peer means the stream is corrupt. A
/// CLOSE ends the session with the reason that its body gives.
pub open spec fn is_dispatch_of(op: OpCode, body: Seq<u8>, d: Dispatch) -> bool {
    match op {
        OpCode::Frame => d matches Dispatch::Deliver(b) && b@ == body,
        OpCode::Ping => if body.len() <= u32::MAX {
            d matches Dispatch::Reply(m) && m@ == frame_bytes(OpCode::Pong, body)
        } else {
            d matches Dispatch::Fail(Error::CorruptConnection)
        },
        OpCode::Pong => d is Ignore,
        OpCode::Handshake => d matches Dispatch::Fail(Error::CorruptConnection),
        OpCode::Close => d matches Dispatch::Fail(e) && exists|r: Result<CloseFrame, Error>|
            #![auto]
            is_close_frame_of(body, r) && match r {
                Ok(frame) => e matches Error::Close(reason) && reason@ == frame.spec_reason(),
                Err(err) => e == err,
            },
    }
}

/// Decides what to do with a frame that has arrived whole.
pub fn dispatch_frame(op: OpCode, body: Vec<u8>) -> (d: Dispatch)
    ensures
        is_dispatch_of(op, body@, d),
{
    match op {
        OpCode::Frame => Dispatch::Deliver(body),
        OpCode::Ping => {
            if body.len() > 0xffff_ffff {
                Dispatch::Fail(Error::CorruptConnection)
            } else {
                Dispatch::Reply(make_message(OpCode::Pong, body.as_slice()))
            }
        },
        OpCode::Pong => Dispatch::Ignore,
        OpCode::Handshake => Dispatch::Fail(Error::CorruptConnection),
        OpCode::Close => {
            let r = parse_close_frame(body.as_slice());
            match r {
                Ok(frame) => {
                    let ghost shown = Ok::<CloseFrame, Error>(frame);
                    let e = frame.into_error();
                    assert(is_close_frame_of(body@, shown));
                    Dispatch::Fail(e)
                },
                Err(err) => {
                    let ghost shown = Err::<CloseFrame, Error>(err);
                    assert(is_close_frame_of(body@, shown));
                    Dispatch::Fail(err)
                },
            }
        },
    }
}

/// The bytes of an optional in-flight message that are still to be written.
pub open spec fn remaining_of(writing: Option<(Vec<u8>, usize)>) -> Option<Seq<u8>> {
    match writing {
        Some((message, cursor)) => Some(message@.skip(cursor as int)),
        None => None,
    }
}

/// One connected session: the frame in progress on the read side, and the
/// message in progress on the write side.
pub struct Session {
    reader: FrameReader,
    writing: Option<(Vec<u8>, usize)>,
}

/// What a read from the stream means for the I/O loop.
#[derive(Debug, Clone)]
pub enum ReadStep {
    /// The frame in progress is not whole yet.
    Pending,
    /// A frame arrived whole and asks for this.
    Frame(Dispatch),
}

impl Session {
    /// The reader is well-formed and an in-flight message has bytes left.
    pub closed spec fn wf(&self) -> bool {
        &&& self.reader.wf()
        &&& match self.writing {
            Some((message, cursor)) => cursor < message@.len(),
            None => true,
        }
    }

    /// The bytes of the frame in progress that have arrived.
    pub closed spec fn buffered(&self) -> Seq<u8> {
        self.reader@
    }

    /// The bytes of the message in flight that are still to be written.
    pub closed spec fn outbound(&self) -> Option<Seq<u8>> {
        remaining_of(self.writing)
    }

    /// Opens a session for the application `app_id`. Returns the session and
    /// the handshake frame, which goes on the send queue before anything
    /// else.
    pub fn open(app_id: i64) -> (r: (Session, Vec<u8>))
        ensures
            r.0.wf(),
            r.0.buffered() == Seq::<u8>::empty(),
            r.0.outbound() is None,
            r.1@ == frame_bytes(OpCode::Handshake, handshake_body(app_id)),
    {
        let body = make_handshake_body(app_id);
        proof {
            lemma_handshake_fits(app_id);
        }
        let frame = make_message(OpCode::Handshake, body.as_slice());
        (Session { reader: FrameReader::new(), writing: None }, frame)
    }

    /// How many bytes to ask the stream for next: what is missing of the
    /// header of the frame in progress, or of its body. A read of at most
    /// so many bytes is taken whole.
    pub fn read_size(&self) -> (n: usize)
        requires
            self.wf(),
        ensures
            n == wanted_after(self.buffered()),
            n >= 1,
    {
        self.reader.wanted()
    }

    /// Takes what a read returned. An empty read means that the peer closed
    /// the stream: no connection. Otherwise the bytes go to the frame in
    /// progress, up to its end; the first component says how many were taken.
    pub fn on_read(&mut self, chunk: &[u8]) -> (r: Result<(usize, ReadStep), Error>)
        requires
            old(self).wf(),
        ensures
            final(self).wf(),
            final(self).outbound() == old(self).outbound(),
            chunk@.len() == 0 ==> r matches Err(Error::NoConnection),
            chunk@.len() == 0 ==> final(self).buffered() == old(self).buffered(),
            chunk@.len() > 0 ==> match spec_decode(old(self).buffered() + chunk@) {
                Decoded::Incomplete => {
                    &&& r matches Ok((used, ReadStep::Pending))
                    &&& r->Ok_0.0 == chunk@.len()
                    &&& final(self).buffered() == old(self).buffered() + chunk@
                },
                Decoded::UnknownOpCode(code) => {
                    &&& r matches Err(Error::UnknownVariant { kind, value })
                    &&& r->Err_0->UnknownVariant_kind@ == "OpCode"@
                    &&& r->Err_0->UnknownVariant_value == code
                    &&& final(self).buffered() == Seq::<u8>::empty()
                },
                Decoded::Message { op, body, rest } => {
                    &&& r matches Ok((used, ReadStep::Frame(d)))
                    &&& r->Ok_0.0 == chunk@.len() - rest.len()
                    &&& is_dispatch_of(op, body, r->Ok_0.1->Frame_0)
                    &&& final(self).buffered() == Seq::<u8>::empty()
                },
            },
    {
        if chunk.len() == 0 {
            return Err(Error::NoConnection);
        }
        let (used, fed) = self.reader.feed(chunk);
        match fed {
            Err(e) => Err(e),
            Ok(None) => Ok((used, ReadStep::Pending)),
            Ok(Some((op, body))) => Ok((used, ReadStep::Frame(dispatch_frame(op, body)))),
        }
    }

    /// Whether the write side is free to take a message from the send queue.
    pub fn wants_message(&self) -> (b: bool)
        ensures
            b == (self.outbound() is None),
    {
        self.writing.is_none()
    }

    /// Takes what the send queue gave. The sentinel `None` asks for a clean
    /// shutdown and the result is `true`; a message becomes the one in
    /// flight. An empty message has nothing to write and leaves the write
    /// side free.
    pub fn on_message(&mut self, msg: Option<Vec<u8>>) -> (shutdown: bool)
        requires
            old(self).wf(),
            old(self).outbound() is None,
        ensures
            final(self).wf(),
            final(self).buffered() == old(self).buffered(),
            shutdown == (msg is None),
            match msg {
                Some(m) if m@.len() > 0 => final(self).outbound() == Some(m@),
                _ => final(self).outbound() is None,
            },
    {
        match msg {
            None => true,
            Some(m) => {
                if m.len() > 0 {
                    assert(m@.skip(0) =~= m@);
                    self.writing = Some((m, 0));
                }
                false
            },
        }
    }

    /// The bytes to hand to the next write: what is left of the message in
    /// flight.
    pub fn pending_write(&self) -> (r: Option<&[u8]>)
        requires
            self.wf(),
        ensures
            match r {
                Some(bytes) => self.outbound() == Some(bytes@) && bytes@.len() > 0,
                None => self.outbound() is None,
            },
    {
        match &self.writing {
            Some((message, cursor)) => {
                let rest = slice_subrange(message.as_slice(), *cursor, message.len());
                assert(rest@ =~= message@.skip(*cursor as int));
                Some(rest)
            },
            None => None,
        }
    }

    /// Notes that a write took `written` bytes. The message is dropped once
    /// all of it is written. A count beyond what was left is taken as all of
    /// it.
    pub fn on_written(&mut self, written: usize)
        requires
            old(self).wf(),
        ensures
            final(self).wf(),
            final(self).buffered() == old(self).buffered(),
            match old(self).outbound() {
                Some(left) => if written < left.len() {
                    final(self).outbound() == Some(left.skip(written as int))
                } else {
                    final(self).outbound() is None
                },
                None => final(self).outbound() is None,
            },
    {
        let mut taken: Option<(Vec<u8>, usize)> = None;
        core::mem::swap(&mut taken, &mut self.writing);
        match taken {
            Some((message, cursor)) => {
                let left: usize = message.len() - cursor;
                if written < left {
                    assert(message@.skip(cursor as int).skip(written as int) =~= message@.skip(
                        cursor + written,
                    ));
                    self.writing = Some((message, cursor + written));
                }
            },
            None => {},
        }
    }
}

/// Where a connection stands in its life.
#[derive(Clone, Copy, Debug, PartialEq, Eq, Structural)]
pub enum Phase {
    /// No stream is open; the next attempt is the first or follows a failed one.
    Connecting,
    /// A stream is open and the handshake is on its way.
    HandshakeSent,
    /// Discord has answered the handshake.
    Ready,
    /// A session was lost; the next attempt will follow.
    Reconnecting,
    /// The connection is over for good.
    Closed,
}

/// What the I/O loop does once a session has ended.
#[derive(Clone, Copy, Debug, PartialEq, Eq, Structural)]
pub enum AfterSession {
    /// Leave the loop.
    Exit,
    /// Sleep for so many milliseconds, then connect again.
    Reconnect { delay_ms: u64 },
}

/// The life of a connection: its phase and the backoff between attempts.
#[derive(Clone, Copy, Debug)]
pub struct Connection {
    phase: Phase,
    backoff: Backoff,
}

impl Connection {
    /// The backoff is in range.
    pub closed spec fn wf(&self) -> bool {
        self.backoff.wf()
    }

    /// The phase of the connection.
    pub closed spec fn spec_phase(&self) -> Phase {
        self.phase
    }

    /// The delay that the next failed attempt will be given, in milliseconds.
    pub closed spec fn spec_delay(&self) -> nat {
        self.backoff@
    }

    /// A connection that has not tried to connect yet.
    pub fn new() -> (c: Connection)
        ensures
            c.wf(),
            c.spec_phase() == Phase::Connecting,
            c.spec_delay() == spec_reconnect_delay(0),
    {
        Connection { phase: Phase::Connecting, backoff: Backoff::new() }
    }

    /// The phase of the connection.
    pub fn phase(&self) -> (p: Phase)
        ensures
            p == self.spec_phase(),
    {
        self.phase
    }

    /// Notes that no candidate could be opened. Returns how long to sleep
    /// before the next attempt; the phase stays as it is.
    pub fn on_connect_failed(&mut self) -> (delay_ms: u64)
        requires
            old(self).wf(),
        ensures
            final(self).wf(),
            final(self).spec_phase() == old(self).spec_phase(),
            delay_ms == old(self).spec_delay(),
            forall|k: nat|
                old(self).spec_delay() == spec_reconnect_delay(k) ==> final(self).spec_delay()
                    == #[trigger] spec_reconnect_delay(k + 1),
    {
        self.backoff.next_delay()
    }

    /// Notes that a stream was opened: the handshake goes out and the backoff
    /// starts over. A connection that is closed stays closed.
    pub fn on_connected(&mut self)
        ensures
            final(self).wf(),
            final(self).spec_phase() == if old(self).spec_phase() == Phase::Closed {
                Phase::Closed
            } else {
                Phase::HandshakeSent
            },
            final(self).spec_delay() == spec_reconnect_delay(0),
    {
        if self.phase != Phase::Closed {
            self.phase = Phase::HandshakeSent;
        }
        self.backoff.reset();
    }

    /// Notes that Discord answered the handshake. Only a connection whose
    /// handshake is out becomes ready.
    pub fn on_ready(&mut self)
        ensures
            final(self).wf() == old(self).wf(),
            final(self).spec_delay() == old(self).spec_delay(),
            final(self).spec_phase() == if old(self).spec_phase() == Phase::HandshakeSent {
                Phase::Ready
            } else {
                old(self).spec_phase()
            },
    {
        if self.phase == Phase::HandshakeSent {
            self.phase = Phase::Ready;
        }
    }

    /// Decides what follows the end of a session.
    ///
    /// `failure` is the error that ended it, `None` after a clean shutdown.
    /// `shutdown_queued` says whether the shutdown sentinel was among the
    /// messages drained from the send queue. A clean shutdown, a close by
    /// Discord and a queued shutdown end the connection, and one that is
    /// closed stays closed; any other failure is followed by a new attempt
    /// after the current delay.
    pub fn on_session_end(&mut self, failure: Option<&Error>, shutdown_queued: bool) -> (next:
        AfterSession)
        requires
            old(self).wf(),
        ensures
            final(self).wf(),
            final(self).spec_delay() == old(self).spec_delay(),
            match failure {
                Some(e) if !(e is Close) && !shutdown_queued && old(self).spec_phase()
                    != Phase::Closed => {
                    &&& next == (AfterSession::Reconnect { delay_ms: old(self).spec_delay() as u64 })
                    &&& final(self).spec_phase() == Phase::Reconnecting
                },
                _ => next == AfterSession::Exit && final(self).spec_phase() == Phase::Closed,
            },
    {
        let terminal: bool = match failure {
            None => true,
            Some(Error::Close(_)) => true,
            Some(_) => shutdown_queued || self.phase == Phase::Closed,
        };
        if terminal {
            self.phase = Phase::Closed;
            AfterSession::Exit
        } else {
            self.phase = Phase::Reconnecting;
            AfterSession::Reconnect { delay_ms: self.backoff.delay_ms }
        }
    }
}

/// The message that tells the correlator how a session ended, if it ended
/// with an error.
pub fn disconnect_message(failure: Option<Error>) -> (msg: Option<IoMsg>)
    ensures
        match failure {
            Some(e) => msg == Some(IoMsg::Disconnected(e)),
            None => msg is None,
        },
{
    match failure {
        Some(e) => Some(IoMsg::Disconnected(e)),
        None => None,
    }
}

/// How many socket names are tried: `discord-ipc-0` to `discord-ipc-9`.
pub const SOCKET_CANDIDATES: u64 = 10;

/// The most messages that the send queue holds.
pub const SEND_QUEUE_CAPACITY: usize = 100;

/// The directory that holds the sockets on Unix: the first of the four
/// settings that is there, else `/tmp`.
pub open spec fn spec_runtime_dir(
    xdg_runtime_dir: Option<String>,
    tmpdir: Option<String>,
    tmp: Option<String>,
    temp: Option<String>,
) -> Seq<char> {
    match xdg_runtime_dir {
        Some(d) => d@,
        None => match tmpdir {
            Some(d) => d@,
            None => match tmp {
                Some(d) => d@,
                None => match temp {
                    Some(d) => d@,
                    None => "/tmp"@,
                },
            },
        },
    }
}

/// Picks the directory that holds the sockets on Unix from the values of
/// `XDG_RUNTIME_DIR`, `TMPDIR`, `TMP` and `TEMP`, in that order.
pub fn runtime_dir(
    xdg_runtime_dir: Option<String>,
    tmpdir: Option<String>,
    tmp: Option<String>,
    temp: Option<String>,
) -> (dir: String)
    ensures
        dir@ == spec_runtime_dir(xdg_runtime_dir, tmpdir, tmp, temp),
{
    match xdg_runtime_dir {
        Some(d) => d,
        None => match tmpdir {
            Some(d) => d,
            None => match tmp {
                Some(d) => d,
                None => match temp {
                    Some(d) => d,
                    None => "/tmp".to_owned(),
                },
            },
        },
    }
}

/// The text in front of the instance number in a socket's name: the
/// directory and `/discord-ipc-` on Unix, the pipe namespace on Windows.
pub open spec fn socket_prefix(dir: Seq<char>, windows: bool) -> Seq<char> {
    if windows {
        "\\\\?\\pipe\\discord-ipc-"@
    } else {
        dir + "/discord-ipc-"@
    }
}

/// Whether `paths` are the candidates to try, in order: the pinned instance
/// alone where one is pinned, else the instances 0 to 9.
pub open spec fn is_socket_candidates(
    dir: Seq<char>,
    windows: bool,
    pinned: Option<Seq<char>>,
    paths: Seq<Seq<char>>,
) -> bool {
    match pinned {
        Some(id) => paths == seq![socket_prefix(dir, windows) + id],
        None => {
            &&& paths.len() == 10
            &&& forall|n: int|
                0 <= n < 10 ==> #[trigger] paths[n] == socket_prefix(dir, windows) + decimal_text(
                    n as nat,
                )
        },
    }
}

/// The texts of a list of names.
pub open spec fn texts_of(paths: Seq<String>) -> Seq<Seq<char>> {
    paths.map_values(|p: String| p@)
}

fn socket_path(dir: &str, windows: bool) -> (path: String)
    ensures
        path@ == socket_prefix(dir@, windows),
{
    if windows {
        "\\\\?\\pipe\\discord-ipc-".to_owned()
    } else {
        let mut path = dir.to_owned();
        path.append("/discord-ipc-");
        path
    }
}

/// Lists the names of the sockets to try, in order. `dir` is the runtime
/// directory, which only Unix uses; `pinned` is the value of
/// `DISCORD_INSTANCE_ID`, which limits the search to that one instance.
pub fn socket_candidates(dir: &str, windows: bool, pinned: Option<&str>) -> (paths: Vec<String>)
    ensures
        is_socket_candidates(
            dir@,
            windows,
            match pinned {
                Some(id) => Some(id@),
                None => None,
            },
            texts_of(paths@),
        ),
{
    let mut paths: Vec<String> = Vec::new();
    match pinned {
        Some(id) => {
            let mut path = socket_path(dir, windows);
            path.append(id);
            paths.push(path);
            assert(texts_of(paths@) =~= seq![socket_prefix(dir@, windows) + id@]);
        },
        None => {
            let mut n: u64 = 0;
            while n < 10
                invariant
                    0 <= n <= 10,
                    paths@.len() == n,
                    forall|k: int|
                        0 <= k < n ==> (#[trigger] paths@[k])@ == socket_prefix(dir@, windows)
                            + decimal_text(k as nat),
                decreases 10 - n,
            {
                let mut path = socket_path(dir, windows);
                push_decimal_text(n, &mut path);
                paths.push(path);
                n += 1;
            }
            assert forall|k: int| 0 <= k < 10 implies #[trigger] texts_of(paths@)[k]
                == socket_prefix(dir@, windows) + decimal_text(k as nat) by {
                assert(texts_of(paths@)[k] == paths@[k]@);
            }
        },
    }
    paths
}

/// Whether `i` is the place of the first shutdown sentinel among `pending`.
pub open spec fn is_first_sentinel(pending: Seq<Option<Vec<u8>>>, i: int) -> bool {
    &&& 0 <= i < pending.len()
    &&& pending[i] is None
    &&& forall|j: int| 0 <= j < i ==> (#[trigger] pending[j]) is Some
}

/// The queue of frames on their way to the stream: first in, first out, and
/// never more than its capacity. `None` in the queue is the shutdown
/// sentinel; once it has been taken out, the queue is closed and gives and
/// takes nothing more.
pub struct SendQueue {
    items: std::collections::VecDeque<Option<Vec<u8>>>,
    closed: bool,
}

impl SendQueue {
    /// The queue is within its capacity.
    pub closed spec fn wf(&self) -> bool {
        self.items@.len() <= SEND_QUEUE_CAPACITY
    }

    /// What waits in the queue, oldest first.
    pub closed spec fn pending(&self) -> Seq<Option<Vec<u8>>> {
        self.items@
    }

    /// Whether the queue is closed: the shutdown sentinel has been taken
    /// out, or the I/O loop has ended.
    pub closed spec fn is_closed(&self) -> bool {
        self.closed
    }

    /// An empty, open queue.
    pub fn new() -> (q: SendQueue)
        ensures
            q.wf(),
            q.pending() == Seq::<Option<Vec<u8>>>::empty(),
            !q.is_closed(),
    {
        SendQueue { items: std::collections::VecDeque::new(), closed: false }
    }

    /// How many messages wait.
    pub fn len(&self) -> (n: usize)
        ensures
            n == self.pending().len(),
    {
        self.items.len()
    }

    /// Whether the queue is open and holds as many messages as it can: a
    /// send would then report that it is full.
    pub fn is_full(&self) -> (full: bool)
        ensures
            full == (!self.is_closed() && self.pending().len() >= SEND_QUEUE_CAPACITY),
    {
        !self.closed && self.items.len() >= SEND_QUEUE_CAPACITY
    }

    /// Puts a message, or the sentinel, at the end of the queue. A closed
    /// queue reports that no connection is there; a full one that it is
    /// full. In both cases the queue stays as it was.
    pub fn send(&mut self, msg: Option<Vec<u8>>) -> (r: Result<(), Error>)
        requires
            old(self).wf(),
        ensures
            final(self).wf(),
            final(self).is_closed() == old(self).is_closed(),
            if old(self).is_closed() {
                r matches Err(Error::NoConnection) && final(self).pending() == old(self).pending()
            } else if old(self).pending().len() >= SEND_QUEUE_CAPACITY {
                r matches Err(Error::ChannelFull) && final(self).pending() == old(self).pending()
            } else {
                r is Ok && final(self).pending() == old(self).pending().push(msg)
            },
    {
        if self.closed {
            return Err(Error::NoConnection);
        }
        if self.items.len() >= SEND_QUEUE_CAPACITY {
            return Err(Error::ChannelFull);
        }
        self.items.push_back(msg);
        Ok(())
    }

    /// Closes the queue: the I/O loop has ended, and nothing takes a
    /// message out any more.
    pub fn close(&mut self)
        requires
            old(self).wf(),
        ensures
            final(self).wf(),
            final(self).is_closed(),
            final(self).pending() == old(self).pending(),
    {
        self.closed = true;
    }

    /// Takes the oldest message out. `None` means that nothing waits or that
    /// the queue is closed; `Some(None)` is the sentinel, and taking it
    /// closes the queue.
    pub fn try_recv(&mut self) -> (r: Option<Option<Vec<u8>>>)
        requires
            old(self).wf(),
        ensures
            final(self).wf(),
            if old(self).is_closed() || old(self).pending().len() == 0 {
                &&& r is None
                &&& final(self).pending() == old(self).pending()
                &&& final(self).is_closed() == old(self).is_closed()
            } else {
                &&& r == Some(old(self).pending()[0])
                &&& final(self).pending() == old(self).pending().skip(1)
                &&& final(self).is_closed() == (old(self).pending()[0] is None)
            },
    {
        if self.closed {
            return None;
        }
        match self.items.pop_front() {
            None => None,
            Some(msg) => {
                if msg.is_none() {
                    self.closed = true;
                }
                assert(self.items@ =~= old(self).items@.skip(1));
                Some(msg)
            },
        }
    }

    /// Empties the queue after a failed session, so that stale frames do not
    /// reach the next one. Returns whether the sentinel was met; messages
    /// behind the sentinel stay, in a queue that is then closed.
    pub fn drain(&mut self) -> (shutdown: bool)
        requires
            old(self).wf(),
        ensures
            final(self).wf(),
            old(self).is_closed() ==> !shutdown && final(self).pending() == old(self).pending()
                && final(self).is_closed(),
            !old(self).is_closed() ==> {
                &&& shutdown == exists|i: int|
                    0 <= i < old(self).pending().len() && old(self).pending()[i] is None
                &&& final(self).is_closed() == shutdown
                &&& !shutdown ==> final(self).pending().len() == 0
                &&& shutdown ==> exists|i: int| #[trigger]
                    is_first_sentinel(old(self).pending(), i) && final(self).pending() == old(
                        self,
                    ).pending().skip(i + 1)
            },
    {
        if self.closed {
            return false;
        }
        let ghost before = self.items@;
        let mut taken: usize = 0;
        while self.items.len() > 0
            invariant
                !self.closed,
                !old(self).closed,
                before == old(self).items@,
                taken + self.items@.len() == before.len(),
                self.items@ == before.skip(taken as int),
                before.len() <= SEND_QUEUE_CAPACITY,
                forall|j: int| 0 <= j < taken ==> before[j] is Some,
            decreases self.items@.len(),
        {
            let msg = self.items.pop_front();
            assert(self.items@ =~= before.skip(taken + 1));
            match msg {
                Some(None) => {
                    self.closed = true;
                    assert(before[taken as int] is None);
                    assert(is_first_sentinel(before, taken as int));
                    return true;
                },
                _ => {},
            }
            taken += 1;
        }
        false
    }
}

} // verus!
