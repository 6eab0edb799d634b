//! Reading members out of JSON bodies. The JSON grammar itself is left to
//! `serde_json`; what it makes of a text is named here and not restated.

use vstd::prelude::*;
use crate::error::Error;
use crate::types::opt_text;

verus! {

/// What `serde_json` finds wrong with `doc` as a JSON text, in its own words,
/// or `None` where the text reads as one JSON value.
pub uninterp spec fn json_error(doc: Seq<u8>) -> Option<Seq<char>>;

/// The member `key` of the JSON object `doc`, written out again as compact
/// JSON. `None` where `doc` is no JSON object, has no such member, or holds
/// `null` there.
pub uninterp spec fn json_member(doc: Seq<u8>, key: Seq<char>) -> Option<Seq<u8>>;

/// The text that `doc` holds where it is one JSON string, with its escapes
/// resolved.
pub uninterp spec fn json_text(doc: Seq<u8>) -> Option<Seq<char>>;

/// The number that `doc` holds where it is one JSON integer from 0 to 2^64-1.
pub uninterp spec fn json_unsigned(doc: Seq<u8>) -> Option<u64>;

/// The number that `doc` holds where it is one JSON integer from -2^63 to
/// 2^63-1.
pub uninterp spec fn json_signed(doc: Seq<u8>) -> Option<i64>;

/// The bytes of an optional buffer.
pub open spec fn opt_bytes(b: Option<Vec<u8>>) -> Option<Seq<u8>> {
    match b {
        Some(b) => Some(b@),
        None => None,
    }
}

/// Calls `serde_json::from_slice` to read `doc` as any JSON value and hands
/// back the text of its error, if it gave one. The claim is only that the
/// outcome is a function of the bytes.
#[verifier::external_body]
pub(crate) fn parse_error(doc: &[u8]) -> (r: Option<String>)
    ensures
        opt_text(r) == json_error(doc@),
{
    match serde_json::from_slice::<serde_json::Value>(doc) {
        Ok(_) => None,
        Err(e) => Some(e.to_string()),
    }
}

/// Reads `doc` with `serde_json::from_slice`, looks `key` up with
/// `Value::get` and writes what was found with `serde_json::to_vec`. A
/// missing member and a `null` both give `None`. The claim is only that the
/// outcome is a function of the bytes and the key.
#[verifier::external_body]
pub(crate) fn member(doc: &[u8], key: &str) -> (r: Option<Vec<u8>>)
    ensures
        opt_bytes(r) == json_member(doc@, key@),
{
    let value: serde_json::Value = serde_json::from_slice(doc).ok()?;
    match value.get(key) {
        None | Some(serde_json::Value::Null) => None,
        Some(found) => serde_json::to_vec(found).ok(),
    }
}

/// Calls `serde_json::from_slice` to read `doc` as a `String`.
#[verifier::external_body]
pub(crate) fn text(doc: &[u8]) -> (r: Option<String>)
    ensures
        opt_text(r) == json_text(doc@),
{
    serde_json::from_slice::<String>(doc).ok()
}

/// Calls `serde_json::from_slice` to read `doc` as a `u64`.
#[verifier::external_body]
pub(crate) fn unsigned(doc: &[u8]) -> (r: Option<u64>)
    ensures
        r == json_unsigned(doc@),
{
    serde_json::from_slice::<u64>(doc).ok()
}

/// Calls `serde_json::from_slice` to read `doc` as an `i64`.
#[verifier::external_body]
pub(crate) fn signed(doc: &[u8]) -> (r: Option<i64>)
    ensures
        r == json_signed(doc@),
{
    serde_json::from_slice::<i64>(doc).ok()
}

/// What an optional member of a JSON object holds, read as the type `T`.
pub enum Member<T> {
    /// The member is missing or `null`.
    Absent,
    /// The member holds a value of the type.
    Value(T),
    /// The member holds something else.
    Mismatch,
}

/// The text member `key` of `doc`.
pub open spec fn spec_text_member(doc: Seq<u8>, key: Seq<char>) -> Member<Seq<char>> {
    match json_member(doc, key) {
        None => Member::Absent,
        Some(m) => match json_text(m) {
            Some(t) => Member::Value(t),
            None => Member::Mismatch,
        },
    }
}

/// The unsigned integer member `key` of `doc`.
pub open spec fn spec_unsigned_member(doc: Seq<u8>, key: Seq<char>) -> Member<u64> {
    match json_member(doc, key) {
        None => Member::Absent,
        Some(m) => match json_unsigned(m) {
            Some(n) => Member::Value(n),
            None => Member::Mismatch,
        },
    }
}

/// The signed integer member `key` of `doc`.
pub open spec fn spec_signed_member(doc: Seq<u8>, key: Seq<char>) -> Member<i64> {
    match json_member(doc, key) {
        None => Member::Absent,
        Some(m) => match json_signed(m) {
            Some(n) => Member::Value(n),
            None => Member::Mismatch,
        },
    }
}

/// Reads the optional text member `key` of the JSON object `doc`: `Ok(None)`
/// where it is missing or `null`, and an invalid field where it holds
/// anything but a string.
pub fn text_member(doc: &[u8], key: &'static str) -> (r: Result<Option<String>, Error>)
    ensures
        match spec_text_member(doc@, key@) {
            Member::Absent => r matches Ok(None),
            Member::Value(t) => r matches Ok(Some(s)) && s@ == t,
            Member::Mismatch => r matches Err(Error::InvalidField(k)) && k@ == key@,
        },
{
    match member(doc, key) {
        None => Ok(None),
        Some(m) => match text(m.as_slice()) {
            Some(s) => Ok(Some(s)),
            None => Err(Error::InvalidField(key)),
        },
    }
}

/// Reads the optional unsigned integer member `key` of the JSON object `doc`.
pub fn unsigned_member(doc: &[u8], key: &'static str) -> (r: Result<Option<u64>, Error>)
    ensures
        match spec_unsigned_member(doc@, key@) {
            Member::Absent => r matches Ok(None),
            Member::Value(n) => r matches Ok(Some(v)) && v == n,
            Member::Mismatch => r matches Err(Error::InvalidField(k)) && k@ == key@,
        },
{
    match member(doc, key) {
        None => Ok(None),
        Some(m) => match unsigned(m.as_slice()) {
            Some(n) => Ok(Some(n)),
            None => Err(Error::InvalidField(key)),
        },
    }
}

/// Reads the optional signed integer member `key` of the JSON object `doc`.
pub fn signed_member(doc: &[u8], key: &'static str) -> (r: Result<Option<i64>, Error>)
    ensures
        match spec_signed_member(doc@, key@) {
            Member::Absent => r matches Ok(None),
            Member::Value(n) => r matches Ok(Some(v)) && v == n,
            Member::Mismatch => r matches Err(Error::InvalidField(k)) && k@ == key@,
        },
{
    match member(doc, key) {
        None => Ok(None),
        Some(m) => match signed(m.as_slice()) {
            Some(n) => Ok(Some(n)),
            None => Err(Error::InvalidField(key)),
        },
    }
}

/// Checks that `doc` is one JSON value; the error carries what the parser
/// said otherwise.
pub fn check_json(doc: &[u8]) -> (r: Result<(), Error>)
    ensures
        match json_error(doc@) {
            None => r is Ok,
            Some(reason) => r matches Err(Error::Json(text)) && text@ == reason,
        },
{
    match parse_error(doc) {
        None => Ok(()),
        Some(reason) => Err(Error::Json(reason)),
    }
}

} // verus!
