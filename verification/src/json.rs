//! The trusted boundary to the `serde_json` crate.
//!
//! JSON payloads (request params, result and error payloads) are opaque to
//! this library: it carries them through without reading their structure.
//! They are held as `serde_json::Value`, declared here as an external type,
//! and every call into `serde_json` goes through one of the wrappers below.
//!
//! What each call returns is deterministic — a function of its arguments
//! alone: escaping follows a fixed table, parsing reads only the given
//! bytes, objects are `BTreeMap`-backed (this build has no
//! `preserve_order`), so member lookup and rendering depend only on the
//! value. Those results would take pages to restate, so each is given a
//! name below (`json_quoted`, `json_text_of`, `parsed_json`, ...), and the
//! wrapper's contract ties its return value to that name. The contracts of
//! the envelope functions then speak of the same names exactly.

use vstd::prelude::*;

verus! {

/// `serde_json::Value`: an arbitrary JSON document. Opaque to this
/// library; carried through verbatim as a request or response payload.
#[verifier::external_type_specification]
#[verifier::external_body]
pub struct ExValue(serde_json::Value);

/// `serde_json::Error`: the error type of `serde_json`'s encoding and
/// decoding entry points. Opaque; surfaced inside
/// [`crate::error::ClientError`].
#[verifier::external_type_specification]
#[verifier::external_body]
pub struct ExJsonError(serde_json::Error);

/// The JSON string literal that encodes the character sequence `s`:
/// opening quote, the characters of `s` with JSON escaping applied,
/// closing quote. A function of the characters alone.
pub uninterp spec fn json_quoted(s: Seq<char>) -> Seq<char>;

/// The JSON text that renders the value `v`. A function of the value
/// alone.
pub uninterp spec fn json_text_of(v: serde_json::Value) -> Seq<char>;

/// The one JSON document the bytes spell, or `None` when they do not
/// spell one. A function of the bytes alone.
pub uninterp spec fn parsed_json(bytes: Seq<u8>) -> Option<serde_json::Value>;

/// Whether the value is a JSON object.
pub uninterp spec fn is_json_object(v: serde_json::Value) -> bool;

/// The member of the object `v` under the key `key`, or `None` when `v`
/// is not an object or has no such member.
pub uninterp spec fn json_member(v: serde_json::Value, key: Seq<char>) -> Option<serde_json::Value>;

/// The value as an unsigned 64-bit integer, or `None` when it is not an
/// integer representable in a `u64`.
pub uninterp spec fn json_u64_of(v: serde_json::Value) -> Option<u64>;

/// The value's characters when it is a JSON string, `None` otherwise.
pub uninterp spec fn json_string_of(v: serde_json::Value) -> Option<Seq<char>>;

/// Relies on `serde_json::to_string` applied to a `&str`: the JSON
/// encoding of a string is its quoted, escaped form — a fixed escape
/// table applied to the characters alone — named [`json_quoted`]. The
/// call cannot fail: string serialization only writes, and the writer is
/// a `Vec`, whose writes are infallible.
#[verifier::external_body]
pub(crate) fn quote_json_string(s: &str) -> (r: Result<String, serde_json::Error>)
    ensures
        r is Ok,
        r matches Ok(q) ==> q@ == json_quoted(s@),
{
    serde_json::to_string(s)
}

/// Relies on `serde_json::to_string` applied to a `serde_json::Value`:
/// renders the value as JSON text, named [`json_text_of`]. The call
/// cannot fail: every key of a `Value` object is a `String`, `Value`'s
/// `Serialize` never rejects, and the writer is a `Vec`, whose writes are
/// infallible.
#[verifier::external_body]
pub(crate) fn value_to_json_text(v: &serde_json::Value) -> (r: Result<String, serde_json::Error>)
    ensures
        r is Ok,
        r matches Ok(t) ==> t@ == json_text_of(*v),
{
    serde_json::to_string(v)
}

/// Relies on `serde_json::from_slice`: parses the bytes as one JSON
/// document — reading nothing but the bytes, so the outcome is named
/// [`parsed_json`] — or reports why they are not one.
#[verifier::external_body]
pub(crate) fn parse_json(bytes: &[u8]) -> (r: Result<serde_json::Value, serde_json::Error>)
    ensures
        match r {
            Ok(doc) => parsed_json(bytes@) == Some(doc),
            Err(_) => parsed_json(bytes@) is None,
        },
{
    serde_json::from_slice(bytes)
}

/// Relies on `serde_json::Value::is_object`: whether the value is a JSON
/// object, named [`is_json_object`].
#[verifier::external_body]
pub(crate) fn json_is_object(v: &serde_json::Value) -> (r: bool)
    ensures
        r == is_json_object(*v),
{
    v.is_object()
}

/// Relies on `serde_json::Value::get` with a string index: the member of
/// the JSON object under that key, named [`json_member`]; `None` when the
/// value is not an object or has no such member.
#[verifier::external_body]
pub(crate) fn json_get<'a>(v: &'a serde_json::Value, key: &str) -> (r: Option<
    &'a serde_json::Value,
>)
    ensures
        match r {
            Some(m) => json_member(*v, key@) == Some(*m),
            None => json_member(*v, key@) is None,
        },
{
    v.get(key)
}

/// Relies on `serde_json::Value::as_u64`: the value as an unsigned
/// integer when it is one, named [`json_u64_of`].
#[verifier::external_body]
pub(crate) fn json_as_u64(v: &serde_json::Value) -> (r: Option<u64>)
    ensures
        r == json_u64_of(*v),
{
    v.as_u64()
}

/// Relies on `serde_json::Value::as_str`: the value's characters when it
/// is a JSON string, named [`json_string_of`]; `str::to_owned` only
/// copies them.
#[verifier::external_body]
pub(crate) fn json_as_string(v: &serde_json::Value) -> (r: Option<String>)
    ensures
        match r {
            Some(s) => json_string_of(*v) matches Some(cs) && s@ == cs,
            None => json_string_of(*v) is None,
        },
{
    match v.as_str() {
        Some(s) => Some(s.to_owned()),
        None => None,
    }
}

/// Relies on `serde_json::Value::clone` (a derived `Clone`): returns a
/// value equal to the one cloned.
#[verifier::external_body]
pub(crate) fn clone_value(v: &serde_json::Value) -> (r: serde_json::Value)
    ensures
        r == *v,
{
    v.clone()
}

} // verus!
