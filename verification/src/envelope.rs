//! Request and response envelopes: serialization, parsing, validation.
//!
//! A request envelope is rendered to the exact JSON-RPC 2.0 wire text
//! stated by [`spec_request_text`]: the frame, the id and the "2.0"
//! marker are this library's own, the quoted method name and the params
//! text are `serde_json`'s, tied in by name. A response body is parsed
//! into a [`Response`] whose fields are exactly what the parsed document
//! holds (see [`envelope_of`]), and then validated in a fixed order:
//! protocol-version marker first, id correlation second, server error
//! payload third.

use vstd::prelude::*;
use vstd::string::StringExecFns;
use crate::decimal::{decimal_chars, decimal_string};
use crate::error::{ClientError, SerializationFault};
use crate::json::{
    clone_value, is_json_object, json_as_string, json_as_u64, json_get, json_is_object,
    json_member, json_quoted, json_string_of, json_text_of, json_u64_of, parse_json, parsed_json,
    quote_json_string, value_to_json_text,
};

verus! {

/// A JSON-RPC request envelope: built once per call, immutable, never
/// reused. The id comes from the session's nonce; the protocol-version
/// marker is always "2.0".
#[derive(Debug, PartialEq)]
pub struct Request {
    /// The name of the remote method.
    pub method: String,
    /// The parameter payload, carried verbatim; its shape is not read.
    pub params: serde_json::Value,
    /// The correlation id issued for this request.
    pub id: u64,
    /// The protocol-version marker; always "2.0" on a built request.
    pub jsonrpc: Option<String>,
}

/// A JSON-RPC response envelope, as far as this client reads it: the
/// correlation id (`None` when absent, null, or not an unsigned integer),
/// the optional protocol-version marker, and the result and error
/// payloads, carried verbatim.
#[derive(Debug)]
pub struct Response {
    /// The id the server answered with, when it is an unsigned integer.
    pub id: Option<u64>,
    /// The protocol-version marker, when present.
    pub jsonrpc: Option<String>,
    /// The result payload, when present.
    pub result: Option<serde_json::Value>,
    /// The error payload, when present.
    pub error: Option<serde_json::Value>,
}

/// The wire text of a request envelope whose quoted method name is
/// `method_quoted`, whose params render as `params_text`, and whose id is
/// `id`: the JSON-RPC 2.0 object with members in the fixed order method,
/// params, id, jsonrpc.
pub open spec fn spec_request_text(method_quoted: Seq<char>, params_text: Seq<char>, id: u64) -> Seq<
    char,
> {
    "{\"method\":"@ + method_quoted + ",\"params\":"@ + params_text + ",\"id\":"@ + decimal_chars(
        id as nat,
    ) + ",\"jsonrpc\":\"2.0\"}"@
}

/// Renders the request envelope text from its already-rendered pieces.
fn render_request(method_quoted: &str, params_text: &str, id: u64) -> (r: String)
    ensures
        r@ == spec_request_text(method_quoted@, params_text@, id),
{
    let mut out = String::new();
    out.append("{\"method\":");
    out.append(method_quoted);
    out.append(",\"params\":");
    out.append(params_text);
    out.append(",\"id\":");
    let digits = decimal_string(id);
    out.append(digits.as_str());
    out.append(",\"jsonrpc\":\"2.0\"}");
    proof {
        assert(out@ =~= spec_request_text(method_quoted@, params_text@, id));
    }
    out
}

/// Serializes a request envelope to its wire text: exactly the quoted,
/// escaped method name, the params payload rendered verbatim by
/// `serde_json`, the id in decimal, and the "2.0" marker, framed as
/// [`spec_request_text`] states. Serialization cannot fail — neither a
/// string nor a `serde_json::Value` can refuse to encode — so every
/// built request serializes.
pub fn serialize_request(req: &Request) -> (text: String)
    requires
        req.jsonrpc matches Some(v) && v@ == "2.0"@,
    ensures
        text@ == spec_request_text(json_quoted(req.method@), json_text_of(req.params), req.id),
{
    let method_quoted = match quote_json_string(req.method.as_str()) {
        Ok(q) => q,
        Err(_) => unreached(),
    };
    let params_text = match value_to_json_text(&req.params) {
        Ok(t) => t,
        Err(_) => unreached(),
    };
    render_request(method_quoted.as_str(), params_text.as_str(), req.id)
}

/// Whether the parsed document has the shape of a response envelope: a
/// JSON object whose "jsonrpc" member, when present, is a string.
pub open spec fn envelope_shape_ok(doc: serde_json::Value) -> bool {
    &&& is_json_object(doc)
    &&& (json_member(doc, "jsonrpc"@) matches Some(m) ==> json_string_of(m) is Some)
}

/// The id a response envelope reads from the document: the "id" member as
/// an unsigned integer, `None` when the member is absent, null, or not
/// such an integer.
pub open spec fn doc_id(doc: serde_json::Value) -> Option<u64> {
    match json_member(doc, "id"@) {
        Some(m) => json_u64_of(m),
        None => None,
    }
}

/// Whether `resp` is the envelope the document `doc` spells: the id read
/// as [`doc_id`], the version marker's characters when the member is
/// present, and the result and error payloads verbatim.
pub open spec fn envelope_of(resp: Response, doc: serde_json::Value) -> bool {
    &&& resp.id == doc_id(doc)
    &&& match json_member(doc, "jsonrpc"@) {
        Some(m) => resp.jsonrpc matches Some(s) && json_string_of(m) == Some(s@),
        None => resp.jsonrpc is None,
    }
    &&& resp.result == json_member(doc, "result"@)
    &&& resp.error == json_member(doc, "error"@)
}

/// Parses a response body into a [`Response`] envelope.
///
/// Returns the envelope the body spells — fields exactly as
/// [`envelope_of`] states — when the body is one JSON document of
/// envelope shape. Otherwise a serialization error, stating which: the
/// `serde_json` error when the bytes are not one JSON document, the
/// envelope fault when the document is not a JSON-RPC response object
/// (not an object, or a non-string version marker). Each outcome occurs
/// exactly on the inputs said.
pub fn parse_response(body: &[u8]) -> (r: Result<Response, ClientError>)
    ensures
        match r {
            Ok(resp) => {
                &&& parsed_json(body@) is Some
                &&& envelope_shape_ok(parsed_json(body@)->Some_0)
                &&& envelope_of(resp, parsed_json(body@)->Some_0)
            },
            Err(e) => match e {
                ClientError::Serialization(f) => match f {
                    SerializationFault::Json(_) => parsed_json(body@) is None,
                    SerializationFault::Envelope => parsed_json(body@) matches Some(doc)
                        && !envelope_shape_ok(doc),
                },
                _ => false,
            },
        },
{
    let doc = match parse_json(body) {
        Ok(v) => v,
        Err(e) => {
            return Err(ClientError::Serialization(SerializationFault::Json(e)));
        },
    };
    if !json_is_object(&doc) {
        return Err(ClientError::Serialization(SerializationFault::Envelope));
    }
    let id: Option<u64> = match json_get(&doc, "id") {
        Some(v) => json_as_u64(v),
        None => None,
    };
    let jsonrpc: Option<String> = match json_get(&doc, "jsonrpc") {
        Some(v) => match json_as_string(v) {
            Some(s) => Some(s),
            None => {
                return Err(ClientError::Serialization(SerializationFault::Envelope));
            },
        },
        None => None,
    };
    let result: Option<serde_json::Value> = match json_get(&doc, "result") {
        Some(v) => Some(clone_value(v)),
        None => None,
    };
    let error: Option<serde_json::Value> = match json_get(&doc, "error") {
        Some(v) => Some(clone_value(v)),
        None => None,
    };
    Ok(Response { id, jsonrpc, result, error })
}

/// Whether a response's protocol-version marker is acceptable: absent, or
/// exactly "2.0".
pub open spec fn version_ok(resp: Response) -> bool {
    match resp.jsonrpc {
        Some(v) => v@ == "2.0"@,
        None => true,
    }
}

/// Whether a response correlates with the request of id `req_id`: its id
/// is present and exactly equal.
pub open spec fn id_ok(resp: Response, req_id: u64) -> bool {
    resp.id == Some(req_id)
}

/// What validation returns: version mismatch is reported first, id
/// mismatch second, and only a response that passes both is accepted.
pub open spec fn spec_validate(req_id: u64, resp: Response) -> Result<(), ClientError> {
    if !version_ok(resp) {
        Err(ClientError::VersionMismatch)
    } else if !id_ok(resp, req_id) {
        Err(ClientError::NonceMismatch)
    } else {
        Ok(())
    }
}

/// Validates a response against the id of the request it must answer, in
/// the fixed order given by [`spec_validate`]: the protocol-version check
/// comes before the id-correlation check. The HTTP status never takes
/// part: the JSON body is the sole source of truth.
pub fn validate_response(req_id: u64, resp: &Response) -> (r: Result<(), ClientError>)
    ensures
        r == spec_validate(req_id, *resp),
{
    match &resp.jsonrpc {
        Some(v) => {
            let expected: String = "2.0".to_owned();
            if !(*v == expected) {
                return Err(ClientError::VersionMismatch);
            }
        },
        None => {},
    }
    match resp.id {
        Some(id) => {
            if id != req_id {
                return Err(ClientError::NonceMismatch);
            }
        },
        None => {
            return Err(ClientError::NonceMismatch);
        },
    }
    Ok(())
}

/// What unwrapping a validated response returns: the server's error
/// payload verbatim when one is present — never a result in that case —
/// and the result payload (absent allowed) otherwise.
pub open spec fn spec_into_result(resp: Response) -> Result<
    Option<serde_json::Value>,
    ClientError,
> {
    match resp.error {
        Some(e) => Err(ClientError::Rpc(e)),
        None => Ok(resp.result),
    }
}

impl Response {
    /// Unwraps a validated response into the result payload the caller
    /// asked for, or the server's error payload verbatim.
    pub fn into_result(self) -> (r: Result<Option<serde_json::Value>, ClientError>)
        ensures
            r == spec_into_result(self),
    {
        match self.error {
            Some(e) => Err(ClientError::Rpc(e)),
            None => Ok(self.result),
        }
    }
}

} // verus!
