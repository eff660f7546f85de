//! The error taxonomy of the client.
//!
//! Every failure of a call is returned to the caller as one of five
//! kinds — transport, serialization, version mismatch, nonce mismatch, or
//! a server-reported error — and nothing is silently swallowed. The only
//! internally absorbed condition is the single retry after a transient
//! send failure (see [`crate::retry`]), which produces no error at all
//! when the retry succeeds.

use vstd::prelude::*;
use crate::retry::SendFailure;

verus! {

/// Why a response body could not be decoded into a response envelope.
/// Both reasons are serialization-class failures; they are never retried.
#[derive(Debug)]
pub enum SerializationFault {
    /// The body is not one JSON document: the `serde_json` error,
    /// verbatim.
    Json(serde_json::Error),
    /// The body is one JSON document, but not a JSON-RPC response
    /// object: not an object, or its protocol-version marker is not a
    /// string.
    Envelope,
}

/// A failure of one remote call.
#[derive(Debug)]
pub enum ClientError {
    /// The transport could not deliver the request: a send failure other
    /// than the recognized transient condition, or a second failure after
    /// the one retry.
    Transport(SendFailure),
    /// The response body could not be decoded into a response envelope.
    /// (Encoding a request cannot fail: see
    /// [`crate::envelope::serialize_request`].)
    Serialization(SerializationFault),
    /// The response declares a protocol-version marker other than "2.0".
    VersionMismatch,
    /// The response id does not equal the request id: connection
    /// cross-talk or server misbehavior.
    NonceMismatch,
    /// The server itself answered with an error payload, carried here
    /// verbatim. Not a defect of the client or the transport.
    Rpc(serde_json::Value),
}

} // verus!
