//! A client-side library for the JSON-RPC 2.0 protocol over HTTP.
//!
//! The library covers the request/response correlation core of such a
//! client: nonce-based id generation, request serialization, response
//! validation (protocol version and id correlation), and the
//! classification of transport failures that drives a single-retry
//! policy for stale pooled connections. The HTTP transport itself is an
//! external collaborator and is driven by the embedding program.

pub mod client;
pub mod decimal;
pub mod envelope;
pub mod error;
pub mod json;
pub mod retry;
