//! Classification of transport send failures and the single-retry policy.
//!
//! An HTTP client that reuses pooled connections cannot tell that the peer
//! has silently closed a pooled connection until it tries to send on it.
//! Such a send fails with a broken-pipe or connection-aborted I/O error;
//! the right reaction is to resend the identical bytes once over a fresh
//! connection. Every other failure, and a second failure after the one
//! retry, is genuine and is surfaced to the caller at once.

use vstd::prelude::*;
use crate::error::ClientError;

verus! {

/// The shape of a low-level I/O failure, as far as the retry policy reads
/// it. The embedding program maps its transport's I/O error kind onto this
/// type; every kind other than the two recognized transient ones maps to
/// `Other`.
#[derive(Clone, Copy, Debug, PartialEq, Eq, Structural)]
pub enum IoKind {
    /// The connection was closed by the peer (broken pipe).
    BrokenPipe,
    /// The connection was aborted by the peer.
    ConnectionAborted,
    /// Any other I/O error kind.
    Other,
}

/// A failed attempt to send a request over the transport: either an I/O
/// failure with its kind, or a failure of the transport layer itself
/// (e.g. a malformed URL or protocol error) that involves no I/O error.
#[derive(Clone, Copy, Debug, PartialEq, Eq, Structural)]
pub enum SendFailure {
    /// The send failed with an I/O error of the given kind.
    Io(IoKind),
    /// The send failed in the transport layer without an I/O error.
    Other,
}

/// A send failure is transient exactly when it is an I/O failure that
/// signals a connection already closed or reset by the peer: the stale
/// pooled connection condition, worth one retry on a fresh connection.
pub open spec fn is_transient(f: SendFailure) -> bool {
    f == SendFailure::Io(IoKind::BrokenPipe) || f == SendFailure::Io(IoKind::ConnectionAborted)
}

/// Decides whether a send failure is the transient stale-connection
/// condition. This is the sole classification point: retry decisions and
/// error surfacing both go through it.
pub fn is_transient_failure(f: &SendFailure) -> (r: bool)
    ensures
        r == is_transient(*f),
{
    match f {
        SendFailure::Io(IoKind::BrokenPipe) => true,
        SendFailure::Io(IoKind::ConnectionAborted) => true,
        _ => false,
    }
}

/// What the sender does after a failed send attempt.
#[derive(Debug)]
pub enum SendDisposition {
    /// Resend the identical bytes once, over a fresh connection.
    Retry,
    /// Give up and surface this error to the caller.
    Fail(ClientError),
}

/// The retry policy: after a failed send, retry exactly when this was the
/// first attempt and the failure is the transient stale-connection
/// condition; otherwise surface the failure as a transport error. The
/// embedding program performs the sends and consults this function after
/// each failure, so no call is ever retried more than once.
pub fn on_send_failure(first_attempt: bool, f: SendFailure) -> (r: SendDisposition)
    ensures
        first_attempt && is_transient(f) ==> r is Retry,
        !(first_attempt && is_transient(f)) ==> r == SendDisposition::Fail(ClientError::Transport(f)),
{
    if first_attempt && is_transient_failure(&f) {
        SendDisposition::Retry
    } else {
        SendDisposition::Fail(ClientError::Transport(f))
    }
}

} // verus!
