use jsonrpc::client::Client;
use jsonrpc::envelope::{parse_response, serialize_request, validate_response};
use jsonrpc::error::ClientError;
use jsonrpc::retry::{is_transient_failure, on_send_failure, IoKind, SendDisposition, SendFailure};

fn value(text: &str) -> serde_json::Value {
    serde_json::from_str(text).unwrap()
}

#[test]
fn classification_of_send_failures() {
    assert!(is_transient_failure(&SendFailure::Io(IoKind::BrokenPipe)));
    assert!(is_transient_failure(&SendFailure::Io(IoKind::ConnectionAborted)));
    assert!(!is_transient_failure(&SendFailure::Io(IoKind::Other)));
    assert!(!is_transient_failure(&SendFailure::Other));
}

#[test]
fn retry_only_on_first_transient_failure() {
    assert!(matches!(
        on_send_failure(true, SendFailure::Io(IoKind::BrokenPipe)),
        SendDisposition::Retry
    ));
    assert!(matches!(
        on_send_failure(true, SendFailure::Io(IoKind::ConnectionAborted)),
        SendDisposition::Retry
    ));
    // A second failure is never retried, transient or not.
    match on_send_failure(false, SendFailure::Io(IoKind::BrokenPipe)) {
        SendDisposition::Fail(ClientError::Transport(f)) => {
            assert_eq!(f, SendFailure::Io(IoKind::BrokenPipe));
        }
        other => panic!("expected a transport failure, got {:?}", other),
    }
    // A non-transient failure is never retried.
    match on_send_failure(true, SendFailure::Io(IoKind::Other)) {
        SendDisposition::Fail(ClientError::Transport(f)) => {
            assert_eq!(f, SendFailure::Io(IoKind::Other));
        }
        other => panic!("expected a transport failure, got {:?}", other),
    }
}

#[test]
fn echo_call_round_trip() {
    // call("echo", {"x":1}) on a fresh session; the transport answers
    // with a matching envelope.
    let mut client = Client::new("http://example.com/rpc".to_owned(), None);
    let req = client.build_request("echo", value("{\"x\":1}"));
    let _wire = serialize_request(&req);
    let body = b"{\"id\":1,\"jsonrpc\":\"2.0\",\"result\":{\"x\":1}}";
    let resp = parse_response(body).unwrap();
    validate_response(req.id, &resp).unwrap();
    assert_eq!(resp.into_result().unwrap(), Some(value("{\"x\":1}")));
    assert_eq!(client.last_nonce(), 1);
}

#[test]
fn transient_failure_is_retried_once_with_same_id() {
    let mut client = Client::new("http://example.com/rpc".to_owned(), None);
    let req = client.build_request("get", serde_json::Value::Null);
    let wire = serialize_request(&req);

    // First send fails in a broken-pipe-like way: the policy says resend
    // the identical bytes once; no new request is built.
    let first = on_send_failure(true, SendFailure::Io(IoKind::BrokenPipe));
    assert!(matches!(first, SendDisposition::Retry));
    let resent = wire.clone();
    assert_eq!(resent, wire);

    // The retry succeeds.
    let body = b"{\"id\":1,\"result\":42}";
    let resp = parse_response(body).unwrap();
    validate_response(req.id, &resp).unwrap();
    assert_eq!(resp.into_result().unwrap(), Some(value("42")));

    // The nonce was consumed exactly once, not twice.
    assert_eq!(client.last_nonce(), 1);
}

#[test]
fn fatal_failure_is_not_retried() {
    let mut client = Client::new("http://example.com/rpc".to_owned(), None);
    let req = client.build_request("get", serde_json::Value::Null);
    let _wire = serialize_request(&req);

    // A non-transient transport failure on the first attempt: the call
    // surfaces a transport error immediately, with no retry.
    match on_send_failure(true, SendFailure::Other) {
        SendDisposition::Fail(ClientError::Transport(f)) => {
            assert_eq!(f, SendFailure::Other);
        }
        other => panic!("expected a transport failure, got {:?}", other),
    }

    // The nonce was still consumed once.
    assert_eq!(client.last_nonce(), 1);
}
