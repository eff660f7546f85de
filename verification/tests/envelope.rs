use jsonrpc::client::Client;
use jsonrpc::envelope::{parse_response, serialize_request, validate_response, Response};
use jsonrpc::error::{ClientError, SerializationFault};

fn value(text: &str) -> serde_json::Value {
    serde_json::from_str(text).unwrap()
}

#[test]
fn serialized_request_is_exact_wire_text() {
    let mut client = Client::new("http://example.com/rpc".to_owned(), None);
    let req = client.build_request("echo", value("{\"x\":1}"));
    let text = serialize_request(&req);
    assert_eq!(
        text,
        "{\"method\":\"echo\",\"params\":{\"x\":1},\"id\":1,\"jsonrpc\":\"2.0\"}"
    );
}

#[test]
fn serialized_method_is_quoted_and_escaped() {
    let mut client = Client::new("http://example.com/rpc".to_owned(), None);
    let req = client.build_request("say \"hi\"", serde_json::Value::Null);
    let text = serialize_request(&req);
    assert_eq!(
        text,
        "{\"method\":\"say \\\"hi\\\"\",\"params\":null,\"id\":1,\"jsonrpc\":\"2.0\"}"
    );
}

#[test]
fn serialized_id_is_decimal() {
    let mut client = Client::new("http://example.com/rpc".to_owned(), None);
    for _ in 0..41 {
        client.build_request("tick", serde_json::Value::Null);
    }
    let req = client.build_request("tick", serde_json::Value::Null);
    let text = serialize_request(&req);
    assert_eq!(
        text,
        "{\"method\":\"tick\",\"params\":null,\"id\":42,\"jsonrpc\":\"2.0\"}"
    );
}

#[test]
fn parse_reads_all_envelope_fields() {
    let body = b"{\"id\":7,\"jsonrpc\":\"2.0\",\"result\":{\"x\":1},\"error\":null}";
    let resp = parse_response(body).unwrap();
    assert_eq!(resp.id, Some(7));
    assert_eq!(resp.jsonrpc, Some("2.0".to_owned()));
    assert_eq!(resp.result, Some(value("{\"x\":1}")));
    assert_eq!(resp.error, Some(serde_json::Value::Null));
}

#[test]
fn parse_rejects_malformed_json() {
    let err = parse_response(b"{\"id\":").unwrap_err();
    assert!(matches!(err, ClientError::Serialization(SerializationFault::Json(_))));
}

#[test]
fn parse_rejects_non_object_body() {
    let err = parse_response(b"5").unwrap_err();
    assert!(matches!(err, ClientError::Serialization(SerializationFault::Envelope)));
    let err = parse_response(b"[1,2]").unwrap_err();
    assert!(matches!(err, ClientError::Serialization(SerializationFault::Envelope)));
}

#[test]
fn parse_rejects_non_string_version_marker() {
    let err = parse_response(b"{\"id\":1,\"jsonrpc\":2}").unwrap_err();
    assert!(matches!(err, ClientError::Serialization(SerializationFault::Envelope)));
}

#[test]
fn parse_treats_odd_ids_as_absent() {
    assert_eq!(parse_response(b"{\"id\":null}").unwrap().id, None);
    assert_eq!(parse_response(b"{}").unwrap().id, None);
    assert_eq!(parse_response(b"{\"id\":-4}").unwrap().id, None);
    assert_eq!(parse_response(b"{\"id\":\"7\"}").unwrap().id, None);
}

#[test]
fn mismatched_id_is_rejected_despite_wellformed_result() {
    let resp = Response {
        id: Some(2),
        jsonrpc: Some("2.0".to_owned()),
        result: Some(value("{\"x\":1}")),
        error: None,
    };
    let err = validate_response(1, &resp).unwrap_err();
    assert!(matches!(err, ClientError::NonceMismatch));
}

#[test]
fn absent_id_is_rejected() {
    let resp = Response { id: None, jsonrpc: None, result: None, error: None };
    let err = validate_response(1, &resp).unwrap_err();
    assert!(matches!(err, ClientError::NonceMismatch));
}

#[test]
fn version_one_is_rejected_and_absent_version_accepted() {
    let old = Response {
        id: Some(1),
        jsonrpc: Some("1.0".to_owned()),
        result: None,
        error: None,
    };
    let err = validate_response(1, &old).unwrap_err();
    assert!(matches!(err, ClientError::VersionMismatch));

    let unmarked = Response { id: Some(1), jsonrpc: None, result: None, error: None };
    assert!(validate_response(1, &unmarked).is_ok());

    let marked = Response {
        id: Some(1),
        jsonrpc: Some("2.0".to_owned()),
        result: None,
        error: None,
    };
    assert!(validate_response(1, &marked).is_ok());
}

#[test]
fn version_is_checked_before_id() {
    let resp = Response {
        id: Some(9),
        jsonrpc: Some("1.0".to_owned()),
        result: None,
        error: None,
    };
    let err = validate_response(1, &resp).unwrap_err();
    assert!(matches!(err, ClientError::VersionMismatch));
}

#[test]
fn error_payload_wins_over_result() {
    let payload = value("{\"code\":-32601,\"message\":\"no such method\"}");
    let resp = Response {
        id: Some(1),
        jsonrpc: Some("2.0".to_owned()),
        result: Some(value("{\"x\":1}")),
        error: Some(payload.clone()),
    };
    match resp.into_result().unwrap_err() {
        ClientError::Rpc(got) => assert_eq!(got, payload),
        other => panic!("expected an Rpc error, got {:?}", other),
    }
}

#[test]
fn absent_result_unwraps_to_none() {
    let resp = Response { id: Some(1), jsonrpc: None, result: None, error: None };
    assert_eq!(resp.into_result().unwrap(), None);
}

#[test]
fn present_result_unwraps_verbatim() {
    let resp = Response {
        id: Some(1),
        jsonrpc: None,
        result: Some(value("[1,2,3]")),
        error: None,
    };
    assert_eq!(resp.into_result().unwrap(), Some(value("[1,2,3]")));
}
