use chain_network::error::{Code, Error, HandshakeError};

const ALL_CODES: [Code; 9] = [
    Code::Canceled,
    Code::Unknown,
    Code::InvalidArgument,
    Code::NotFound,
    Code::FailedPrecondition,
    Code::Aborted,
    Code::Unimplemented,
    Code::Internal,
    Code::Unavailable,
];

#[test]
fn code_round_trips_through_new() {
    for code in ALL_CODES {
        let e = Error::new(code, String::from("some cause"));
        assert_eq!(e.code(), code);
    }
}

#[test]
fn source_is_the_cause() {
    let e = Error::new(Code::NotFound, String::from("no such block"));
    assert_eq!(e.source(), "no such block");
}

#[test]
fn display_joins_meaning_and_cause() {
    let expected = [
        "the in-flight operation was canceled by the caller or by connection teardown (boom)",
        "failure classification could not be determined (boom)",
        "the request payload was structurally or semantically invalid (boom)",
        "the referenced entity (block, fragment, peer) does not exist (boom)",
        "current node/service state forbids the operation (e.g., not yet synced) (boom)",
        "the operation conflicted with concurrent state change and was abandoned (boom)",
        "the service or operation is not supported by this node (boom)",
        "an unexpected internal fault occurred; callers must not retry blindly (boom)",
        "the service is transiently unavailable; safe to retry with backoff (boom)",
    ];
    for (code, text) in ALL_CODES.iter().zip(expected.iter()) {
        let e = Error::new(*code, String::from("boom"));
        assert_eq!(e.to_string(), *text);
        assert!(e.to_string().contains(code.meaning()));
        assert!(e.to_string().contains("boom"));
    }
}

#[test]
fn display_with_empty_cause() {
    let e = Error::new(Code::Internal, String::new());
    assert_eq!(e.to_string(), "an unexpected internal fault occurred; callers must not retry blindly ()");
}

#[test]
fn meaning_of_each_code() {
    assert_eq!(Code::Canceled.meaning(), "the in-flight operation was canceled by the caller or by connection teardown");
    assert_eq!(Code::Unavailable.meaning(), "the service is transiently unavailable; safe to retry with backoff");
    assert_eq!(Code::FailedPrecondition.meaning(), "current node/service state forbids the operation (e.g., not yet synced)");
}

#[test]
fn unimplemented_has_unimplemented_code() {
    let e = Error::unimplemented();
    assert_eq!(e.code(), Code::Unimplemented);
    assert_eq!(e.source(), "not yet implemented");
    assert_eq!(e.to_string(), "the service or operation is not supported by this node (not yet implemented)");
}

#[test]
fn handshake_error_display() {
    let rpc = HandshakeError::Rpc(Error::new(Code::Unavailable, String::from("timeout")));
    assert_eq!(rpc.to_string(), "the service is transiently unavailable; safe to retry with backoff (timeout)");
    let version = HandshakeError::UnsupportedVersion(String::from("9.9"));
    assert_eq!(version.to_string(), "unsupported protocol version 9.9");
    let block0 = HandshakeError::InvalidBlock0(Error::new(
        Code::InvalidArgument,
        String::from("hash mismatch"),
    ));
    assert_eq!(block0.to_string(), "invalid genesis block payload");
}

#[test]
fn handshake_error_source() {
    let rpc = HandshakeError::Rpc(Error::new(Code::Internal, String::from("x")));
    assert_eq!(rpc.source().map(|e| e.code()), Some(Code::Internal));
    let version = HandshakeError::UnsupportedVersion(String::from("0.1"));
    assert!(version.source().is_none());
    let block0 = HandshakeError::InvalidBlock0(Error::new(Code::InvalidArgument, String::from("y")));
    assert_eq!(block0.source().map(|e| e.source().to_string()), Some(String::from("y")));
}
