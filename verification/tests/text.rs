use mcp_sdk::client::ClientError;
use mcp_sdk::error::ErrorKind;
use mcp_sdk::text::decimal_text;

#[test]
fn decimal_text_of_small_numbers() {
    assert_eq!(decimal_text(0), "0");
    assert_eq!(decimal_text(7), "7");
    assert_eq!(decimal_text(10), "10");
    assert_eq!(decimal_text(-1), "-1");
    assert_eq!(decimal_text(105), "105");
    assert_eq!(decimal_text(-32601), "-32601");
}

#[test]
fn decimal_text_at_the_ends_of_the_range() {
    assert_eq!(decimal_text(i32::MAX), "2147483647");
    assert_eq!(decimal_text(i32::MIN), "-2147483648");
    assert_eq!(decimal_text(1000000000), "1000000000");
}

#[test]
fn decimal_text_agrees_with_the_standard_library() {
    let mut value: i32 = -50000;
    while value <= 50000 {
        assert_eq!(decimal_text(value), value.to_string());
        value += 37;
    }
}

#[test]
fn kinds_are_described_in_words() {
    assert_eq!(ErrorKind::Transport.describe(), "transport failure");
    assert_eq!(ErrorKind::Timeout.describe(), "request timed out");
    assert_eq!(ErrorKind::ConnectionClosed.describe(), "connection closed");
    assert_eq!(ErrorKind::ProtocolError.describe(), "malformed message");
    assert_eq!(ErrorKind::MethodNotFound.describe(), "method not found");
    assert_eq!(ErrorKind::HandlerFailure.describe(), "handler failed");
}

#[test]
fn failures_are_described_in_one_line() {
    assert_eq!(
        ClientError::Rejected {
            method: "tools/call".to_string(),
            code: -32601,
            message: "Method not found: tools/call".to_string(),
        }
        .message(),
        "Request 'tools/call' failed: -32601: Method not found: tools/call"
    );
    assert_eq!(
        ClientError::RequestFailed { method: "ping".to_string(), kind: ErrorKind::Timeout }.message(),
        "Request failed for method: ping: request timed out"
    );
    assert_eq!(
        ClientError::UnsupportedProtocolVersion {
            expected: "2024-11-05".to_string(),
            got: "1.0".to_string(),
        }
        .message(),
        "Unsupported protocol version: expected 2024-11-05, got 1.0"
    );
    assert_eq!(
        ClientError::NotificationFailed { kind: ErrorKind::Transport }.message(),
        "Failed to send initialized notification: transport failure"
    );
}

#[test]
fn every_failure_comes_down_to_a_kind() {
    let rejected = |code: i32| ClientError::Rejected {
        method: "m".to_string(),
        code,
        message: String::new(),
    };
    assert_eq!(rejected(-32601).kind(), ErrorKind::MethodNotFound);
    assert_eq!(rejected(-32603).kind(), ErrorKind::HandlerFailure);
    assert_eq!(rejected(0).kind(), ErrorKind::HandlerFailure);
    assert_eq!(rejected(-32600).kind(), ErrorKind::HandlerFailure);
    for kind in [ErrorKind::Transport, ErrorKind::Timeout, ErrorKind::ConnectionClosed] {
        assert_eq!(ClientError::RequestFailed { method: "m".to_string(), kind }.kind(), kind);
        assert_eq!(ClientError::NotificationFailed { kind }.kind(), kind);
    }
    assert_eq!(
        ClientError::UnsupportedProtocolVersion {
            expected: "2024-11-05".to_string(),
            got: String::new(),
        }
        .kind(),
        ErrorKind::ProtocolError
    );
}
