use mcp_sdk::client::{Client, ClientBuilder, ClientError, INITIALIZED_NOTIFICATION, INITIALIZE_METHOD};
use mcp_sdk::error::ErrorKind;
use mcp_sdk::message::{Envelope, ErrorObject, Message, RequestId};
use mcp_sdk::protocol::{Ignored, Outcome, RequestOptions, Step};
use mcp_sdk::transport::{Transport, TransportError};
use mcp_sdk::types::{
    ClientCapabilities, Implementation, InitializeRequest, InitializeResponse, ServerCapabilities,
    LATEST_PROTOCOL_VERSION,
};
use serde_json::Value;

/// A channel that records what is sent and receives nothing.
struct Recorder {
    sent: Vec<Envelope>,
    refuse_sends: bool,
}

impl Recorder {
    fn new() -> Recorder {
        Recorder { sent: Vec::new(), refuse_sends: false }
    }

    fn broken() -> Recorder {
        Recorder { sent: Vec::new(), refuse_sends: true }
    }
}

impl Transport for Recorder {
    fn send(&mut self, envelope: &Envelope) -> Result<(), TransportError> {
        if self.refuse_sends {
            return Err(TransportError { message: "closed pipe".to_string() });
        }
        self.sent.push(envelope.clone());
        Ok(())
    }

    fn receive(&mut self) -> Result<Option<Envelope>, TransportError> {
        Ok(None)
    }
}

fn info(name: &str) -> Implementation {
    Implementation { name: name.to_string(), version: "0.1.0".to_string() }
}

fn answer(version: &str) -> InitializeResponse {
    InitializeResponse {
        protocol_version: version.to_string(),
        capabilities: ServerCapabilities::default(),
        server_info: info("server"),
    }
}

#[test]
fn builder_and_new_make_the_same_client() {
    let from_builder = Client::builder(Recorder::new()).build();
    let from_new = ClientBuilder::new(Recorder::new()).build();
    for client in [from_builder, from_new] {
        assert_eq!(client.protocol.engine.next_id(), 0);
        assert_eq!(client.protocol.engine.pending_count(), 0);
        assert!(!client.protocol.engine.is_closed());
        assert!(client.protocol.channel.get().sent.is_empty());
    }
}

#[test]
fn a_client_has_no_handlers() {
    let mut client = Client::builder(Recorder::new()).build();
    assert_eq!(
        client
            .protocol
            .engine
            .handle_message(Message::Notification { method: "any".to_string(), params: None }),
        Step::Ignored(Ignored::UnknownNotification)
    );
    match client.protocol.engine.handle_message(Message::Request {
        id: RequestId::Number(1),
        method: "any".to_string(),
        params: None,
    }) {
        Step::Reply { .. } => {}
        other => panic!("unexpected step: {:?}", other),
    }
}

#[test]
fn the_latest_protocol_version() {
    assert_eq!(LATEST_PROTOCOL_VERSION, "2024-11-05");
    assert_eq!(INITIALIZE_METHOD, "initialize");
    assert_eq!(INITIALIZED_NOTIFICATION, "notifications/initialized");
}

#[test]
fn the_opening_request_names_the_latest_version() {
    assert_eq!(
        Client::<Recorder>::initialize_request(info("client")),
        InitializeRequest {
            protocol_version: "2024-11-05".to_string(),
            capabilities: ClientCapabilities { experimental: None, sampling: None, roots: None },
            client_info: Implementation {
                name: "client".to_string(),
                version: "0.1.0".to_string(),
            },
        }
    );
}

#[test]
fn matching_version_completes_the_handshake() {
    let mut client = Client::builder(Recorder::new()).build();
    let done = client.initialize(answer(LATEST_PROTOCOL_VERSION));
    assert_eq!(done, Ok(answer("2024-11-05")));
    assert_eq!(
        client.protocol.channel.get().sent,
        vec![Envelope {
            id: None,
            method: Some("notifications/initialized".to_string()),
            params: None,
            result: None,
            error: None,
        }]
    );
    assert_eq!(client.protocol.engine.pending_count(), 0);
}

#[test]
fn mismatched_version_fails_and_sends_nothing() {
    let mut client = Client::builder(Recorder::new()).build();
    let done = client.initialize(answer("2023-01-01"));
    assert_eq!(
        done,
        Err(ClientError::UnsupportedProtocolVersion {
            expected: "2024-11-05".to_string(),
            got: "2023-01-01".to_string(),
        })
    );
    assert!(client.protocol.channel.get().sent.is_empty());
}

#[test]
fn versions_are_compared_exactly() {
    for version in ["", "2024-11-5", "2024-11-05 ", "2024-11-050", "2025-01-01"] {
        assert_eq!(
            Client::<Recorder>::check_version(answer(version)),
            Err(ClientError::UnsupportedProtocolVersion {
                expected: "2024-11-05".to_string(),
                got: version.to_string(),
            })
        );
    }
    assert_eq!(Client::<Recorder>::check_version(answer("2024-11-05")), Ok(answer("2024-11-05")));
}

#[test]
fn handshake_fails_where_the_notification_cannot_be_sent() {
    let mut client = Client::builder(Recorder::broken()).build();
    assert_eq!(
        client.initialize(answer(LATEST_PROTOCOL_VERSION)),
        Err(ClientError::NotificationFailed { kind: ErrorKind::Transport })
    );
}

#[test]
fn request_returns_the_id_of_the_outstanding_request() {
    let mut client = Client::builder(Recorder::new()).build();
    let first = client.request("a", None, RequestOptions::default(), 0).unwrap();
    let second = client.request("b", Some(Value::from(2)), RequestOptions::default(), 0).unwrap();
    assert_eq!((first, second), (0, 1));
    assert!(client.protocol.engine.is_pending(first));
    assert!(client.protocol.engine.is_pending(second));
    assert_eq!(client.protocol.channel.get().sent.len(), 2);
    assert_eq!(client.protocol.channel.get().sent[1].method, Some("b".to_string()));
    assert_eq!(client.protocol.channel.get().sent[1].params, Some(Value::from(2)));
}

#[test]
fn request_on_a_broken_channel_names_the_method() {
    let mut client = Client::builder(Recorder::broken()).build();
    assert_eq!(
        client.request("tools/list", None, RequestOptions::default(), 0),
        Err(ClientError::RequestFailed {
            method: "tools/list".to_string(),
            kind: ErrorKind::Transport,
        })
    );
    assert_eq!(client.protocol.engine.pending_count(), 0);
}

#[test]
fn request_after_closure_fails_at_once() {
    let mut client = Client::builder(Recorder::new()).build();
    let id = client.request("a", None, RequestOptions::default(), 0).unwrap();
    assert_eq!(client.start(10), Step::Closed { resolved: vec![id] });
    assert_eq!(
        client.request("b", None, RequestOptions::default(), 1),
        Err(ClientError::RequestFailed {
            method: "b".to_string(),
            kind: ErrorKind::ConnectionClosed,
        })
    );
    assert_eq!(client.protocol.channel.get().sent.len(), 1);
    assert_eq!(
        Client::<Recorder>::response_value("a", Outcome::Closed),
        Err(ClientError::RequestFailed {
            method: "a".to_string(),
            kind: ErrorKind::ConnectionClosed,
        })
    );
}

#[test]
fn response_value_unwraps_every_outcome() {
    assert_eq!(
        Client::<Recorder>::response_value("m", Outcome::Success(Value::from(12))),
        Ok(Value::from(12))
    );
    assert_eq!(
        Client::<Recorder>::response_value(
            "m",
            Outcome::Failure(ErrorObject {
                code: -32601,
                message: "Method not found: m".to_string(),
                data: Some(Value::from(1)),
            })
        ),
        Err(ClientError::Rejected {
            method: "m".to_string(),
            code: -32601,
            message: "Method not found: m".to_string(),
        })
    );
    assert_eq!(
        Client::<Recorder>::response_value("m", Outcome::TimedOut),
        Err(ClientError::RequestFailed { method: "m".to_string(), kind: ErrorKind::Timeout })
    );
}

#[test]
fn start_with_no_budget_is_idle() {
    let mut client = Client::builder(Recorder::new()).build();
    assert_eq!(client.start(0), Step::Idle);
    assert!(!client.protocol.engine.is_closed());
}
