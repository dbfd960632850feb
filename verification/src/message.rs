//! Messages and their wire envelope.
//!
//! On the wire every message is one envelope with optional members. A
//! message is a request, a response or a notification, decided once, when
//! the envelope is decoded: a request has an id and a method, a response an
//! id and exactly one of result and error, a notification a method and no
//! id. Every other combination of members is malformed.

use crate::error::ErrorKind;
use vstd::prelude::*;

verus! {

/// Error code of a response to a request whose method has no handler.
pub const METHOD_NOT_FOUND: i32 = -32601;

/// Error code of a response to a request whose handler failed.
pub const INTERNAL_ERROR: i32 = -32603;

/// The token that links a request to its response.
#[derive(Clone, Debug, PartialEq)]
pub enum RequestId {
    Number(u64),
    Text(String),
}

/// Mathematical content of a [`RequestId`].
pub ghost enum RequestIdView {
    Number(u64),
    Text(Seq<char>),
}

impl View for RequestId {
    type V = RequestIdView;

    open spec fn view(&self) -> RequestIdView {
        match *self {
            RequestId::Number(n) => RequestIdView::Number(n),
            RequestId::Text(t) => RequestIdView::Text(t@),
        }
    }
}

/// The error that a response carries in place of a result.
#[derive(Clone, Debug, PartialEq)]
pub struct ErrorObject {
    pub code: i32,
    pub message: String,
    pub data: Option<serde_json::Value>,
}

/// Mathematical content of an [`ErrorObject`].
pub ghost struct ErrorObjectView {
    pub code: i32,
    pub message: Seq<char>,
    pub data: Option<serde_json::Value>,
}

impl View for ErrorObject {
    type V = ErrorObjectView;

    open spec fn view(&self) -> ErrorObjectView {
        ErrorObjectView { code: self.code, message: self.message@, data: self.data }
    }
}

/// One message of the conversation.
#[derive(Debug, PartialEq)]
pub enum Message {
    Request { id: RequestId, method: String, params: Option<serde_json::Value> },
    Response { id: RequestId, result: Result<serde_json::Value, ErrorObject> },
    Notification { method: String, params: Option<serde_json::Value> },
}

/// Mathematical content of a [`Message`].
pub ghost enum MessageView {
    Request { id: RequestIdView, method: Seq<char>, params: Option<serde_json::Value> },
    Response { id: RequestIdView, result: Result<serde_json::Value, ErrorObjectView> },
    Notification { method: Seq<char>, params: Option<serde_json::Value> },
}

impl View for Message {
    type V = MessageView;

    open spec fn view(&self) -> MessageView {
        match *self {
            Message::Request { id, method, params } => MessageView::Request {
                id: id@,
                method: method@,
                params,
            },
            Message::Response { id, result } => MessageView::Response {
                id: id@,
                result: match result {
                    Ok(value) => Ok(value),
                    Err(error) => Err(error@),
                },
            },
            Message::Notification { method, params } => MessageView::Notification {
                method: method@,
                params,
            },
        }
    }
}

/// A message as it travels: every member optional.
#[derive(Clone, Debug, PartialEq)]
pub struct Envelope {
    pub id: Option<RequestId>,
    pub method: Option<String>,
    pub params: Option<serde_json::Value>,
    pub result: Option<serde_json::Value>,
    pub error: Option<ErrorObject>,
}

/// Mathematical content of an [`Envelope`].
pub ghost struct EnvelopeView {
    pub id: Option<RequestIdView>,
    pub method: Option<Seq<char>>,
    pub params: Option<serde_json::Value>,
    pub result: Option<serde_json::Value>,
    pub error: Option<ErrorObjectView>,
}

impl View for Envelope {
    type V = EnvelopeView;

    open spec fn view(&self) -> EnvelopeView {
        EnvelopeView {
            id: match self.id {
                Some(id) => Some(id@),
                None => None,
            },
            method: match self.method {
                Some(method) => Some(method@),
                None => None,
            },
            params: self.params,
            result: self.result,
            error: match self.error {
                Some(error) => Some(error@),
                None => None,
            },
        }
    }
}

/// The envelope in which a message travels.
pub open spec fn encoded(message: MessageView) -> EnvelopeView {
    match message {
        MessageView::Request { id, method, params } => EnvelopeView {
            id: Some(id),
            method: Some(method),
            params,
            result: None,
            error: None,
        },
        MessageView::Response { id, result } => EnvelopeView {
            id: Some(id),
            method: None,
            params: None,
            result: match result {
                Ok(value) => Some(value),
                Err(_) => None,
            },
            error: match result {
                Ok(_) => None,
                Err(error) => Some(error),
            },
        },
        MessageView::Notification { method, params } => EnvelopeView {
            id: None,
            method: Some(method),
            params,
            result: None,
            error: None,
        },
    }
}

/// The message that an envelope holds, or `None` for a malformed one.
pub open spec fn decoded(envelope: EnvelopeView) -> Option<MessageView> {
    match (envelope.id, envelope.method, envelope.result, envelope.error) {
        (Some(id), Some(method), None, None) => Some(
            MessageView::Request { id, method, params: envelope.params },
        ),
        (None, Some(method), None, None) => Some(
            MessageView::Notification { method, params: envelope.params },
        ),
        (Some(id), None, Some(value), None) => if envelope.params is None {
            Some(MessageView::Response { id, result: Ok(value) })
        } else {
            None
        },
        (Some(id), None, None, Some(error)) => if envelope.params is None {
            Some(MessageView::Response { id, result: Err(error) })
        } else {
            None
        },
        _ => None,
    }
}

/// Puts a message into its envelope.
pub fn encode(message: Message) -> (envelope: Envelope)
    ensures
        envelope@ == encoded(message@),
{
    match message {
        Message::Request { id, method, params } => Envelope {
            id: Some(id),
            method: Some(method),
            params,
            result: None,
            error: None,
        },
        Message::Response { id, result } => match result {
            Ok(value) => Envelope {
                id: Some(id),
                method: None,
                params: None,
                result: Some(value),
                error: None,
            },
            Err(error) => Envelope {
                id: Some(id),
                method: None,
                params: None,
                result: None,
                error: Some(error),
            },
        },
        Message::Notification { method, params } => Envelope {
            id: None,
            method: Some(method),
            params,
            result: None,
            error: None,
        },
    }
}

/// Takes the message out of an envelope. Fails with
/// [`ErrorKind::ProtocolError`] exactly on the malformed envelopes.
pub fn decode(envelope: Envelope) -> (message: Result<Message, ErrorKind>)
    ensures
        match message {
            Ok(m) => decoded(envelope@) == Some(m@),
            Err(kind) => kind == ErrorKind::ProtocolError && decoded(envelope@) is None,
        },
{
    let Envelope { id, method, params, result, error } = envelope;
    match (id, method, result, error) {
        (Some(id), Some(method), None, None) => Ok(Message::Request { id, method, params }),
        (None, Some(method), None, None) => Ok(Message::Notification { method, params }),
        (Some(id), None, Some(value), None) => {
            if params.is_none() {
                Ok(Message::Response { id, result: Ok(value) })
            } else {
                Err(ErrorKind::ProtocolError)
            }
        },
        (Some(id), None, None, Some(error)) => {
            if params.is_none() {
                Ok(Message::Response { id, result: Err(error) })
            } else {
                Err(ErrorKind::ProtocolError)
            }
        },
        _ => Err(ErrorKind::ProtocolError),
    }
}

/// Decoding undoes encoding: every message comes back out of its envelope.
pub proof fn lemma_decode_encode(message: MessageView)
    ensures
        decoded(encoded(message)) == Some(message),
{
}

/// A well-formed envelope is the envelope of the message it holds.
pub proof fn lemma_encode_decode(envelope: EnvelopeView)
    requires
        decoded(envelope) is Some,
    ensures
        encoded(decoded(envelope)->0) == envelope,
{
}

} // verus!
