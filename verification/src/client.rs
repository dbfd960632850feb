//! The client side: the handshake, and requests whose responses are
//! unwrapped into values or failures.
//!
//! The client never waits. `request` issues a request and returns its id;
//! the caller waits for the request to be resolved, by listening, and hands
//! the outcome to `response_value`. The handshake goes the same way: the
//! parameters of its opening request come from `initialize_request`, and
//! `initialize` takes the server's answer, checks it, and completes the
//! handshake.

use crate::error::ErrorKind;
use crate::message::{encoded, MessageView, METHOD_NOT_FOUND};
use crate::protocol::{
    EngineState, Outcome, OutcomeView, Protocol, ProtocolBuilder, RequestOptions, Step,
};
use crate::text::{decimal, decimal_text};
use crate::transport::Transport;
use crate::types::{
    same_text, ClientCapabilities, Implementation, InitializeRequest, InitializeRequestView,
    InitializeResponse, LATEST_PROTOCOL_VERSION,
};
use vstd::prelude::*;

verus! {

/// The method of the notification that completes the handshake.
pub const INITIALIZED_NOTIFICATION: &'static str = "notifications/initialized";

/// The method of the request that opens the handshake.
pub const INITIALIZE_METHOD: &'static str = "initialize";

/// Why a call on the client failed.
#[derive(Clone, Debug, PartialEq)]
pub enum ClientError {
    /// The request for `method` got no answer: it could not be issued or
    /// sent, its deadline passed, or the channel ended.
    RequestFailed { method: String, kind: ErrorKind },
    /// The peer answered the request for `method` with an error.
    Rejected { method: String, code: i32, message: String },
    /// The server speaks another revision of the protocol.
    UnsupportedProtocolVersion { expected: String, got: String },
    /// The notification that completes the handshake could not be sent.
    NotificationFailed { kind: ErrorKind },
}

/// Mathematical content of a [`ClientError`].
pub ghost enum ClientErrorView {
    RequestFailed { method: Seq<char>, kind: ErrorKind },
    Rejected { method: Seq<char>, code: i32, message: Seq<char> },
    UnsupportedProtocolVersion { expected: Seq<char>, got: Seq<char> },
    NotificationFailed { kind: ErrorKind },
}

impl View for ClientError {
    type V = ClientErrorView;

    open spec fn view(&self) -> ClientErrorView {
        match *self {
            ClientError::RequestFailed { method, kind } => ClientErrorView::RequestFailed {
                method: method@,
                kind,
            },
            ClientError::Rejected { method, code, message } => ClientErrorView::Rejected {
                method: method@,
                code,
                message: message@,
            },
            ClientError::UnsupportedProtocolVersion {
                expected,
                got,
            } => ClientErrorView::UnsupportedProtocolVersion { expected: expected@, got: got@ },
            ClientError::NotificationFailed { kind } => ClientErrorView::NotificationFailed {
                kind,
            },
        }
    }
}

/// The line that describes a failure to a reader.
pub open spec fn message_text(error: ClientErrorView) -> Seq<char> {
    match error {
        ClientErrorView::RequestFailed { method, kind } => "Request failed for method: "@ + method
            + ": "@ + kind.text(),
        ClientErrorView::Rejected { method, code, message } => "Request '"@ + method
            + "' failed: "@ + decimal(code as int) + ": "@ + message,
        ClientErrorView::UnsupportedProtocolVersion {
            expected,
            got,
        } => "Unsupported protocol version: expected "@ + expected + ", got "@ + got,
        ClientErrorView::NotificationFailed {
            kind,
        } => "Failed to send initialized notification: "@ + kind.text(),
    }
}

/// The kind of failure that a client's failure comes down to. An error
/// from the peer says that the method was unknown to it, by its code, or
/// else that its handler failed; a server that speaks another revision
/// breaks the protocol.
pub open spec fn kind_of(error: ClientErrorView) -> ErrorKind {
    match error {
        ClientErrorView::RequestFailed { kind, .. } => kind,
        ClientErrorView::Rejected { code, .. } => if code == METHOD_NOT_FOUND {
            ErrorKind::MethodNotFound
        } else {
            ErrorKind::HandlerFailure
        },
        ClientErrorView::UnsupportedProtocolVersion { .. } => ErrorKind::ProtocolError,
        ClientErrorView::NotificationFailed { kind } => kind,
    }
}

impl ClientError {
    /// The kind of failure that this failure comes down to.
    pub fn kind(&self) -> (kind: ErrorKind)
        ensures
            kind == kind_of(self@),
    {
        match self {
            ClientError::RequestFailed { kind, .. } => *kind,
            ClientError::Rejected { code, .. } => {
                if *code == METHOD_NOT_FOUND {
                    ErrorKind::MethodNotFound
                } else {
                    ErrorKind::HandlerFailure
                }
            },
            ClientError::UnsupportedProtocolVersion { .. } => ErrorKind::ProtocolError,
            ClientError::NotificationFailed { kind } => *kind,
        }
    }

    /// The line that describes the failure to a reader.
    pub fn message(&self) -> (text: String)
        ensures
            text@ == message_text(self@),
    {
        match self {
            ClientError::RequestFailed { method, kind } => {
                let mut text = String::from_str("Request failed for method: ");
                text.append(method.as_str());
                text.append(": ");
                text.append(kind.describe());
                text
            },
            ClientError::Rejected { method, code, message } => {
                let mut text = String::from_str("Request '");
                text.append(method.as_str());
                text.append("' failed: ");
                let code_text = decimal_text(*code);
                text.append(code_text.as_str());
                text.append(": ");
                text.append(message.as_str());
                text
            },
            ClientError::UnsupportedProtocolVersion { expected, got } => {
                let mut text = String::from_str("Unsupported protocol version: expected ");
                text.append(expected.as_str());
                text.append(", got ");
                text.append(got.as_str());
                text
            },
            ClientError::NotificationFailed { kind } => {
                let mut text = String::from_str("Failed to send initialized notification: ");
                text.append(kind.describe());
                text
            },
        }
    }
}

/// The value that a resolved request for `method` yields, or the failure
/// that stands for how it ended: an error from the peer keeps its code and
/// message.
pub open spec fn unwrapped(method: Seq<char>, outcome: OutcomeView) -> Result<
    serde_json::Value,
    ClientErrorView,
> {
    match outcome {
        OutcomeView::Success(value) => Ok(value),
        OutcomeView::Failure(error) => Err(
            ClientErrorView::Rejected { method, code: error.code, message: error.message },
        ),
        OutcomeView::TimedOut => Err(
            ClientErrorView::RequestFailed { method, kind: ErrorKind::Timeout },
        ),
        OutcomeView::Closed => Err(
            ClientErrorView::RequestFailed { method, kind: ErrorKind::ConnectionClosed },
        ),
    }
}

/// The failure of a handshake with a server that speaks the revision `got`.
pub open spec fn version_mismatch(got: Seq<char>) -> ClientErrorView {
    ClientErrorView::UnsupportedProtocolVersion { expected: LATEST_PROTOCOL_VERSION@, got }
}

/// A client: a protocol engine and the channel to the server.
pub struct Client<T: Transport> {
    pub protocol: Protocol<T>,
}

/// Collects the pieces of a client.
pub struct ClientBuilder<T: Transport> {
    pub protocol: ProtocolBuilder<T>,
}

impl<T: Transport> ClientBuilder<T> {
    /// Starts from the channel to the server.
    pub fn new(transport: T) -> (builder: ClientBuilder<T>)
        ensures
            builder.protocol.transport() == transport,
            builder.protocol.request_methods() == Set::<Seq<char>>::empty(),
            builder.protocol.notification_methods() == Set::<Seq<char>>::empty(),
    {
        ClientBuilder { protocol: ProtocolBuilder::new(transport) }
    }

    /// Makes the client: nothing issued, nothing outstanding, the channel
    /// open.
    pub fn build(self) -> (client: Client<T>)
        ensures
            client.protocol.engine@ == EngineState::initial(),
            client.protocol.channel.transport() == self.protocol.transport(),
            client.protocol.channel.unused(),
            client.protocol.engine.request_methods() == self.protocol.request_methods(),
            client.protocol.engine.notification_methods() == self.protocol.notification_methods(),
    {
        Client { protocol: self.protocol.build() }
    }
}

impl<T: Transport> Client<T> {
    /// Starts collecting the pieces of a client on `transport`.
    pub fn builder(transport: T) -> (builder: ClientBuilder<T>)
        ensures
            builder.protocol.transport() == transport,
            builder.protocol.request_methods() == Set::<Seq<char>>::empty(),
            builder.protocol.notification_methods() == Set::<Seq<char>>::empty(),
    {
        ClientBuilder::new(transport)
    }

    /// The parameters of the request that opens the handshake: the revision
    /// that this library speaks, no capabilities, and the client's name and
    /// version.
    pub fn initialize_request(client_info: Implementation) -> (request: InitializeRequest)
        ensures
            request@ == (InitializeRequestView {
                protocol_version: LATEST_PROTOCOL_VERSION@,
                capabilities: ClientCapabilities {
                    experimental: None,
                    sampling: None,
                    roots: None,
                },
                client_info: client_info@,
            }),
    {
        InitializeRequest {
            protocol_version: LATEST_PROTOCOL_VERSION.to_owned(),
            capabilities: ClientCapabilities::default(),
            client_info,
        }
    }

    /// Checks the server's answer to the opening request: the server must
    /// speak exactly the revision that this library speaks.
    pub fn check_version(response: InitializeResponse) -> (checked: Result<
        InitializeResponse,
        ClientError,
    >)
        ensures
            response.protocol_version@ == LATEST_PROTOCOL_VERSION@ ==> checked == Ok::<
                InitializeResponse,
                ClientError,
            >(response),
            response.protocol_version@ != LATEST_PROTOCOL_VERSION@ ==> (checked matches Err(error)
                && error@ == version_mismatch(response.protocol_version@)),
    {
        if same_text(response.protocol_version.as_str(), LATEST_PROTOCOL_VERSION) {
            Ok(response)
        } else {
            Err(
                ClientError::UnsupportedProtocolVersion {
                    expected: LATEST_PROTOCOL_VERSION.to_owned(),
                    got: response.protocol_version,
                },
            )
        }
    }

    /// What holds of a call of `initialize` on the server's answer
    /// `response` that led from `before` to `self` and returned `done`.
    ///
    /// Where the server speaks another revision the handshake fails and
    /// the channel is not touched: no notification is sent. Otherwise
    /// exactly one envelope is handed to the channel, the notification that
    /// completes the handshake, and the call hands back the answer exactly
    /// if the channel accepts it. The engine is as it was either way.
    pub open spec fn initialized(
        &self,
        before: &Client<T>,
        response: InitializeResponse,
        done: Result<InitializeResponse, ClientError>,
    ) -> bool {
        let completion = MessageView::Notification {
            method: INITIALIZED_NOTIFICATION@,
            params: None,
        };
        &&& self.protocol.engine == before.protocol.engine
        &&& self.protocol.channel.received() == before.protocol.channel.received()
        &&& if response.protocol_version@ != LATEST_PROTOCOL_VERSION@ {
            &&& self.protocol.channel == before.protocol.channel
            &&& done matches Err(error)
            &&& error@ == version_mismatch(response.protocol_version@)
        } else {
            &&& self.protocol.channel.sent() == before.protocol.channel.sent().push(
                encoded(completion),
            )
            &&& self.protocol.channel.accepted() == before.protocol.channel.accepted().push(
                done is Ok,
            )
            &&& match done {
                Ok(answer) => answer == response,
                Err(error) => error == (ClientError::NotificationFailed {
                    kind: ErrorKind::Transport,
                }),
            }
        }
    }

    /// Completes the handshake with the server's answer to the opening
    /// request: checks the revision and, where it is the right one, sends
    /// the notification that completes the handshake. See
    /// [`Client::initialized`].
    pub fn initialize(&mut self, response: InitializeResponse) -> (done: Result<
        InitializeResponse,
        ClientError,
    >)
        ensures
            final(self).initialized(old(self), response, done),
    {
        match Self::check_version(response) {
            Err(error) => Err(error),
            Ok(response) => match self.protocol.notify(INITIALIZED_NOTIFICATION, None) {
                Ok(_) => Ok(response),
                Err(kind) => Err(ClientError::NotificationFailed { kind }),
            },
        }
    }

    /// Issues a request and returns its id. How the request ends is learnt
    /// by listening; [`Client::response_value`] turns that into a value or
    /// a failure.
    ///
    /// The call does what [`Protocol::request`] does, and a failure names
    /// the method: once the channel has ended the call fails at once and
    /// touches nothing; where the channel fails to send, the call fails and
    /// the outstanding requests are those from before the call.
    pub fn request(
        &mut self,
        method: &str,
        params: Option<serde_json::Value>,
        options: RequestOptions,
        now: u64,
    ) -> (issued: Result<u64, ClientError>)
        requires
            old(self).protocol.engine@.closed || old(self).protocol.engine@.next_id < u64::MAX,
        ensures
            match issued {
                Ok(id) => final(self).protocol.requested(
                    &old(self).protocol,
                    method@,
                    params,
                    options,
                    now,
                    Ok(id),
                ),
                Err(error) => error@ matches ClientErrorView::RequestFailed { method: named, kind }
                    && named == method@ && final(self).protocol.requested(
                    &old(self).protocol,
                    method@,
                    params,
                    options,
                    now,
                    Err(kind),
                ),
            },
    {
        match self.protocol.request(method, params, options, now) {
            Ok(id) => Ok(id),
            Err(kind) => Err(ClientError::RequestFailed { method: method.to_owned(), kind }),
        }
    }

    /// Turns how a request for `method` ended into its value or a failure:
    /// a result is handed on, an error from the peer becomes a failure that
    /// carries its code and message, and a request that got no answer
    /// becomes a failure that says why.
    pub fn response_value(method: &str, outcome: Outcome) -> (value: Result<
        serde_json::Value,
        ClientError,
    >)
        ensures
            match value {
                Ok(v) => unwrapped(method@, outcome@) == Ok::<serde_json::Value, ClientErrorView>(
                    v,
                ),
                Err(error) => unwrapped(method@, outcome@) == Err::<
                    serde_json::Value,
                    ClientErrorView,
                >(error@),
            },
    {
        match outcome {
            Outcome::Success(value) => Ok(value),
            Outcome::Failure(error) => Err(
                ClientError::Rejected {
                    method: method.to_owned(),
                    code: error.code,
                    message: error.message,
                },
            ),
            Outcome::TimedOut => Err(
                ClientError::RequestFailed { method: method.to_owned(), kind: ErrorKind::Timeout },
            ),
            Outcome::Closed => Err(
                ClientError::RequestFailed {
                    method: method.to_owned(),
                    kind: ErrorKind::ConnectionClosed,
                },
            ),
        }
    }

    /// Listens on the channel until something needs the caller's attention
    /// or `budget` messages were handled; see [`Protocol::listen`].
    pub fn start(&mut self, budget: u64) -> (step: Step)
        ensures
            final(self).protocol.listened(&old(self).protocol, budget, step),
    {
        self.protocol.listen(budget)
    }
}

/// How a request ended decides what its caller gets: the value of a
/// result; for an error from the peer, a failure that comes down to an
/// unknown method or a failed handler; for a deadline that passed, a failure
/// of the kind [`ErrorKind::Timeout`]; for a channel that ended, a failure of
/// the kind [`ErrorKind::ConnectionClosed`].
pub proof fn lemma_every_outcome_is_definite(method: Seq<char>, outcome: OutcomeView)
    ensures
        match outcome {
            OutcomeView::Success(value) => unwrapped(method, outcome) == Ok::<
                serde_json::Value,
                ClientErrorView,
            >(value),
            OutcomeView::Failure(error) => unwrapped(method, outcome) is Err && kind_of(
                unwrapped(method, outcome)->Err_0,
            ) == (if error.code == METHOD_NOT_FOUND {
                ErrorKind::MethodNotFound
            } else {
                ErrorKind::HandlerFailure
            }),
            OutcomeView::TimedOut => unwrapped(method, outcome) is Err && kind_of(
                unwrapped(method, outcome)->Err_0,
            ) == ErrorKind::Timeout,
            OutcomeView::Closed => unwrapped(method, outcome) is Err && kind_of(
                unwrapped(method, outcome)->Err_0,
            ) == ErrorKind::ConnectionClosed,
        },
{
}

} // verus!
