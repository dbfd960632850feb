use mcp_sdk::client::Client;
use mcp_sdk::message::{encode, Envelope, Message, RequestId};
use mcp_sdk::protocol::{Protocol, Step};
use mcp_sdk::server::{Server, ServerBuilder, ServerMethod, TOOLS_CALL_METHOD, TOOLS_LIST_METHOD};
use mcp_sdk::tools::{Tool, ToolError, Tools};
use mcp_sdk::transport::{Transport, TransportError};
use mcp_sdk::types::{
    CallToolResponse, Implementation, InitializeResponse, ServerCapabilities,
    ToolResponseContent,
};
use serde_json::Value;
use std::collections::VecDeque;

struct Script {
    inbound: VecDeque<Envelope>,
    sent: Vec<Envelope>,
}

impl Script {
    fn playing(messages: Vec<Message>) -> Script {
        Script { inbound: messages.into_iter().map(encode).collect(), sent: Vec::new() }
    }
}

impl Transport for Script {
    fn send(&mut self, envelope: &Envelope) -> Result<(), TransportError> {
        self.sent.push(envelope.clone());
        Ok(())
    }

    fn receive(&mut self) -> Result<Option<Envelope>, TransportError> {
        Ok(self.inbound.pop_front())
    }
}

struct Upper;

impl Tool for Upper {
    fn name(&self) -> String {
        "upper".to_string()
    }

    fn description(&self) -> String {
        "Upper-cases a string".to_string()
    }

    fn input_schema(&self) -> Value {
        Value::Object(serde_json::Map::new())
    }

    fn call(&self, input: Option<Value>) -> Result<CallToolResponse, ToolError> {
        match input.as_ref().and_then(|value| value.as_str()) {
            Some(text) => Ok(CallToolResponse {
                content: vec![ToolResponseContent::Text { text: text.to_uppercase() }],
                is_error: None,
                meta: None,
            }),
            None => Err(ToolError { message: "expected a string".to_string() }),
        }
    }
}

fn info() -> Implementation {
    Implementation { name: "demo".to_string(), version: "1.2.3".to_string() }
}

fn request(id: u64, method: &str) -> Message {
    Message::Request { id: RequestId::Number(id), method: method.to_string(), params: None }
}

#[test]
fn routes_its_own_methods() {
    assert_eq!(Server::<Script, Upper>::route("initialize"), ServerMethod::Initialize);
    assert_eq!(Server::<Script, Upper>::route("tools/list"), ServerMethod::ListTools);
    assert_eq!(Server::<Script, Upper>::route("tools/call"), ServerMethod::CallTool);
    assert_eq!(Server::<Script, Upper>::route("tools/List"), ServerMethod::Other);
    assert_eq!(Server::<Script, Upper>::route(""), ServerMethod::Other);
    assert_eq!(TOOLS_LIST_METHOD, "tools/list");
    assert_eq!(TOOLS_CALL_METHOD, "tools/call");
}

#[test]
fn a_new_server_declares_nothing_and_offers_nothing() {
    let server: Server<Script, Upper> = Server::builder(Script::playing(vec![]), info()).build();
    assert_eq!(server.capabilities, ServerCapabilities::default());
    assert_eq!(server.tools.len(), 0);
    assert_eq!(server.server_info, info());
    assert_eq!(server.protocol.engine.pending_count(), 0);
}

#[test]
fn the_handshake_answer_holds_what_the_server_declares() {
    let capabilities = ServerCapabilities {
        tools: Some(Value::Object(serde_json::Map::new())),
        ..ServerCapabilities::default()
    };
    let server: Server<Script, Upper> = ServerBuilder::new(Script::playing(vec![]), info())
        .capabilities(capabilities.clone())
        .build();
    assert_eq!(
        server.handle_initialize(),
        InitializeResponse {
            protocol_version: "2024-11-05".to_string(),
            capabilities,
            server_info: info(),
        }
    );
}

#[test]
fn a_client_accepts_the_answer_of_a_server() {
    let server: Server<Script, Upper> = Server::builder(Script::playing(vec![]), info()).build();
    let mut client = Client::builder(Script::playing(vec![])).build();
    let answer = server.handle_initialize();
    assert_eq!(client.initialize(answer), Ok(server.handle_initialize()));
    assert_eq!(
        client.protocol.channel.get().sent,
        vec![encode(Message::Notification {
            method: "notifications/initialized".to_string(),
            params: None,
        })]
    );
}

#[test]
fn the_three_handlers_are_registered_at_construction() {
    let script = Script::playing(vec![
        request(1, "initialize"),
        request(2, "tools/list"),
        request(3, "tools/call"),
        request(4, "resources/list"),
    ]);
    let mut server: Server<Script, Upper> = Server::builder(script, info()).build();
    for (id, method) in [(1, "initialize"), (2, "tools/list"), (3, "tools/call")] {
        assert_eq!(
            server.listen(1),
            Step::Invoke { id: RequestId::Number(id), method: method.to_string(), params: None }
        );
    }
    // the fourth method has no handler: it is answered, and the channel ends
    assert_eq!(server.listen(5), Step::Closed { resolved: vec![] });
    assert_eq!(server.protocol.channel.get().sent.len(), 1);
    assert_eq!(server.protocol.channel.get().sent[0].id, Some(RequestId::Number(4)));
    assert_eq!(server.protocol.channel.get().sent[0].error.as_ref().map(|e| e.code), Some(-32601));
}

#[test]
fn handlers_of_the_host_stand_beside_the_servers_own() {
    let mut builder: ServerBuilder<Script, Upper> =
        ServerBuilder::new(Script::playing(vec![request(1, "ping"), request(2, "tools/list")]), info());
    builder.protocol = builder.protocol.request_handler("ping");
    let mut server = builder.build();
    assert_eq!(
        server.listen(1),
        Step::Invoke { id: RequestId::Number(1), method: "ping".to_string(), params: None }
    );
    assert_eq!(
        server.listen(1),
        Step::Invoke { id: RequestId::Number(2), method: "tools/list".to_string(), params: None }
    );
}

#[test]
fn tools_are_listed_and_called_through_the_server() {
    let mut tools: Tools<Upper> = Tools::default();
    tools.add_tool(Upper);
    let server: Server<Script, Upper> =
        Server::builder(Script::playing(vec![]), info()).tools(tools).build();
    let listed = server.tools.list_tools();
    assert_eq!(listed.len(), 1);
    assert_eq!(listed[0].name, "upper");
    assert_eq!(listed[0].description, Some("Upper-cases a string".to_string()));
    let answer = server.tools.call_tool(mcp_sdk::types::CallToolRequest {
        name: "upper".to_string(),
        arguments: Some(Value::from("abc")),
    });
    assert_eq!(answer.content, vec![ToolResponseContent::Text { text: "ABC".to_string() }]);
    assert_eq!(answer.is_error, None);
    let failed = server.tools.call_tool(mcp_sdk::types::CallToolRequest {
        name: "upper".to_string(),
        arguments: None,
    });
    assert_eq!(failed.is_error, Some(true));
    assert_eq!(
        failed.content,
        vec![ToolResponseContent::Text {
            text: "Error calling tool upper: expected a string".to_string()
        }]
    );
}

#[test]
fn protocol_builder_is_reachable_from_protocol() {
    let protocol = Protocol::builder(Script::playing(vec![])).build();
    assert_eq!(protocol.engine.next_id(), 0);
}

#[test]
fn copies_hold_the_same_content() {
    let capabilities = ServerCapabilities {
        experimental: Some(Value::from(1)),
        logging: None,
        prompts: Some(Value::from("p")),
        resources: None,
        tools: Some(Value::Null),
    };
    assert_eq!(capabilities.duplicate(), capabilities);
    assert_eq!(info().duplicate(), info());
    assert_eq!(mcp_sdk::types::duplicate_value(&Some(Value::from(3))), Some(Value::from(3)));
    assert_eq!(mcp_sdk::types::duplicate_value(&None), None);
    assert!(mcp_sdk::types::same_text("a b", "a b"));
    assert!(!mcp_sdk::types::same_text("a b", "a  b"));
    assert!(!mcp_sdk::types::same_text("", "x"));
}
