//! Plain data exchanged between the two peers during the handshake and
//! around tool invocations.
//!
//! Every type that holds text has a view in which the text is a sequence of
//! characters; contracts are stated over those views.

use vstd::prelude::*;

verus! {

/// The protocol revision this library speaks.
pub const LATEST_PROTOCOL_VERSION: &'static str = "2024-11-05";

/// Whether two strings hold the same characters.
pub fn same_text(a: &str, b: &str) -> (same: bool)
    ensures
        same == (a@ == b@),
{
    let left: String = a.to_owned();
    let right: String = b.to_owned();
    left == right
}

/// Name and version of one side of the conversation.
#[derive(Clone, Debug, PartialEq)]
pub struct Implementation {
    pub name: String,
    pub version: String,
}

/// Mathematical content of an [`Implementation`].
pub ghost struct ImplementationView {
    pub name: Seq<char>,
    pub version: Seq<char>,
}

impl View for Implementation {
    type V = ImplementationView;

    open spec fn view(&self) -> ImplementationView {
        ImplementationView { name: self.name@, version: self.version@ }
    }
}

impl Implementation {
    /// A copy with the same content.
    pub fn duplicate(&self) -> (copy: Implementation)
        ensures
            copy@ == self@,
    {
        Implementation { name: self.name.clone(), version: self.version.clone() }
    }
}

/// A copy of an optional JSON value.
pub fn duplicate_value(value: &Option<serde_json::Value>) -> (copy: Option<serde_json::Value>)
    ensures
        copy == *value,
{
    match value {
        Some(inner) => Some(inner.clone()),
        None => None,
    }
}

/// What a client declares it can do.
#[derive(Clone, Debug, PartialEq)]
pub struct ClientCapabilities {
    pub experimental: Option<serde_json::Value>,
    pub sampling: Option<serde_json::Value>,
    pub roots: Option<serde_json::Value>,
}

impl Default for ClientCapabilities {
    /// A client that declares nothing.
    fn default() -> (c: ClientCapabilities)
        ensures
            c == (ClientCapabilities { experimental: None, sampling: None, roots: None }),
    {
        ClientCapabilities { experimental: None, sampling: None, roots: None }
    }
}

/// What a server declares it can do.
#[derive(Clone, Debug, PartialEq)]
pub struct ServerCapabilities {
    pub experimental: Option<serde_json::Value>,
    pub logging: Option<serde_json::Value>,
    pub prompts: Option<serde_json::Value>,
    pub resources: Option<serde_json::Value>,
    pub tools: Option<serde_json::Value>,
}

impl Default for ServerCapabilities {
    /// A server that declares nothing.
    fn default() -> (c: ServerCapabilities)
        ensures
            c == (ServerCapabilities {
                experimental: None,
                logging: None,
                prompts: None,
                resources: None,
                tools: None,
            }),
    {
        ServerCapabilities {
            experimental: None,
            logging: None,
            prompts: None,
            resources: None,
            tools: None,
        }
    }
}

impl ServerCapabilities {
    /// A copy with the same content.
    pub fn duplicate(&self) -> (copy: ServerCapabilities)
        ensures
            copy == *self,
    {
        ServerCapabilities {
            experimental: duplicate_value(&self.experimental),
            logging: duplicate_value(&self.logging),
            prompts: duplicate_value(&self.prompts),
            resources: duplicate_value(&self.resources),
            tools: duplicate_value(&self.tools),
        }
    }
}

/// Parameters of the request that opens the handshake.
#[derive(Clone, Debug, PartialEq)]
pub struct InitializeRequest {
    pub protocol_version: String,
    pub capabilities: ClientCapabilities,
    pub client_info: Implementation,
}

/// Mathematical content of an [`InitializeRequest`].
pub ghost struct InitializeRequestView {
    pub protocol_version: Seq<char>,
    pub capabilities: ClientCapabilities,
    pub client_info: ImplementationView,
}

impl View for InitializeRequest {
    type V = InitializeRequestView;

    open spec fn view(&self) -> InitializeRequestView {
        InitializeRequestView {
            protocol_version: self.protocol_version@,
            capabilities: self.capabilities,
            client_info: self.client_info@,
        }
    }
}

/// The server's answer to the request that opens the handshake.
#[derive(Clone, Debug, PartialEq)]
pub struct InitializeResponse {
    pub protocol_version: String,
    pub capabilities: ServerCapabilities,
    pub server_info: Implementation,
}

/// Mathematical content of an [`InitializeResponse`].
pub ghost struct InitializeResponseView {
    pub protocol_version: Seq<char>,
    pub capabilities: ServerCapabilities,
    pub server_info: ImplementationView,
}

impl View for InitializeResponse {
    type V = InitializeResponseView;

    open spec fn view(&self) -> InitializeResponseView {
        InitializeResponseView {
            protocol_version: self.protocol_version@,
            capabilities: self.capabilities,
            server_info: self.server_info@,
        }
    }
}

/// What a tool tells the peer about itself.
#[derive(Clone, Debug, PartialEq)]
pub struct ToolDefinition {
    pub name: String,
    pub description: Option<String>,
    pub input_schema: serde_json::Value,
}

/// Mathematical content of a [`ToolDefinition`].
pub ghost struct ToolDefinitionView {
    pub name: Seq<char>,
    pub description: Option<Seq<char>>,
    pub input_schema: serde_json::Value,
}

impl View for ToolDefinition {
    type V = ToolDefinitionView;

    open spec fn view(&self) -> ToolDefinitionView {
        ToolDefinitionView {
            name: self.name@,
            description: match self.description {
                Some(d) => Some(d@),
                None => None,
            },
            input_schema: self.input_schema,
        }
    }
}

impl ToolDefinition {
    /// The definition of a tool that goes by `name`, does what
    /// `description` says and takes arguments of the shape `input_schema`.
    pub fn described(
        name: String,
        description: String,
        input_schema: serde_json::Value,
    ) -> (definition: ToolDefinition)
        ensures
            definition == (ToolDefinition { name, description: Some(description), input_schema }),
    {
        ToolDefinition { name, description: Some(description), input_schema }
    }

    /// A copy with the same content.
    pub fn duplicate(&self) -> (copy: ToolDefinition)
        ensures
            copy@ == self@,
    {
        ToolDefinition {
            name: self.name.clone(),
            description: match &self.description {
                Some(description) => Some(description.clone()),
                None => None,
            },
            input_schema: self.input_schema.clone(),
        }
    }
}

/// A request to invoke one tool by name.
#[derive(Clone, Debug, PartialEq)]
pub struct CallToolRequest {
    pub name: String,
    pub arguments: Option<serde_json::Value>,
}

/// One item of a tool's answer.
#[allow(inconsistent_fields)]
#[derive(Clone, Debug, PartialEq)]
pub enum ToolResponseContent {
    Text { text: String },
    Image { data: String, mime_type: String },
    Resource { uri: String, mime_type: Option<String>, text: Option<String> },
}

/// Mathematical content of a [`ToolResponseContent`].
#[allow(inconsistent_fields)]
pub ghost enum ToolResponseContentView {
    Text { text: Seq<char> },
    Image { data: Seq<char>, mime_type: Seq<char> },
    Resource { uri: Seq<char>, mime_type: Option<Seq<char>>, text: Option<Seq<char>> },
}

impl View for ToolResponseContent {
    type V = ToolResponseContentView;

    open spec fn view(&self) -> ToolResponseContentView {
        match *self {
            ToolResponseContent::Text { text } => ToolResponseContentView::Text { text: text@ },
            ToolResponseContent::Image { data, mime_type } => ToolResponseContentView::Image {
                data: data@,
                mime_type: mime_type@,
            },
            ToolResponseContent::Resource {
                uri,
                mime_type,
                text,
            } => ToolResponseContentView::Resource {
                uri: uri@,
                mime_type: match mime_type {
                    Some(m) => Some(m@),
                    None => None,
                },
                text: match text {
                    Some(t) => Some(t@),
                    None => None,
                },
            },
        }
    }
}

/// The answer to a tool invocation: content items in order, and whether the
/// invocation failed.
#[derive(Clone, Debug, PartialEq)]
pub struct CallToolResponse {
    pub content: Vec<ToolResponseContent>,
    pub is_error: Option<bool>,
    pub meta: Option<serde_json::Value>,
}

/// Mathematical content of a [`CallToolResponse`].
pub ghost struct CallToolResponseView {
    pub content: Seq<ToolResponseContentView>,
    pub is_error: Option<bool>,
    pub meta: Option<serde_json::Value>,
}

impl View for CallToolResponse {
    type V = CallToolResponseView;

    open spec fn view(&self) -> CallToolResponseView {
        CallToolResponseView {
            content: self.content@.map_values(|c: ToolResponseContent| c@),
            is_error: self.is_error,
            meta: self.meta,
        }
    }
}

/// The failed answer that carries one line of text and nothing else.
pub open spec fn error_response(text: Seq<char>) -> CallToolResponseView {
    CallToolResponseView {
        content: seq![ToolResponseContentView::Text { text }],
        is_error: Some(true),
        meta: None,
    }
}

impl CallToolResponse {
    /// Builds the failed answer that carries `text` as its only content item.
    pub fn error(text: String) -> (response: CallToolResponse)
        ensures
            response@ == error_response(text@),
    {
        let mut content: Vec<ToolResponseContent> = Vec::new();
        content.push(ToolResponseContent::Text { text });
        let response = CallToolResponse { content, is_error: Some(true), meta: None };
        assert(response@.content =~= error_response(text@).content);
        response
    }
}

} // verus!
