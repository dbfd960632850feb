//! The serving side: an engine with handlers for the handshake and for the
//! two tool methods, and the registry that those two consult.

use crate::client::INITIALIZE_METHOD;
use crate::protocol::{EngineState, Protocol, ProtocolBuilder, Step};
use crate::tools::{Registration, Tool, Tools};
use crate::transport::Transport;
use crate::types::{
    same_text, Implementation, InitializeResponse, InitializeResponseView, ServerCapabilities,
    LATEST_PROTOCOL_VERSION,
};
use vstd::prelude::*;

verus! {

/// The method that lists the registered tools.
pub const TOOLS_LIST_METHOD: &'static str = "tools/list";

/// The method that invokes a registered tool.
pub const TOOLS_CALL_METHOD: &'static str = "tools/call";

/// The methods that a server answers by itself.
#[derive(Clone, Copy, Debug, PartialEq, Eq, Structural)]
pub enum ServerMethod {
    /// The request that opens the handshake.
    Initialize,
    /// The request for the definitions of all tools.
    ListTools,
    /// The request to invoke one tool.
    CallTool,
    /// Any other method: one that the host registered a handler for.
    Other,
}

/// Which of the server's own methods `method` names.
pub open spec fn routed(method: Seq<char>) -> ServerMethod {
    if method == INITIALIZE_METHOD@ {
        ServerMethod::Initialize
    } else if method == TOOLS_LIST_METHOD@ {
        ServerMethod::ListTools
    } else if method == TOOLS_CALL_METHOD@ {
        ServerMethod::CallTool
    } else {
        ServerMethod::Other
    }
}

/// The methods that every server has handlers for.
pub open spec fn own_methods() -> Set<Seq<char>> {
    set![INITIALIZE_METHOD@, TOOLS_LIST_METHOD@, TOOLS_CALL_METHOD@]
}

/// A server: an engine on the channel to the client, the tools it offers,
/// and what it declares about itself in the handshake.
pub struct Server<T: Transport, L: Tool> {
    pub protocol: Protocol<T>,
    pub tools: Tools<L>,
    pub capabilities: ServerCapabilities,
    pub server_info: Implementation,
}

/// Collects the pieces of a server.
pub struct ServerBuilder<T: Transport, L: Tool> {
    pub protocol: ProtocolBuilder<T>,
    pub tools: Tools<L>,
    pub capabilities: ServerCapabilities,
    pub server_info: Implementation,
}

impl<T: Transport, L: Tool> ServerBuilder<T, L> {
    /// Starts from the channel to the client and the server's name and
    /// version: no tools, no capabilities, no handlers of the host.
    pub fn new(transport: T, server_info: Implementation) -> (builder: ServerBuilder<T, L>)
        ensures
            builder.protocol.transport() == transport,
            builder.protocol.request_methods() == Set::<Seq<char>>::empty(),
            builder.protocol.notification_methods() == Set::<Seq<char>>::empty(),
            builder.tools@ == Seq::<Registration<L>>::empty(),
            builder.capabilities == (ServerCapabilities {
                experimental: None,
                logging: None,
                prompts: None,
                resources: None,
                tools: None,
            }),
            builder.server_info == server_info,
    {
        ServerBuilder {
            protocol: ProtocolBuilder::new(transport),
            tools: Tools::default(),
            capabilities: ServerCapabilities::default(),
            server_info,
        }
    }

    /// Sets what the server declares it can do.
    pub fn capabilities(self, capabilities: ServerCapabilities) -> (builder: ServerBuilder<T, L>)
        ensures
            builder == (ServerBuilder { capabilities, ..self }),
    {
        ServerBuilder { capabilities, ..self }
    }

    /// Sets the tools that the server offers.
    pub fn tools(self, tools: Tools<L>) -> (builder: ServerBuilder<T, L>)
        ensures
            builder == (ServerBuilder { tools, ..self }),
    {
        ServerBuilder { tools, ..self }
    }

    /// Makes the server. Its engine has handlers for the handshake and for
    /// the two tool methods, besides those that the host registered.
    pub fn build(self) -> (server: Server<T, L>)
        ensures
            server.protocol.engine@ == EngineState::initial(),
            server.protocol.channel.transport() == self.protocol.transport(),
            server.protocol.channel.unused(),
            server.protocol.engine.request_methods() == self.protocol.request_methods().union(
                own_methods(),
            ),
            server.protocol.engine.notification_methods() == self.protocol.notification_methods(),
            server.tools == self.tools,
            server.capabilities == self.capabilities,
            server.server_info == self.server_info,
    {
        let protocol = self.protocol.request_handler(INITIALIZE_METHOD).request_handler(
            TOOLS_LIST_METHOD,
        ).request_handler(TOOLS_CALL_METHOD).build();
        assert(protocol.engine.request_methods() =~= self.protocol.request_methods().union(
            own_methods(),
        ));
        Server {
            protocol,
            tools: self.tools,
            capabilities: self.capabilities,
            server_info: self.server_info,
        }
    }
}

impl<T: Transport, L: Tool> Server<T, L> {
    /// Starts collecting the pieces of a server on `transport`.
    pub fn builder(transport: T, server_info: Implementation) -> (builder: ServerBuilder<T, L>)
        ensures
            builder.protocol.transport() == transport,
            builder.protocol.request_methods() == Set::<Seq<char>>::empty(),
            builder.protocol.notification_methods() == Set::<Seq<char>>::empty(),
            builder.tools@ == Seq::<Registration<L>>::empty(),
            builder.server_info == server_info,
    {
        ServerBuilder::new(transport, server_info)
    }

    /// Which of the server's own methods `method` names.
    pub fn route(method: &str) -> (target: ServerMethod)
        ensures
            target == routed(method@),
    {
        if same_text(method, INITIALIZE_METHOD) {
            ServerMethod::Initialize
        } else if same_text(method, TOOLS_LIST_METHOD) {
            ServerMethod::ListTools
        } else if same_text(method, TOOLS_CALL_METHOD) {
            ServerMethod::CallTool
        } else {
            ServerMethod::Other
        }
    }

    /// Answers the request that opens the handshake: the revision that this
    /// library speaks, what the server declares it can do, and its name and
    /// version.
    pub fn handle_initialize(&self) -> (response: InitializeResponse)
        ensures
            response@ == (InitializeResponseView {
                protocol_version: LATEST_PROTOCOL_VERSION@,
                capabilities: self.capabilities,
                server_info: self.server_info@,
            }),
    {
        InitializeResponse {
            protocol_version: LATEST_PROTOCOL_VERSION.to_owned(),
            capabilities: self.capabilities.duplicate(),
            server_info: self.server_info.duplicate(),
        }
    }

    /// Listens on the channel until something needs the caller's attention
    /// or `budget` messages were handled; see [`Protocol::listen`].
    pub fn listen(&mut self, budget: u64) -> (step: Step)
        ensures
            final(self).protocol.listened(&old(self).protocol, budget, step),
            final(self).tools == old(self).tools,
            final(self).capabilities == old(self).capabilities,
            final(self).server_info == old(self).server_info,
    {
        self.protocol.listen(budget)
    }
}

} // verus!
