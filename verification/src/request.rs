//! The requests besides the prompt.
use vstd::prelude::*;

use crate::agent::CodexAgent;
use crate::conversation::{
    conversation_of, has_uuid_length, invalid_session_error, parse_session_id, session_of_conversation,
    uuid_parsed, uuid_text, ConversationId,
};
use crate::error::{
    acp_internal_err, answer_view, internal_err_of, internal_error, internal_on_err,
    method_not_found_error, RpcError, RpcErrorView,
};
use crate::event::{Op, OpView};
use crate::mcp::{
    by_name, config_map, configure_servers, distinct_names, with_servers, McpServer,
    McpServerConfig, McpServerConfigView,
};

verus! {

/// The version of the protocol that is spoken.
#[derive(Clone, Copy, Debug, PartialEq, Eq, Structural)]
pub enum ProtocolVersion {
    V1,
}

/// What a prompt may hold besides text.
#[derive(Clone, Copy, Debug, PartialEq, Eq, Structural)]
pub struct PromptCapabilities {
    pub image: bool,
    pub audio: bool,
    pub embedded_context: bool,
}

/// What the agent can do.
#[derive(Clone, Copy, Debug, PartialEq, Eq, Structural)]
pub struct AgentCapabilities {
    pub load_session: bool,
    pub prompt_capabilities: PromptCapabilities,
}

/// A way to authenticate.
#[derive(Debug, PartialEq, Eq)]
pub struct AuthMethod {
    pub id: String,
    pub name: String,
    pub description: Option<String>,
}

/// The answer to the first request.
#[derive(Debug, PartialEq, Eq)]
pub struct InitializeResponse {
    pub protocol_version: ProtocolVersion,
    pub agent_capabilities: AgentCapabilities,
    pub auth_methods: Vec<AuthMethod>,
}

/// When a conversation asks for approval.
#[derive(Clone, Copy, Debug, PartialEq, Eq, Structural)]
pub enum AskForApproval {
    /// When the model asks for it.
    OnRequest,
}

/// What a conversation's commands may write to.
#[derive(Clone, Copy, Debug, PartialEq, Eq, Structural)]
pub enum SandboxMode {
    /// The workspace.
    WorkspaceWrite,
}

/// What a session's configuration is set to, whatever the user has configured. `P` is a path.
#[derive(Debug, PartialEq, Eq)]
pub struct ConfigOverrides<P> {
    pub include_plan_tool: Option<bool>,
    pub approval_policy: Option<AskForApproval>,
    pub sandbox_mode: Option<SandboxMode>,
    pub cwd: Option<P>,
    pub codex_linux_sandbox_exe: Option<P>,
}

/// What is done about a request to cancel.
#[derive(Debug, PartialEq, Eq)]
pub enum CancelAction {
    /// To look up the conversation.
    FindConversation { conversation: ConversationId },
    /// To hand something to the conversation.
    Submit { op: Op },
    /// To answer the request.
    Finish { answer: Result<(), RpcError> },
}

/// The model of a `CancelAction`.
#[verifier::ext_equal]
pub enum CancelActionView {
    FindConversation { conversation: ConversationId },
    Submit { op: OpView },
    Finish { answer: Result<(), RpcErrorView> },
}

impl View for CancelAction {
    type V = CancelActionView;

    open spec fn view(&self) -> CancelActionView {
        match self {
            CancelAction::FindConversation { conversation } => CancelActionView::FindConversation {
                conversation: *conversation,
            },
            CancelAction::Submit { op } => CancelActionView::Submit { op: op@ },
            CancelAction::Finish { answer } => CancelActionView::Finish {
                answer: answer_view(*answer),
            },
        }
    }
}

/// The MCP servers that a new session adds, by their names, once the configuration has been loaded,
/// or could not be.
pub open spec fn servers_added(loaded: Result<(), String>, servers: Seq<McpServer>) -> Result<
    Map<Seq<char>, McpServerConfigView>,
    RpcErrorView,
> {
    match loaded {
        Ok(_) => Ok(with_servers(Map::empty(), servers)),
        Err(reason) => Err(internal_err_of(reason@)),
    }
}

/// The id of a new session, once its conversation has been started, or could not be.
pub open spec fn session_named(started: Result<ConversationId, String>) -> Result<
    Seq<char>,
    RpcErrorView,
> {
    match started {
        Ok(conversation) => Ok(uuid_text(conversation.bits)),
        Err(reason) => Err(internal_err_of(reason@)),
    }
}

/// The answer to a request for a new session, from what came of loading the configuration and of
/// starting the conversation, which is started only with a configuration.
pub open spec fn session_from(
    loaded: Result<(), String>,
    servers: Seq<McpServer>,
    started: Result<ConversationId, String>,
) -> Result<Seq<char>, RpcErrorView> {
    match servers_added(loaded, servers) {
        Ok(_) => session_named(started),
        Err(error) => Err(error),
    }
}

/// The first step of a request to cancel, from what was read as the session's UUID.
pub open spec fn cancel_asked(parsed: Option<u128>) -> CancelActionView {
    match parsed {
        Some(bits) => CancelActionView::FindConversation { conversation: ConversationId { bits } },
        None => CancelActionView::Finish { answer: Err(invalid_session_error()) },
    }
}

/// The step of a request to cancel after the conversation was found, or was not.
pub open spec fn cancel_looked_up(found: bool) -> CancelActionView {
    if found {
        CancelActionView::Submit { op: OpView::Interrupt }
    } else {
        CancelActionView::Finish { answer: Ok(()) }
    }
}

/// What a request to cancel hands to the conversation and what it is answered, from an action on:
/// `found` and `submitted` are what comes of looking the conversation up and of handing it
/// something.
pub open spec fn cancel_from(
    action: CancelActionView,
    found: bool,
    submitted: Result<(), String>,
) -> (Seq<OpView>, Result<(), RpcErrorView>)
    decreases
            if action is FindConversation {
                1nat
            } else {
                0nat
            },
{
    match action {
        CancelActionView::FindConversation { .. } => cancel_from(
            cancel_looked_up(found),
            found,
            submitted,
        ),
        CancelActionView::Submit { op } => (seq![op], internal_on_err(submitted)),
        CancelActionView::Finish { answer } => (Seq::empty(), answer),
    }
}

/// The agent can do nothing beyond what every agent can.
pub open spec fn no_capabilities() -> AgentCapabilities {
    AgentCapabilities {
        load_session: false,
        prompt_capabilities: PromptCapabilities {
            image: false,
            audio: false,
            embedded_context: false,
        },
    }
}

/// What an agent can do that says nothing of it, by
/// `agent_client_protocol::AgentCapabilities::default`.
///
/// Taken on trust: it is nothing.
#[verifier::external_body]
fn default_capabilities() -> (capabilities: AgentCapabilities)
    ensures
        capabilities == no_capabilities(),
{
    let capabilities = agent_client_protocol::AgentCapabilities::default();
    AgentCapabilities {
        load_session: capabilities.load_session,
        prompt_capabilities: PromptCapabilities {
            image: capabilities.prompt_capabilities.image,
            audio: capabilities.prompt_capabilities.audio,
            embedded_context: capabilities.prompt_capabilities.embedded_context,
        },
    }
}

impl CodexAgent {
    /// The client, if it is still there. A client that is gone is an internal error.
    pub fn get_client<C>(&self, client: Option<C>) -> (found: Result<C, RpcError>)
        ensures
            match client {
                Some(client) => found == Ok::<C, RpcError>(client),
                None => found matches Err(error) && error@ == internal_error(),
            },
    {
        match client {
            Some(client) => Ok(client),
            None => Err(RpcError::internal_error()),
        }
    }

    /// Says what is spoken here, what the agent can do, and that nobody has to authenticate.
    pub fn initialize(&self) -> (response: Result<InitializeResponse, RpcError>)
        ensures
            response matches Ok(answer) && answer.protocol_version == ProtocolVersion::V1
                && answer.agent_capabilities == no_capabilities() && answer.auth_methods@.len()
                == 0,
            response matches Ok(answer) && !answer.agent_capabilities.load_session
                && !answer.agent_capabilities.prompt_capabilities.image
                && !answer.agent_capabilities.prompt_capabilities.audio
                && !answer.agent_capabilities.prompt_capabilities.embedded_context,
    {
        Ok(
            InitializeResponse {
                protocol_version: ProtocolVersion::V1,
                agent_capabilities: default_capabilities(),
                auth_methods: Vec::new(),
            },
        )
    }

    /// Lets everybody in.
    pub fn authenticate(&self) -> (response: Result<(), RpcError>)
        ensures
            response == Ok::<(), RpcError>(()),
    {
        Ok(())
    }

    /// Refuses: sessions cannot be loaded.
    pub fn load_session(&self) -> (response: Result<(), RpcError>)
        ensures
            response matches Err(error) && error@ == method_not_found_error(),
    {
        Err(RpcError::method_not_found())
    }

    /// Starts a new session: what its configuration is set to.
    pub fn new_session<P>(&self, cwd: P, codex_linux_sandbox_exe: Option<P>) -> (overrides:
        ConfigOverrides<P>)
        ensures
            overrides.include_plan_tool == Some(true),
            overrides.approval_policy == Some(AskForApproval::OnRequest),
            overrides.sandbox_mode == Some(SandboxMode::WorkspaceWrite),
            overrides.cwd == Some(cwd),
            overrides.codex_linux_sandbox_exe == codex_linux_sandbox_exe,
    {
        ConfigOverrides {
            include_plan_tool: Some(true),
            approval_policy: Some(AskForApproval::OnRequest),
            sandbox_mode: Some(SandboxMode::WorkspaceWrite),
            cwd: Some(cwd),
            codex_linux_sandbox_exe,
        }
    }

    /// The MCP servers to add to the configuration of a new session, one for each name, once the
    /// configuration has been loaded.
    pub fn config_loaded(&self, loaded: Result<(), String>, servers: &[McpServer]) -> (configs:
        Result<Vec<(String, McpServerConfig)>, RpcError>)
        ensures
            servers_added(loaded, servers@) == (match configs {
                Ok(configs) => Ok(config_map(by_name(configs@))),
                Err(error) => Err(error@),
            }),
            configs matches Ok(configs) ==> distinct_names(configs@) && forall|i: int|
                0 <= i < configs@.len() ==> (#[trigger] configs@[i]).1.wf(),
    {
        match acp_internal_err(loaded) {
            Ok(_) => Ok(configure_servers(servers)),
            Err(error) => Err(error),
        }
    }

    /// The id of a new session, once its conversation has been started. It leads back to the
    /// conversation.
    pub fn conversation_started(&self, started: Result<ConversationId, String>) -> (session_id:
        Result<String, RpcError>)
        ensures
            session_named(started) == (match session_id {
                Ok(id) => Ok(id@),
                Err(error) => Err(error@),
            }),
            session_id matches Ok(id) ==> uuid_parsed(id@) == Some(started->Ok_0.bits),
    {
        match acp_internal_err(started) {
            Ok(conversation) => Ok(session_of_conversation(conversation)),
            Err(error) => Err(error),
        }
    }

    /// Starts to cancel what a session works on. A session id that is no UUID is refused.
    pub fn cancel(&self, session_id: &str) -> (action: CancelAction)
        ensures
            action@ == cancel_asked(uuid_parsed(session_id@)),
            uuid_parsed(session_id@) is Some ==> has_uuid_length(session_id@),
    {
        match conversation_of(parse_session_id(session_id)) {
            Ok(conversation) => CancelAction::FindConversation { conversation },
            Err(error) => CancelAction::Finish { answer: Err(error) },
        }
    }

    /// Interrupts a conversation that was found. Where there is none, there is nothing to cancel.
    pub fn cancel_found(&self, found: bool) -> (action: CancelAction)
        ensures
            action@ == cancel_looked_up(found),
    {
        if found {
            CancelAction::Submit { op: Op::Interrupt }
        } else {
            CancelAction::Finish { answer: Ok(()) }
        }
    }

    /// Answers once the conversation has been interrupted, or could not be.
    pub fn cancel_submitted(&self, submitted: Result<(), String>) -> (answer: Result<(), RpcError>)
        ensures
            answer_view(answer) == internal_on_err(submitted),
    {
        acp_internal_err(submitted)
    }
}

} // verus!
