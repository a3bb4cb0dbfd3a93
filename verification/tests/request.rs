use codex_acp::agent::CodexAgent;
use codex_acp::conversation::ConversationId;
use codex_acp::error::{acp_internal_err, internal_err, ErrorData, RpcError};
use codex_acp::event::Op;
use codex_acp::mcp::{
    collect_env, configure_server, configure_servers, EnvVariable, McpServer, McpServerConfig,
};
use codex_acp::request::{
    AgentCapabilities, AskForApproval, CancelAction, ConfigOverrides, InitializeResponse,
    PromptCapabilities, ProtocolVersion, SandboxMode,
};
use codex_acp::text::join_with_spaces;

fn error(code: i32, message: &str, data: Option<&str>) -> RpcError {
    RpcError {
        code,
        message: message.to_string(),
        data: data.map(|text| ErrorData::Text(text.to_string())),
    }
}

fn var(name: &str, value: &str) -> EnvVariable {
    EnvVariable { name: name.to_string(), value: value.to_string() }
}

fn pair(name: &str, value: &str) -> (String, String) {
    (name.to_string(), value.to_string())
}

fn server(name: &str, command: &str, env: Vec<EnvVariable>) -> McpServer {
    McpServer {
        name: name.to_string(),
        command: command.to_string(),
        args: vec!["--stdio".to_string()],
        env,
    }
}

fn config(command: &str, env: Vec<(String, String)>) -> McpServerConfig {
    McpServerConfig {
        command: command.to_string(),
        args: vec!["--stdio".to_string()],
        env: Some(env),
        startup_timeout_ms: None,
    }
}

#[test]
fn the_first_answer_offers_nothing_special() {
    let prompt_capabilities =
        PromptCapabilities { image: false, audio: false, embedded_context: false };
    assert_eq!(
        CodexAgent::new().initialize(),
        Ok(InitializeResponse {
            protocol_version: ProtocolVersion::V1,
            agent_capabilities: AgentCapabilities { load_session: false, prompt_capabilities },
            auth_methods: vec![],
        })
    );
}

#[test]
fn everybody_is_let_in() {
    assert_eq!(CodexAgent::new().authenticate(), Ok(()));
}

#[test]
fn sessions_cannot_be_loaded() {
    assert_eq!(
        CodexAgent::new().load_session(),
        Err(error(-32601, "Method not found", None))
    );
}

#[test]
fn a_client_that_is_gone_is_an_internal_error() {
    assert_eq!(CodexAgent::new().get_client(Some(3)), Ok(3));
    assert_eq!(
        CodexAgent::new().get_client(None::<u8>),
        Err(error(-32603, "Internal error", None))
    );
}

#[test]
fn failures_become_internal_errors() {
    let internal = error(-32603, "Internal error", Some("disk full"));
    assert_eq!(internal_err("disk full".to_string()), internal);
    assert_eq!(acp_internal_err::<u8>(Err("disk full".to_string())), Err(internal));
    assert_eq!(acp_internal_err(Ok(3)), Ok(3));
}

#[test]
fn a_new_session_is_configured() {
    assert_eq!(
        CodexAgent::new().new_session("/work", Some("/bin/sandbox")),
        ConfigOverrides {
            include_plan_tool: Some(true),
            approval_policy: Some(AskForApproval::OnRequest),
            sandbox_mode: Some(SandboxMode::WorkspaceWrite),
            cwd: Some("/work"),
            codex_linux_sandbox_exe: Some("/bin/sandbox"),
        }
    );
    let overrides = CodexAgent::new().new_session("/work", None);
    assert_eq!(overrides.codex_linux_sandbox_exe, None);
}

#[test]
fn a_server_is_configured() {
    let made = configure_server(&server("files", "/bin/files", vec![var("A", "1")]));
    assert_eq!(made, config("/bin/files", vec![pair("A", "1")]));
}

#[test]
fn of_two_variables_the_later_counts() {
    let env = collect_env(&[var("A", "1"), var("B", "2"), var("A", "3")]);
    assert_eq!(env, vec![pair("A", "3"), pair("B", "2")]);
    assert_eq!(collect_env(&[]), vec![]);
}

#[test]
fn of_two_servers_the_later_counts() {
    let servers =
        [server("x", "/bin/a", vec![]), server("y", "/bin/b", vec![]), server("x", "/bin/c", vec![])];
    let expected = vec![
        ("x".to_string(), config("/bin/c", vec![])),
        ("y".to_string(), config("/bin/b", vec![])),
    ];
    assert_eq!(configure_servers(&servers), expected);
    assert_eq!(CodexAgent::new().config_loaded(Ok(()), &servers), Ok(expected));
}

#[test]
fn a_configuration_that_cannot_be_loaded_is_an_internal_error() {
    assert_eq!(
        CodexAgent::new().config_loaded(Err("bad toml".to_string()), &[]),
        Err(error(-32603, "Internal error", Some("bad toml")))
    );
}

#[test]
fn a_session_is_named_after_its_conversation() {
    let agent = CodexAgent::new();
    let bits = 0x00112233445566778899aabbccddeeff;
    let started = agent.conversation_started(Ok(ConversationId { bits }));
    assert_eq!(started, Ok("00112233-4455-6677-8899-aabbccddeeff".to_string()));
    let conversation = ConversationId { bits };
    assert_eq!(
        agent.cancel(&started.unwrap()),
        CancelAction::FindConversation { conversation }
    );
    assert_eq!(
        agent.conversation_started(Err("no login".to_string())),
        Err(error(-32603, "Internal error", Some("no login")))
    );
}

#[test]
fn a_conversation_is_interrupted() {
    let agent = CodexAgent::new();
    assert_eq!(agent.cancel_found(true), CancelAction::Submit { op: Op::Interrupt });
    assert_eq!(agent.cancel_submitted(Ok(())), Ok(()));
    assert_eq!(
        agent.cancel_submitted(Err("closed".to_string())),
        Err(error(-32603, "Internal error", Some("closed")))
    );
}

#[test]
fn there_may_be_nothing_to_cancel() {
    let agent = CodexAgent::new();
    assert_eq!(agent.cancel_found(false), CancelAction::Finish { answer: Ok(()) });
}

#[test]
fn cancelling_needs_a_session() {
    assert_eq!(
        CodexAgent::new().cancel("nonsense"),
        CancelAction::Finish {
            answer: Err(error(-32602, "Invalid params", Some("Invalid session id")))
        }
    );
}

#[test]
fn words_are_joined_with_spaces() {
    assert_eq!(join_with_spaces(&["a".to_string(), String::new(), "b".to_string()]), "a  b");
    assert_eq!(join_with_spaces(&["a".to_string()]), "a");
    assert_eq!(join_with_spaces(&[]), "");
}

/// What a request to cancel hands over, and its answer.
fn cancel(
    session_id: &str,
    found: bool,
    submitted: Result<(), String>,
) -> (Vec<Op>, Result<(), RpcError>) {
    let agent = CodexAgent::new();
    let mut handed_over = vec![];
    let mut action = agent.cancel(session_id);
    loop {
        action = match action {
            CancelAction::FindConversation { .. } => agent.cancel_found(found),
            CancelAction::Submit { op } => {
                handed_over.push(op);
                return (handed_over, agent.cancel_submitted(submitted));
            }
            CancelAction::Finish { answer } => return (handed_over, answer),
        };
    }
}

#[test]
fn cancelling_as_a_whole() {
    let session = "550e8400-e29b-41d4-a716-446655440000";
    let closed = || Err("closed".to_string());
    assert_eq!(cancel(session, true, Ok(())), (vec![Op::Interrupt], Ok(())));
    assert_eq!(cancel(session, false, closed()), (vec![], Ok(())));
    assert_eq!(
        cancel(session, true, closed()),
        (vec![Op::Interrupt], Err(error(-32603, "Internal error", Some("closed"))))
    );
    assert_eq!(
        cancel("550e8400", true, Ok(())),
        (vec![], Err(error(-32602, "Invalid params", Some("Invalid session id"))))
    );
}

#[test]
fn the_first_failure_of_a_new_session_is_its_answer() {
    let agent = CodexAgent::new();
    let refused = agent.config_loaded(Err("bad toml".to_string()), &[server("x", "/x", vec![])]);
    assert_eq!(refused, Err(error(-32603, "Internal error", Some("bad toml"))));
    assert_eq!(agent.config_loaded(Ok(()), &[]), Ok(vec![]));
}
