use codex_acp::agent::{CodexAgent, Reaction, StatusMark, StopReason};
use codex_acp::event::{Event, EventMsg};
use codex_acp::permission::Approval;
use codex_acp::tool_call::{
    build_exec_tool_call, build_tool_call_from_exec_begin, ExecCommandBeginEvent, ParsedCommand,
    ToolCall, ToolCallLocation, ToolCallStatus, ToolCallUpdate, ToolKind,
};
use codex_acp::update::{
    plan_update, PlanEntry, PlanEntryPriority, PlanEntryStatus, PlanItem, SessionUpdate,
    StepStatus,
};

fn event(msg: EventMsg) -> Event {
    Event { id: "sub".to_string(), msg }
}

fn tell(update: SessionUpdate) -> Reaction {
    Reaction::Notify { update, mark: None }
}

fn call(id: &str, title: &str, kind: ToolKind) -> ToolCall {
    ToolCall {
        id: id.to_string(),
        title: title.to_string(),
        kind,
        status: ToolCallStatus::InProgress,
        content: vec![],
        locations: vec![],
        raw_input: None,
        raw_output: None,
    }
}

fn exec_begin(id: &str, command: &[&str], parsed_cmd: Vec<ParsedCommand>) -> ExecCommandBeginEvent {
    ExecCommandBeginEvent {
        call_id: id.to_string(),
        command: command.iter().map(|word| word.to_string()).collect(),
        parsed_cmd,
    }
}

fn output(id: &str, chunk: &[u8]) -> Event {
    event(EventMsg::ExecCommandOutputDelta { call_id: id.to_string(), chunk: chunk.to_vec() })
}

fn exec_end(id: &str, exit_code: i32) -> Event {
    event(EventMsg::ExecCommandEnd { call_id: id.to_string(), exit_code })
}

fn content_update(id: &str, content: &[&str]) -> Reaction {
    tell(SessionUpdate::ToolCallUpdate(ToolCallUpdate {
        id: id.to_string(),
        title: None,
        status: None,
        content: Some(content.iter().map(|text| text.to_string()).collect()),
    }))
}

fn status_update(id: &str, status: ToolCallStatus) -> SessionUpdate {
    SessionUpdate::ToolCallUpdate(ToolCallUpdate {
        id: id.to_string(),
        title: None,
        status: Some(status),
        content: None,
    })
}

fn agent_running(id: &str) -> CodexAgent {
    let mut agent = CodexAgent::new();
    agent.react(event(EventMsg::ExecCommandBegin(exec_begin(id, &["make"], vec![]))));
    agent
}

#[test]
fn a_command_is_titled_by_its_words() {
    let made = build_tool_call_from_exec_begin(&exec_begin("c", &["bash", "-lc", "a && b"], vec![]));
    assert_eq!(made, call("c", "a && b", ToolKind::Execute));
    let made = build_tool_call_from_exec_begin(&exec_begin("c", &["echo", "a b"], vec![]));
    assert_eq!(made, call("c", "echo 'a b'", ToolKind::Execute));
}

#[test]
fn a_read_is_titled_and_located() {
    let parsed = vec![ParsedCommand::Read { name: "src/lib.rs".to_string() }];
    let made = build_tool_call_from_exec_begin(&exec_begin("c", &["cat", "src/lib.rs"], parsed));
    let mut expected = call("c", "Read src/lib.rs", ToolKind::Read);
    expected.locations.push(ToolCallLocation { path: "src/lib.rs".to_string(), line: None });
    assert_eq!(made, expected);
}

#[test]
fn a_nameless_read_has_no_location() {
    let parsed = [ParsedCommand::Read { name: String::new() }];
    let made = build_exec_tool_call("c".to_string(), "t".to_string(), &parsed);
    assert_eq!(made, call("c", "Read ", ToolKind::Read));
}

#[test]
fn a_listing_is_titled_by_path_or_command() {
    let parsed =
        [ParsedCommand::ListFiles { cmd: "ls".to_string(), path: Some("src".to_string()) }];
    let made = build_exec_tool_call("c".to_string(), "t".to_string(), &parsed);
    assert_eq!(made, call("c", "List src", ToolKind::Read));
    let parsed = [ParsedCommand::ListFiles { cmd: "ls -a".to_string(), path: None }];
    let made = build_exec_tool_call("c".to_string(), "t".to_string(), &parsed);
    assert_eq!(made, call("c", "List ls -a", ToolKind::Read));
}

#[test]
fn a_search_is_titled_by_what_is_known() {
    let title = |query: Option<&str>, path: Option<&str>| {
        let parsed = [ParsedCommand::Search {
            cmd: "rg".to_string(),
            query: query.map(str::to_string),
            path: path.map(str::to_string),
        }];
        let made = build_exec_tool_call("c".to_string(), "t".to_string(), &parsed);
        assert_eq!(made.kind, ToolKind::Search);
        made.title
    };
    assert_eq!(title(Some("foo"), Some("src")), "Search foo in src");
    assert_eq!(title(Some("foo"), None), "Search foo");
    assert_eq!(title(None, Some("src")), "Search src");
    assert_eq!(title(None, None), "Search rg");
}

#[test]
fn several_things_at_once_keep_the_command_title() {
    let parsed = [
        ParsedCommand::Read { name: "a".to_string() },
        ParsedCommand::Read { name: "b".to_string() },
    ];
    let made = build_exec_tool_call("c".to_string(), "cat a b".to_string(), &parsed);
    assert_eq!(made, call("c", "cat a b", ToolKind::Execute));
    let made = build_exec_tool_call("c".to_string(), "t".to_string(), &[ParsedCommand::Other]);
    assert_eq!(made, call("c", "t", ToolKind::Execute));
}

#[test]
fn messages_and_thoughts_are_passed_on() {
    let mut agent = CodexAgent::new();
    assert_eq!(
        agent.react(event(EventMsg::AgentMessageDelta { delta: "hi".to_string() })),
        tell(SessionUpdate::AgentMessageChunk { text: "hi".to_string() })
    );
    assert_eq!(
        agent.react(event(EventMsg::AgentReasoningDelta { delta: "hm".to_string() })),
        tell(SessionUpdate::AgentThoughtChunk { text: "hm".to_string() })
    );
}

#[test]
fn output_accumulates() {
    let mut agent = agent_running("c");
    assert_eq!(agent.react(output("c", b"one\n")), content_update("c", &["one\n"]));
    agent.react(event(EventMsg::AgentMessageDelta { delta: "hi".to_string() }));
    agent.react(output("other", b"lost"));
    assert_eq!(agent.react(output("c", b"two\n")), content_update("c", &["one\n", "two\n"]));
    let kept = agent.tool_call("c").map(|call| call.content);
    assert_eq!(kept, Some(vec!["one\n".to_string(), "two\n".to_string()]));
}

#[test]
fn given_output_is_shown() {
    let mut agent = agent_running("c");
    let shown = agent.show_output("c".to_string(), "one".to_string());
    assert_eq!(shown, content_update("c", &["one"]));
    let shown = agent.show_output("c".to_string(), "two".to_string());
    assert_eq!(shown, content_update("c", &["one", "two"]));
    assert_eq!(agent.show_output("d".to_string(), "lost".to_string()), Reaction::Ignore);
}

#[test]
fn output_that_is_no_utf8_is_mended() {
    let mut agent = agent_running("c");
    assert_eq!(
        agent.react(output("c", &[b'a', 0xff, b'b'])),
        content_update("c", &["a\u{fffd}b"])
    );
    assert_eq!(agent.react(output("c", "é".as_bytes())), content_update("c", &["a\u{fffd}b", "é"]));
}

#[test]
fn a_command_ends_once() {
    let mut agent = agent_running("c");
    assert_eq!(
        agent.react(exec_end("c", 0)),
        tell(status_update("c", ToolCallStatus::Completed))
    );
    assert_eq!(agent.tool_call("c"), None);
    assert_eq!(agent.react(exec_end("c", 0)), Reaction::Ignore);
    assert_eq!(agent.react(output("c", b"late")), Reaction::Ignore);
}

#[test]
fn a_command_fails_by_its_exit_code() {
    assert_eq!(
        agent_running("c").react(exec_end("c", 1)),
        tell(status_update("c", ToolCallStatus::Failed))
    );
    assert_eq!(
        agent_running("c").react(exec_end("c", -1)),
        tell(status_update("c", ToolCallStatus::Failed))
    );
}

#[test]
fn other_calls_are_untouched() {
    let mut agent = agent_running("a");
    agent.react(event(EventMsg::WebSearchBegin { call_id: "b".to_string() }));
    agent.react(exec_end("a", 0));
    assert_eq!(agent.tool_call("a"), None);
    assert_eq!(agent.tool_call("b"), Some(call("b", "Web Search", ToolKind::Search)));
}

#[test]
fn a_call_stands_under_its_own_id() {
    let agent = agent_running("c");
    assert_eq!(agent.tool_call("c").map(|call| call.id), Some("c".to_string()));
}

#[test]
fn an_mcp_call_begins_and_ends() {
    let mut agent = CodexAgent::new();
    let made = agent.react(event(EventMsg::McpToolCallBegin {
        call_id: "m".to_string(),
        server: "files".to_string(),
        tool: "read".to_string(),
    }));
    assert_eq!(made, tell(SessionUpdate::ToolCall(call("m", "files::read", ToolKind::Fetch))));
    let end = |success| event(EventMsg::McpToolCallEnd { call_id: "m".to_string(), success });
    assert_eq!(agent.react(end(false)), tell(status_update("m", ToolCallStatus::Failed)));
    assert_eq!(agent.react(end(true)), Reaction::Ignore);
}

#[test]
fn a_web_search_ends_with_its_query() {
    let mut agent = CodexAgent::new();
    let made = agent.react(event(EventMsg::WebSearchBegin { call_id: "w".to_string() }));
    assert_eq!(made, tell(SessionUpdate::ToolCall(call("w", "Web Search", ToolKind::Search))));
    let end =
        || event(EventMsg::WebSearchEnd { call_id: "w".to_string(), query: "rust".to_string() });
    assert_eq!(
        agent.react(end()),
        tell(SessionUpdate::ToolCallUpdate(ToolCallUpdate {
            id: "w".to_string(),
            title: None,
            status: Some(ToolCallStatus::Completed),
            content: Some(vec!["rust".to_string()]),
        }))
    );
    assert_eq!(agent.react(end()), Reaction::Ignore);
}

#[test]
fn a_patch_is_kept_under_its_status() {
    let mut agent = CodexAgent::new();
    let made = agent.react(event(EventMsg::PatchApplyBegin {
        call_id: "p".to_string(),
        changes: Some(serde_json::Value::from("a.rs")),
    }));
    let mut expected = call("p", "Apply Patch", ToolKind::Edit);
    expected.raw_input = Some(serde_json::Value::from("a.rs"));
    assert_eq!(made, tell(SessionUpdate::ToolCall(expected.clone())));
    let end = event(EventMsg::PatchApplyEnd { call_id: "p".to_string(), success: false });
    let mark = StatusMark { call_id: "p".to_string(), status: ToolCallStatus::Failed };
    assert_eq!(
        agent.react(end),
        Reaction::Notify {
            update: status_update("p", ToolCallStatus::Failed),
            mark: Some(mark)
        }
    );
    assert_eq!(agent.tool_call("p"), Some(expected.clone()));
    agent.mark(Some(StatusMark { call_id: "p".to_string(), status: ToolCallStatus::Failed }));
    expected.status = ToolCallStatus::Failed;
    assert_eq!(agent.tool_call("p"), Some(expected));
}

#[test]
fn marking_an_unknown_call_does_nothing() {
    let mut agent = CodexAgent::new();
    agent.mark(Some(StatusMark { call_id: "p".to_string(), status: ToolCallStatus::Failed }));
    agent.mark(None);
    assert_eq!(agent.tool_call("p"), None);
    let end = event(EventMsg::PatchApplyEnd { call_id: "p".to_string(), success: true });
    assert_eq!(agent.react(end), Reaction::Ignore);
}

#[test]
fn a_plan_is_told_step_by_step() {
    let plan = [
        PlanItem { step: "read".to_string(), status: StepStatus::Completed },
        PlanItem { step: "write".to_string(), status: StepStatus::InProgress },
        PlanItem { step: "test".to_string(), status: StepStatus::Pending },
    ];
    let entry = |content: &str, status| PlanEntry {
        content: content.to_string(),
        priority: PlanEntryPriority::Medium,
        status,
    };
    assert_eq!(
        plan_update(&plan),
        SessionUpdate::Plan {
            entries: vec![
                entry("read", PlanEntryStatus::Completed),
                entry("write", PlanEntryStatus::InProgress),
                entry("test", PlanEntryStatus::Pending),
            ]
        }
    );
    let mut agent = CodexAgent::new();
    assert_eq!(
        agent.react(event(EventMsg::PlanUpdate { plan: vec![] })),
        tell(SessionUpdate::Plan { entries: vec![] })
    );
}

#[test]
fn permission_is_asked_under_a_title() {
    let mut agent = CodexAgent::new();
    let made = agent.react(event(EventMsg::ExecApprovalRequest {
        call_id: "c".to_string(),
        command: vec!["rm".to_string(), "a b".to_string()],
    }));
    let asked = |title: &str| ToolCallUpdate {
        id: "c".to_string(),
        title: Some(title.to_string()),
        status: None,
        content: None,
    };
    assert_eq!(
        made,
        Reaction::Ask {
            tool_call: asked("rm 'a b'"),
            approval: Approval::Exec { id: "sub".to_string() },
        }
    );
    let made = agent.react(event(EventMsg::ApplyPatchApprovalRequest { call_id: "c".to_string() }));
    assert_eq!(
        made,
        Reaction::Ask {
            tool_call: asked("Apply patch"),
            approval: Approval::Patch { id: "c".to_string() },
        }
    );
    assert_eq!(agent.tool_call("c"), None);
}

#[test]
fn the_end_stops_and_the_rest_is_ignored() {
    let mut agent = CodexAgent::new();
    assert_eq!(
        agent.react(event(EventMsg::TaskComplete)),
        Reaction::Stop { reason: StopReason::EndTurn }
    );
    assert_eq!(
        agent.react(event(EventMsg::TurnAborted)),
        Reaction::Stop { reason: StopReason::Cancelled }
    );
    assert_eq!(agent.react(event(EventMsg::TurnDiff)), Reaction::Ignore);
    assert_eq!(agent.react(event(EventMsg::Other)), Reaction::Ignore);
}
