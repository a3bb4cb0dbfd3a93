use codex_acp::agent::{CodexAgent, StopReason};
use codex_acp::conversation::{
    conversation_of, parse_session_id, session_of_conversation, ConversationId,
};
use codex_acp::error::{ErrorData, RpcError};
use codex_acp::event::{Event, EventMsg, Op, ReviewDecision};
use codex_acp::permission::{
    review_decision, PermissionOption, PermissionOptionKind, PermissionOutcome, PermissionRequest,
};
use codex_acp::tool_call::{ToolCallStatus, ToolCallUpdate};
use codex_acp::turn::{prompt_op, start_turn, Action, ContentBlock, PromptTurn, Reply};
use codex_acp::update::SessionUpdate;

const SESSION: &str = "550e8400-e29b-41d4-a716-446655440000";
const BITS: u128 = 0x550e8400e29b41d4a716446655440000;

fn text(text: &str) -> ContentBlock {
    ContentBlock::Text { text: text.to_string() }
}

fn error(code: i32, message: &str, data: &str) -> RpcError {
    RpcError {
        code,
        message: message.to_string(),
        data: Some(ErrorData::Text(data.to_string())),
    }
}

fn client_error() -> RpcError {
    RpcError {
        code: 7,
        message: "gone".to_string(),
        data: Some(ErrorData::Json(serde_json::Value::from(vec![1.5, 0.1]))),
    }
}

fn event(id: &str, msg: EventMsg) -> Reply {
    Reply::Event { event: Ok(Event { id: id.to_string(), msg }) }
}

/// A turn that waits for events of the submission `sub`.
fn listening(agent: &mut CodexAgent) -> PromptTurn {
    let (turn, _) = agent.prompt(SESSION.to_string(), vec![text("hello")]);
    let (turn, _) = step(agent, turn, Reply::Conversation { found: Ok(()) });
    let (turn, action) = step(agent, turn, Reply::Submitted { id: Ok("sub".to_string()) });
    assert_eq!(action, Action::NextEvent);
    turn
}

fn step(agent: &mut CodexAgent, turn: PromptTurn, reply: Reply) -> (PromptTurn, Action) {
    assert!(turn.expects(&reply));
    agent.resume(turn, reply)
}

#[test]
fn a_session_id_that_is_no_uuid_is_refused() {
    let agent = CodexAgent::new();
    let (turn, action) = agent.prompt("nonsense".to_string(), vec![text("hello")]);
    assert_eq!(
        action,
        Action::Finish { answer: Err(error(-32602, "Invalid params", "Invalid session id")) }
    );
    assert!(!turn.expects(&Reply::Conversation { found: Ok(()) }));
    let long = "zzze8400-e29b-41d4-a716-446655440000";
    let (_, action) = agent.prompt(long.to_string(), vec![]);
    assert!(matches!(action, Action::Finish { answer: Err(_) }));
}

#[test]
fn a_prompt_looks_up_its_conversation() {
    let agent = CodexAgent::new();
    let (turn, action) = agent.prompt(SESSION.to_string(), vec![]);
    let conversation = ConversationId { bits: BITS };
    assert_eq!(action, Action::FindConversation { conversation });
    assert!(turn.expects(&Reply::Conversation { found: Ok(()) }));
    assert!(!turn.expects(&event("sub", EventMsg::TaskComplete)));
}

#[test]
fn all_written_forms_of_a_uuid_name_the_same_session() {
    assert_eq!(parse_session_id(SESSION), Some(BITS));
    assert_eq!(parse_session_id("550e8400e29b41d4a716446655440000"), Some(BITS));
    assert_eq!(parse_session_id("{550e8400-e29b-41d4-a716-446655440000}"), Some(BITS));
    assert_eq!(parse_session_id("urn:uuid:550e8400-e29b-41d4-a716-446655440000"), Some(BITS));
    assert_eq!(parse_session_id("550E8400-E29B-41D4-A716-446655440000"), Some(BITS));
    assert_eq!(parse_session_id("550E8400E29B41D4a716446655440000"), Some(BITS));
    assert_eq!(parse_session_id("URN:Uuid:550e8400-e29b-41d4-a716-446655440000"), Some(BITS));
    assert_eq!(parse_session_id("[550e8400-e29b-41d4-a716-446655440000]"), None);
    assert_eq!(parse_session_id("550e8400-e29b41d4--a716-446655440000"), None);
    assert_eq!(parse_session_id("550e8400-e29b-41d4-a716-44665544000g"), None);
    assert_eq!(parse_session_id("550e8400-e29b-41d4-a716-44665544000é"), None);
    assert_eq!(parse_session_id("+50e8400e29b41d4a716446655440000"), None);
    assert_eq!(parse_session_id(""), None);
    assert_eq!(parse_session_id("550e8400-e29b-41d4-a716-44665544000"), None);
}

#[test]
fn a_session_leads_back_to_its_conversation() {
    assert_eq!(session_of_conversation(ConversationId { bits: BITS }), SESSION);
    for bits in [0, 1, BITS, u128::MAX] {
        let session_id = session_of_conversation(ConversationId { bits });
        assert_eq!(parse_session_id(&session_id), Some(bits));
        let (_, action) = CodexAgent::new().prompt(session_id, vec![]);
        assert_eq!(action, Action::FindConversation { conversation: ConversationId { bits } });
    }
}

#[test]
fn a_session_is_written_in_lower_case_groups() {
    let session = |bits: u128| session_of_conversation(ConversationId { bits });
    assert_eq!(session(0), "00000000-0000-0000-0000-000000000000");
    assert_eq!(session(u128::MAX), "ffffffff-ffff-ffff-ffff-ffffffffffff");
    assert_eq!(
        session(0x0123456789abcdeffedcba9876543210),
        "01234567-89ab-cdef-fedc-ba9876543210"
    );
}

#[test]
fn two_conversations_have_two_sessions() {
    let session = |bits: u128| session_of_conversation(ConversationId { bits });
    assert_ne!(session(1), session(1 << 127));
    assert_ne!(session(BITS), session(BITS + 1));
}

#[test]
fn a_turn_starts_from_what_was_read() {
    let (_, action) = start_turn("any".to_string(), vec![], Some(5));
    assert_eq!(action, Action::FindConversation { conversation: ConversationId { bits: 5 } });
    let (_, action) = start_turn("any".to_string(), vec![], None);
    assert!(matches!(action, Action::Finish { answer: Err(_) }));
    assert_eq!(conversation_of(Some(5)), Ok(ConversationId { bits: 5 }));
    assert_eq!(
        conversation_of(None),
        Err(error(-32602, "Invalid params", "Invalid session id"))
    );
}

#[test]
fn the_texts_are_handed_over() {
    let mut agent = CodexAgent::new();
    let (turn, _) = agent.prompt(SESSION.to_string(), vec![text("a"), text("b")]);
    let (turn, action) = step(&mut agent, turn, Reply::Conversation { found: Ok(()) });
    let items = vec!["a".to_string(), "b".to_string()];
    assert_eq!(action, Action::Submit { op: Op::UserInput { items } });
    assert!(turn.expects(&Reply::Submitted { id: Err(String::new()) }));
    assert_eq!(prompt_op(vec![]), Ok(Op::UserInput { items: vec![] }));
}

#[test]
fn other_content_is_refused() {
    let mut agent = CodexAgent::new();
    let refused = error(-32602, "Invalid params", "Unsupported content block type");
    let (turn, _) = agent.prompt(SESSION.to_string(), vec![text("a"), ContentBlock::Other]);
    let (_, action) = step(&mut agent, turn, Reply::Conversation { found: Ok(()) });
    assert_eq!(action, Action::Finish { answer: Err(refused) });
    assert!(prompt_op(vec![ContentBlock::Other, text("a")]).is_err());
}

#[test]
fn an_unknown_conversation_is_an_internal_error() {
    let mut agent = CodexAgent::new();
    let (turn, _) = agent.prompt(SESSION.to_string(), vec![ContentBlock::Other]);
    let found = Err("no such conversation".to_string());
    let (_, action) = step(&mut agent, turn, Reply::Conversation { found });
    let answer = Err(error(-32603, "Internal error", "no such conversation"));
    assert_eq!(action, Action::Finish { answer });
}

#[test]
fn failures_of_the_conversation_are_internal_errors() {
    let mut agent = CodexAgent::new();
    let internal = || Err(error(-32603, "Internal error", "broken"));
    let (turn, _) = agent.prompt(SESSION.to_string(), vec![]);
    let (turn, _) = step(&mut agent, turn, Reply::Conversation { found: Ok(()) });
    let (_, action) = step(&mut agent, turn, Reply::Submitted { id: Err("broken".to_string()) });
    assert_eq!(action, Action::Finish { answer: internal() });

    let turn = listening(&mut agent);
    let (turn, action) = step(&mut agent, turn, Reply::Event { event: Err("broken".to_string()) });
    assert_eq!(action, Action::Finish { answer: internal() });
    assert!(!turn.expects(&event("sub", EventMsg::TaskComplete)));
}

#[test]
fn a_turn_ends_with_its_own_submission() {
    let mut agent = CodexAgent::new();
    let turn = listening(&mut agent);
    let (turn, action) = step(&mut agent, turn, event("other", EventMsg::TaskComplete));
    assert_eq!(action, Action::NextEvent);
    let (turn, action) = step(&mut agent, turn, event("sub", EventMsg::TurnDiff));
    assert_eq!(action, Action::NextEvent);
    let (turn, action) = step(&mut agent, turn, event("sub", EventMsg::TaskComplete));
    assert_eq!(action, Action::Finish { answer: Ok(StopReason::EndTurn) });
    assert!(!turn.expects(&event("sub", EventMsg::TaskComplete)));

    let turn = listening(&mut agent);
    let (_, action) = step(&mut agent, turn, event("sub", EventMsg::TurnAborted));
    assert_eq!(action, Action::Finish { answer: Ok(StopReason::Cancelled) });
}

#[test]
fn events_of_other_submissions_change_nothing() {
    let mut agent = CodexAgent::new();
    let turn = listening(&mut agent);
    let begin = EventMsg::WebSearchBegin { call_id: "w".to_string() };
    let (turn, action) = step(&mut agent, turn, event("other", begin));
    assert_eq!(action, Action::NextEvent);
    assert_eq!(agent.tool_call("w"), None);
    assert!(turn.expects(&event("sub", EventMsg::TaskComplete)));
}

#[test]
fn the_client_is_told_of_the_turns_session() {
    let mut agent = CodexAgent::new();
    let turn = listening(&mut agent);
    let delta = EventMsg::AgentMessageDelta { delta: "hi".to_string() };
    let (turn, action) = step(&mut agent, turn, event("sub", delta));
    assert_eq!(
        action,
        Action::Notify {
            session_id: SESSION.to_string(),
            update: SessionUpdate::AgentMessageChunk { text: "hi".to_string() },
        }
    );
    let (turn, action) = step(&mut agent, turn, Reply::Notified { told: Ok(()) });
    assert_eq!(action, Action::NextEvent);
    let (_, action) = step(&mut agent, turn, event("sub", EventMsg::TaskComplete));
    assert_eq!(action, Action::Finish { answer: Ok(StopReason::EndTurn) });
}

#[test]
fn a_clients_error_is_the_answer() {
    let mut agent = CodexAgent::new();
    let turn = listening(&mut agent);
    let delta = EventMsg::AgentMessageDelta { delta: "hi".to_string() };
    let (turn, _) = step(&mut agent, turn, event("sub", delta));
    let (_, action) = step(&mut agent, turn, Reply::Notified { told: Err(client_error()) });
    assert_eq!(action, Action::Finish { answer: Err(client_error()) });

    let turn = listening(&mut agent);
    let ask = EventMsg::ApplyPatchApprovalRequest { call_id: "p".to_string() };
    let (turn, _) = step(&mut agent, turn, event("sub", ask));
    let (_, action) = step(&mut agent, turn, Reply::Permission { outcome: Err(client_error()) });
    assert_eq!(action, Action::Finish { answer: Err(client_error()) });
}

#[test]
fn a_patch_is_marked_once_the_client_knows() {
    let mut agent = CodexAgent::new();
    let turn = listening(&mut agent);
    let begin = EventMsg::PatchApplyBegin { call_id: "p".to_string(), changes: None };
    let (turn, _) = step(&mut agent, turn, event("sub", begin));
    let (turn, _) = step(&mut agent, turn, Reply::Notified { told: Ok(()) });
    let end = EventMsg::PatchApplyEnd { call_id: "p".to_string(), success: true };
    let (turn, _) = step(&mut agent, turn, event("sub", end));
    let status = |agent: &CodexAgent| agent.tool_call("p").map(|call| call.status);
    assert_eq!(status(&agent), Some(ToolCallStatus::InProgress));
    let (_, action) = step(&mut agent, turn, Reply::Notified { told: Ok(()) });
    assert_eq!(action, Action::NextEvent);
    assert_eq!(status(&agent), Some(ToolCallStatus::Completed));
}

#[test]
fn a_patch_is_not_marked_where_the_client_could_not_be_told() {
    let mut agent = CodexAgent::new();
    let turn = listening(&mut agent);
    let begin = EventMsg::PatchApplyBegin { call_id: "p".to_string(), changes: None };
    let (turn, _) = step(&mut agent, turn, event("sub", begin));
    let (turn, _) = step(&mut agent, turn, Reply::Notified { told: Ok(()) });
    let end = EventMsg::PatchApplyEnd { call_id: "p".to_string(), success: true };
    let (turn, _) = step(&mut agent, turn, event("sub", end));
    step(&mut agent, turn, Reply::Notified { told: Err(client_error()) });
    let status = agent.tool_call("p").map(|call| call.status);
    assert_eq!(status, Some(ToolCallStatus::InProgress));
}

#[test]
fn permission_is_asked_decided_and_handed_on() {
    let mut agent = CodexAgent::new();
    let turn = listening(&mut agent);
    let ask = EventMsg::ExecApprovalRequest {
        call_id: "c".to_string(),
        command: vec!["bash".to_string(), "-lc".to_string(), "make clean".to_string()],
    };
    let (turn, action) = step(&mut agent, turn, event("sub", ask));
    let option = |id: &str, name: &str, kind| PermissionOption {
        id: id.to_string(),
        name: name.to_string(),
        kind,
    };
    assert_eq!(
        action,
        Action::RequestPermission {
            request: PermissionRequest {
                session_id: SESSION.to_string(),
                tool_call: ToolCallUpdate {
                    id: "c".to_string(),
                    title: Some("make clean".to_string()),
                    status: None,
                    content: None,
                },
                options: vec![
                    option("allow_once", "Allow Once", PermissionOptionKind::AllowOnce),
                    option("reject_once", "Reject Once", PermissionOptionKind::RejectOnce),
                ],
            }
        }
    );
    let outcome = Ok(PermissionOutcome::Selected { option_id: "allow_once".to_string() });
    let (turn, action) = step(&mut agent, turn, Reply::Permission { outcome });
    let decision = ReviewDecision::Approved;
    assert_eq!(
        action,
        Action::Submit { op: Op::ExecApproval { id: "sub".to_string(), decision } }
    );
    let (turn, action) = step(&mut agent, turn, Reply::Submitted { id: Ok("next".to_string()) });
    assert_eq!(action, Action::NextEvent);
    let (turn, action) = step(&mut agent, turn, event("next", EventMsg::TaskComplete));
    assert_eq!(action, Action::NextEvent);
    let (_, action) = step(&mut agent, turn, event("sub", EventMsg::TaskComplete));
    assert_eq!(action, Action::Finish { answer: Ok(StopReason::EndTurn) });
}

#[test]
fn a_patch_is_decided_by_its_call() {
    let mut agent = CodexAgent::new();
    let turn = listening(&mut agent);
    let ask = EventMsg::ApplyPatchApprovalRequest { call_id: "p".to_string() };
    let (turn, _) = step(&mut agent, turn, event("sub", ask));
    let outcome = Ok(PermissionOutcome::Cancelled);
    let (turn, action) = step(&mut agent, turn, Reply::Permission { outcome });
    let decision = ReviewDecision::Denied;
    assert_eq!(
        action,
        Action::Submit { op: Op::PatchApproval { id: "p".to_string(), decision } }
    );
    let (_, action) = step(&mut agent, turn, Reply::Submitted { id: Err("broken".to_string()) });
    let answer = Err(error(-32603, "Internal error", "broken"));
    assert_eq!(action, Action::Finish { answer });
}

#[test]
fn only_allow_once_approves() {
    let chosen = |id: &str| PermissionOutcome::Selected { option_id: id.to_string() };
    assert_eq!(review_decision(&chosen("allow_once")), ReviewDecision::Approved);
    assert_eq!(review_decision(&chosen("reject_once")), ReviewDecision::Denied);
    assert_eq!(review_decision(&chosen("allow_always")), ReviewDecision::Denied);
    assert_eq!(review_decision(&PermissionOutcome::Cancelled), ReviewDecision::Denied);
}

#[test]
fn turns_share_the_tool_calls() {
    let mut agent = CodexAgent::new();
    let first = listening(&mut agent);
    let second = listening(&mut agent);
    let begin = EventMsg::WebSearchBegin { call_id: "w".to_string() };
    step(&mut agent, first, event("sub", begin));
    let end = EventMsg::WebSearchEnd { call_id: "w".to_string(), query: "q".to_string() };
    let (_, action) = step(&mut agent, second, event("sub", end));
    assert!(matches!(action, Action::Notify { .. }));
    assert_eq!(agent.tool_call("w"), None);
}

/// What a listening turn does besides waiting, with every notification taken well.
fn deeds_of(events: Vec<(&str, EventMsg)>) -> (Vec<Action>, CodexAgent) {
    let mut agent = CodexAgent::new();
    let mut turn = listening(&mut agent);
    let mut deeds = vec![];
    for (id, msg) in events {
        let reply = event(id, msg);
        if !turn.expects(&reply) {
            continue;
        }
        let (next, action) = agent.resume(turn, reply);
        turn = next;
        if matches!(action, Action::Notify { .. }) {
            turn = step(&mut agent, turn, Reply::Notified { told: Ok(()) }).0;
        }
        if action != Action::NextEvent {
            deeds.push(action);
        }
    }
    (deeds, agent)
}

fn message(text: &str) -> EventMsg {
    EventMsg::AgentMessageDelta { delta: text.to_string() }
}

fn thought(text: &str) -> EventMsg {
    EventMsg::AgentReasoningDelta { delta: text.to_string() }
}

#[test]
fn bystanders_can_be_left_out() {
    let search = || EventMsg::WebSearchBegin { call_id: "w".to_string() };
    let (with, agent_with) = deeds_of(vec![
        ("other", message("no")),
        ("sub", message("a")),
        ("sub", EventMsg::TurnDiff),
        ("other", EventMsg::TaskComplete),
        ("sub", search()),
        ("other", EventMsg::WebSearchEnd { call_id: "w".to_string(), query: String::new() }),
        ("sub", EventMsg::TaskComplete),
    ]);
    let (without, agent_without) = deeds_of(vec![
        ("sub", message("a")),
        ("sub", search()),
        ("sub", EventMsg::TaskComplete),
    ]);
    assert_eq!(with, without);
    assert_eq!(with.len(), 3);
    assert_eq!(agent_with.tool_call("w"), agent_without.tool_call("w"));
    assert!(agent_with.tool_call("w").is_some());
}

#[test]
fn chunks_are_passed_on_in_order() {
    let (deeds, _) = deeds_of(vec![
        ("sub", message("a")),
        ("other", message("x")),
        ("sub", thought("b")),
        ("sub", message("c")),
    ]);
    let told = |update| Action::Notify { session_id: SESSION.to_string(), update };
    assert_eq!(
        deeds,
        vec![
            told(SessionUpdate::AgentMessageChunk { text: "a".to_string() }),
            told(SessionUpdate::AgentThoughtChunk { text: "b".to_string() }),
            told(SessionUpdate::AgentMessageChunk { text: "c".to_string() }),
        ]
    );
}

#[test]
fn the_first_end_answers_and_the_rest_is_unread() {
    let (deeds, _) = deeds_of(vec![
        ("other", EventMsg::TaskComplete),
        ("sub", EventMsg::TurnAborted),
        ("sub", EventMsg::TaskComplete),
        ("sub", message("late")),
    ]);
    assert_eq!(deeds, vec![Action::Finish { answer: Ok(StopReason::Cancelled) }]);
    let (deeds, _) = deeds_of(vec![("sub", message("a"))]);
    assert!(!deeds.iter().any(|deed| matches!(deed, Action::Finish { .. })));
}
