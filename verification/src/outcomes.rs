//! What comes of each event, in terms of what the event says and what the client is told.
use vstd::prelude::*;

use crate::agent::{marked, reaction, Calls, ReactionView, StatusMarkView, StopReason};
use crate::command::shell_joined;
use crate::event::{Event, EventMsg};
use crate::permission::ApprovalView;
use crate::text::{spaced, texts, utf8_lossy};
use crate::tool_call::{
    exec_begun, ExecCommandBeginEvent, ParsedCommand, ToolCallLocationView, ToolCallStatus,
    ToolCallUpdateView, ToolCallView, ToolKind,
};
use crate::update::{
    PlanEntryPriority, PlanEntryStatus, PlanItem, SessionUpdateView, StepStatus,
};

verus! {

/// A piece of the agent's message or reasoning is passed on, whole and as what it is, and changes
/// no tool call.
pub proof fn law_pieces_are_passed_on(calls: Calls, event: Event)
    ensures
        match event.msg {
            EventMsg::AgentMessageDelta { delta } => reaction(calls, event) == (
                calls,
                ReactionView::Notify {
                    update: SessionUpdateView::AgentMessageChunk { text: delta@ },
                    mark: None,
                },
            ),
            EventMsg::AgentReasoningDelta { delta } => reaction(calls, event) == (
                calls,
                ReactionView::Notify {
                    update: SessionUpdateView::AgentThoughtChunk { text: delta@ },
                    mark: None,
                },
            ),
            _ => true,
        },
{
}

/// A shell command that begins is put under way under its id, and the client is told of the very
/// same call: in progress, with nothing to show and no raw input or output.
pub proof fn law_command_begins(calls: Calls, event: Event, msg: ExecCommandBeginEvent)
    requires
        event.msg == EventMsg::ExecCommandBegin(msg),
    ensures
        ({
            let (after, made) = reaction(calls, event);
            &&& made matches ReactionView::Notify {
                update: SessionUpdateView::ToolCall(call),
                mark: None,
            }
            &&& call == exec_begun(msg)
            &&& after == calls.insert(msg.call_id@, call)
            &&& call.id == msg.call_id@
            &&& call.status == ToolCallStatus::InProgress
            &&& call.content.len() == 0
            &&& call.raw_input is None
            &&& call.raw_output is None
        }),
{
}

/// A shell command that reads one file is shown as reading it, and is located there if the file has
/// a name.
pub proof fn law_one_read_is_shown_as_such(
    calls: Calls,
    event: Event,
    msg: ExecCommandBeginEvent,
    name: String,
)
    requires
        event.msg == EventMsg::ExecCommandBegin(msg),
        msg.parsed_cmd@.len() == 1,
        msg.parsed_cmd@[0] == (ParsedCommand::Read { name }),
    ensures
        ({
            &&& reaction(calls, event).1 matches ReactionView::Notify {
                update: SessionUpdateView::ToolCall(call),
                mark: None,
            }
            &&& call.kind == ToolKind::Read
            &&& call.title == "Read "@ + name@
            &&& name@.len() == 0 ==> call.locations.len() == 0
            &&& name@.len() > 0 ==> call.locations.len() == 1 && call.locations[0] == (
            ToolCallLocationView { path: name@, line: None })
        }),
{
}

/// A shell command that lists files is shown as listing what is known: the path, else the command.
pub proof fn law_one_listing_is_shown_as_such(
    calls: Calls,
    event: Event,
    msg: ExecCommandBeginEvent,
    cmd: String,
    path: Option<String>,
)
    requires
        event.msg == EventMsg::ExecCommandBegin(msg),
        msg.parsed_cmd@.len() == 1,
        msg.parsed_cmd@[0] == (ParsedCommand::ListFiles { cmd, path }),
    ensures
        ({
            &&& reaction(calls, event).1 matches ReactionView::Notify {
                update: SessionUpdateView::ToolCall(call),
                mark: None,
            }
            &&& call.kind == ToolKind::Read
            &&& path matches Some(path) ==> call.title == "List "@ + path@
            &&& path is None ==> call.title == "List "@ + cmd@
            &&& call.locations.len() == 0
        }),
{
}

/// A shell command that searches is shown as searching for what is known: the query and the place,
/// else one of them, else the command.
pub proof fn law_one_search_is_shown_as_such(
    calls: Calls,
    event: Event,
    msg: ExecCommandBeginEvent,
    cmd: String,
    query: Option<String>,
    path: Option<String>,
)
    requires
        event.msg == EventMsg::ExecCommandBegin(msg),
        msg.parsed_cmd@.len() == 1,
        msg.parsed_cmd@[0] == (ParsedCommand::Search { cmd, query, path }),
    ensures
        ({
            &&& reaction(calls, event).1 matches ReactionView::Notify {
                update: SessionUpdateView::ToolCall(call),
                mark: None,
            }
            &&& call.kind == ToolKind::Search
            &&& query is Some && path is Some ==> call.title == "Search "@ + query->0@ + " in "@
                + path->0@
            &&& query is Some && path is None ==> call.title == "Search "@ + query->0@
            &&& query is None && path is Some ==> call.title == "Search "@ + path->0@
            &&& query is None && path is None ==> call.title == "Search "@ + cmd@
            &&& call.locations.len() == 0
        }),
{
}

/// Any other shell command is shown as itself: the script alone where the command is `bash -lc` and
/// a script, else the words as a shell would need them, else the bare words.
pub proof fn law_other_commands_are_shown_as_themselves(
    calls: Calls,
    event: Event,
    msg: ExecCommandBeginEvent,
)
    requires
        event.msg == EventMsg::ExecCommandBegin(msg),
        msg.parsed_cmd@.len() != 1 || msg.parsed_cmd@[0] is Other,
    ensures
        ({
            let words = Seq::new(msg.command@.len(), |i: int| msg.command@[i]@);
            &&& reaction(calls, event).1 matches ReactionView::Notify {
                update: SessionUpdateView::ToolCall(call),
                mark: None,
            }
            &&& call.kind == ToolKind::Execute
            &&& call.locations.len() == 0
            &&& call.title == if words.len() == 3 && words[0] == "bash"@ && words[1] == "-lc"@ {
                words[2]
            } else {
                match shell_joined(words) {
                    Some(quoted) => quoted,
                    None => spaced(words),
                }
            }
        }),
{
    assert(Seq::new(msg.command@.len(), |i: int| msg.command@[i]@) =~= texts(msg.command@));
}

/// A call of a tool on an MCP server is put under way and told: titled by server and tool, in
/// progress, with nothing to show.
pub proof fn law_mcp_call_begins(
    calls: Calls,
    event: Event,
    call_id: String,
    server: String,
    tool: String,
)
    requires
        event.msg == (EventMsg::McpToolCallBegin { call_id, server, tool }),
    ensures
        ({
            let call = ToolCallView {
                id: call_id@,
                title: server@ + "::"@ + tool@,
                kind: ToolKind::Fetch,
                status: ToolCallStatus::InProgress,
                content: Seq::empty(),
                locations: Seq::empty(),
                raw_input: None,
                raw_output: None,
            };
            reaction(calls, event) == (
                calls.insert(call_id@, call),
                ReactionView::Notify { update: SessionUpdateView::ToolCall(call), mark: None },
            )
        }),
{
}

/// A web search is put under way and told: in progress, with nothing to show.
pub proof fn law_web_search_begins(calls: Calls, event: Event, call_id: String)
    requires
        event.msg == (EventMsg::WebSearchBegin { call_id }),
    ensures
        ({
            let call = ToolCallView {
                id: call_id@,
                title: "Web Search"@,
                kind: ToolKind::Search,
                status: ToolCallStatus::InProgress,
                content: Seq::empty(),
                locations: Seq::empty(),
                raw_input: None,
                raw_output: None,
            };
            reaction(calls, event) == (
                calls.insert(call_id@, call),
                ReactionView::Notify { update: SessionUpdateView::ToolCall(call), mark: None },
            )
        }),
{
}

/// A patch is put under way and told: in progress, with nothing to show, and with its changes as
/// its raw input.
pub proof fn law_patch_begins(
    calls: Calls,
    event: Event,
    call_id: String,
    changes: Option<serde_json::Value>,
)
    requires
        event.msg == (EventMsg::PatchApplyBegin { call_id, changes }),
    ensures
        ({
            let call = ToolCallView {
                id: call_id@,
                title: "Apply Patch"@,
                kind: ToolKind::Edit,
                status: ToolCallStatus::InProgress,
                content: Seq::empty(),
                locations: Seq::empty(),
                raw_input: changes,
                raw_output: None,
            };
            reaction(calls, event) == (
                calls.insert(call_id@, call),
                ReactionView::Notify { update: SessionUpdateView::ToolCall(call), mark: None },
            )
        }),
{
}

/// Output of a command that is under way is added to what the call has to show, nothing else of the
/// call changes, and the client is told all that it has to show, and nothing else. Output of any
/// other command is ignored.
pub proof fn law_output_is_added_and_told(
    calls: Calls,
    event: Event,
    call_id: String,
    chunk: Vec<u8>,
)
    requires
        event.msg == (EventMsg::ExecCommandOutputDelta { call_id, chunk }),
    ensures
        ({
            let id = call_id@;
            let (after, made) = reaction(calls, event);
            if calls.contains_key(id) {
                let shown = calls[id].content.push(utf8_lossy(chunk@));
                &&& after.dom() == calls.dom()
                &&& forall|other: Seq<char>|
                    other != id && calls.contains_key(other) ==> #[trigger] after[other]
                        == calls[other]
                &&& after[id].id == calls[id].id
                &&& after[id].title == calls[id].title
                &&& after[id].kind == calls[id].kind
                &&& after[id].status == calls[id].status
                &&& after[id].content == shown
                &&& after[id].locations == calls[id].locations
                &&& after[id].raw_input == calls[id].raw_input
                &&& after[id].raw_output == calls[id].raw_output
                &&& made == (ReactionView::Notify {
                    update: SessionUpdateView::ToolCallUpdate(
                        ToolCallUpdateView { id, title: None, status: None, content: Some(shown) },
                    ),
                    mark: None,
                })
            } else {
                after == calls && made is Ignore
            }
        }),
{
}

/// When a shell command or a call of an MCP tool that is under way ends, the call is forgotten, and
/// the client is told its status and nothing else, whatever the call had to show: what the client
/// was shown stays. The end of any other call is ignored.
pub proof fn law_end_tells_the_status_alone(calls: Calls, event: Event, id: Seq<char>, success: bool)
    requires
        match event.msg {
            EventMsg::ExecCommandEnd { call_id, exit_code } => call_id@ == id && success == (
            exit_code == 0),
            EventMsg::McpToolCallEnd { call_id, success: reported } => call_id@ == id && success
                == reported,
            _ => false,
        },
    ensures
        ({
            let (after, made) = reaction(calls, event);
            if calls.contains_key(id) {
                &&& after == calls.remove(id)
                &&& made matches ReactionView::Notify {
                    update: SessionUpdateView::ToolCallUpdate(update),
                    mark: None,
                }
                &&& update.id == id
                &&& update.title is None
                &&& update.content is None
                &&& success ==> update.status == Some(ToolCallStatus::Completed)
                &&& !success ==> update.status == Some(ToolCallStatus::Failed)
            } else {
                after == calls && made is Ignore
            }
        }),
{
}

/// When a web search that is under way ends, the call is forgotten, and the client is told that it
/// is completed and all that it has to show, with the query as the last of it. The end of any other
/// search is ignored.
pub proof fn law_search_end_tells_the_query(
    calls: Calls,
    event: Event,
    call_id: String,
    query: String,
)
    requires
        event.msg == (EventMsg::WebSearchEnd { call_id, query }),
    ensures
        ({
            let id = call_id@;
            let (after, made) = reaction(calls, event);
            if calls.contains_key(id) {
                &&& after == calls.remove(id)
                &&& made == (ReactionView::Notify {
                    update: SessionUpdateView::ToolCallUpdate(
                        ToolCallUpdateView {
                            id,
                            title: None,
                            status: Some(ToolCallStatus::Completed),
                            content: Some(calls[id].content.push(query@)),
                        },
                    ),
                    mark: None,
                })
            } else {
                after == calls && made is Ignore
            }
        }),
{
}

/// When a patch that is under way ends, no call changes yet, and the client is told its status and
/// nothing else. Then the patch is to be marked with that status. The end of any other patch is
/// ignored.
pub proof fn law_patch_end_tells_the_status_alone(
    calls: Calls,
    event: Event,
    call_id: String,
    success: bool,
)
    requires
        event.msg == (EventMsg::PatchApplyEnd { call_id, success }),
    ensures
        ({
            let id = call_id@;
            let (after, made) = reaction(calls, event);
            let status = if success {
                ToolCallStatus::Completed
            } else {
                ToolCallStatus::Failed
            };
            &&& after == calls
            &&& calls.contains_key(id) ==> made == (ReactionView::Notify {
                update: SessionUpdateView::ToolCallUpdate(
                    ToolCallUpdateView { id, title: None, status: Some(status), content: None },
                ),
                mark: Some(StatusMarkView { call_id: id, status }),
            })
            &&& !calls.contains_key(id) ==> made is Ignore
        }),
{
}

/// A mark changes the status of the call that it names, if that is under way, and nothing else of
/// it or of any other call.
pub proof fn law_mark_changes_the_status_alone(calls: Calls, mark: StatusMarkView)
    ensures
        ({
            let id = mark.call_id;
            let after = marked(calls, Some(mark));
            &&& after.dom() == calls.dom()
            &&& forall|other: Seq<char>|
                other != id && calls.contains_key(other) ==> #[trigger] after[other] == calls[other]
            &&& calls.contains_key(id) ==> {
                &&& after[id].status == mark.status
                &&& after[id].id == calls[id].id
                &&& after[id].title == calls[id].title
                &&& after[id].kind == calls[id].kind
                &&& after[id].content == calls[id].content
                &&& after[id].locations == calls[id].locations
                &&& after[id].raw_input == calls[id].raw_input
                &&& after[id].raw_output == calls[id].raw_output
            }
        }),
        marked(calls, None) == calls,
{
    assert(marked(calls, Some(mark)).dom() =~= calls.dom());
}

/// The client is told a plan step by step: as many steps, in the same order, each with its own text
/// and as far as it has got, and none more important than another.
pub proof fn law_plan_is_told_step_by_step(
    calls: Calls,
    event: Event,
    plan: Vec<PlanItem>,
)
    requires
        event.msg == (EventMsg::PlanUpdate { plan }),
    ensures
        ({
            let (after, made) = reaction(calls, event);
            &&& after == calls
            &&& made matches ReactionView::Notify {
                update: SessionUpdateView::Plan { entries },
                mark: None,
            }
            &&& entries.len() == plan@.len()
            &&& forall|i: int|
                0 <= i < plan@.len() ==> {
                    &&& (#[trigger] entries[i]).content == plan@[i].step@
                    &&& entries[i].priority == PlanEntryPriority::Medium
                    &&& plan@[i].status == StepStatus::Pending ==> entries[i].status
                        == PlanEntryStatus::Pending
                    &&& plan@[i].status == StepStatus::InProgress ==> entries[i].status
                        == PlanEntryStatus::InProgress
                    &&& plan@[i].status == StepStatus::Completed ==> entries[i].status
                        == PlanEntryStatus::Completed
                }
        }),
{
}

/// A shell command that asks for permission is asked about under its own id, as itself, and the
/// answer goes to the event that asked. No call changes.
pub proof fn law_command_asks(calls: Calls, event: Event, call_id: String, command: Vec<String>)
    requires
        event.msg == (EventMsg::ExecApprovalRequest { call_id, command }),
    ensures
        ({
            let words = Seq::new(command@.len(), |i: int| command@[i]@);
            let (after, made) = reaction(calls, event);
            &&& after == calls
            &&& made matches ReactionView::Ask { tool_call, approval }
            &&& approval == (ApprovalView::Exec { id: event.id@ })
            &&& tool_call.id == call_id@
            &&& tool_call.status is None
            &&& tool_call.content is None
            &&& tool_call.title == Some(
                if words.len() == 3 && words[0] == "bash"@ && words[1] == "-lc"@ {
                    words[2]
                } else {
                    match shell_joined(words) {
                        Some(quoted) => quoted,
                        None => spaced(words),
                    }
                },
            )
        }),
{
    assert(Seq::new(command@.len(), |i: int| command@[i]@) =~= texts(command@));
}

/// A patch that asks for permission is asked about under its own id, and the answer goes to it. No
/// call changes.
pub proof fn law_patch_asks(calls: Calls, event: Event, call_id: String)
    requires
        event.msg == (EventMsg::ApplyPatchApprovalRequest { call_id }),
    ensures
        reaction(calls, event) == (
            calls,
            ReactionView::Ask {
                tool_call: ToolCallUpdateView {
                    id: call_id@,
                    title: Some("Apply patch"@),
                    status: None,
                    content: None,
                },
                approval: ApprovalView::Patch { id: call_id@ },
            },
        ),
{
}

/// The end of the work stops the turn, and says which end it is. What has changed on disk, and
/// anything that the agent does not know, is ignored. No call changes.
pub proof fn law_end_stops_and_the_rest_is_ignored(calls: Calls, event: Event)
    ensures
        event.msg is TaskComplete ==> reaction(calls, event) == (
            calls,
            ReactionView::Stop { reason: StopReason::EndTurn },
        ),
        event.msg is TurnAborted ==> reaction(calls, event) == (
            calls,
            ReactionView::Stop { reason: StopReason::Cancelled },
        ),
        event.msg is TurnDiff || event.msg is Other ==> reaction(calls, event) == (
            calls,
            ReactionView::Ignore,
        ),
{
}

/// The tool calls as a client knows them, after it is told something: a tool call that begins is
/// taken over, and of one that it knows it changes what it is told has changed.
pub open spec fn pictured(picture: Calls, update: SessionUpdateView) -> Calls {
    match update {
        SessionUpdateView::ToolCall(call) => picture.insert(call.id, call),
        SessionUpdateView::ToolCallUpdate(update) => if picture.contains_key(update.id) {
            let known = picture[update.id];
            picture.insert(
                update.id,
                ToolCallView {
                    title: match update.title {
                        Some(title) => title,
                        None => known.title,
                    },
                    status: match update.status {
                        Some(status) => status,
                        None => known.status,
                    },
                    content: match update.content {
                        Some(content) => content,
                        None => known.content,
                    },
                    ..known
                },
            )
        } else {
            picture
        },
        _ => picture,
    }
}

/// A client that knows every call under way as it stands still does after each event that it is told
/// of, once what is to be marked is marked. A call that is no longer under way it knows by all that
/// was shown of it, as completed or failed. Calls that the event is not about stay as they were to
/// the client.
pub proof fn law_client_keeps_the_right_picture(picture: Calls, calls: Calls, event: Event)
    requires
        forall|id: Seq<char>| #[trigger]
            calls.contains_key(id) ==> picture.contains_key(id) && picture[id] == calls[id],
    ensures
        ({
            let (after, made) = reaction(calls, event);
            match made {
                ReactionView::Notify { update, mark } => {
                    let told = pictured(picture, update);
                    let settled = marked(after, mark);
                    &&& forall|id: Seq<char>| #[trigger]
                        settled.contains_key(id) ==> told.contains_key(id) && told[id]
                            == settled[id]
                    &&& forall|id: Seq<char>|
                        #![trigger calls[id]]
                        calls.contains_key(id) && !settled.contains_key(id) ==> {
                            &&& told.contains_key(id)
                            &&& told[id].title == calls[id].title
                            &&& told[id].kind == calls[id].kind
                            &&& told[id].locations == calls[id].locations
                            &&& told[id].raw_input == calls[id].raw_input
                            &&& told[id].status == ToolCallStatus::Completed || told[id].status
                                == ToolCallStatus::Failed
                            &&& calls[id].content.is_prefix_of(told[id].content)
                            &&& !(event.msg is WebSearchEnd) ==> told[id].content
                                == calls[id].content
                        }
                    &&& forall|id: Seq<char>|
                        #![trigger picture[id]]
                        picture.contains_key(id) && told.contains_key(id) && told[id] != picture[id]
                            ==> match update {
                            SessionUpdateView::ToolCall(call) => call.id == id,
                            SessionUpdateView::ToolCallUpdate(update) => update.id == id,
                            _ => false,
                        }
                },
                _ => after == calls,
            }
        }),
{
}

} // verus!
