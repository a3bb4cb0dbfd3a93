//! The agent: the tool calls that are under way, and what an event makes of them.
use vstd::hash_map::StringHashMap;
use vstd::prelude::*;
use vstd::utf8::{decode_utf8, valid_utf8};

use crate::command::{displayed, shell_joined, shown_faithfully, strip_bash_lc_and_escape};
use crate::event::{Event, EventMsg};
use crate::permission::{Approval, ApprovalView};
use crate::text::{from_utf8_lossy, texts, utf8_lossy};
use crate::tool_call::{
    begin_tool_call, begun, build_tool_call_from_exec_begin, exec_begun, ToolCall, ToolCallStatus,
    ToolCallUpdate, ToolCallUpdateView, ToolCallView, ToolKind,
};
use crate::update::{plan_entries, plan_update, SessionUpdate, SessionUpdateView};

verus! {

/// Why a prompt has been answered.
#[derive(Clone, Copy, Debug, PartialEq, Eq, Structural)]
pub enum StopReason {
    /// The work is done.
    EndTurn,
    /// The work was stopped.
    Cancelled,
}

/// A status that a tool call gets once the client has been told of it.
#[derive(Debug, PartialEq, Eq)]
pub struct StatusMark {
    pub call_id: String,
    pub status: ToolCallStatus,
}

/// What the agent does about an event.
#[derive(Debug, PartialEq, Eq)]
pub enum Reaction {
    /// Nothing.
    Ignore,
    /// It tells the client, and then marks a tool call.
    Notify { update: SessionUpdate, mark: Option<StatusMark> },
    /// It asks the client for permission.
    Ask { tool_call: ToolCallUpdate, approval: Approval },
    /// It answers the prompt.
    Stop { reason: StopReason },
}

/// The model of a `StatusMark`.
pub struct StatusMarkView {
    pub call_id: Seq<char>,
    pub status: ToolCallStatus,
}

/// The model of a `Reaction`.
#[verifier::ext_equal]
pub enum ReactionView {
    Ignore,
    Notify { update: SessionUpdateView, mark: Option<StatusMarkView> },
    Ask { tool_call: ToolCallUpdateView, approval: ApprovalView },
    Stop { reason: StopReason },
}

impl View for StatusMark {
    type V = StatusMarkView;

    open spec fn view(&self) -> StatusMarkView {
        StatusMarkView { call_id: self.call_id@, status: self.status }
    }
}

/// The model of an optional `StatusMark`.
pub open spec fn opt_mark(mark: Option<StatusMark>) -> Option<StatusMarkView> {
    match mark {
        Some(mark) => Some(mark@),
        None => None,
    }
}

impl View for Reaction {
    type V = ReactionView;

    open spec fn view(&self) -> ReactionView {
        match self {
            Reaction::Ignore => ReactionView::Ignore,
            Reaction::Notify { update, mark } => ReactionView::Notify {
                update: update@,
                mark: opt_mark(*mark),
            },
            Reaction::Ask { tool_call, approval } => ReactionView::Ask {
                tool_call: tool_call@,
                approval: approval@,
            },
            Reaction::Stop { reason } => ReactionView::Stop { reason: *reason },
        }
    }
}

/// The tool calls that are under way, by their ids.
pub type Calls = Map<Seq<char>, ToolCallView>;

/// Whether each tool call stands under its own id.
pub open spec fn keyed_by_id(calls: Calls) -> bool {
    forall|id: Seq<char>| #[trigger] calls.contains_key(id) ==> calls[id].id == id
}

/// The reaction that tells the client, with nothing to mark.
pub open spec fn tell(update: SessionUpdateView) -> ReactionView {
    ReactionView::Notify { update, mark: None }
}

/// What changes of a tool call when its status does.
pub open spec fn status_update(id: Seq<char>, status: ToolCallStatus) -> ToolCallUpdateView {
    ToolCallUpdateView { id, title: None, status: Some(status), content: None }
}

/// The status of a tool call that has ended.
pub open spec fn end_status(success: bool) -> ToolCallStatus {
    if success {
        ToolCallStatus::Completed
    } else {
        ToolCallStatus::Failed
    }
}

/// A tool call begins: it is under way from now on, and the client is told of it.
pub open spec fn on_begin(calls: Calls, call: ToolCallView) -> (Calls, ReactionView) {
    (calls.insert(call.id, call), tell(SessionUpdateView::ToolCall(call)))
}

/// A tool call has more to show: the client is told all that it has to show so far.
pub open spec fn on_output(calls: Calls, id: Seq<char>, text: Seq<char>) -> (Calls, ReactionView) {
    if calls.contains_key(id) {
        let content = calls[id].content.push(text);
        (
            calls.insert(id, ToolCallView { content, ..calls[id] }),
            tell(
                SessionUpdateView::ToolCallUpdate(
                    ToolCallUpdateView { id, title: None, status: None, content: Some(content) },
                ),
            ),
        )
    } else {
        (calls, ReactionView::Ignore)
    }
}

/// A tool call ends: it is no longer under way, and the client is told how it ended.
pub open spec fn on_end(calls: Calls, id: Seq<char>, success: bool) -> (Calls, ReactionView) {
    if calls.contains_key(id) {
        (
            calls.remove(id),
            tell(SessionUpdateView::ToolCallUpdate(status_update(id, end_status(success)))),
        )
    } else {
        (calls, ReactionView::Ignore)
    }
}

/// A web search ends: it is no longer under way, and the client is told what was searched for.
pub open spec fn on_search_end(calls: Calls, id: Seq<char>, query: Seq<char>) -> (
    Calls,
    ReactionView,
) {
    if calls.contains_key(id) {
        (
            calls.remove(id),
            tell(
                SessionUpdateView::ToolCallUpdate(
                    ToolCallUpdateView {
                        id,
                        title: None,
                        status: Some(ToolCallStatus::Completed),
                        content: Some(calls[id].content.push(query)),
                    },
                ),
            ),
        )
    } else {
        (calls, ReactionView::Ignore)
    }
}

/// A patch ends: the client is told how, and then the call is marked, and kept.
pub open spec fn on_patch_end(calls: Calls, id: Seq<char>, success: bool) -> ReactionView {
    if calls.contains_key(id) {
        ReactionView::Notify {
            update: SessionUpdateView::ToolCallUpdate(status_update(id, end_status(success))),
            mark: Some(StatusMarkView { call_id: id, status: end_status(success) }),
        }
    } else {
        ReactionView::Ignore
    }
}

/// Something asks for permission under a title.
pub open spec fn on_ask(id: Seq<char>, title: Seq<char>, approval: ApprovalView) -> ReactionView {
    ReactionView::Ask {
        tool_call: ToolCallUpdateView { id, title: Some(title), status: None, content: None },
        approval,
    }
}

/// What the agent does about an event, and the tool calls that are under way after it.
pub open spec fn reaction(calls: Calls, event: Event) -> (Calls, ReactionView) {
    match event.msg {
        EventMsg::AgentMessageDelta { delta } => (
            calls,
            tell(SessionUpdateView::AgentMessageChunk { text: delta@ }),
        ),
        EventMsg::AgentReasoningDelta { delta } => (
            calls,
            tell(SessionUpdateView::AgentThoughtChunk { text: delta@ }),
        ),
        EventMsg::ExecCommandBegin(msg) => on_begin(calls, exec_begun(msg)),
        EventMsg::ExecCommandOutputDelta { call_id, chunk } => on_output(
            calls,
            call_id@,
            utf8_lossy(chunk@),
        ),
        EventMsg::ExecCommandEnd { call_id, exit_code } => on_end(calls, call_id@, exit_code == 0),
        EventMsg::McpToolCallBegin { call_id, server, tool } => on_begin(
            calls,
            begun(call_id@, server@ + "::"@ + tool@, ToolKind::Fetch),
        ),
        EventMsg::McpToolCallEnd { call_id, success } => on_end(calls, call_id@, success),
        EventMsg::WebSearchBegin { call_id } => on_begin(
            calls,
            begun(call_id@, "Web Search"@, ToolKind::Search),
        ),
        EventMsg::WebSearchEnd { call_id, query } => on_search_end(calls, call_id@, query@),
        EventMsg::PlanUpdate { plan } => (
            calls,
            tell(SessionUpdateView::Plan { entries: plan_entries(plan@) }),
        ),
        EventMsg::PatchApplyBegin { call_id, changes } => on_begin(
            calls,
            ToolCallView {
                raw_input: changes,
                ..begun(call_id@, "Apply Patch"@, ToolKind::Edit)
            },
        ),
        EventMsg::PatchApplyEnd { call_id, success } => (
            calls,
            on_patch_end(calls, call_id@, success),
        ),
        EventMsg::TurnDiff => (calls, ReactionView::Ignore),
        EventMsg::ExecApprovalRequest { call_id, command } => (
            calls,
            on_ask(
                call_id@,
                displayed(texts(command@), shell_joined(texts(command@))),
                ApprovalView::Exec { id: event.id@ },
            ),
        ),
        EventMsg::ApplyPatchApprovalRequest { call_id } => (
            calls,
            on_ask(call_id@, "Apply patch"@, ApprovalView::Patch { id: call_id@ }),
        ),
        EventMsg::TaskComplete => (calls, ReactionView::Stop { reason: StopReason::EndTurn }),
        EventMsg::TurnAborted => (calls, ReactionView::Stop { reason: StopReason::Cancelled }),
        EventMsg::Other => (calls, ReactionView::Ignore),
    }
}

/// Whether the texts in an event are taken as what they say: valid UTF-8 as what it encodes, and
/// commands quoted so that their words can be told.
pub open spec fn read_plainly(msg: EventMsg) -> bool {
    match msg {
        EventMsg::ExecCommandOutputDelta { chunk, .. } => valid_utf8(chunk@) ==> utf8_lossy(chunk@)
            == decode_utf8(chunk@),
        EventMsg::ExecCommandBegin(msg) => shown_faithfully(texts(msg.command@)),
        EventMsg::ExecApprovalRequest { command, .. } => shown_faithfully(texts(command@)),
        _ => true,
    }
}

/// The tool calls after one of them is marked, if it is still under way.
pub open spec fn marked(calls: Calls, mark: Option<StatusMarkView>) -> Calls {
    match mark {
        Some(mark) if calls.contains_key(mark.call_id) => calls.insert(
            mark.call_id,
            ToolCallView { status: mark.status, ..calls[mark.call_id] },
        ),
        _ => calls,
    }
}

/// The agent. It keeps the tool calls that are under way.
pub struct CodexAgent {
    tool_calls: StringHashMap<ToolCall>,
}

impl View for CodexAgent {
    type V = Calls;

    closed spec fn view(&self) -> Calls {
        self.tool_calls@.map_values(|call: ToolCall| call@)
    }
}

impl CodexAgent {
    /// Whether each tool call stands under its own id.
    pub open spec fn wf(&self) -> bool {
        keyed_by_id(self@)
    }

    /// An agent with no tool call under way.
    pub fn new() -> (agent: CodexAgent)
        ensures
            agent@ == Map::<Seq<char>, ToolCallView>::empty(),
            agent.wf(),
    {
        let agent: CodexAgent = CodexAgent { tool_calls: StringHashMap::new() };
        assert(agent@ =~= Map::<Seq<char>, ToolCallView>::empty());
        agent
    }

    /// The tool call of the given id, if it is under way.
    pub fn tool_call(&self, id: &str) -> (call: Option<ToolCall>)
        ensures
            match call {
                Some(call) => self@.contains_key(id@) && call@ == self@[id@],
                None => !self@.contains_key(id@),
            },
    {
        match self.tool_calls.get(id) {
            Some(call) => Some(call.clone()),
            None => None,
        }
    }

    fn store(&mut self, id: String, call: ToolCall)
        ensures
            final(self)@ == old(self)@.insert(id@, call@),
    {
        self.tool_calls.insert(id, call);
        assert(self@ =~= old(self)@.insert(id@, call@));
    }

    fn forget(&mut self, id: &str)
        ensures
            final(self)@ == old(self)@.remove(id@),
    {
        self.tool_calls.remove(id);
        assert(self@ =~= old(self)@.remove(id@));
    }

    fn begin(&mut self, call: ToolCall) -> (made: Reaction)
        ensures
            (final(self)@, made@) == on_begin(old(self)@, call@),
    {
        self.store(call.id.clone(), call.clone());
        Reaction::Notify { update: SessionUpdate::ToolCall(call), mark: None }
    }

    /// Adds a text to what a tool call has to show, if the call is under way, and tells the client
    /// all of it.
    pub fn show_output(&mut self, id: String, text: String) -> (made: Reaction)
        ensures
            (final(self)@, made@) == on_output(old(self)@, id@, text@),
            old(self).wf() ==> final(self).wf(),
            ({
                let known = old(self)@.contains_key(id@);
                let shown = old(self)@[id@].content.push(text@);
                &&& known ==> made@ == (ReactionView::Notify {
                    update: SessionUpdateView::ToolCallUpdate(
                        ToolCallUpdateView {
                            id: id@,
                            title: None,
                            status: None,
                            content: Some(shown),
                        },
                    ),
                    mark: None,
                })
                &&& known ==> final(self)@ == old(self)@.insert(
                    id@,
                    ToolCallView { content: shown, ..old(self)@[id@] },
                )
                &&& !known ==> made is Ignore && final(self)@ == old(self)@
            }),
    {
        match self.tool_call(id.as_str()) {
            Some(mut call) => {
                let ghost before = call@;
                call.content.push(text);
                let content: Vec<String> = call.content.clone();
                assert(texts(content@) =~= before.content.push(text@));
                assert(call@ =~= ToolCallView { content: before.content.push(text@), ..before });
                self.store(id.clone(), call);
                Reaction::Notify {
                    update: SessionUpdate::ToolCallUpdate(
                        ToolCallUpdate { id, title: None, status: None, content: Some(content) },
                    ),
                    mark: None,
                }
            },
            None => Reaction::Ignore,
        }
    }

    fn end(&mut self, id: String, success: bool) -> (made: Reaction)
        ensures
            (final(self)@, made@) == on_end(old(self)@, id@, success),
    {
        if self.tool_calls.contains_key(id.as_str()) {
            self.forget(id.as_str());
            Reaction::Notify {
                update: SessionUpdate::ToolCallUpdate(status_change(id, success)),
                mark: None,
            }
        } else {
            Reaction::Ignore
        }
    }

    fn end_search(&mut self, id: String, query: String) -> (made: Reaction)
        ensures
            (final(self)@, made@) == on_search_end(old(self)@, id@, query@),
    {
        match self.tool_call(id.as_str()) {
            Some(call) => {
                let mut content: Vec<String> = call.content;
                content.push(query);
                assert(texts(content@) =~= call@.content.push(query@));
                self.forget(id.as_str());
                Reaction::Notify {
                    update: SessionUpdate::ToolCallUpdate(
                        ToolCallUpdate {
                            id,
                            title: None,
                            status: Some(ToolCallStatus::Completed),
                            content: Some(content),
                        },
                    ),
                    mark: None,
                }
            },
            None => Reaction::Ignore,
        }
    }

    fn end_patch(&self, id: String, success: bool) -> (made: Reaction)
        ensures
            made@ == on_patch_end(self@, id@, success),
    {
        if self.tool_calls.contains_key(id.as_str()) {
            let status: ToolCallStatus = status_at_end(success);
            Reaction::Notify {
                update: SessionUpdate::ToolCallUpdate(status_change(id.clone(), success)),
                mark: Some(StatusMark { call_id: id, status }),
            }
        } else {
            Reaction::Ignore
        }
    }

    /// Decides what to do about an event, and keeps track of the tool calls that are under way.
    pub fn react(&mut self, event: Event) -> (made: Reaction)
        ensures
            (final(self)@, made@) == reaction(old(self)@, event),
            read_plainly(event.msg),
            old(self).wf() ==> final(self).wf(),
    {
        match event.msg {
            EventMsg::AgentMessageDelta { delta } => Reaction::Notify {
                update: SessionUpdate::AgentMessageChunk { text: delta },
                mark: None,
            },
            EventMsg::AgentReasoningDelta { delta } => Reaction::Notify {
                update: SessionUpdate::AgentThoughtChunk { text: delta },
                mark: None,
            },
            EventMsg::ExecCommandBegin(msg) => self.begin(build_tool_call_from_exec_begin(&msg)),
            EventMsg::ExecCommandOutputDelta { call_id, chunk } => {
                let text: String = from_utf8_lossy(chunk.as_slice());
                self.show_output(call_id, text)
            },
            EventMsg::ExecCommandEnd { call_id, exit_code } => self.end(call_id, exit_code == 0),
            EventMsg::McpToolCallBegin { call_id, server, tool } => {
                let title: String = server.concat("::").concat(tool.as_str());
                self.begin(begin_tool_call(call_id, title, ToolKind::Fetch))
            },
            EventMsg::McpToolCallEnd { call_id, success } => self.end(call_id, success),
            EventMsg::WebSearchBegin { call_id } => self.begin(
                begin_tool_call(call_id, "Web Search".to_owned(), ToolKind::Search),
            ),
            EventMsg::WebSearchEnd { call_id, query } => self.end_search(call_id, query),
            EventMsg::PlanUpdate { plan } => Reaction::Notify {
                update: plan_update(plan.as_slice()),
                mark: None,
            },
            EventMsg::PatchApplyBegin { call_id, changes } => {
                let mut call: ToolCall = begin_tool_call(
                    call_id,
                    "Apply Patch".to_owned(),
                    ToolKind::Edit,
                );
                call.raw_input = changes;
                self.begin(call)
            },
            EventMsg::PatchApplyEnd { call_id, success } => self.end_patch(call_id, success),
            EventMsg::TurnDiff => Reaction::Ignore,
            EventMsg::ExecApprovalRequest { call_id, command } => {
                let title: String = strip_bash_lc_and_escape(command.as_slice());
                ask(call_id, title, Approval::Exec { id: event.id })
            },
            EventMsg::ApplyPatchApprovalRequest { call_id } => {
                let approval: Approval = Approval::Patch { id: call_id.clone() };
                ask(call_id, "Apply patch".to_owned(), approval)
            },
            EventMsg::TaskComplete => Reaction::Stop { reason: StopReason::EndTurn },
            EventMsg::TurnAborted => Reaction::Stop { reason: StopReason::Cancelled },
            EventMsg::Other => Reaction::Ignore,
        }
    }

    /// Marks a tool call that the client has been told of, if it is still under way.
    pub fn mark(&mut self, mark: Option<StatusMark>)
        ensures
            final(self)@ == marked(old(self)@, opt_mark(mark)),
            old(self).wf() ==> final(self).wf(),
    {
        if let Some(mark) = mark {
            if let Some(mut call) = self.tool_call(mark.call_id.as_str()) {
                let ghost before = call@;
                call.status = mark.status;
                assert(call@ =~= ToolCallView { status: mark.status, ..before });
                self.store(mark.call_id, call);
            }
        }
    }
}

fn status_at_end(success: bool) -> (status: ToolCallStatus)
    ensures
        status == end_status(success),
{
    if success {
        ToolCallStatus::Completed
    } else {
        ToolCallStatus::Failed
    }
}

fn status_change(id: String, success: bool) -> (update: ToolCallUpdate)
    ensures
        update@ == status_update(id@, end_status(success)),
{
    ToolCallUpdate { id, title: None, status: Some(status_at_end(success)), content: None }
}

fn ask(id: String, title: String, approval: Approval) -> (made: Reaction)
    ensures
        made@ == on_ask(id@, title@, approval@),
{
    Reaction::Ask {
        tool_call: ToolCallUpdate { id, title: Some(title), status: None, content: None },
        approval,
    }
}

} // verus!
