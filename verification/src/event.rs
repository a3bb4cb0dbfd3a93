//! What a conversation is told, and what it tells.
use vstd::prelude::*;

use crate::text::texts;
use crate::tool_call::ExecCommandBeginEvent;
use crate::update::PlanItem;

verus! {

/// Whether something that asked for permission may go on.
#[derive(Clone, Copy, Debug, PartialEq, Eq, Structural)]
pub enum ReviewDecision {
    Approved,
    Denied,
}

/// What a conversation is told.
#[derive(Debug, PartialEq, Eq)]
pub enum Op {
    /// What the user wrote, text by text.
    UserInput { items: Vec<String> },
    /// Whether a shell command may run.
    ExecApproval { id: String, decision: ReviewDecision },
    /// Whether a patch may be applied.
    PatchApproval { id: String, decision: ReviewDecision },
    /// To stop.
    Interrupt,
}

/// The model of an `Op`.
#[verifier::ext_equal]
pub enum OpView {
    UserInput { items: Seq<Seq<char>> },
    ExecApproval { id: Seq<char>, decision: ReviewDecision },
    PatchApproval { id: Seq<char>, decision: ReviewDecision },
    Interrupt,
}

impl View for Op {
    type V = OpView;

    open spec fn view(&self) -> OpView {
        match self {
            Op::UserInput { items } => OpView::UserInput { items: texts(items@) },
            Op::ExecApproval { id, decision } => OpView::ExecApproval {
                id: id@,
                decision: *decision,
            },
            Op::PatchApproval { id, decision } => OpView::PatchApproval {
                id: id@,
                decision: *decision,
            },
            Op::Interrupt => OpView::Interrupt,
        }
    }
}

/// What a conversation tells.
#[derive(Debug, PartialEq, Eq)]
pub enum EventMsg {
    /// A piece of the agent's message.
    AgentMessageDelta { delta: String },
    /// A piece of the agent's reasoning.
    AgentReasoningDelta { delta: String },
    /// A shell command begins.
    ExecCommandBegin(ExecCommandBeginEvent),
    /// A shell command writes something.
    ExecCommandOutputDelta { call_id: String, chunk: Vec<u8> },
    /// A shell command ends.
    ExecCommandEnd { call_id: String, exit_code: i32 },
    /// A call of a tool on an MCP server begins.
    McpToolCallBegin { call_id: String, server: String, tool: String },
    /// A call of a tool on an MCP server ends.
    McpToolCallEnd { call_id: String, success: bool },
    /// A web search begins.
    WebSearchBegin { call_id: String },
    /// A web search ends.
    WebSearchEnd { call_id: String, query: String },
    /// There is a new plan.
    PlanUpdate { plan: Vec<PlanItem> },
    /// A patch is about to be applied. `changes` holds what it changes, if JSON can say it.
    PatchApplyBegin { call_id: String, changes: Option<serde_json::Value> },
    /// A patch has been applied, or could not be.
    PatchApplyEnd { call_id: String, success: bool },
    /// What has changed on disk so far.
    TurnDiff,
    /// A shell command asks for permission.
    ExecApprovalRequest { call_id: String, command: Vec<String> },
    /// A patch asks for permission.
    ApplyPatchApprovalRequest { call_id: String },
    /// The work is done.
    TaskComplete,
    /// The work was stopped.
    TurnAborted,
    /// Anything else.
    Other,
}

/// What a conversation tells about one of its submissions.
#[derive(Debug, PartialEq, Eq)]
pub struct Event {
    /// The submission that the event is about.
    pub id: String,
    pub msg: EventMsg,
}

} // verus!
