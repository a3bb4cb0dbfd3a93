//! What a client is told while a prompt is worked on.
use vstd::prelude::*;

use crate::tool_call::{ToolCall, ToolCallUpdate, ToolCallUpdateView, ToolCallView};

verus! {

/// How far a step of a plan has got, as the plan's author says.
#[derive(Clone, Copy, Debug, PartialEq, Eq, Structural)]
pub enum StepStatus {
    Pending,
    InProgress,
    Completed,
}

/// A step of a plan.
#[derive(Debug, PartialEq, Eq)]
pub struct PlanItem {
    pub step: String,
    pub status: StepStatus,
}

/// How much a step of a plan matters.
#[derive(Clone, Copy, Debug, PartialEq, Eq, Structural)]
pub enum PlanEntryPriority {
    High,
    Medium,
    Low,
}

/// How far a step of a plan has got, as the client is told.
#[derive(Clone, Copy, Debug, PartialEq, Eq, Structural)]
pub enum PlanEntryStatus {
    Pending,
    InProgress,
    Completed,
}

/// A step of a plan, as the client is told of it.
#[derive(Debug, PartialEq, Eq)]
pub struct PlanEntry {
    pub content: String,
    pub priority: PlanEntryPriority,
    pub status: PlanEntryStatus,
}

/// What a client is told.
#[derive(Debug, PartialEq, Eq)]
pub enum SessionUpdate {
    /// A piece of the agent's message.
    AgentMessageChunk { text: String },
    /// A piece of the agent's reasoning.
    AgentThoughtChunk { text: String },
    /// A tool call that begins.
    ToolCall(ToolCall),
    /// What changes of a tool call.
    ToolCallUpdate(ToolCallUpdate),
    /// The plan, in place of any earlier one.
    Plan { entries: Vec<PlanEntry> },
}

/// The model of a `PlanEntry`.
pub struct PlanEntryView {
    pub content: Seq<char>,
    pub priority: PlanEntryPriority,
    pub status: PlanEntryStatus,
}

/// The model of a `SessionUpdate`.
#[verifier::ext_equal]
pub enum SessionUpdateView {
    AgentMessageChunk { text: Seq<char> },
    AgentThoughtChunk { text: Seq<char> },
    ToolCall(ToolCallView),
    ToolCallUpdate(ToolCallUpdateView),
    Plan { entries: Seq<PlanEntryView> },
}

impl View for PlanEntry {
    type V = PlanEntryView;

    open spec fn view(&self) -> PlanEntryView {
        PlanEntryView { content: self.content@, priority: self.priority, status: self.status }
    }
}

impl View for SessionUpdate {
    type V = SessionUpdateView;

    open spec fn view(&self) -> SessionUpdateView {
        match self {
            SessionUpdate::AgentMessageChunk { text } => SessionUpdateView::AgentMessageChunk {
                text: text@,
            },
            SessionUpdate::AgentThoughtChunk { text } => SessionUpdateView::AgentThoughtChunk {
                text: text@,
            },
            SessionUpdate::ToolCall(call) => SessionUpdateView::ToolCall(call@),
            SessionUpdate::ToolCallUpdate(update) => SessionUpdateView::ToolCallUpdate(update@),
            SessionUpdate::Plan { entries } => SessionUpdateView::Plan {
                entries: Seq::new(entries@.len(), |i: int| entries@[i]@),
            },
        }
    }
}

/// How far a step has got, in the client's terms.
pub open spec fn entry_status(status: StepStatus) -> PlanEntryStatus {
    match status {
        StepStatus::Pending => PlanEntryStatus::Pending,
        StepStatus::InProgress => PlanEntryStatus::InProgress,
        StepStatus::Completed => PlanEntryStatus::Completed,
    }
}

/// A step, in the client's terms. No step matters more than another.
pub open spec fn plan_entry(item: PlanItem) -> PlanEntryView {
    PlanEntryView {
        content: item.step@,
        priority: PlanEntryPriority::Medium,
        status: entry_status(item.status),
    }
}

/// A plan, step by step, in the client's terms.
pub open spec fn plan_entries(plan: Seq<PlanItem>) -> Seq<PlanEntryView> {
    Seq::new(plan.len(), |i: int| plan_entry(plan[i]))
}

/// Puts a plan into the client's terms, step by step.
pub fn plan_update(plan: &[PlanItem]) -> (update: SessionUpdate)
    ensures
        update@ == (SessionUpdateView::Plan { entries: plan_entries(plan@) }),
        update matches SessionUpdate::Plan { entries } && entries@.len() == plan@.len() && forall|
            i: int,
        |
            0 <= i < plan@.len() ==> {
                &&& (#[trigger] entries@[i]).content@ == plan@[i].step@
                &&& entries@[i].priority == PlanEntryPriority::Medium
                &&& match plan@[i].status {
                    StepStatus::Pending => entries@[i].status == PlanEntryStatus::Pending,
                    StepStatus::InProgress => entries@[i].status == PlanEntryStatus::InProgress,
                    StepStatus::Completed => entries@[i].status == PlanEntryStatus::Completed,
                }
            },
{
    let mut entries: Vec<PlanEntry> = Vec::new();
    for i in 0..plan.len()
        invariant
            entries@.len() == i,
            forall|j: int| 0 <= j < i ==> (#[trigger] entries@[j])@ == plan_entry(plan@[j]),
    {
        let status: PlanEntryStatus = match plan[i].status {
            StepStatus::Pending => PlanEntryStatus::Pending,
            StepStatus::InProgress => PlanEntryStatus::InProgress,
            StepStatus::Completed => PlanEntryStatus::Completed,
        };
        entries.push(
            PlanEntry {
                content: plan[i].step.clone(),
                priority: PlanEntryPriority::Medium,
                status,
            },
        );
    }
    let update: SessionUpdate = SessionUpdate::Plan { entries };
    assert(update@ =~= SessionUpdateView::Plan { entries: plan_entries(plan@) });
    update
}

} // verus!
