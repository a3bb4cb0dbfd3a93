//! Asking the client for permission.
use vstd::prelude::*;

use crate::event::{Op, OpView, ReviewDecision};
use crate::tool_call::{ToolCallUpdate, ToolCallUpdateView};

verus! {

/// What choosing an option means.
#[derive(Clone, Copy, Debug, PartialEq, Eq, Structural)]
pub enum PermissionOptionKind {
    AllowOnce,
    RejectOnce,
}

/// An answer that the client may choose.
#[derive(Debug, PartialEq, Eq)]
pub struct PermissionOption {
    pub id: String,
    pub name: String,
    pub kind: PermissionOptionKind,
}

/// A question to the client whether a tool call may go on.
#[derive(Debug, PartialEq, Eq)]
pub struct PermissionRequest {
    pub session_id: String,
    pub tool_call: ToolCallUpdate,
    pub options: Vec<PermissionOption>,
}

/// The client's answer.
#[derive(Debug, PartialEq, Eq)]
pub enum PermissionOutcome {
    /// The client chose an option.
    Selected { option_id: String },
    /// The prompt was cancelled before the client chose.
    Cancelled,
}

/// What waits for permission.
#[derive(Debug, PartialEq, Eq)]
pub enum Approval {
    /// A shell command, by the id of the event that asked.
    Exec { id: String },
    /// A patch, by the id of its tool call.
    Patch { id: String },
}

/// The model of a `PermissionOption`.
pub struct PermissionOptionView {
    pub id: Seq<char>,
    pub name: Seq<char>,
    pub kind: PermissionOptionKind,
}

/// The model of a `PermissionRequest`.
#[verifier::ext_equal]
pub struct PermissionRequestView {
    pub session_id: Seq<char>,
    pub tool_call: ToolCallUpdateView,
    pub options: Seq<PermissionOptionView>,
}

/// The model of an `Approval`.
pub enum ApprovalView {
    Exec { id: Seq<char> },
    Patch { id: Seq<char> },
}

impl View for PermissionOption {
    type V = PermissionOptionView;

    open spec fn view(&self) -> PermissionOptionView {
        PermissionOptionView { id: self.id@, name: self.name@, kind: self.kind }
    }
}

impl View for PermissionRequest {
    type V = PermissionRequestView;

    open spec fn view(&self) -> PermissionRequestView {
        PermissionRequestView {
            session_id: self.session_id@,
            tool_call: self.tool_call@,
            options: Seq::new(self.options@.len(), |i: int| self.options@[i]@),
        }
    }
}

impl View for Approval {
    type V = ApprovalView;

    open spec fn view(&self) -> ApprovalView {
        match self {
            Approval::Exec { id } => ApprovalView::Exec { id: id@ },
            Approval::Patch { id } => ApprovalView::Patch { id: id@ },
        }
    }
}

/// The answers that the client may choose.
pub open spec fn offered_options() -> Seq<PermissionOptionView> {
    seq![
        PermissionOptionView {
            id: "allow_once"@,
            name: "Allow Once"@,
            kind: PermissionOptionKind::AllowOnce,
        },
        PermissionOptionView {
            id: "reject_once"@,
            name: "Reject Once"@,
            kind: PermissionOptionKind::RejectOnce,
        },
    ]
}

/// What the client's answer decides: only the option to allow allows.
pub open spec fn decided(outcome: PermissionOutcome) -> ReviewDecision {
    match outcome {
        PermissionOutcome::Selected { option_id } => if option_id@ == "allow_once"@ {
            ReviewDecision::Approved
        } else {
            ReviewDecision::Denied
        },
        PermissionOutcome::Cancelled => ReviewDecision::Denied,
    }
}

/// How a decision is handed on.
pub open spec fn approval_op(approval: ApprovalView, decision: ReviewDecision) -> OpView {
    match approval {
        ApprovalView::Exec { id } => OpView::ExecApproval { id, decision },
        ApprovalView::Patch { id } => OpView::PatchApproval { id, decision },
    }
}

/// The question whether a tool call may go on, with the answers on offer.
pub fn permission_request(session_id: String, tool_call: ToolCallUpdate) -> (request:
    PermissionRequest)
    ensures
        request@ == (PermissionRequestView {
            session_id: session_id@,
            tool_call: tool_call@,
            options: offered_options(),
        }),
        request.session_id@ == session_id@,
        request.tool_call == tool_call,
        request.options@.len() == 2,
        request.options@[0].id@ == "allow_once"@,
        request.options@[0].name@ == "Allow Once"@,
        request.options@[0].kind == PermissionOptionKind::AllowOnce,
        request.options@[1].id@ == "reject_once"@,
        request.options@[1].name@ == "Reject Once"@,
        request.options@[1].kind == PermissionOptionKind::RejectOnce,
{
    let mut options: Vec<PermissionOption> = Vec::new();
    options.push(
        PermissionOption {
            id: "allow_once".to_owned(),
            name: "Allow Once".to_owned(),
            kind: PermissionOptionKind::AllowOnce,
        },
    );
    options.push(
        PermissionOption {
            id: "reject_once".to_owned(),
            name: "Reject Once".to_owned(),
            kind: PermissionOptionKind::RejectOnce,
        },
    );
    let request: PermissionRequest = PermissionRequest { session_id, tool_call, options };
    assert(request@.options =~= offered_options());
    request
}

/// What the client's answer decides.
pub fn review_decision(outcome: &PermissionOutcome) -> (decision: ReviewDecision)
    ensures
        decision == decided(*outcome),
        match *outcome {
            PermissionOutcome::Selected { option_id } => decision == ReviewDecision::Approved
                <==> option_id@ == "allow_once"@,
            PermissionOutcome::Cancelled => decision == ReviewDecision::Denied,
        },
{
    match outcome {
        PermissionOutcome::Selected { option_id } => {
            if *option_id == "allow_once".to_owned() {
                ReviewDecision::Approved
            } else {
                ReviewDecision::Denied
            }
        },
        PermissionOutcome::Cancelled => ReviewDecision::Denied,
    }
}

/// Hands a decision on to what waits for it.
pub fn submit_decision(approval: Approval, decision: ReviewDecision) -> (op: Op)
    ensures
        op@ == approval_op(approval@, decision),
        match approval {
            Approval::Exec { id } => op == (Op::ExecApproval { id, decision }),
            Approval::Patch { id } => op == (Op::PatchApproval { id, decision }),
        },
{
    match approval {
        Approval::Exec { id } => Op::ExecApproval { id, decision },
        Approval::Patch { id } => Op::PatchApproval { id, decision },
    }
}

} // verus!
