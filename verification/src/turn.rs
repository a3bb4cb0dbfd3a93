//! A prompt turn: from the client's prompt to the answer, step by step.
//!
//! Each step names an action; what came of the action is handed to the next step.
use vstd::prelude::*;

use crate::agent::{
    marked, opt_mark, reaction, read_plainly, Calls, CodexAgent, Reaction, ReactionView, StatusMark,
    StatusMarkView, StopReason,
};
use crate::conversation::{
    conversation_of, has_uuid_length, invalid_session_error, parse_session_id, uuid_parsed,
    ConversationId,
};
use crate::error::{
    internal_err, internal_err_of, invalid_params_error, ErrorData, RpcError, RpcErrorView,
};
use crate::event::{Event, Op, OpView, ReviewDecision};
use crate::permission::{
    approval_op, decided, offered_options, permission_request, review_decision, submit_decision,
    Approval, ApprovalView, PermissionOutcome, PermissionRequest, PermissionRequestView,
};
use crate::update::{SessionUpdate, SessionUpdateView};

verus! {

/// A piece of a prompt.
#[derive(Debug, PartialEq, Eq)]
pub enum ContentBlock {
    /// A text.
    Text { text: String },
    /// Anything else: an image, a sound, a resource.
    Other,
}

/// What a step asks for.
#[derive(Debug, PartialEq, Eq)]
pub enum Action {
    /// To look up the conversation.
    FindConversation { conversation: ConversationId },
    /// To hand something to the conversation.
    Submit { op: Op },
    /// To wait for the conversation's next event.
    NextEvent,
    /// To tell the client.
    Notify { session_id: String, update: SessionUpdate },
    /// To ask the client.
    RequestPermission { request: PermissionRequest },
    /// To answer the prompt.
    Finish { answer: Result<StopReason, RpcError> },
}

/// What came of an action. What goes wrong in the conversation is given as its text.
#[derive(Debug, PartialEq, Eq)]
pub enum Reply {
    /// Whether there is such a conversation.
    Conversation { found: Result<(), String> },
    /// The id of the submission.
    Submitted { id: Result<String, String> },
    /// The next event.
    Event { event: Result<Event, String> },
    /// Whether the client was told.
    Notified { told: Result<(), RpcError> },
    /// What the client answers.
    Permission { outcome: Result<PermissionOutcome, RpcError> },
}

/// What a turn waits for.
#[derive(Debug, PartialEq, Eq)]
pub enum Phase {
    /// The conversation. The prompt is still to be handed to it.
    Conversation { prompt: Vec<ContentBlock> },
    /// The id of the submission of the prompt.
    Submission,
    /// The next event.
    Event { submission_id: String },
    /// The client to have been told. Then a tool call is marked.
    Notification { submission_id: String, mark: Option<StatusMark> },
    /// The client's permission.
    Permission { submission_id: String, approval: Approval },
    /// The client's decision to have been handed on.
    Decision { submission_id: String },
    /// Nothing more.
    Finished,
}

/// A prompt that is being worked on.
#[derive(Debug, PartialEq, Eq)]
pub struct PromptTurn {
    session_id: String,
    phase: Phase,
}

/// The model of an `Action`.
#[verifier::ext_equal]
pub enum ActionView {
    FindConversation { conversation: ConversationId },
    Submit { op: OpView },
    NextEvent,
    Notify { session_id: Seq<char>, update: SessionUpdateView },
    RequestPermission { request: PermissionRequestView },
    Finish { answer: Result<StopReason, RpcErrorView> },
}

/// The model of a `Phase`.
pub enum PhaseView {
    Conversation { prompt: Seq<ContentBlock> },
    Submission,
    Event { submission_id: Seq<char> },
    Notification { submission_id: Seq<char>, mark: Option<StatusMarkView> },
    Permission { submission_id: Seq<char>, approval: ApprovalView },
    Decision { submission_id: Seq<char> },
    Finished,
}

/// The model of a `PromptTurn`.
pub struct TurnView {
    pub session_id: Seq<char>,
    pub phase: PhaseView,
}

impl View for Action {
    type V = ActionView;

    open spec fn view(&self) -> ActionView {
        match self {
            Action::FindConversation { conversation } => ActionView::FindConversation {
                conversation: *conversation,
            },
            Action::Submit { op } => ActionView::Submit { op: op@ },
            Action::NextEvent => ActionView::NextEvent,
            Action::Notify { session_id, update } => ActionView::Notify {
                session_id: session_id@,
                update: update@,
            },
            Action::RequestPermission { request } => ActionView::RequestPermission {
                request: request@,
            },
            Action::Finish { answer } => ActionView::Finish {
                answer: match answer {
                    Ok(reason) => Ok(*reason),
                    Err(error) => Err(error@),
                },
            },
        }
    }
}

impl View for Phase {
    type V = PhaseView;

    open spec fn view(&self) -> PhaseView {
        match self {
            Phase::Conversation { prompt } => PhaseView::Conversation { prompt: prompt@ },
            Phase::Submission => PhaseView::Submission,
            Phase::Event { submission_id } => PhaseView::Event { submission_id: submission_id@ },
            Phase::Notification { submission_id, mark } => PhaseView::Notification {
                submission_id: submission_id@,
                mark: opt_mark(*mark),
            },
            Phase::Permission { submission_id, approval } => PhaseView::Permission {
                submission_id: submission_id@,
                approval: approval@,
            },
            Phase::Decision { submission_id } => PhaseView::Decision {
                submission_id: submission_id@,
            },
            Phase::Finished => PhaseView::Finished,
        }
    }
}

impl View for PromptTurn {
    type V = TurnView;

    closed spec fn view(&self) -> TurnView {
        TurnView { session_id: self.session_id@, phase: self.phase@ }
    }
}

/// The step to waiting for the next event of a submission.
pub open spec fn listening(session_id: Seq<char>, submission_id: Seq<char>) -> (
    TurnView,
    ActionView,
) {
    (
        TurnView { session_id, phase: PhaseView::Event { submission_id } },
        ActionView::NextEvent,
    )
}

/// The step that answers the prompt.
pub open spec fn finished(session_id: Seq<char>, answer: Result<StopReason, RpcErrorView>) -> (
    TurnView,
    ActionView,
) {
    (TurnView { session_id, phase: PhaseView::Finished }, ActionView::Finish { answer })
}

/// Whether a reply is one to what a turn waits for.
pub open spec fn expects(phase: PhaseView, reply: Reply) -> bool {
    match reply {
        Reply::Conversation { .. } => phase is Conversation,
        Reply::Submitted { .. } => phase is Submission || phase is Decision,
        Reply::Event { .. } => phase is Event,
        Reply::Notified { .. } => phase is Notification,
        Reply::Permission { .. } => phase is Permission,
    }
}

/// Whether a prompt is made of texts alone.
pub open spec fn all_text(prompt: Seq<ContentBlock>) -> bool {
    forall|i: int| 0 <= i < prompt.len() ==> #[trigger] prompt[i] is Text
}

/// The texts of a prompt that is made of texts alone.
pub open spec fn prompt_texts(prompt: Seq<ContentBlock>) -> Seq<Seq<char>> {
    Seq::new(prompt.len(), |i: int| prompt[i]->text@)
}

/// The error for a prompt that is not made of texts alone.
pub open spec fn unsupported_content_error() -> RpcErrorView {
    invalid_params_error().with_text("Unsupported content block type"@)
}

/// The first step of a turn, from what was read as the session's UUID.
pub open spec fn prompted(
    session_id: Seq<char>,
    prompt: Seq<ContentBlock>,
    parsed: Option<u128>,
) -> (TurnView, ActionView) {
    match parsed {
        Some(bits) => (
            TurnView { session_id, phase: PhaseView::Conversation { prompt } },
            ActionView::FindConversation { conversation: ConversationId { bits } },
        ),
        None => finished(session_id, Err(invalid_session_error())),
    }
}

/// The step after the conversation was found, or was not.
pub open spec fn conversation_found(
    session_id: Seq<char>,
    prompt: Seq<ContentBlock>,
    found: Result<(), String>,
) -> (TurnView, ActionView) {
    match found {
        Ok(_) => if all_text(prompt) {
            (
                TurnView { session_id, phase: PhaseView::Submission },
                ActionView::Submit { op: OpView::UserInput { items: prompt_texts(prompt) } },
            )
        } else {
            finished(session_id, Err(unsupported_content_error()))
        },
        Err(reason) => finished(session_id, Err(internal_err_of(reason@))),
    }
}

/// The step after an event of the turn's own submission.
pub open spec fn reacted(session_id: Seq<char>, submission_id: Seq<char>, made: ReactionView) -> (
    TurnView,
    ActionView,
) {
    match made {
        ReactionView::Ignore => listening(session_id, submission_id),
        ReactionView::Notify { update, mark } => (
            TurnView { session_id, phase: PhaseView::Notification { submission_id, mark } },
            ActionView::Notify { session_id, update },
        ),
        ReactionView::Ask { tool_call, approval } => (
            TurnView { session_id, phase: PhaseView::Permission { submission_id, approval } },
            ActionView::RequestPermission {
                request: PermissionRequestView {
                    session_id,
                    tool_call,
                    options: offered_options(),
                },
            },
        ),
        ReactionView::Stop { reason } => finished(session_id, Ok(reason)),
    }
}

/// The step after the client has answered, or could not be asked.
pub open spec fn permission_answered(
    session_id: Seq<char>,
    submission_id: Seq<char>,
    approval: ApprovalView,
    outcome: Result<PermissionOutcome, RpcError>,
) -> (TurnView, ActionView) {
    match outcome {
        Ok(outcome) => (
            TurnView { session_id, phase: PhaseView::Decision { submission_id } },
            ActionView::Submit { op: approval_op(approval, decided(outcome)) },
        ),
        Err(error) => finished(session_id, Err(error@)),
    }
}

/// A step of a turn: the tool calls that are under way after it, and the step. It is meant for the
/// replies that the turn expects.
pub open spec fn resumed(calls: Calls, turn: TurnView, reply: Reply) -> (
    Calls,
    (TurnView, ActionView),
)
    recommends
        expects(turn.phase, reply),
{
    let session_id = turn.session_id;
    match (turn.phase, reply) {
        (PhaseView::Conversation { prompt }, Reply::Conversation { found }) => (
            calls,
            conversation_found(session_id, prompt, found),
        ),
        (PhaseView::Submission, Reply::Submitted { id: Ok(submission_id) }) => (
            calls,
            listening(session_id, submission_id@),
        ),
        (PhaseView::Decision { submission_id }, Reply::Submitted { id: Ok(_) }) => (
            calls,
            listening(session_id, submission_id),
        ),
        (_, Reply::Submitted { id: Err(reason) }) => (
            calls,
            finished(session_id, Err(internal_err_of(reason@))),
        ),
        (PhaseView::Event { submission_id }, Reply::Event { event: Ok(event) }) => if event.id@
            == submission_id {
            let (after, made) = reaction(calls, event);
            (after, reacted(session_id, submission_id, made))
        } else {
            (calls, listening(session_id, submission_id))
        },
        (_, Reply::Event { event: Err(reason) }) => (
            calls,
            finished(session_id, Err(internal_err_of(reason@))),
        ),
        (PhaseView::Notification { submission_id, mark }, Reply::Notified { told: Ok(_) }) => (
            marked(calls, mark),
            listening(session_id, submission_id),
        ),
        (_, Reply::Notified { told: Err(error) }) => (calls, finished(session_id, Err(error@))),
        (PhaseView::Permission { submission_id, approval }, Reply::Permission { outcome }) => (
            calls,
            permission_answered(session_id, submission_id, approval, outcome),
        ),
        _ => (calls, (turn, ActionView::NextEvent)),
    }
}

/// What a prompt hands to the conversation. A prompt that is not made of texts alone is refused.
pub fn prompt_op(prompt: Vec<ContentBlock>) -> (op: Result<Op, RpcError>)
    ensures
        op is Ok <==> all_text(prompt@),
        match op {
            Ok(op) => op@ == (OpView::UserInput { items: prompt_texts(prompt@) }),
            Err(error) => error@ == unsupported_content_error(),
        },
        op is Ok <==> forall|i: int| 0 <= i < prompt@.len() ==> #[trigger] prompt@[i] is Text,
        op matches Ok(op) ==> {
            &&& op matches Op::UserInput { items }
            &&& items@.len() == prompt@.len()
            &&& forall|i: int|
                0 <= i < prompt@.len() ==> (#[trigger] items@[i])@ == prompt@[i]->text@
        },
        op matches Err(error) ==> {
            &&& error.code as int == -32602
            &&& error.message@ == "Invalid params"@
            &&& error.data matches Some(ErrorData::Text(text))
            &&& text@ == "Unsupported content block type"@
        },
{
    let mut items: Vec<String> = Vec::new();
    for i in 0..prompt.len()
        invariant
            items@.len() == i,
            forall|j: int| 0 <= j < i ==> #[trigger] prompt@[j] is Text,
            forall|j: int| 0 <= j < i ==> (#[trigger] items@[j])@ == prompt@[j]->text@,
    {
        match &prompt[i] {
            ContentBlock::Text { text } => items.push(text.clone()),
            ContentBlock::Other => {
                assert(!(prompt@[i as int] is Text));
                return Err(RpcError::invalid_params().with_data("Unsupported content block type"));
            },
        }
    }
    let op: Op = Op::UserInput { items };
    assert(op@ =~= OpView::UserInput { items: prompt_texts(prompt@) });
    Ok(op)
}

/// Starts a turn, from what was read as the session's UUID. `None` stands for a session id that is
/// no UUID.
pub fn start_turn(session_id: String, prompt: Vec<ContentBlock>, parsed: Option<u128>) -> (step: (
    PromptTurn,
    Action,
))
    ensures
        (step.0@, step.1@) == prompted(session_id@, prompt@, parsed),
{
    match conversation_of(parsed) {
        Ok(conversation) => (
            PromptTurn { session_id, phase: Phase::Conversation { prompt } },
            Action::FindConversation { conversation },
        ),
        Err(error) => (
            PromptTurn { session_id, phase: Phase::Finished },
            Action::Finish { answer: Err(error) },
        ),
    }
}

impl PromptTurn {
    /// Whether a reply is one to what the turn waits for.
    pub fn expects(&self, reply: &Reply) -> (fits: bool)
        ensures
            fits == expects(self@.phase, *reply),
    {
        match reply {
            Reply::Conversation { .. } => matches!(self.phase, Phase::Conversation { .. }),
            Reply::Submitted { .. } => matches!(self.phase, Phase::Submission | Phase::Decision { .. }),
            Reply::Event { .. } => matches!(self.phase, Phase::Event { .. }),
            Reply::Notified { .. } => matches!(self.phase, Phase::Notification { .. }),
            Reply::Permission { .. } => matches!(self.phase, Phase::Permission { .. }),
        }
    }
}

fn listen(session_id: String, submission_id: String) -> (step: (PromptTurn, Action))
    ensures
        (step.0@, step.1@) == listening(session_id@, submission_id@),
{
    (PromptTurn { session_id, phase: Phase::Event { submission_id } }, Action::NextEvent)
}

fn fail(session_id: String, error: RpcError) -> (step: (PromptTurn, Action))
    ensures
        (step.0@, step.1@) == finished(session_id@, Err(error@)),
{
    (PromptTurn { session_id, phase: Phase::Finished }, Action::Finish { answer: Err(error) })
}

fn hand_over(session_id: String, prompt: Vec<ContentBlock>, found: Result<(), String>) -> (step: (
    PromptTurn,
    Action,
))
    ensures
        (step.0@, step.1@) == conversation_found(session_id@, prompt@, found),
{
    match found {
        Ok(_) => match prompt_op(prompt) {
            Ok(op) => (PromptTurn { session_id, phase: Phase::Submission }, Action::Submit { op }),
            Err(error) => fail(session_id, error),
        },
        Err(reason) => fail(session_id, internal_err(reason)),
    }
}

fn follow(session_id: String, submission_id: String, made: Reaction) -> (step: (PromptTurn, Action))
    ensures
        (step.0@, step.1@) == reacted(session_id@, submission_id@, made@),
{
    match made {
        Reaction::Ignore => listen(session_id, submission_id),
        Reaction::Notify { update, mark } => (
            PromptTurn {
                session_id: session_id.clone(),
                phase: Phase::Notification { submission_id, mark },
            },
            Action::Notify { session_id, update },
        ),
        Reaction::Ask { tool_call, approval } => (
            PromptTurn {
                session_id: session_id.clone(),
                phase: Phase::Permission { submission_id, approval },
            },
            Action::RequestPermission { request: permission_request(session_id, tool_call) },
        ),
        Reaction::Stop { reason } => (
            PromptTurn { session_id, phase: Phase::Finished },
            Action::Finish { answer: Ok(reason) },
        ),
    }
}

fn decide(
    session_id: String,
    submission_id: String,
    approval: Approval,
    outcome: Result<PermissionOutcome, RpcError>,
) -> (step: (PromptTurn, Action))
    ensures
        (step.0@, step.1@) == permission_answered(session_id@, submission_id@, approval@, outcome),
{
    match outcome {
        Ok(outcome) => {
            let decision: ReviewDecision = review_decision(&outcome);
            (
                PromptTurn { session_id, phase: Phase::Decision { submission_id } },
                Action::Submit { op: submit_decision(approval, decision) },
            )
        },
        Err(error) => fail(session_id, error),
    }
}

impl CodexAgent {
    /// Starts to work on a prompt. A session id that is no UUID is refused.
    pub fn prompt(&self, session_id: String, prompt: Vec<ContentBlock>) -> (step: (
        PromptTurn,
        Action,
    ))
        ensures
            (step.0@, step.1@) == prompted(session_id@, prompt@, uuid_parsed(session_id@)),
            uuid_parsed(session_id@) is Some ==> has_uuid_length(session_id@),
    {
        let parsed: Option<u128> = parse_session_id(session_id.as_str());
        start_turn(session_id, prompt, parsed)
    }

    /// Goes on with a prompt, from what came of the last action.
    pub fn resume(&mut self, turn: PromptTurn, reply: Reply) -> (step: (PromptTurn, Action))
        requires
            expects(turn@.phase, reply),
        ensures
            (final(self)@, (step.0@, step.1@)) == resumed(old(self)@, turn@, reply),
            match (turn@.phase, reply) {
                (PhaseView::Event { submission_id }, Reply::Event { event: Ok(event) }) =>
                    submission_id == event.id@ ==> read_plainly(event.msg),
                _ => true,
            },
            old(self).wf() ==> final(self).wf(),
    {
        let PromptTurn { session_id, phase } = turn;
        match (phase, reply) {
            (Phase::Conversation { prompt }, Reply::Conversation { found }) => hand_over(
                session_id,
                prompt,
                found,
            ),
            (Phase::Submission, Reply::Submitted { id: Ok(submission_id) }) => listen(
                session_id,
                submission_id,
            ),
            (Phase::Decision { submission_id }, Reply::Submitted { id: Ok(_) }) => listen(
                session_id,
                submission_id,
            ),
            (_, Reply::Submitted { id: Err(reason) }) => fail(session_id, internal_err(reason)),
            (Phase::Event { submission_id }, Reply::Event { event: Ok(event) }) => {
                if event.id == submission_id {
                    let made: Reaction = self.react(event);
                    follow(session_id, submission_id, made)
                } else {
                    listen(session_id, submission_id)
                }
            },
            (_, Reply::Event { event: Err(reason) }) => fail(session_id, internal_err(reason)),
            (Phase::Notification { submission_id, mark }, Reply::Notified { told: Ok(_) }) => {
                self.mark(mark);
                listen(session_id, submission_id)
            },
            (_, Reply::Notified { told: Err(error) }) => fail(session_id, error),
            (Phase::Permission { submission_id, approval }, Reply::Permission { outcome }) => decide(
                session_id,
                submission_id,
                approval,
                outcome,
            ),
            (phase, _) => (PromptTurn { session_id, phase }, Action::NextEvent),
        }
    }
}

} // verus!
