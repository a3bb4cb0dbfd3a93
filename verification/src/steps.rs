//! What each step comes to, in terms of what was waited for and what came.
use vstd::prelude::*;

use crate::agent::{marked, reaction, Calls, ReactionView, StatusMarkView};
use crate::conversation::{invalid_session_error, uuid_text, ConversationId};
use crate::error::{
    answer_view, internal_err_of, internal_error, internal_on_err, invalid_params_error,
    method_not_found_error, ErrorDataView, RpcError, RpcErrorView,
};
use crate::event::{Event, OpView, ReviewDecision};
use crate::mcp::{with_servers, McpServer, McpServerConfigView};
use crate::permission::{
    approval_op, decided, offered_options, ApprovalView, PermissionOptionKind, PermissionOutcome,
};
use crate::request::{
    cancel_asked, cancel_looked_up, no_capabilities, servers_added, session_from, session_named,
    CancelActionView,
};
use crate::turn::{
    all_text, prompted, resumed, unsupported_content_error, ActionView, ContentBlock, PhaseView,
    Reply, TurnView,
};

verus! {

/// What the errors say: a code, a message, and as data what went wrong, if that is known.
pub proof fn law_errors_say_what_went_wrong(reason: Seq<char>)
    ensures
        invalid_params_error() == (RpcErrorView {
            code: -32602,
            message: "Invalid params"@,
            data: None,
        }),
        method_not_found_error() == (RpcErrorView {
            code: -32601,
            message: "Method not found"@,
            data: None,
        }),
        internal_error() == (RpcErrorView { code: -32603, message: "Internal error"@, data: None }),
        internal_err_of(reason) == (RpcErrorView {
            code: -32603,
            message: "Internal error"@,
            data: Some(ErrorDataView::Text(reason)),
        }),
        invalid_session_error() == (RpcErrorView {
            code: -32602,
            message: "Invalid params"@,
            data: Some(ErrorDataView::Text("Invalid session id"@)),
        }),
        unsupported_content_error() == (RpcErrorView {
            code: -32602,
            message: "Invalid params"@,
            data: Some(ErrorDataView::Text("Unsupported content block type"@)),
        }),
{
}

/// An error takes a text as its data and stays the same otherwise, whatever its data was.
pub proof fn law_error_takes_a_text(error: RpcErrorView, text: Seq<char>)
    ensures
        error.with_text(text).code == error.code,
        error.with_text(text).message == error.message,
        error.with_text(text).data == Some(ErrorDataView::Text(text)),
{
}

/// What succeeds is the answer, and what fails is answered with an internal error that carries the
/// reason. A model of an answer is an answer of the same kind.
pub proof fn law_failures_carry_their_reason<T>(
    result: Result<T, String>,
    answer: Result<T, RpcError>,
)
    ensures
        match result {
            Ok(value) => internal_on_err(result) == Ok::<T, RpcErrorView>(value),
            Err(reason) => internal_on_err(result) == Err::<T, RpcErrorView>(
                RpcErrorView {
                    code: -32603,
                    message: "Internal error"@,
                    data: Some(ErrorDataView::Text(reason@)),
                },
            ),
        },
        match answer {
            Ok(value) => answer_view(answer) == Ok::<T, RpcErrorView>(value),
            Err(error) => answer_view(answer) == Err::<T, RpcErrorView>(error@),
        },
{
}

/// A prompt whose session id was read as a UUID waits, with all that it holds, for the conversation
/// of that UUID. Any other prompt is answered with an error at once.
pub proof fn law_prompt_looks_for_its_conversation(
    session_id: Seq<char>,
    prompt: Seq<ContentBlock>,
    parsed: Option<u128>,
)
    ensures
        ({
            let (turn, action) = prompted(session_id, prompt, parsed);
            &&& turn.session_id == session_id
            &&& parsed matches Some(bits) ==> {
                &&& turn.phase == (PhaseView::Conversation { prompt })
                &&& action == (ActionView::FindConversation {
                    conversation: ConversationId { bits },
                })
            }
            &&& parsed is None ==> {
                &&& turn.phase is Finished
                &&& action == (ActionView::Finish {
                    answer: Err(
                        RpcErrorView {
                            code: -32602,
                            message: "Invalid params"@,
                            data: Some(ErrorDataView::Text("Invalid session id"@)),
                        },
                    ),
                })
            }
        }),
{
}

/// All that the user wrote reaches the conversation: as many texts as the prompt has blocks, and for
/// each block its own text, in order. A prompt with anything else in it reaches nobody and is
/// answered with an error, and so is one whose conversation is not found.
pub proof fn law_all_that_the_user_wrote_is_submitted(
    calls: Calls,
    turn: TurnView,
    prompt: Seq<ContentBlock>,
    found: Result<(), String>,
)
    requires
        turn.phase == (PhaseView::Conversation { prompt }),
    ensures
        ({
            let (after, (next, action)) = resumed(calls, turn, Reply::Conversation { found });
            let texts_only = forall|i: int| 0 <= i < prompt.len() ==> #[trigger] prompt[i] is Text;
            &&& after == calls
            &&& next.session_id == turn.session_id
            &&& found is Ok && texts_only ==> {
                &&& next.phase is Submission
                &&& action matches ActionView::Submit { op: OpView::UserInput { items } }
                &&& items.len() == prompt.len()
                &&& forall|i: int| 0 <= i < prompt.len() ==> #[trigger] items[i] == prompt[i]->text@
            }
            &&& found is Ok && !texts_only ==> {
                &&& next.phase is Finished
                &&& action == (ActionView::Finish {
                    answer: Err(
                        RpcErrorView {
                            code: -32602,
                            message: "Invalid params"@,
                            data: Some(ErrorDataView::Text("Unsupported content block type"@)),
                        },
                    ),
                })
            }
            &&& found matches Err(reason) ==> {
                &&& next.phase is Finished
                &&& action == (ActionView::Finish {
                    answer: Err(
                        RpcErrorView {
                            code: -32603,
                            message: "Internal error"@,
                            data: Some(ErrorDataView::Text(reason@)),
                        },
                    ),
                })
            }
        }),
        all_text(prompt) <==> forall|i: int| 0 <= i < prompt.len() ==> #[trigger] prompt[i] is Text,
{
}

/// Once something was handed to the conversation, the turn waits for the next event: of the
/// submission that the prompt became, and of the same one after a decision. Where it could not be
/// handed over, the reason is the answer.
pub proof fn law_submission_is_followed(
    calls: Calls,
    turn: TurnView,
    id: Result<String, String>,
)
    ensures
        ({
            let (after, (next, action)) = resumed(calls, turn, Reply::Submitted { id });
            &&& turn.phase is Submission && id is Ok ==> {
                &&& next.phase == (PhaseView::Event { submission_id: id->Ok_0@ })
                &&& action is NextEvent
            }
            &&& turn.phase matches PhaseView::Decision { submission_id } ==> id is Ok ==> {
                &&& next.phase == (PhaseView::Event { submission_id })
                &&& action is NextEvent
            }
            &&& turn.phase is Submission || turn.phase is Decision ==> {
                &&& after == calls
                &&& next.session_id == turn.session_id
                &&& id matches Err(reason) ==> {
                    &&& next.phase is Finished
                    &&& action == (ActionView::Finish {
                        answer: Err(
                            RpcErrorView {
                                code: -32603,
                                message: "Internal error"@,
                                data: Some(ErrorDataView::Text(reason@)),
                            },
                        ),
                    })
                }
            }
        }),
{
}

/// An event of the turn's own submission does to the calls what it does, and is followed up: what
/// the client is to be told is told to it for the turn's session, what asks for permission is asked
/// with one option to allow and one to reject, and what stops the turn is its answer. An event of
/// another submission does nothing. Where there is no event, the reason is the answer.
pub proof fn law_events_are_followed_up(
    calls: Calls,
    turn: TurnView,
    submission_id: Seq<char>,
    event: Result<Event, String>,
)
    requires
        turn.phase == (PhaseView::Event { submission_id }),
    ensures
        ({
            let session_id = turn.session_id;
            let (after, (next, action)) = resumed(calls, turn, Reply::Event { event });
            match event {
                Ok(event) => if event.id@ == submission_id {
                    let made = reaction(calls, event).1;
                    &&& after == reaction(calls, event).0
                    &&& next.session_id == session_id
                    &&& made is Ignore ==> next.phase == turn.phase && action is NextEvent
                    &&& made matches ReactionView::Notify { update, mark } ==> {
                        &&& next.phase == (PhaseView::Notification { submission_id, mark })
                        &&& action == (ActionView::Notify { session_id, update })
                    }
                    &&& made matches ReactionView::Ask { tool_call, approval } ==> {
                        &&& next.phase == (PhaseView::Permission { submission_id, approval })
                        &&& action matches ActionView::RequestPermission { request }
                        &&& request.session_id == session_id
                        &&& request.tool_call == tool_call
                        &&& request.options.len() == 2
                        &&& request.options[0].id == "allow_once"@
                        &&& request.options[0].name == "Allow Once"@
                        &&& request.options[0].kind == PermissionOptionKind::AllowOnce
                        &&& request.options[1].id == "reject_once"@
                        &&& request.options[1].name == "Reject Once"@
                        &&& request.options[1].kind == PermissionOptionKind::RejectOnce
                    }
                    &&& made matches ReactionView::Stop { reason } ==> {
                        &&& next.phase is Finished
                        &&& action == (ActionView::Finish { answer: Ok(reason) })
                    }
                } else {
                    after == calls && next == turn && action is NextEvent
                },
                Err(reason) => {
                    &&& after == calls
                    &&& next == (TurnView { session_id, phase: PhaseView::Finished })
                    &&& action == (ActionView::Finish {
                        answer: Err(
                            RpcErrorView {
                                code: -32603,
                                message: "Internal error"@,
                                data: Some(ErrorDataView::Text(reason@)),
                            },
                        ),
                    })
                },
            }
        }),
{
}

/// Once the client has been told, what is to be marked is marked, and the turn waits for the next
/// event of the same submission. Where the client could not be told, nothing is marked, and the
/// error is the answer.
pub proof fn law_notification_is_followed(
    calls: Calls,
    turn: TurnView,
    submission_id: Seq<char>,
    mark: Option<StatusMarkView>,
    told: Result<(), RpcError>,
)
    requires
        turn.phase == (PhaseView::Notification { submission_id, mark }),
    ensures
        ({
            let (after, (next, action)) = resumed(calls, turn, Reply::Notified { told });
            &&& next.session_id == turn.session_id
            &&& told is Ok ==> {
                &&& after == marked(calls, mark)
                &&& next.phase == (PhaseView::Event { submission_id })
                &&& action is NextEvent
            }
            &&& told matches Err(error) ==> {
                &&& after == calls
                &&& next.phase is Finished
                &&& action == (ActionView::Finish { answer: Err(error@) })
            }
        }),
{
}

/// What the client decides goes to what asked, as approved just where the client chose to allow it,
/// and the turn keeps its submission. Where the client could not be asked, the error is the answer.
pub proof fn law_decision_goes_to_what_asked(
    calls: Calls,
    turn: TurnView,
    submission_id: Seq<char>,
    approval: ApprovalView,
    outcome: Result<PermissionOutcome, RpcError>,
)
    requires
        turn.phase == (PhaseView::Permission { submission_id, approval }),
    ensures
        ({
            let (after, (next, action)) = resumed(calls, turn, Reply::Permission { outcome });
            &&& after == calls
            &&& next.session_id == turn.session_id
            &&& outcome matches Ok(outcome) ==> {
                let allowed = match outcome {
                    PermissionOutcome::Selected { option_id } => option_id@ == "allow_once"@,
                    PermissionOutcome::Cancelled => false,
                };
                let decision = if allowed {
                    ReviewDecision::Approved
                } else {
                    ReviewDecision::Denied
                };
                &&& next.phase == (PhaseView::Decision { submission_id })
                &&& action == (ActionView::Submit {
                    op: match approval {
                        ApprovalView::Exec { id } => OpView::ExecApproval { id, decision },
                        ApprovalView::Patch { id } => OpView::PatchApproval { id, decision },
                    },
                })
            }
            &&& outcome matches Err(error) ==> {
                &&& next.phase is Finished
                &&& action == (ActionView::Finish { answer: Err(error@) })
            }
        }),
{
}

/// An answer of the client approves just where it is the choice of the option to allow, and a
/// decision is handed on to what it is on.
pub proof fn law_only_the_choice_to_allow_approves(
    outcome: PermissionOutcome,
    id: Seq<char>,
    decision: ReviewDecision,
)
    ensures
        decided(outcome) == ReviewDecision::Approved <==> (outcome matches
            PermissionOutcome::Selected { option_id } && option_id@ == "allow_once"@),
        decided(outcome) == ReviewDecision::Denied <==> !(outcome matches
            PermissionOutcome::Selected { option_id } && option_id@ == "allow_once"@),
        approval_op(ApprovalView::Exec { id }, decision) == (OpView::ExecApproval { id, decision }),
        approval_op(ApprovalView::Patch { id }, decision) == (OpView::PatchApproval {
            id,
            decision,
        }),
        offered_options().len() == 2,
{
}

/// A request to cancel goes to the conversation of the UUID that was read, and is refused where none
/// was. A conversation that is found is told to stop; where there is none, all is well.
pub proof fn law_cancel_steps(parsed: Option<u128>, found: bool)
    ensures
        match parsed {
            Some(bits) => cancel_asked(parsed) == (CancelActionView::FindConversation {
                conversation: ConversationId { bits },
            }),
            None => cancel_asked(parsed) == (CancelActionView::Finish {
                answer: Err(
                    RpcErrorView {
                        code: -32602,
                        message: "Invalid params"@,
                        data: Some(ErrorDataView::Text("Invalid session id"@)),
                    },
                ),
            }),
        },
        found ==> cancel_looked_up(found) == (CancelActionView::Submit { op: OpView::Interrupt }),
        !found ==> cancel_looked_up(found) == (CancelActionView::Finish { answer: Ok(()) }),
{
}

/// The servers that a client brings are added once the configuration could be loaded, and a session
/// is named by the UUID of its conversation once that could be started. What fails first is
/// answered with its reason.
pub proof fn law_new_session_steps(
    loaded: Result<(), String>,
    servers: Seq<McpServer>,
    started: Result<ConversationId, String>,
)
    ensures
        match loaded {
            Ok(_) => servers_added(loaded, servers) == Ok::<_, RpcErrorView>(
                with_servers(Map::empty(), servers),
            ) && session_from(loaded, servers, started) == session_named(started),
            Err(reason) => {
                &&& servers_added(loaded, servers) == Err::<
                    Map<Seq<char>, McpServerConfigView>,
                    RpcErrorView,
                >(
                    RpcErrorView {
                        code: -32603,
                        message: "Internal error"@,
                        data: Some(ErrorDataView::Text(reason@)),
                    },
                )
                &&& session_from(loaded, servers, started) == Err::<Seq<char>, RpcErrorView>(
                    RpcErrorView {
                        code: -32603,
                        message: "Internal error"@,
                        data: Some(ErrorDataView::Text(reason@)),
                    },
                )
            },
        },
        match started {
            Ok(conversation) => session_named(started) == Ok::<Seq<char>, RpcErrorView>(
                uuid_text(conversation.bits),
            ),
            Err(reason) => session_named(started) == Err::<Seq<char>, RpcErrorView>(
                RpcErrorView {
                    code: -32603,
                    message: "Internal error"@,
                    data: Some(ErrorDataView::Text(reason@)),
                },
            ),
        },
{
}

/// The agent can do none of what an agent may offer.
pub proof fn law_nothing_is_offered()
    ensures
        !no_capabilities().load_session,
        !no_capabilities().prompt_capabilities.image,
        !no_capabilities().prompt_capabilities.audio,
        !no_capabilities().prompt_capabilities.embedded_context,
{
}

} // verus!
