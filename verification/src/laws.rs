//! What holds of the agent as a whole, over all events, turns and interleavings of turns.
use vstd::prelude::*;

use crate::agent::{
    end_status, keyed_by_id, reaction, status_update, tell, Calls, ReactionView, StopReason,
};
use crate::command::{escaped, has_nul, quoted_faithfully, shell_joined};
use crate::conversation::{
    invalid_session_error, lemma_uuid_parsed, lemma_uuid_reads_back, lemma_uuid_text_injective,
    uuid_parsed, uuid_text, written_as, ConversationId,
};
use crate::error::{internal_err_of, RpcError, RpcErrorView};
use crate::event::{Event, EventMsg, OpView, ReviewDecision};
use crate::mcp::{
    configured, environment, with_servers, EnvVariable, McpServer, McpServerConfigView,
};
use crate::permission::{decided, offered_options, PermissionOutcome};
use crate::request::{cancel_asked, cancel_from, session_from, CancelActionView};
use crate::text::utf8_lossy;
use crate::tool_call::{ToolCallStatus, ToolCallUpdateView, ToolCallView};
use crate::turn::{
    all_text, expects, prompted, resumed, ActionView, ContentBlock, PhaseView, Reply, TurnView,
};
use crate::update::SessionUpdateView;

verus! {

/// The tool call that an event is about, if it is about one.
pub open spec fn subject(msg: EventMsg) -> Option<Seq<char>> {
    match msg {
        EventMsg::ExecCommandBegin(msg) => Some(msg.call_id@),
        EventMsg::ExecCommandOutputDelta { call_id, .. } => Some(call_id@),
        EventMsg::ExecCommandEnd { call_id, .. } => Some(call_id@),
        EventMsg::McpToolCallBegin { call_id, .. } => Some(call_id@),
        EventMsg::McpToolCallEnd { call_id, .. } => Some(call_id@),
        EventMsg::WebSearchBegin { call_id } => Some(call_id@),
        EventMsg::WebSearchEnd { call_id, .. } => Some(call_id@),
        EventMsg::PatchApplyBegin { call_id, .. } => Some(call_id@),
        EventMsg::PatchApplyEnd { call_id, .. } => Some(call_id@),
        EventMsg::ExecApprovalRequest { call_id, .. } => Some(call_id@),
        EventMsg::ApplyPatchApprovalRequest { call_id } => Some(call_id@),
        _ => None,
    }
}

/// Whether an event begins a tool call.
pub open spec fn begins(msg: EventMsg) -> bool {
    msg is ExecCommandBegin || msg is McpToolCallBegin || msg is WebSearchBegin
        || msg is PatchApplyBegin
}

/// Whether an event ends a tool call for good.
pub open spec fn ends(msg: EventMsg) -> bool {
    msg is ExecCommandEnd || msg is McpToolCallEnd || msg is WebSearchEnd
}

/// Whether an event that ends a tool call reports success.
pub open spec fn succeeded(msg: EventMsg) -> bool {
    match msg {
        EventMsg::ExecCommandEnd { exit_code, .. } => exit_code == 0,
        EventMsg::McpToolCallEnd { success, .. } => success,
        _ => true,
    }
}

/// The event that a turn takes up in a step: one of its own submission.
pub open spec fn taken_up(turn: TurnView, reply: Reply) -> Option<Event> {
    match (turn.phase, reply) {
        (PhaseView::Event { submission_id }, Reply::Event { event: Ok(event) }) => if event.id@
            == submission_id {
            Some(event)
        } else {
            None
        },
        _ => None,
    }
}

/// The submission that a turn belongs to, once the prompt has been handed over.
pub open spec fn submission_of(phase: PhaseView) -> Option<Seq<char>> {
    match phase {
        PhaseView::Event { submission_id } => Some(submission_id),
        PhaseView::Notification { submission_id, .. } => Some(submission_id),
        PhaseView::Permission { submission_id, .. } => Some(submission_id),
        PhaseView::Decision { submission_id } => Some(submission_id),
        _ => None,
    }
}

/// The tool calls that are under way after steps of any turns, in any order.
pub open spec fn after_steps(calls: Calls, steps: Seq<(TurnView, Reply)>) -> Calls
    decreases steps.len(),
{
    if steps.len() == 0 {
        calls
    } else {
        resumed(after_steps(calls, steps.drop_last()), steps.last().0, steps.last().1).0
    }
}

/// What a step adds to what a tool call has to show.
pub open spec fn shown_by(id: Seq<char>, turn: TurnView, reply: Reply) -> Seq<Seq<char>> {
    match taken_up(turn, reply) {
        Some(event) => match event.msg {
            EventMsg::ExecCommandOutputDelta { call_id, chunk } => if call_id@ == id {
                seq![utf8_lossy(chunk@)]
            } else {
                Seq::empty()
            },
            _ => Seq::empty(),
        },
        None => Seq::empty(),
    }
}

/// What steps add, in their order, to what a tool call has to show.
pub open spec fn shown(id: Seq<char>, steps: Seq<(TurnView, Reply)>) -> Seq<Seq<char>>
    decreases steps.len(),
{
    if steps.len() == 0 {
        Seq::empty()
    } else {
        shown(id, steps.drop_last()) + shown_by(id, steps.last().0, steps.last().1)
    }
}

/// Whether a step begins or ends a tool call.
pub open spec fn bounds_call(id: Seq<char>, turn: TurnView, reply: Reply) -> bool {
    match taken_up(turn, reply) {
        Some(event) => (begins(event.msg) || ends(event.msg)) && subject(event.msg) == Some(id),
        None => false,
    }
}

/// Each tool call stands under its own id, whatever a turn does.
pub proof fn law_calls_stay_keyed(calls: Calls, turn: TurnView, reply: Reply)
    requires
        keyed_by_id(calls),
    ensures
        keyed_by_id(resumed(calls, turn, reply).0),
{
}

/// Each tool call stands under its own id, after any steps of any turns.
pub proof fn law_calls_are_keyed(steps: Seq<(TurnView, Reply)>)
    ensures
        keyed_by_id(after_steps(Map::empty(), steps)),
    decreases steps.len(),
{
    if steps.len() > 0 {
        law_calls_are_keyed(steps.drop_last());
        law_calls_stay_keyed(
            after_steps(Map::empty(), steps.drop_last()),
            steps.last().0,
            steps.last().1,
        );
    }
}

/// An event changes no tool call but the one it is about.
pub proof fn law_other_calls_are_untouched(calls: Calls, event: Event, id: Seq<char>)
    requires
        subject(event.msg) != Some(id),
    ensures
        reaction(calls, event).0.contains_key(id) == calls.contains_key(id),
        calls.contains_key(id) ==> reaction(calls, event).0[id] == calls[id],
{
}

/// An event that neither begins nor ends a tool call, nor brings output of one, changes none.
pub proof fn law_bystanders_change_nothing(calls: Calls, event: Event)
    requires
        !begins(event.msg),
        !ends(event.msg),
        !(event.msg is ExecCommandOutputDelta),
    ensures
        reaction(calls, event).0 == calls,
{
}

/// An event that begins a tool call puts it under way, in progress and with nothing to show, and
/// tells the client of it as it stands.
pub proof fn law_begin(calls: Calls, event: Event)
    requires
        begins(event.msg),
    ensures
        ({
            let (after, made) = reaction(calls, event);
            let id = subject(event.msg)->0;
            &&& after.contains_key(id)
            &&& after[id].id == id
            &&& after[id].status == ToolCallStatus::InProgress
            &&& after[id].content.len() == 0
            &&& made == tell(SessionUpdateView::ToolCall(after[id]))
        }),
{
}

/// An event about a tool call that is not under way, other than one that begins it or asks for
/// permission, is ignored.
pub proof fn law_unknown_calls_are_ignored(calls: Calls, event: Event)
    requires
        subject(event.msg) is Some,
        !calls.contains_key(subject(event.msg)->0),
        !begins(event.msg),
        !(event.msg is ExecApprovalRequest),
        !(event.msg is ApplyPatchApprovalRequest),
    ensures
        reaction(calls, event) == (calls, ReactionView::Ignore),
{
}

/// A tool call that has ended is no longer under way: the client is told of its end once, whether
/// it succeeded or not, and a second end is ignored.
pub proof fn law_ended_once(calls: Calls, first: Event, second: Event)
    requires
        ends(first.msg),
        ends(second.msg),
        subject(first.msg) == subject(second.msg),
        calls.contains_key(subject(first.msg)->0),
    ensures
        ({
            let (after, made) = reaction(calls, first);
            let id = subject(first.msg)->0;
            &&& after == calls.remove(id)
            &&& made matches ReactionView::Notify {
                update: SessionUpdateView::ToolCallUpdate(update),
                mark: None,
            }
            &&& update.id == id
            &&& update.status == Some(end_status(succeeded(first.msg)))
            &&& update.title is None
            &&& match first.msg {
                EventMsg::ExecCommandEnd { exit_code, .. } => {
                    &&& update.content is None
                    &&& update.status == Some(
                        if exit_code == 0 {
                            ToolCallStatus::Completed
                        } else {
                            ToolCallStatus::Failed
                        },
                    )
                },
                EventMsg::McpToolCallEnd { success, .. } => {
                    &&& update.content is None
                    &&& update.status == Some(
                        if success {
                            ToolCallStatus::Completed
                        } else {
                            ToolCallStatus::Failed
                        },
                    )
                },
                EventMsg::WebSearchEnd { query, .. } => {
                    &&& update.content == Some(calls[id].content.push(query@))
                    &&& update.status == Some(ToolCallStatus::Completed)
                },
                _ => false,
            }
            &&& reaction(after, second) == (after, ReactionView::Ignore)
        }),
{
}

/// What a tool call has to show grows by its output, in order, whatever the turns do in between,
/// and whenever more comes, the client is told all of it.
pub proof fn law_output_accumulates(
    calls: Calls,
    id: Seq<char>,
    steps: Seq<(TurnView, Reply)>,
    next: Event,
)
    requires
        calls.contains_key(id),
        forall|i: int|
            0 <= i < steps.len() ==> !bounds_call(
                id,
                (#[trigger] steps[i]).0,
                steps[i].1,
            ),
    ensures
        after_steps(calls, steps).contains_key(id),
        after_steps(calls, steps)[id].content == calls[id].content + shown(id, steps),
        match next.msg {
            EventMsg::ExecCommandOutputDelta { call_id, chunk } => call_id@ == id ==> reaction(
                after_steps(calls, steps),
                next,
            ).1 == tell(
                SessionUpdateView::ToolCallUpdate(
                    ToolCallUpdateView {
                        id,
                        title: None,
                        status: None,
                        content: Some(
                            (calls[id].content + shown(id, steps)).push(utf8_lossy(chunk@)),
                        ),
                    },
                ),
            ),
            _ => true,
        },
    decreases steps.len(),
{
    if steps.len() > 0 {
        let front = steps.drop_last();
        assert forall|i: int| 0 <= i < front.len() implies !bounds_call(
            id,
            (#[trigger] front[i]).0,
            front[i].1,
        ) by {
            assert(front[i] == steps[i]);
        }
        law_output_accumulates(calls, id, front, next);
        let before = after_steps(calls, front);
        let (turn, reply) = steps[steps.len() - 1];
        assert(!bounds_call(id, turn, reply));
        let after = resumed(before, turn, reply).0;
        assert(after.contains_key(id));
        assert(after[id].content =~= before[id].content + shown_by(id, turn, reply));
        assert(after[id].content =~= calls[id].content + shown(id, steps));
    } else {
        assert(calls[id].content =~= calls[id].content + shown(id, steps));
    }
}

/// An event of another submission changes nothing: the turn goes on waiting.
pub proof fn law_other_submissions_are_ignored(
    calls: Calls,
    turn: TurnView,
    submission_id: Seq<char>,
    event: Event,
)
    requires
        turn.phase == (PhaseView::Event { submission_id }),
        event.id@ != submission_id,
    ensures
        resumed(calls, turn, Reply::Event { event: Ok(event) }) == (
            calls,
            (turn, ActionView::NextEvent),
        ),
{
}

/// A turn keeps its session, and all that it tells and asks the client is about that session.
pub proof fn law_turn_keeps_its_session(calls: Calls, turn: TurnView, reply: Reply)
    ensures
        ({
            let (after, (next, action)) = resumed(calls, turn, reply);
            &&& next.session_id == turn.session_id
            &&& action matches ActionView::Notify { session_id, .. } ==> session_id
                == turn.session_id
            &&& action matches ActionView::RequestPermission { request } ==> request.session_id
                == turn.session_id
        }),
{
}

/// A turn keeps its submission until it ends.
pub proof fn law_turn_keeps_its_submission(calls: Calls, turn: TurnView, reply: Reply)
    requires
        expects(turn.phase, reply),
        submission_of(turn.phase) is Some,
    ensures
        ({
            let (after, (next, action)) = resumed(calls, turn, reply);
            next.phase is Finished || submission_of(next.phase) == submission_of(turn.phase)
        }),
{
}

/// Each step waits for what it asks for, so that what came of an action can always be handed on,
/// and after the answer nothing is waited for.
pub proof fn law_step_waits_for_its_action(calls: Calls, turn: TurnView, reply: Reply, later: Reply)
    requires
        expects(turn.phase, reply),
    ensures
        ({
            let (after, (next, action)) = resumed(calls, turn, reply);
            expects(next.phase, later) <==> match action {
                ActionView::FindConversation { .. } => later is Conversation,
                ActionView::Submit { .. } => later is Submitted,
                ActionView::NextEvent => later is Event,
                ActionView::Notify { .. } => later is Notified,
                ActionView::RequestPermission { .. } => later is Permission,
                ActionView::Finish { .. } => false,
            }
        }),
{
}

/// The first step waits for what it asks for, or for nothing where it answers.
pub proof fn law_first_step_waits_for_its_action(
    session_id: Seq<char>,
    prompt: Seq<ContentBlock>,
    parsed: Option<u128>,
    later: Reply,
)
    ensures
        ({
            let (next, action) = prompted(session_id, prompt, parsed);
            &&& next.session_id == session_id
            &&& action is FindConversation || action is Finish
            &&& expects(next.phase, later) <==> action is FindConversation && later is Conversation
        }),
{
}

/// A prompt is answered with a stop reason just when its own submission is reported done or
/// stopped, and the reason says which.
pub proof fn law_stop_reason(calls: Calls, turn: TurnView, reply: Reply, reason: StopReason)
    requires
        expects(turn.phase, reply),
    ensures
        resumed(calls, turn, reply).1.1 == (ActionView::Finish { answer: Ok(reason) }) <==> (
        taken_up(turn, reply) matches Some(event) && match reason {
            StopReason::EndTurn => event.msg is TaskComplete,
            StopReason::Cancelled => event.msg is TurnAborted,
        }),
{
}

/// What goes wrong ends the turn, and changes no tool call.
pub proof fn law_failure_ends_the_turn(calls: Calls, turn: TurnView, reply: Reply)
    requires
        expects(turn.phase, reply),
        match reply {
            Reply::Conversation { found } => found is Err,
            Reply::Submitted { id } => id is Err,
            Reply::Event { event } => event is Err,
            Reply::Notified { told } => told is Err,
            Reply::Permission { outcome } => outcome is Err,
        },
    ensures
        ({
            let (after, (next, action)) = resumed(calls, turn, reply);
            &&& after == calls
            &&& next.phase is Finished
            &&& action matches ActionView::Finish { answer: Err(_) }
        }),
{
}

/// A client's own error is what the prompt is answered with.
pub proof fn law_client_errors_pass_through(calls: Calls, turn: TurnView, reply: Reply)
    requires
        expects(turn.phase, reply),
    ensures
        match reply {
            Reply::Notified { told: Err(error) } => resumed(calls, turn, reply).1.1 == (
            ActionView::Finish { answer: Err(error@) }),
            Reply::Permission { outcome: Err(error) } => resumed(calls, turn, reply).1.1 == (
            ActionView::Finish { answer: Err(error@) }),
            _ => true,
        },
{
}

/// A prompt that is refused, for its session id or for what it holds, is never handed over.
pub proof fn law_refused_prompts_are_not_submitted(
    calls: Calls,
    session_id: Seq<char>,
    prompt: Seq<ContentBlock>,
    parsed: Option<u128>,
    found: Result<(), String>,
)
    ensures
        prompted(session_id, prompt, parsed).1 is FindConversation <==> parsed is Some,
        prompted(session_id, prompt, parsed).1 is Finish <==> parsed is None,
        parsed is Some ==> (resumed(
            calls,
            prompted(session_id, prompt, parsed).0,
            Reply::Conversation { found },
        ).1.1 is Submit <==> found is Ok && all_text(prompt)),
{
}

/// A prompt, or a request to cancel, goes to a conversation just where its session id is a written
/// form of the conversation's UUID. Any other session id is refused.
pub proof fn law_session_names_its_conversation(
    session_id: Seq<char>,
    conversation: ConversationId,
    prompt: Seq<ContentBlock>,
)
    ensures
        ({
            let asked = prompted(session_id, prompt, uuid_parsed(session_id)).1;
            let cancelled = cancel_asked(uuid_parsed(session_id));
            &&& asked == (ActionView::FindConversation { conversation }) <==> written_as(
                session_id,
                conversation.bits,
            )
            &&& cancelled == (CancelActionView::FindConversation { conversation }) <==> written_as(
                session_id,
                conversation.bits,
            )
            &&& (forall|bits: u128| !written_as(session_id, bits)) ==> {
                &&& asked == (ActionView::Finish { answer: Err(invalid_session_error()) })
                &&& cancelled == (CancelActionView::Finish { answer: Err(invalid_session_error()) })
            }
        }),
{
    lemma_uuid_parsed(session_id, conversation.bits);
}

/// A new session is started just where its configuration could be loaded and its conversation
/// could be started. Otherwise the first failure is the answer. The new session's id leads prompts
/// and requests to cancel to its conversation.
pub proof fn law_new_session(
    loaded: Result<(), String>,
    servers: Seq<McpServer>,
    started: Result<ConversationId, String>,
    prompt: Seq<ContentBlock>,
)
    ensures
        ({
            let answer = session_from(loaded, servers, started);
            &&& answer is Ok <==> loaded is Ok && started is Ok
            &&& loaded is Err ==> answer == Err::<Seq<char>, RpcErrorView>(
                internal_err_of(loaded->Err_0@),
            )
            &&& loaded is Ok && started is Err ==> answer == Err::<Seq<char>, RpcErrorView>(
                internal_err_of(started->Err_0@),
            )
            &&& answer matches Ok(session_id) ==> {
                &&& prompted(session_id, prompt, uuid_parsed(session_id)).1 == (
                ActionView::FindConversation { conversation: started->Ok_0 })
                &&& cancel_asked(uuid_parsed(session_id)) == (CancelActionView::FindConversation {
                    conversation: started->Ok_0,
                })
            }
        }),
{
    if started is Ok {
        lemma_uuid_reads_back(started->Ok_0.bits);
    }
}

/// A request to cancel fails just where the session id is no UUID, or the conversation was found
/// and could not be interrupted. The conversation is told to stop, and nothing else, just where the
/// session id is a UUID and the conversation was found.
pub proof fn law_cancel(session_id: Seq<char>, found: bool, submitted: Result<(), String>)
    ensures
        ({
            let parsed = uuid_parsed(session_id);
            let (handed_over, answer) = cancel_from(cancel_asked(parsed), found, submitted);
            &&& answer is Err <==> parsed is None || (found && submitted is Err)
            &&& parsed is None ==> answer == Err::<(), RpcErrorView>(invalid_session_error())
            &&& parsed is Some && found && submitted is Err ==> answer == Err::<(), RpcErrorView>(
                internal_err_of(submitted->Err_0@),
            )
            &&& parsed is Some && found ==> handed_over == seq![OpView::Interrupt]
            &&& !(parsed is Some && found) ==> handed_over.len() == 0
        }),
{
    reveal_with_fuel(cancel_from, 2);
}

/// Two commands that can be quoted are never shown alike, where their words are shown: a shell
/// tells them apart.
pub proof fn law_commands_are_told_apart(a: Seq<Seq<char>>, b: Seq<Seq<char>>)
    ensures
        quoted_faithfully(a) && quoted_faithfully(b) && !has_nul(a) && !has_nul(b) && a != b
            ==> escaped(a, shell_joined(a)) != escaped(b, shell_joined(b)),
{
}

/// No two conversations have sessions of the same id.
pub proof fn law_sessions_are_distinct(a: ConversationId, b: ConversationId)
    requires
        a != b,
    ensures
        uuid_text(a.bits) != uuid_text(b.bits),
{
    if uuid_text(a.bits) == uuid_text(b.bits) {
        lemma_uuid_text_injective(a.bits, b.bits);
    }
}

/// A request for permission is followed by one decision on what asked for it, and then by the
/// turn's next event. It is approved just when the client chose to allow it.
pub proof fn law_permission(
    calls: Calls,
    turn: TurnView,
    event: Event,
    outcome: PermissionOutcome,
    id: Result<String, String>,
)
    requires
        turn.phase == (PhaseView::Event { submission_id: event.id@ }),
        event.msg is ExecApprovalRequest || event.msg is ApplyPatchApprovalRequest,
        id is Ok,
    ensures
        ({
            let (calls1, (asking, question)) = resumed(
                calls,
                turn,
                Reply::Event { event: Ok(event) },
            );
            let (calls2, (deciding, answer)) = resumed(
                calls1,
                asking,
                Reply::Permission { outcome: Ok(outcome) },
            );
            let (calls3, (going_on, last)) = resumed(calls2, deciding, Reply::Submitted { id });
            let decision = if outcome matches PermissionOutcome::Selected { option_id }
                && option_id@ == "allow_once"@ {
                ReviewDecision::Approved
            } else {
                ReviewDecision::Denied
            };
            &&& question is RequestPermission
            &&& question->request.tool_call.id == subject(event.msg)->0
            &&& question->request.options == offered_options()
            &&& answer == (ActionView::Submit {
                op: if event.msg is ExecApprovalRequest {
                    OpView::ExecApproval { id: event.id@, decision }
                } else {
                    OpView::PatchApproval { id: subject(event.msg)->0, decision }
                },
            })
            &&& (calls3, (going_on, last)) == (calls, (turn, ActionView::NextEvent))
        }),
{
}

/// Of the answers on offer the one to allow approves, and the one to reject does not.
pub proof fn law_offered_options(option_id: String)
    ensures
        option_id@ == offered_options()[0].id ==> decided(PermissionOutcome::Selected { option_id })
            == ReviewDecision::Approved,
        option_id@ == offered_options()[1].id ==> decided(PermissionOutcome::Selected { option_id })
            == ReviewDecision::Denied,
{
    reveal_strlit("allow_once");
    reveal_strlit("reject_once");
    assert("allow_once"@.len() != "reject_once"@.len());
}

/// A patch that has ended stays known, under the status that the client was told. Where the client
/// could not be told, it stays as it was.
pub proof fn law_patch_is_kept(
    calls: Calls,
    turn: TurnView,
    event: Event,
    told: Result<(), RpcError>,
)
    requires
        turn.phase == (PhaseView::Event { submission_id: event.id@ }),
        event.msg is PatchApplyEnd,
        calls.contains_key(subject(event.msg)->0),
    ensures
        ({
            let id = subject(event.msg)->0;
            let status = end_status(event.msg->PatchApplyEnd_success);
            let (calls1, (telling, news)) = resumed(
                calls,
                turn,
                Reply::Event { event: Ok(event) },
            );
            let calls2 = resumed(calls1, telling, Reply::Notified { told }).0;
            &&& calls1 == calls
            &&& news == (ActionView::Notify {
                session_id: turn.session_id,
                update: SessionUpdateView::ToolCallUpdate(status_update(id, status)),
            })
            &&& told is Ok ==> calls2 == calls.insert(id, ToolCallView { status, ..calls[id] })
            &&& told is Err ==> calls2 == calls
        }),
{
}

/// The servers that a client brings come on top of those that were configured: those of other
/// names stay.
pub proof fn law_servers_are_added(
    configs: Map<Seq<char>, McpServerConfigView>,
    servers: Seq<McpServer>,
)
    ensures
        with_servers(configs, servers) == configs.union_prefer_right(
            with_servers(Map::empty(), servers),
        ),
    decreases servers.len(),
{
    if servers.len() > 0 {
        law_servers_are_added(configs, servers.drop_last());
    }
    assert(with_servers(configs, servers) =~= configs.union_prefer_right(
        with_servers(Map::empty(), servers),
    ));
}

/// A server is configured just where it was configured before or the client brings one of its
/// name. Where the client brings none of its name, it stays as it was.
pub proof fn law_no_other_servers(
    configs: Map<Seq<char>, McpServerConfigView>,
    servers: Seq<McpServer>,
    name: Seq<char>,
)
    ensures
        ({
            let brought = exists|i: int|
                0 <= i < servers.len() && (#[trigger] servers[i]).name@ == name;
            let after = with_servers(configs, servers);
            &&& after.contains_key(name) <==> configs.contains_key(name) || brought
            &&& !brought && configs.contains_key(name) ==> after[name] == configs[name]
        }),
    decreases servers.len(),
{
    if servers.len() > 0 {
        let front = servers.drop_last();
        law_no_other_servers(configs, front, name);
        if exists|i: int| 0 <= i < front.len() && (#[trigger] front[i]).name@ == name {
            let i = choose|i: int| 0 <= i < front.len() && (#[trigger] front[i]).name@ == name;
            assert(servers[i].name@ == name);
        }
        assert(servers[servers.len() - 1] == servers.last());
        if exists|i: int| 0 <= i < servers.len() && (#[trigger] servers[i]).name@ == name {
            let i = choose|i: int| 0 <= i < servers.len() && (#[trigger] servers[i]).name@ == name;
            if i < front.len() {
                assert(front[i].name@ == name);
            }
        }
    }
}

/// Of the variables of one name the last is the one that a server gets.
pub proof fn law_last_variable_wins(vars: Seq<EnvVariable>, at: int)
    requires
        0 <= at < vars.len(),
        forall|i: int| at < i < vars.len() ==> (#[trigger] vars[i]).name@ != vars[at].name@,
    ensures
        environment(vars).contains_key(vars[at].name@),
        environment(vars)[vars[at].name@] == vars[at].value@,
    decreases vars.len(),
{
    if at < vars.len() - 1 {
        law_last_variable_wins(vars.drop_last(), at);
        assert(vars[vars.len() - 1].name@ != vars[at].name@);
    }
}

/// A server gets no variable that the client did not bring.
pub proof fn law_no_other_variables(vars: Seq<EnvVariable>, name: Seq<char>)
    requires
        environment(vars).contains_key(name),
    ensures
        exists|i: int| 0 <= i < vars.len() && (#[trigger] vars[i]).name@ == name,
    decreases vars.len(),
{
    if vars.len() > 0 {
        if name == vars.last().name@ {
            assert(vars[vars.len() - 1].name@ == name);
        } else {
            law_no_other_variables(vars.drop_last(), name);
            let i = choose|i: int|
                0 <= i < vars.len() - 1 && (#[trigger] vars.drop_last()[i]).name@ == name;
            assert(vars[i].name@ == name);
        }
    }
}

/// Of the servers of one name the last is the one that is configured.
pub proof fn law_last_server_wins(
    configs: Map<Seq<char>, McpServerConfigView>,
    servers: Seq<McpServer>,
    at: int,
)
    requires
        0 <= at < servers.len(),
        forall|i: int| at < i < servers.len() ==> (#[trigger] servers[i]).name@ != servers[at].name@,
    ensures
        with_servers(configs, servers).contains_key(servers[at].name@),
        with_servers(configs, servers)[servers[at].name@] == configured(servers[at]),
        ({
            let config = with_servers(configs, servers)[servers[at].name@];
            let server = servers[at];
            &&& config.command == server.command@
            &&& config.args.len() == server.args@.len()
            &&& forall|i: int|
                0 <= i < server.args@.len() ==> #[trigger] config.args[i] == server.args@[i]@
            &&& config.env == Some(environment(server.env@))
            &&& config.startup_timeout_ms is None
        }),
    decreases servers.len(),
{
    if at < servers.len() - 1 {
        law_last_server_wins(configs, servers.drop_last(), at);
        assert(servers[servers.len() - 1].name@ != servers[at].name@);
    }
}

} // verus!
