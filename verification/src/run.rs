//! A prompt turn as a whole, among other turns.
use vstd::prelude::*;

use crate::agent::{Calls, StopReason};
use crate::event::{Event, EventMsg, OpView};
use crate::laws::submission_of;
use crate::turn::{
    all_text, expects, prompt_texts, prompted, resumed, ActionView, ContentBlock, PhaseView, Reply,
    TurnView,
};
use crate::update::SessionUpdateView;

verus! {

/// What happens while a turn is worked on.
pub enum Happening {
    /// A reply comes. The turn takes it up if it waits for one of its kind.
    Reply(Reply),
    /// Another turn takes a step.
    Elsewhere { turn: TurnView, reply: Reply },
}

/// How far a turn has got.
#[verifier::ext_equal]
pub struct Run {
    /// The tool calls that are under way.
    pub calls: Calls,
    pub turn: TurnView,
    /// The actions of the turn so far, other than to wait for the next event.
    pub deeds: Seq<ActionView>,
}

/// How far a turn has got after one more thing has happened.
pub open spec fn happened(run: Run, happening: Happening) -> Run {
    match happening {
        Happening::Reply(reply) => if expects(run.turn.phase, reply) {
            let (calls, (turn, action)) = resumed(run.calls, run.turn, reply);
            let deeds = if action is NextEvent {
                run.deeds
            } else {
                run.deeds.push(action)
            };
            Run { calls, turn, deeds }
        } else {
            run
        },
        Happening::Elsewhere { turn, reply } => Run {
            calls: resumed(run.calls, turn, reply).0,
            ..run
        },
    }
}

/// How far a turn has got after all that has happened.
pub open spec fn run(calls: Calls, turn: TurnView, happenings: Seq<Happening>) -> Run
    decreases happenings.len(),
{
    if happenings.len() == 0 {
        Run { calls, turn, deeds: Seq::empty() }
    } else {
        happened(run(calls, turn, happenings.drop_last()), happenings.last())
    }
}

/// Whether each reply comes when the turn waits for one of its kind.
pub open spec fn in_turn(calls: Calls, turn: TurnView, happenings: Seq<Happening>) -> bool
    decreases happenings.len(),
{
    happenings.len() > 0 ==> {
        &&& in_turn(calls, turn, happenings.drop_last())
        &&& match happenings.last() {
            Happening::Reply(reply) => expects(
                run(calls, turn, happenings.drop_last()).turn.phase,
                reply,
            ),
            Happening::Elsewhere { .. } => true,
        }
    }
}

/// The event that comes, if one does.
pub open spec fn event_of(happening: Happening) -> Option<Event> {
    match happening {
        Happening::Reply(Reply::Event { event: Ok(event) }) => Some(event),
        _ => None,
    }
}

/// Whether an event comes that is none of a turn's concern: one of another submission, or one that
/// tells what has changed on disk.
pub open spec fn is_bystander(submission_id: Seq<char>, happening: Happening) -> bool {
    match event_of(happening) {
        Some(event) => event.id@ != submission_id || event.msg is TurnDiff,
        None => false,
    }
}

/// Whether an action tells the client a piece of the agent's message or reasoning.
pub open spec fn is_chunk(action: ActionView) -> bool {
    match action {
        ActionView::Notify { update, .. } => update is AgentMessageChunk
            || update is AgentThoughtChunk,
        _ => false,
    }
}

/// How the client is told the piece of the agent's message or reasoning that comes for a
/// submission, if one does.
pub open spec fn chunk_of(
    session_id: Seq<char>,
    submission_id: Seq<char>,
    happening: Happening,
) -> Seq<ActionView> {
    match event_of(happening) {
        Some(event) if event.id@ == submission_id => match event.msg {
            EventMsg::AgentMessageDelta { delta } => seq![
                ActionView::Notify {
                    session_id,
                    update: SessionUpdateView::AgentMessageChunk { text: delta@ },
                },
            ],
            EventMsg::AgentReasoningDelta { delta } => seq![
                ActionView::Notify {
                    session_id,
                    update: SessionUpdateView::AgentThoughtChunk { text: delta@ },
                },
            ],
            _ => Seq::empty(),
        },
        _ => Seq::empty(),
    }
}

/// How the client is told the pieces of the agent's message and reasoning that come for a
/// submission, in their order.
pub open spec fn own_chunks(
    session_id: Seq<char>,
    submission_id: Seq<char>,
    happenings: Seq<Happening>,
) -> Seq<ActionView>
    decreases happenings.len(),
{
    if happenings.len() == 0 {
        Seq::empty()
    } else {
        own_chunks(session_id, submission_id, happenings.drop_last()) + chunk_of(
            session_id,
            submission_id,
            happenings.last(),
        )
    }
}

/// How a submission ends, if its end comes.
pub open spec fn own_end(submission_id: Seq<char>, happening: Happening) -> Option<StopReason> {
    match event_of(happening) {
        Some(event) if event.id@ == submission_id => match event.msg {
            EventMsg::TaskComplete => Some(StopReason::EndTurn),
            EventMsg::TurnAborted => Some(StopReason::Cancelled),
            _ => None,
        },
        _ => None,
    }
}

/// A turn keeps its session, and its submission until it ends.
proof fn lemma_run_keeps(calls: Calls, turn: TurnView, happenings: Seq<Happening>)
    ensures
        ({
            let now = run(calls, turn, happenings).turn;
            &&& now.session_id == turn.session_id
            &&& submission_of(turn.phase) is Some ==> now.phase is Finished || submission_of(
                now.phase,
            ) == submission_of(turn.phase)
        }),
    decreases happenings.len(),
{
    if happenings.len() > 0 {
        lemma_run_keeps(calls, turn, happenings.drop_last());
    }
}

/// What comes after goes on from where the turn had got to.
pub proof fn law_runs_go_on(
    calls: Calls,
    turn: TurnView,
    before: Seq<Happening>,
    after: Seq<Happening>,
)
    ensures
        ({
            let first = run(calls, turn, before);
            let second = run(first.calls, first.turn, after);
            run(calls, turn, before + after) == Run { deeds: first.deeds + second.deeds, ..second }
        }),
    decreases after.len(),
{
    let first = run(calls, turn, before);
    if after.len() == 0 {
        assert(before + after =~= before);
        assert(first.deeds + Seq::empty() =~= first.deeds);
    } else {
        let front = after.drop_last();
        law_runs_go_on(calls, turn, before, front);
        assert((before + after).drop_last() =~= before + front);
        let second = run(first.calls, first.turn, front);
        let whole = run(calls, turn, before + front);
        assert(happened(whole, after.last()).deeds =~= first.deeds + happened(
            second,
            after.last(),
        ).deeds);
    }
}

/// Once its conversation has been found and has taken the prompt, a turn has handed over the
/// prompt's texts, and nothing else, and waits for the events of its submission.
pub proof fn law_prompt_is_handed_over(
    calls: Calls,
    session_id: Seq<char>,
    prompt: Seq<ContentBlock>,
    bits: u128,
    submission_id: String,
)
    requires
        all_text(prompt),
    ensures
        run(
            calls,
            prompted(session_id, prompt, Some(bits)).0,
            seq![
                Happening::Reply(Reply::Conversation { found: Ok(()) }),
                Happening::Reply(Reply::Submitted { id: Ok(submission_id) }),
            ],
        ) == (Run {
            calls,
            turn: TurnView {
                session_id,
                phase: PhaseView::Event { submission_id: submission_id@ },
            },
            deeds: seq![
                ActionView::Submit { op: OpView::UserInput { items: prompt_texts(prompt) } },
            ],
        }),
        ({
            let deeds = run(
                calls,
                prompted(session_id, prompt, Some(bits)).0,
                seq![
                    Happening::Reply(Reply::Conversation { found: Ok(()) }),
                    Happening::Reply(Reply::Submitted { id: Ok(submission_id) }),
                ],
            ).deeds;
            &&& deeds.len() == 1
            &&& deeds[0] matches ActionView::Submit { op: OpView::UserInput { items } }
            &&& items.len() == prompt.len()
            &&& forall|i: int| 0 <= i < prompt.len() ==> #[trigger] items[i] == prompt[i]->text@
        }),
{
    let turn = prompted(session_id, prompt, Some(bits)).0;
    let found = Happening::Reply(Reply::Conversation { found: Ok(()) });
    let submitted = Happening::Reply(Reply::Submitted { id: Ok(submission_id) });
    assert(seq![found, submitted].drop_last() =~= seq![found]);
    assert(seq![found].drop_last() =~= Seq::empty());
    assert(run(calls, turn, Seq::empty()).turn == turn);
    assert(run(calls, turn, seq![found]) == happened(run(calls, turn, Seq::empty()), found));
}

/// Leaving out the events of other submissions, and those that tell what has changed on disk,
/// changes nothing that a turn does, answers or keeps.
pub proof fn law_bystanders_can_be_left_out(
    calls: Calls,
    turn: TurnView,
    submission_id: Seq<char>,
    happenings: Seq<Happening>,
)
    requires
        submission_of(turn.phase) == Some(submission_id),
    ensures
        run(
            calls,
            turn,
            happenings.filter(|happening: Happening| !is_bystander(submission_id, happening)),
        ) == run(calls, turn, happenings),
    decreases happenings.len(),
{
    reveal(Seq::filter);
    let concerning = |happening: Happening| !is_bystander(submission_id, happening);
    if happenings.len() > 0 {
        let front = happenings.drop_last();
        let last = happenings.last();
        law_bystanders_can_be_left_out(calls, turn, submission_id, front);
        lemma_run_keeps(calls, turn, front);
        if concerning(last) {
            let left = front.filter(concerning);
            assert(left.push(last).drop_last() =~= left);
        } else {
            assert(happened(run(calls, turn, front), last) == run(calls, turn, front));
        }
    }
}

/// The client is told exactly the pieces of the agent's message and reasoning that come for the
/// turn's submission, one by one and in their order.
pub proof fn law_chunks_are_passed_on(
    calls: Calls,
    turn: TurnView,
    submission_id: Seq<char>,
    happenings: Seq<Happening>,
)
    requires
        submission_of(turn.phase) == Some(submission_id),
        in_turn(calls, turn, happenings),
    ensures
        run(calls, turn, happenings).deeds.filter(|action: ActionView| is_chunk(action))
            == own_chunks(turn.session_id, submission_id, happenings),
    decreases happenings.len(),
{
    reveal(Seq::filter);
    if happenings.len() > 0 {
        let front = happenings.drop_last();
        law_chunks_are_passed_on(calls, turn, submission_id, front);
        lemma_run_keeps(calls, turn, front);
        let before = run(calls, turn, front);
        let after = run(calls, turn, happenings);
        let told = before.deeds.filter(|action: ActionView| is_chunk(action));
        if after.deeds.len() > before.deeds.len() {
            assert(after.deeds.drop_last() =~= before.deeds);
        }
        assert(told + Seq::empty() =~= told);
        assert(after.deeds.filter(|action: ActionView| is_chunk(action)) =~= told + chunk_of(
            turn.session_id,
            submission_id,
            happenings.last(),
        ));
    }
}

/// Once it has answered, a turn reads nothing more.
pub proof fn law_answered_turns_read_nothing(
    calls: Calls,
    turn: TurnView,
    before: Seq<Happening>,
    after: Seq<Happening>,
)
    requires
        run(calls, turn, before).turn.phase is Finished,
    ensures
        run(calls, turn, before + after).turn == run(calls, turn, before).turn,
        run(calls, turn, before + after).deeds == run(calls, turn, before).deeds,
    decreases after.len(),
{
    if after.len() == 0 {
        assert(before + after =~= before);
    } else {
        law_answered_turns_read_nothing(calls, turn, before, after.drop_last());
        assert((before + after).drop_last() =~= before + after.drop_last());
    }
}

/// The first end of the turn's submission gives the answer, and nothing after it is read.
pub proof fn law_first_end_answers(
    calls: Calls,
    turn: TurnView,
    submission_id: Seq<char>,
    before: Seq<Happening>,
    end: Happening,
    after: Seq<Happening>,
)
    requires
        submission_of(turn.phase) == Some(submission_id),
        own_end(submission_id, end) is Some,
        in_turn(calls, turn, before.push(end)),
    ensures
        forall|i: int| 0 <= i < before.len() ==> own_end(submission_id, #[trigger] before[i]) is None,
        run(calls, turn, before.push(end) + after).turn.phase is Finished,
        run(calls, turn, before.push(end) + after).deeds == run(calls, turn, before).deeds.push(
            ActionView::Finish { answer: Ok(own_end(submission_id, end)->0) },
        ),
{
    assert(before.push(end).drop_last() =~= before);
    lemma_run_keeps(calls, turn, before);
    law_answered_turns_read_nothing(calls, turn, before.push(end), after);
    assert forall|i: int| 0 <= i < before.len() implies own_end(
        submission_id,
        #[trigger] before[i],
    ) is None by {
        let until = before.take(i + 1);
        lemma_in_turn_so_far(calls, turn, before, i + 1);
        if own_end(submission_id, before[i]) is Some {
            assert(until.last() == before[i]);
            lemma_run_keeps(calls, turn, until.drop_last());
            law_answered_turns_read_nothing(calls, turn, until, before.skip(i + 1));
            assert(until + before.skip(i + 1) =~= before);
        }
    }
}

/// Replies that come in turn have done so all along.
proof fn lemma_in_turn_so_far(
    calls: Calls,
    turn: TurnView,
    happenings: Seq<Happening>,
    count: int,
)
    requires
        in_turn(calls, turn, happenings),
        0 <= count <= happenings.len(),
    ensures
        in_turn(calls, turn, happenings.take(count)),
    decreases happenings.len(),
{
    if count == happenings.len() {
        assert(happenings.take(count) =~= happenings);
    } else {
        lemma_in_turn_so_far(calls, turn, happenings.drop_last(), count);
        assert(happenings.drop_last().take(count) =~= happenings.take(count));
    }
}

/// A turn answers with a stop reason only where that end of its submission has come.
pub proof fn law_answer_needs_an_end(
    calls: Calls,
    turn: TurnView,
    submission_id: Seq<char>,
    happenings: Seq<Happening>,
    reason: StopReason,
)
    requires
        submission_of(turn.phase) == Some(submission_id),
        run(calls, turn, happenings).deeds.contains(ActionView::Finish { answer: Ok(reason) }),
    ensures
        exists|i: int|
            0 <= i < happenings.len() && own_end(submission_id, #[trigger] happenings[i]) == Some(
                reason,
            ),
    decreases happenings.len(),
{
    let answer = ActionView::Finish { answer: Ok(reason) };
    if happenings.len() > 0 {
        let front = happenings.drop_last();
        let before = run(calls, turn, front);
        let after = run(calls, turn, happenings);
        lemma_run_keeps(calls, turn, front);
        if before.deeds.contains(answer) {
            law_answer_needs_an_end(calls, turn, submission_id, front, reason);
            let i = choose|i: int|
                0 <= i < front.len() && own_end(submission_id, #[trigger] front[i]) == Some(reason);
            assert(happenings[i] == front[i]);
        } else {
            let at = choose|at: int| 0 <= at < after.deeds.len() && after.deeds[at] == answer;
            assert(at == before.deeds.len());
            assert(own_end(submission_id, happenings[happenings.len() - 1]) == Some(reason));
        }
    }
}

} // verus!
