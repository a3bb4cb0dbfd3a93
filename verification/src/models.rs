//! What the models say: all that the values hold, and nothing else.
use vstd::arithmetic::div_mod::lemma_div_denominator;
use vstd::arithmetic::power::{lemma_pow_positive, pow};
use vstd::prelude::*;

use crate::agent::{keyed_by_id, opt_mark, Calls, Reaction, ReactionView, StatusMark};
use crate::conversation::{
    hex_digits, lemma_uuid_parsed, lemma_uuid_text, lowered, uuid_parsed, uuid_text,
};
use crate::error::{ErrorData, ErrorDataView, RpcError};
use crate::event::{Op, OpView};
use crate::mcp::{by_name, config_map, distinct_names, lemma_by_name, text_map, McpServerConfig};
use crate::permission::{Approval, ApprovalView, PermissionOption, PermissionRequest};
use crate::request::{CancelAction, CancelActionView};
use crate::text::{opt_text, spaced, texts};
use crate::tool_call::{ToolCall, ToolCallLocation, ToolCallUpdate};
use crate::turn::{Action, ActionView, Phase, PhaseView};
use crate::update::{PlanEntry, SessionUpdate, SessionUpdateView};

verus! {

/// The texts of a list are the texts of its strings, one for one, and the text of an optional string
/// is the string's.
pub proof fn law_texts(strings: Seq<String>, string: String)
    ensures
        texts(strings).len() == strings.len(),
        forall|i: int| 0 <= i < strings.len() ==> #[trigger] texts(strings)[i] == strings[i]@,
        opt_text(Some(string)) == Some(string@),
        opt_text(None) is None,
{
}

/// Words are spaced by putting one space before each word but the first.
pub proof fn law_spaced(words: Seq<Seq<char>>, word: Seq<char>)
    ensures
        spaced(Seq::empty()).len() == 0,
        words.len() == 0 ==> spaced(words.push(word)) == word,
        words.len() > 0 ==> spaced(words.push(word)) == spaced(words).push(' ') + word,
{
    assert(words.push(word).drop_last() =~= words);
    if words.len() > 0 {
        assert(spaced(words) + seq![' '] + word =~= spaced(words).push(' ') + word);
    }
}

/// Nothing of a tool call, or of what changes of one, is left out of its model.
pub proof fn law_tool_call_model(
    call: ToolCall,
    update: ToolCallUpdate,
    location: ToolCallLocation,
)
    ensures
        location@.path == location.path@,
        location@.line == location.line,
        call@.id == call.id@,
        call@.title == call.title@,
        call@.kind == call.kind,
        call@.status == call.status,
        call@.content.len() == call.content@.len(),
        forall|i: int|
            0 <= i < call.content@.len() ==> #[trigger] call@.content[i] == call.content@[i]@,
        call@.locations.len() == call.locations@.len(),
        forall|i: int|
            0 <= i < call.locations@.len() ==> #[trigger] call@.locations[i] == call.locations@[i]@,
        call@.raw_input == call.raw_input,
        call@.raw_output == call.raw_output,
        update@.id == update.id@,
        update.title is None <==> update@.title is None,
        update.title matches Some(title) ==> update@.title == Some(title@),
        update@.status == update.status,
        update.content is None <==> update@.content is None,
        update.content matches Some(content) ==> {
            &&& update@.content->0.len() == content@.len()
            &&& forall|i: int|
                0 <= i < content@.len() ==> #[trigger] update@.content->0[i] == content@[i]@
        },
{
}

/// Nothing of what the client is told is left out of its model.
pub proof fn law_update_model(update: SessionUpdate, entry: PlanEntry)
    ensures
        entry@.content == entry.content@,
        entry@.priority == entry.priority,
        entry@.status == entry.status,
        match update {
            SessionUpdate::AgentMessageChunk { text } => update@ == (
            SessionUpdateView::AgentMessageChunk { text: text@ }),
            SessionUpdate::AgentThoughtChunk { text } => update@ == (
            SessionUpdateView::AgentThoughtChunk { text: text@ }),
            SessionUpdate::ToolCall(call) => update@ == SessionUpdateView::ToolCall(call@),
            SessionUpdate::ToolCallUpdate(change) => update@ == SessionUpdateView::ToolCallUpdate(
                change@,
            ),
            SessionUpdate::Plan { entries } => {
                &&& update@ matches SessionUpdateView::Plan { entries: modelled }
                &&& modelled.len() == entries@.len()
                &&& forall|i: int|
                    0 <= i < entries@.len() ==> #[trigger] modelled[i] == entries@[i]@
            },
        },
{
}

/// Nothing of a reaction is left out of its model.
pub proof fn law_reaction_model(made: Reaction, mark: StatusMark)
    ensures
        mark@.call_id == mark.call_id@,
        mark@.status == mark.status,
        opt_mark(Some(mark)) == Some(mark@),
        opt_mark(None) is None,
        match made {
            Reaction::Ignore => made@ is Ignore,
            Reaction::Notify { update, mark: None } => made@ == (ReactionView::Notify {
                update: update@,
                mark: None,
            }),
            Reaction::Notify { update, mark: Some(mark) } => made@ == (ReactionView::Notify {
                update: update@,
                mark: Some(mark@),
            }),
            Reaction::Ask { tool_call, approval } => made@ == (ReactionView::Ask {
                tool_call: tool_call@,
                approval: approval@,
            }),
            Reaction::Stop { reason } => made@ == (ReactionView::Stop { reason }),
        },
{
}

/// Nothing of an error is left out of its model.
pub proof fn law_error_model(error: RpcError)
    ensures
        error@.code == error.code as int,
        error@.message == error.message@,
        match error.data {
            Some(ErrorData::Text(text)) => error@.data == Some(ErrorDataView::Text(text@)),
            Some(ErrorData::Json(json)) => error@.data == Some(ErrorDataView::Json(json)),
            None => error@.data is None,
        },
{
}

/// Nothing of what a conversation is told is left out of its model.
pub proof fn law_op_model(op: Op)
    ensures
        match op {
            Op::UserInput { items } => {
                &&& op@ matches OpView::UserInput { items: modelled }
                &&& modelled.len() == items@.len()
                &&& forall|i: int| 0 <= i < items@.len() ==> #[trigger] modelled[i] == items@[i]@
            },
            Op::ExecApproval { id, decision } => op@ == (OpView::ExecApproval { id: id@, decision }),
            Op::PatchApproval { id, decision } => op@ == (OpView::PatchApproval {
                id: id@,
                decision,
            }),
            Op::Interrupt => op@ is Interrupt,
        },
{
}

/// Nothing of a request for permission is left out of its model.
pub proof fn law_permission_model(
    request: PermissionRequest,
    option: PermissionOption,
    approval: Approval,
)
    ensures
        option@.id == option.id@,
        option@.name == option.name@,
        option@.kind == option.kind,
        request@.session_id == request.session_id@,
        request@.tool_call == request.tool_call@,
        request@.options.len() == request.options@.len(),
        forall|i: int|
            0 <= i < request.options@.len() ==> #[trigger] request@.options[i]
                == request.options@[i]@,
        match approval {
            Approval::Exec { id } => approval@ == (ApprovalView::Exec { id: id@ }),
            Approval::Patch { id } => approval@ == (ApprovalView::Patch { id: id@ }),
        },
{
}

/// Nothing of an action is left out of its model.
pub proof fn law_action_model(action: Action, cancel: CancelAction)
    ensures
        match action {
            Action::FindConversation { conversation } => action@ == (ActionView::FindConversation {
                conversation,
            }),
            Action::Submit { op } => action@ == (ActionView::Submit { op: op@ }),
            Action::NextEvent => action@ is NextEvent,
            Action::Notify { session_id, update } => action@ == (ActionView::Notify {
                session_id: session_id@,
                update: update@,
            }),
            Action::RequestPermission { request } => action@ == (ActionView::RequestPermission {
                request: request@,
            }),
            Action::Finish { answer: Ok(reason) } => action@ == (ActionView::Finish {
                answer: Ok(reason),
            }),
            Action::Finish { answer: Err(error) } => action@ == (ActionView::Finish {
                answer: Err(error@),
            }),
        },
        match cancel {
            CancelAction::FindConversation { conversation } => cancel@ == (
            CancelActionView::FindConversation { conversation }),
            CancelAction::Submit { op } => cancel@ == (CancelActionView::Submit { op: op@ }),
            CancelAction::Finish { answer: Ok(_) } => cancel@ == (CancelActionView::Finish {
                answer: Ok(()),
            }),
            CancelAction::Finish { answer: Err(error) } => cancel@ == (CancelActionView::Finish {
                answer: Err(error@),
            }),
        },
{
}

/// Nothing of what a turn waits for is left out of its model.
pub proof fn law_phase_model(phase: Phase)
    ensures
        match phase {
            Phase::Conversation { prompt } => phase@ == (PhaseView::Conversation {
                prompt: prompt@,
            }),
            Phase::Submission => phase@ is Submission,
            Phase::Event { submission_id } => phase@ == (PhaseView::Event {
                submission_id: submission_id@,
            }),
            Phase::Notification { submission_id, mark: None } => phase@ == (
            PhaseView::Notification { submission_id: submission_id@, mark: None }),
            Phase::Notification { submission_id, mark: Some(mark) } => phase@ == (
            PhaseView::Notification { submission_id: submission_id@, mark: Some(mark@) }),
            Phase::Permission { submission_id, approval } => phase@ == (PhaseView::Permission {
                submission_id: submission_id@,
                approval: approval@,
            }),
            Phase::Decision { submission_id } => phase@ == (PhaseView::Decision {
                submission_id: submission_id@,
            }),
            Phase::Finished => phase@ is Finished,
        },
{
}

/// Nothing of a server's configuration is left out of its model. In an environment without two
/// variables of one name each variable has its own value, and there is no other.
pub proof fn law_config_model(config: McpServerConfig)
    requires
        config.wf(),
    ensures
        config@.command == config.command@,
        config@.args.len() == config.args@.len(),
        forall|i: int|
            0 <= i < config.args@.len() ==> #[trigger] config@.args[i] == config.args@[i]@,
        config@.startup_timeout_ms == config.startup_timeout_ms,
        config.env is None <==> config@.env is None,
        config.env matches Some(env) ==> {
            &&& forall|i: int|
                0 <= i < env@.len() ==> config@.env->0.contains_key((#[trigger] env@[i]).0@)
                    && config@.env->0[env@[i].0@] == env@[i].1@
            &&& forall|name: Seq<char>| #[trigger]
                config@.env->0.contains_key(name) ==> exists|i: int|
                    0 <= i < env@.len() && (#[trigger] env@[i]).0@ == name
        },
{
    if let Some(env) = config.env {
        lemma_by_name(env@);
        assert forall|name: Seq<char>| #[trigger] config@.env->0.contains_key(name) implies exists|
            i: int,
        | 0 <= i < env@.len() && (#[trigger] env@[i]).0@ == name by {
            assert(by_name(env@).contains_key(name));
        }
    }
}

/// The models of the values in a map stand under the same names.
pub proof fn law_maps_of_models(
    strings: Map<Seq<char>, String>,
    configs: Map<Seq<char>, McpServerConfig>,
)
    ensures
        text_map(strings).dom() == strings.dom(),
        forall|name: Seq<char>|
            strings.contains_key(name) ==> #[trigger] text_map(strings)[name] == strings[name]@,
        config_map(configs).dom() == configs.dom(),
        forall|name: Seq<char>|
            configs.contains_key(name) ==> #[trigger] config_map(configs)[name] == configs[name]@,
{
    assert(text_map(strings).dom() =~= strings.dom());
    assert(config_map(configs).dom() =~= configs.dom());
}

/// Names are distinct just where no two places have the same one, and calls are kept by their ids
/// just where each stands under its own.
pub proof fn law_invariants<V>(entries: Seq<(String, V)>, calls: Calls)
    ensures
        distinct_names(entries) <==> forall|i: int, j: int|
            0 <= i < j < entries.len() ==> (#[trigger] entries[i]).0@ != (#[trigger] entries[j]).0@,
        keyed_by_id(calls) <==> forall|id: Seq<char>| #[trigger]
            calls.contains_key(id) ==> calls[id].id == id,
{
}

/// Each digit of a number is the one at its place, counted from the highest.
pub proof fn law_hex_digits(value: nat, count: nat, i: int)
    requires
        0 <= i < count,
    ensures
        hex_digits(value, count).len() == count,
        ({
            let digit = (value as int / pow(16, (count - 1 - i) as nat)) % 16;
            hex_digits(value, count)[i] == if digit < 10 {
                ('0' as int + digit) as char
            } else {
                ('a' as int + digit - 10) as char
            }
        }),
    decreases count,
{
    reveal(pow);
    let front = hex_digits(value / 16, (count - 1) as nat);
    if count > 1 {
        law_hex_digits(value / 16, (count - 1) as nat, 0);
    }
    assert(front.len() == count - 1);
    if i < count - 1 {
        law_hex_digits(value / 16, (count - 1) as nat, i);
        let below = (count - 2 - i) as nat;
        lemma_pow_positive(16, below);
        lemma_div_denominator(value as int, 16, pow(16, below));
        assert(pow(16, (count - 1 - i) as nat) == 16 * pow(16, below));
        assert(hex_digits(value, count)[i] == front[i]);
    } else {
        assert(pow(16, 0) == 1);
        assert(hex_digits(value, count)[i] == hex_digits(value, count).last());
    }
}

/// A text is read as a UUID just where it is, in letters of either case, the UUID's 32 digits, the
/// UUID as it is written, that in braces, or that as a URN.
pub proof fn law_written_forms(text: Seq<char>, bits: u128)
    ensures
        ({
            let written = uuid_text(bits);
            let lower = lowered(text);
            uuid_parsed(text) == Some(bits) <==> {
                ||| lower == hex_digits(bits as nat, 32)
                ||| lower == written
                ||| lower == seq!['{'] + written + seq!['}']
                ||| lower == "urn:uuid:"@ + written
            }
        }),
        lowered(text).len() == text.len(),
        forall|i: int|
            0 <= i < text.len() ==> #[trigger] lowered(text)[i] == if 'A' <= text[i] <= 'Z' {
                (text[i] as nat + 32) as char
            } else {
                text[i]
            },
        uuid_text(bits).len() == 36,
        uuid_text(bits) == hex_digits(bits as nat, 32).subrange(0, 8) + seq!['-'] + hex_digits(
            bits as nat,
            32,
        ).subrange(8, 12) + seq!['-'] + hex_digits(bits as nat, 32).subrange(12, 16) + seq!['-']
            + hex_digits(bits as nat, 32).subrange(16, 20) + seq!['-'] + hex_digits(
            bits as nat,
            32,
        ).subrange(20, 32),
{
    lemma_uuid_parsed(text, bits);
    lemma_uuid_text(bits);
}

} // verus!
