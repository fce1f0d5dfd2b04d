//! That the mathematical forms say what the values hold.

use crate::json::{json, optional_json};
use crate::message::{Incoming, IncomingView, ToolReply, ToolReplyView};
use crate::options::{optional_text, texts, StartError};
use crate::protocol::{
    Item, Notice, Outgoing, OutgoingView, Reply, ReplyView, ToolRequest, TurnStatus,
};
use crate::session::{
    optional_state, trace, Effect, EffectView, Failure, FakeState, Outcome, OutcomeView, Session,
    StateView,
};
use crate::decimal::DecimalError;
use serde_json::Value;
use vstd::prelude::*;

verus! {

/// What may be absent keeps its content, and absence stays absence.
pub proof fn law_optional_values_keep_their_content(string: String, value: Value, state: FakeState)
    ensures
        optional_text(Some(string)) == Some(string@),
        optional_text(None) is None,
        optional_json(Some(value)) == Some(json(value)),
        optional_json(None) is None,
        optional_state(Some(state)) == Some(state@),
        optional_state(None) is None,
{
}

/// A row of strings is a row of their texts, in order, and a row of effects one
/// of their forms.
pub proof fn law_rows_keep_their_order(strings: Seq<String>, effects: Seq<Effect>)
    ensures
        texts(strings).len() == strings.len(),
        forall|i: int| 0 <= i < strings.len() ==> #[trigger] texts(strings)[i] == strings[i]@,
        trace(effects).len() == effects.len(),
        forall|i: int| 0 <= i < effects.len() ==> #[trigger] trace(effects)[i] == effects[i]@,
{
}

/// A state is its thread and its turn.
pub proof fn law_state_is_its_parts(state: FakeState)
    ensures
        state@.thread_id == state.thread_id@,
        state.active_turn_id matches Some(turn_id) ==> state@.active_turn_id == Some(turn_id@),
        state.active_turn_id is None ==> state@.active_turn_id is None,
{
}

/// A session is its parts.
pub proof fn law_session_is_its_parts(session: Session)
    ensures
        session@.switches == session.switches,
        session@.logs_calls == session.logs_calls,
        session@.state == session.state@,
        session@.turn_start_count == session.turn_start_count,
{
}

/// An effect is what is to be done, with what is to be done to.
pub proof fn law_effects_keep_their_content(
    message: Outgoing,
    state: FakeState,
    line: String,
    milliseconds: u64,
)
    ensures
        Effect::Send(message)@ == EffectView::Send(message@),
        Effect::Save(state)@ == EffectView::Save(state@),
        Effect::Log(line)@ == EffectView::Log(line@),
        Effect::Sleep(milliseconds)@ == EffectView::Sleep(milliseconds),
{
}

/// An outcome keeps its failure or its reason, and only those two are reported,
/// each in its own words.
pub proof fn law_outcomes_keep_their_content(failure: Failure, reason: String)
    ensures
        Outcome::Continue@ == OutcomeView::Continue,
        Outcome::Exit@ == OutcomeView::Exit,
        Outcome::Fail(failure)@ == OutcomeView::Fail(failure),
        Outcome::InvalidJson(reason)@ == OutcomeView::InvalidJson(reason@),
        OutcomeView::Continue.error_message() is None,
        OutcomeView::Exit.error_message() is None,
        OutcomeView::Fail(failure).error_message() == Some(failure.spec_message()),
        OutcomeView::InvalidJson(reason@).error_message() == Some(reason@),
{
}

/// What each failure and each error is reported with. A delay that is no number is
/// reported in the words of what is wrong with the number.
pub proof fn law_reports_are_in_their_own_words(failure: Failure, error: DecimalError)
    ensures
        failure.spec_message() == (match failure {
            Failure::ToolSuccessMissing => "semantic tool response omitted success"@,
            Failure::ToolTextMissing => "semantic tool response omitted content text"@,
            Failure::ToolResultChanged => "semantic tool response changed the operation result"@,
            Failure::ThreadStartWithoutTool => "thread/start omitted the authorized dynamic tool"@,
            Failure::ThreadResumeWithoutTool => {
                "thread/resume omitted the authorized dynamic tool"@
            },
            Failure::AfterThreadRead => "configured failure after thread read"@,
            Failure::AfterSecondTurnRejection => {
                "configured failure after second turn rejection"@
            },
            Failure::AfterAcceptingSecondTurn => {
                "configured failure after accepting second turn"@
            },
            Failure::AfterMalformedTurnError => "configured failure after malformed turn error"@,
            Failure::AfterMissingTurnIdentity => "configured failure after missing turn identity"@,
            Failure::AfterSecondTurnStart => "configured failure after second turn start"@,
            Failure::AfterTurnCompletion => "configured failure after turn completion"@,
        }),
        error.spec_message() == (match error {
            DecimalError::Empty => "cannot parse integer from empty string"@,
            DecimalError::InvalidDigit => "invalid digit found in string"@,
            DecimalError::TooLarge => "number too large to fit in target type"@,
        }),
        StartError::MissingStateFile.spec_message() == "--state-file is required"@,
        StartError::InvalidDelay(error).spec_message() == error.spec_message(),
{
}

/// A message from the client keeps its method, its `id` and its reasons.
pub proof fn law_incoming_keeps_its_content(
    method: String,
    id: Option<Value>,
    offers_task_context: bool,
    reply: ToolReply,
    reason: String,
)
    ensures
        Incoming::RuntimeReply@ == IncomingView::RuntimeReply,
        Incoming::ToolReply(reply)@ == IncomingView::ToolReply(reply@),
        (Incoming::Call { method, id, offers_task_context })@ == (IncomingView::Call {
            method: method@,
            id: optional_json(id),
            offers_task_context,
        }),
        Incoming::Unaddressed@ == IncomingView::Unaddressed,
        ToolReply::Failed@ == ToolReplyView::Failed,
        ToolReply::SuccessMissing@ == ToolReplyView::SuccessMissing,
        ToolReply::TextMissing@ == ToolReplyView::TextMissing,
        ToolReply::InvalidResult(reason)@ == ToolReplyView::InvalidResult(reason@),
        ToolReply::ResultChanged@ == ToolReplyView::ResultChanged,
        ToolReply::Accepted@ == ToolReplyView::Accepted,
{
}

/// A message from the server keeps the thread, the turn and the `id` that it
/// speaks of.
pub proof fn law_outgoing_keeps_its_content(
    notice: Notice,
    item: Item,
    status: TurnStatus,
    request: ToolRequest,
    thread_id: String,
    turn_id: String,
    calling_turn_id: Option<String>,
    id: Option<Value>,
    reply: Reply,
)
    ensures
        Outgoing::Warning(notice)@ == OutgoingView::Warning(notice),
        (Outgoing::TurnStarted { turn_id })@ == (OutgoingView::TurnStarted { turn_id: turn_id@ }),
        (Outgoing::TurnCompleted { turn_id, status })@ == (OutgoingView::TurnCompleted {
            turn_id: turn_id@,
            status,
        }),
        Outgoing::ItemCompleted(item)@ == OutgoingView::ItemCompleted(item),
        (Outgoing::TokenUsage { thread_id })@ == (OutgoingView::TokenUsage {
            thread_id: thread_id@,
        }),
        (Outgoing::ToolCall { request, thread_id, calling_turn_id })@ == (OutgoingView::ToolCall {
            request,
            thread_id: thread_id@,
            calling_turn_id: optional_text(calling_turn_id),
        }),
        (Outgoing::Question { thread_id })@ == (OutgoingView::Question { thread_id: thread_id@ }),
        (Outgoing::Response { id, reply })@ == (OutgoingView::Response {
            id: optional_json(id),
            reply: reply@,
        }),
{
}

/// An answer keeps the thread, the turn and the method that it speaks of.
pub proof fn law_replies_keep_their_content(
    thread_id: String,
    active_turn_id: Option<String>,
    method: String,
)
    ensures
        Reply::Initialized@ == ReplyView::Initialized,
        (Reply::Thread { thread_id })@ == (ReplyView::Thread { thread_id: thread_id@ }),
        (Reply::ThreadRead { thread_id, active_turn_id })@ == (ReplyView::ThreadRead {
            thread_id: thread_id@,
            active_turn_id: optional_text(active_turn_id),
        }),
        Reply::TurnAccepted@ == ReplyView::TurnAccepted,
        Reply::TurnUnnamed@ == ReplyView::TurnUnnamed,
        Reply::Accepted@ == ReplyView::Accepted,
        Reply::Rejected@ == ReplyView::Rejected,
        (Reply::Unsupported { method })@ == (ReplyView::Unsupported { method: method@ }),
        Reply::EmptyError@ == ReplyView::EmptyError,
{
}

} // verus!
