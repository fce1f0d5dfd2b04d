//! The server.
//!
//! A [`Session`] takes what the client sends, one message at a time, and says
//! in a [`Step`] what to do about it.

use crate::json::{optional_json, parsed, Json};
use crate::message::{incoming_of, Incoming, IncomingView, ToolReply, ToolReplyView};
use crate::options::{optional_text, Config, Switches};
use crate::protocol::{
    Item, Notice, Outgoing, OutgoingView, Reply, ReplyView, ToolRequest, TurnStatus,
};
use serde_json::Value;
use vstd::prelude::*;

verus! {

/// What the server remembers from one run to the next.
#[derive(Debug, PartialEq, Eq)]
pub struct FakeState {
    /// The thread that is open.
    pub thread_id: String,
    /// The turn in progress, if there is one.
    pub active_turn_id: Option<String>,
}

/// The mathematical form of a [`FakeState`].
pub struct StateView {
    pub thread_id: Seq<char>,
    pub active_turn_id: Option<Seq<char>>,
}

impl View for FakeState {
    type V = StateView;

    open spec fn view(&self) -> StateView {
        StateView {
            thread_id: self.thread_id@,
            active_turn_id: optional_text(self.active_turn_id),
        }
    }
}

impl Clone for FakeState {
    fn clone(&self) -> (copy: FakeState)
        ensures
            copy@ == self@,
    {
        FakeState {
            thread_id: self.thread_id.clone(),
            active_turn_id: copy_text(&self.active_turn_id),
        }
    }
}

/// A copy of a text that may be absent.
fn copy_text(content: &Option<String>) -> (copy: Option<String>)
    ensures
        optional_text(copy) == optional_text(*content),
{
    match content {
        Some(present) => Some(present.clone()),
        None => None,
    }
}

/// The state of a server that has none stored.
pub open spec fn initial_state() -> StateView {
    StateView { thread_id: "codex-thread-1"@, active_turn_id: None }
}

/// The state that a server starts with, given what is stored.
pub open spec fn restored(stored: Option<StateView>) -> StateView {
    match stored {
        Some(state) => state,
        None => initial_state(),
    }
}

/// The mathematical form of a state that may be absent.
pub open spec fn optional_state(state: Option<FakeState>) -> Option<StateView> {
    match state {
        Some(present) => Some(present@),
        None => None,
    }
}

/// The state that a server starts with. Where nothing is stored, or nothing
/// that can be read, it is the first thread without a turn.
pub fn load_state(stored: Option<FakeState>) -> (state: FakeState)
    ensures
        state@ == restored(optional_state(stored)),
{
    match stored {
        Some(state) => state,
        None => FakeState { thread_id: "codex-thread-1".to_owned(), active_turn_id: None },
    }
}

/// Something for the program to do.
#[derive(Debug, PartialEq, Eq)]
pub enum Effect {
    /// Send a message to the client.
    Send(Outgoing),
    /// Store the state.
    Save(FakeState),
    /// Add a line to the call log.
    Log(String),
    /// Wait for so many milliseconds.
    Sleep(u64),
}

/// The mathematical form of an [`Effect`].
pub enum EffectView {
    Send(OutgoingView),
    Save(StateView),
    Log(Seq<char>),
    Sleep(u64),
}

impl View for Effect {
    type V = EffectView;

    open spec fn view(&self) -> EffectView {
        match self {
            Effect::Send(outgoing) => EffectView::Send(outgoing@),
            Effect::Save(state) => EffectView::Save(state@),
            Effect::Log(line) => EffectView::Log(line@),
            Effect::Sleep(milliseconds) => EffectView::Sleep(*milliseconds),
        }
    }
}

/// The mathematical form of a row of effects.
pub open spec fn trace(effects: Seq<Effect>) -> Seq<EffectView> {
    Seq::new(effects.len(), |i: int| effects[i]@)
}

/// A failure that the server plays or reports.
#[derive(Clone, Copy, Debug, PartialEq, Eq, Structural)]
pub enum Failure {
    /// The answer to a tool call does not say whether the tool succeeded.
    ToolSuccessMissing,
    /// The answer to a tool call carries no text.
    ToolTextMissing,
    /// The answer to a tool call is not the expected result.
    ToolResultChanged,
    /// A thread was to be started without the task context tool.
    ThreadStartWithoutTool,
    /// A thread was to be resumed without the task context tool.
    ThreadResumeWithoutTool,
    AfterThreadRead,
    AfterSecondTurnRejection,
    AfterAcceptingSecondTurn,
    AfterMalformedTurnError,
    AfterMissingTurnIdentity,
    AfterSecondTurnStart,
    AfterTurnCompletion,
}

impl Failure {
    /// The sentence that reports the failure.
    pub open spec fn spec_message(self) -> Seq<char> {
        match self {
            Failure::ToolSuccessMissing => "semantic tool response omitted success"@,
            Failure::ToolTextMissing => "semantic tool response omitted content text"@,
            Failure::ToolResultChanged => "semantic tool response changed the operation result"@,
            Failure::ThreadStartWithoutTool => {
                "thread/start omitted the authorized dynamic tool"@
            },
            Failure::ThreadResumeWithoutTool => {
                "thread/resume omitted the authorized dynamic tool"@
            },
            Failure::AfterThreadRead => "configured failure after thread read"@,
            Failure::AfterSecondTurnRejection => {
                "configured failure after second turn rejection"@
            },
            Failure::AfterAcceptingSecondTurn => {
                "configured failure after accepting second turn"@
            },
            Failure::AfterMalformedTurnError => "configured failure after malformed turn error"@,
            Failure::AfterMissingTurnIdentity => "configured failure after missing turn identity"@,
            Failure::AfterSecondTurnStart => "configured failure after second turn start"@,
            Failure::AfterTurnCompletion => "configured failure after turn completion"@,
        }
    }

    /// The sentence that reports the failure.
    pub fn message(self) -> (text: String)
        ensures
            text@ == self.spec_message(),
    {
        let sentence = match self {
            Failure::ToolSuccessMissing => "semantic tool response omitted success",
            Failure::ToolTextMissing => "semantic tool response omitted content text",
            Failure::ToolResultChanged => "semantic tool response changed the operation result",
            Failure::ThreadStartWithoutTool => "thread/start omitted the authorized dynamic tool",
            Failure::ThreadResumeWithoutTool => {
                "thread/resume omitted the authorized dynamic tool"
            },
            Failure::AfterThreadRead => "configured failure after thread read",
            Failure::AfterSecondTurnRejection => "configured failure after second turn rejection",
            Failure::AfterAcceptingSecondTurn => "configured failure after accepting second turn",
            Failure::AfterMalformedTurnError => "configured failure after malformed turn error",
            Failure::AfterMissingTurnIdentity => "configured failure after missing turn identity",
            Failure::AfterSecondTurnStart => "configured failure after second turn start",
            Failure::AfterTurnCompletion => "configured failure after turn completion",
        };
        sentence.to_owned()
    }
}

/// What becomes of the server after a step.
#[derive(Debug, PartialEq, Eq)]
pub enum Outcome {
    /// It goes on to the next line.
    Continue,
    /// It ends in success.
    Exit,
    /// It ends in failure.
    Fail(Failure),
    /// It ends because something is not JSON, for the reason given.
    InvalidJson(String),
}

/// The mathematical form of an [`Outcome`].
pub enum OutcomeView {
    Continue,
    Exit,
    Fail(Failure),
    InvalidJson(Seq<char>),
}

impl View for Outcome {
    type V = OutcomeView;

    open spec fn view(&self) -> OutcomeView {
        match self {
            Outcome::Continue => OutcomeView::Continue,
            Outcome::Exit => OutcomeView::Exit,
            Outcome::Fail(failure) => OutcomeView::Fail(*failure),
            Outcome::InvalidJson(reason) => OutcomeView::InvalidJson(reason@),
        }
    }
}

impl OutcomeView {
    /// The sentence that reports the outcome, where it is a failure.
    pub open spec fn error_message(self) -> Option<Seq<char>> {
        match self {
            OutcomeView::Continue => None,
            OutcomeView::Exit => None,
            OutcomeView::Fail(failure) => Some(failure.spec_message()),
            OutcomeView::InvalidJson(reason) => Some(reason),
        }
    }
}

impl Outcome {
    /// The sentence that reports the outcome, where it is a failure.
    pub fn error_message(&self) -> (text: Option<String>)
        ensures
            optional_text(text) == self@.error_message(),
    {
        match self {
            Outcome::Continue => None,
            Outcome::Exit => None,
            Outcome::Fail(failure) => Some(failure.message()),
            Outcome::InvalidJson(reason) => Some(reason.clone()),
        }
    }
}

/// What the server does about a message.
#[derive(Debug, PartialEq, Eq)]
pub struct Step {
    /// The things to do, in order.
    pub effects: Vec<Effect>,
    /// What becomes of the server once they are done.
    pub outcome: Outcome,
}

/// A step of the server: the state that it leads to, the things that it does
/// on the way, and what becomes of the server.
#[verifier::ext_equal]
pub struct Transition {
    pub state: StateView,
    pub effects: Seq<EffectView>,
    pub outcome: OutcomeView,
}

impl Transition {
    /// Nothing is done and the server goes on.
    pub open spec fn idle(state: StateView) -> Transition {
        Transition { state, effects: Seq::empty(), outcome: OutcomeView::Continue }
    }

    /// The same with other things done first.
    pub open spec fn after(self, effects: Seq<EffectView>) -> Transition {
        Transition { effects: effects + self.effects, ..self }
    }

    /// The same with another outcome.
    pub open spec fn ending(self, outcome: OutcomeView) -> Transition {
        Transition { outcome, ..self }
    }
}

/// The effects if a condition holds, else none.
pub open spec fn only_if(condition: bool, effects: Seq<EffectView>) -> Seq<EffectView> {
    if condition {
        effects
    } else {
        Seq::empty()
    }
}

/// The turn in progress, or `fallback` if there is none.
pub open spec fn active_turn_or(state: StateView, fallback: Seq<char>) -> Seq<char> {
    match state.active_turn_id {
        Some(turn_id) => turn_id,
        None => fallback,
    }
}

/// The end of the turn in progress: its last message, what it used, that it
/// has ended, and then the state without it.
pub open spec fn finishing(state: StateView, status: TurnStatus) -> Transition {
    let idle = StateView { active_turn_id: None, ..state };
    Transition::idle(idle).after(
        seq![
            EffectView::Send(OutgoingView::ItemCompleted(Item::Final)),
            EffectView::Send(OutgoingView::TokenUsage { thread_id: state.thread_id }),
            EffectView::Send(
                OutgoingView::TurnCompleted {
                    turn_id: active_turn_or(state, "provider-turn-1"@),
                    status,
                },
            ),
            EffectView::Save(idle),
        ],
    )
}

/// What the client gets to see of a second turn that was not answered
/// properly: perhaps its start, then either its end or the end of another turn.
pub open spec fn evidence(state: StateView, started: bool, conflicting: bool) -> Transition {
    let start = only_if(
        started,
        seq![
            EffectView::Send(
                OutgoingView::TurnStarted { turn_id: active_turn_or(state, "provider-turn-2"@) },
            ),
        ],
    );
    if conflicting {
        Transition::idle(state).after(
            start + seq![
                EffectView::Send(
                    OutgoingView::TurnCompleted {
                        turn_id: "provider-turn-conflict"@,
                        status: TurnStatus::Completed,
                    },
                ),
            ],
        )
    } else {
        finishing(state, TurnStatus::Completed).after(start)
    }
}

/// Adds an effect.
fn emit(effects: &mut Vec<Effect>, effect: Effect)
    ensures
        trace(final(effects)@) == trace(old(effects)@).push(effect@),
{
    effects.push(effect);
}

/// Ends the turn in progress.
pub fn finish_turn(state: &mut FakeState, status: TurnStatus, effects: &mut Vec<Effect>)
    ensures
        final(state)@ == finishing(old(state)@, status).state,
        trace(final(effects)@) == trace(old(effects)@) + finishing(old(state)@, status).effects,
{
    let turn_id = match &state.active_turn_id {
        Some(turn_id) => turn_id.clone(),
        None => "provider-turn-1".to_owned(),
    };
    emit(effects, Effect::Send(Outgoing::ItemCompleted(Item::Final)));
    emit(effects, Effect::Send(Outgoing::TokenUsage { thread_id: state.thread_id.clone() }));
    emit(effects, Effect::Send(Outgoing::TurnCompleted { turn_id, status }));
    state.active_turn_id = None;
    emit(effects, Effect::Save(state.clone()));
}

/// Shows the client that a second turn exists although it was not answered
/// properly.
pub fn emit_ambiguous_turn_evidence(
    state: &mut FakeState,
    emit_turn_started: bool,
    conflicting_identity: bool,
    effects: &mut Vec<Effect>,
)
    ensures
        final(state)@ == evidence(old(state)@, emit_turn_started, conflicting_identity).state,
        trace(final(effects)@) == trace(old(effects)@) + evidence(
            old(state)@,
            emit_turn_started,
            conflicting_identity,
        ).effects,
{
    if emit_turn_started {
        let turn_id = match &state.active_turn_id {
            Some(turn_id) => turn_id.clone(),
            None => "provider-turn-2".to_owned(),
        };
        emit(effects, Effect::Send(Outgoing::TurnStarted { turn_id }));
    }
    if conflicting_identity {
        emit(
            effects,
            Effect::Send(
                Outgoing::TurnCompleted {
                    turn_id: "provider-turn-conflict".to_owned(),
                    status: TurnStatus::Completed,
                },
            ),
        );
    } else {
        finish_turn(state, TurnStatus::Completed, effects);
    }
}

/// The answer to the request `id`.
pub open spec fn answer(id: Option<Json>, reply: ReplyView) -> EffectView {
    EffectView::Send(OutgoingView::Response { id, reply })
}

/// A warning.
pub open spec fn warning(notice: Notice) -> EffectView {
    EffectView::Send(OutgoingView::Warning(notice))
}

/// How the server deals with the request to start a turn.
pub enum StartMode {
    /// It refuses the turn.
    Rejected,
    /// It takes the turn on and fails before answering.
    Unanswered,
    /// It takes the turn on and exits before answering.
    Abandoned,
    /// It takes the turn on and answers with an error that says nothing.
    Malformed,
    /// It takes the turn on and answers without naming it.
    Unnamed,
    /// It takes the turn on and answers properly.
    Answered,
}

/// How the server deals with the request to start turn number `count`. Only
/// the second turn is ever dealt with in another way than properly.
pub open spec fn start_mode(switches: Switches, count: nat) -> StartMode {
    if count != 2 {
        StartMode::Answered
    } else if switches.reject_second_turn_start {
        StartMode::Rejected
    } else if switches.fail_after_accepting_second_turn_before_response {
        StartMode::Unanswered
    } else if switches.exit_after_accepting_second_turn_before_response {
        StartMode::Abandoned
    } else if switches.malformed_error_second_turn_start {
        StartMode::Malformed
    } else if switches.missing_id_second_turn_start {
        StartMode::Unnamed
    } else {
        StartMode::Answered
    }
}

/// Whether the client gets to see [`evidence`] of turn number `count`.
pub open spec fn shows_evidence(switches: Switches, count: nat) -> bool {
    count == 2 && (switches.complete_ambiguous_second_turn
        || switches.complete_ambiguous_second_turn_before_response
        || switches.conflicting_ambiguous_second_turn)
}

/// The identity that turn number `count` is kept under.
pub open spec fn accepted_turn_id(switches: Switches, count: nat) -> Seq<char> {
    if shows_evidence(switches, count) || (count == 2 && (
    switches.retain_ambiguous_second_turn_active
        || switches.hold_ambiguous_second_turn_after_item)) {
        "provider-turn-2"@
    } else {
        "provider-turn-1"@
    }
}

/// Taking on turn number `count`: it becomes the one in progress, the state is
/// stored, and perhaps the client gets to see evidence of it.
pub open spec fn accepting(switches: Switches, state: StateView, count: nat) -> Transition {
    let accepted = StateView {
        active_turn_id: Some(accepted_turn_id(switches, count)),
        ..state
    };
    let early = if count == 2 && switches.complete_ambiguous_second_turn_before_response {
        evidence(accepted, !switches.omit_ambiguous_turn_started, false)
    } else {
        Transition::idle(accepted)
    };
    early.after(seq![EffectView::Save(accepted)])
}

/// The evidence of turn number `count` that follows the answer, if any.
pub open spec fn late_evidence(switches: Switches, state: StateView, count: nat) -> Transition {
    if shows_evidence(switches, count)
        && !switches.complete_ambiguous_second_turn_before_response {
        evidence(
            state,
            !switches.omit_ambiguous_turn_started,
            switches.conflicting_ambiguous_second_turn,
        )
    } else {
        Transition::idle(state)
    }
}

/// What follows the end of a turn that ran its course.
pub open spec fn aftermath(switches: Switches, state: StateView) -> Transition {
    let warned = only_if(
        switches.emit_post_completion_warning,
        seq![warning(Notice::LiveAfterTerminal)],
    );
    if switches.fail_after_turn_completion {
        let lingering = match switches.fail_after_turn_completion_delay_ms {
            Some(delay) => seq![EffectView::Sleep(delay), warning(Notice::LiveAfterTerminal)],
            None => Seq::empty(),
        };
        Transition::idle(state).after(warned + lingering).ending(
            OutcomeView::Fail(Failure::AfterTurnCompletion),
        )
    } else if switches.exit_after_turn_completion {
        Transition::idle(state).after(warned).ending(OutcomeView::Exit)
    } else {
        Transition::idle(state).after(warned)
    }
}

/// The course of turn number `count` once it is answered properly.
pub open spec fn course(switches: Switches, state: StateView, count: nat) -> Transition {
    if switches.fail_after_second_turn_start && count == 2 {
        Transition::idle(state).ending(OutcomeView::Fail(Failure::AfterSecondTurnStart))
    } else if switches.exit_after_turn_start {
        Transition::idle(state).ending(OutcomeView::Exit)
    } else if switches.emit_tool_call {
        let call = seq![
            EffectView::Send(
                OutgoingView::ToolCall {
                    request: ToolRequest::Call,
                    thread_id: state.thread_id,
                    calling_turn_id: Some("provider-turn-1"@),
                },
            ),
        ];
        if switches.complete_after_tool_call {
            finishing(state, TurnStatus::Completed).after(call).ending(
                if switches.exit_after_tool_call_completion {
                    OutcomeView::Exit
                } else {
                    OutcomeView::Continue
                },
            )
        } else {
            Transition::idle(state).after(call)
        }
    } else if switches.emit_question {
        Transition::idle(state).after(
            seq![EffectView::Send(OutgoingView::Question { thread_id: state.thread_id })],
        )
    } else if switches.hold_turn {
        Transition::idle(state)
    } else {
        let end = finishing(state, TurnStatus::Completed);
        aftermath(switches, end.state).after(end.effects)
    }
}

/// The refusal of the request `id` to start the second turn.
pub open spec fn rejecting(switches: Switches, state: StateView, id: Option<Json>) -> Transition {
    Transition::idle(state).after(
        seq![warning(Notice::BeforeRejection)] + only_if(
            switches.emit_turn_before_rejected_second_start,
            seq![
                EffectView::Send(
                    OutgoingView::TurnStarted { turn_id: "provider-turn-contradiction"@ },
                ),
            ],
        ) + seq![answer(id, ReplyView::Rejected)],
    ).ending(OutcomeView::Fail(Failure::AfterSecondTurnRejection))
}

/// What follows once turn number `count` is taken on, if the request `id` to
/// start it is not answered properly.
pub open spec fn mishandling(
    switches: Switches,
    state: StateView,
    count: nat,
    id: Option<Json>,
) -> Transition {
    let late = late_evidence(switches, state, count);
    match start_mode(switches, count) {
        StartMode::Unanswered => late.ending(OutcomeView::Fail(Failure::AfterAcceptingSecondTurn)),
        StartMode::Malformed => late.after(seq![answer(id, ReplyView::EmptyError)]).ending(
            OutcomeView::Fail(Failure::AfterMalformedTurnError),
        ),
        StartMode::Unnamed => if switches.hold_ambiguous_second_turn_after_item {
            Transition::idle(state).after(
                seq![
                    answer(id, ReplyView::TurnUnnamed),
                    EffectView::Send(OutgoingView::ItemCompleted(Item::Replacement)),
                ],
            )
        } else {
            late.after(seq![answer(id, ReplyView::TurnUnnamed)]).ending(
                OutcomeView::Fail(Failure::AfterMissingTurnIdentity),
            )
        },
        _ => Transition::idle(state).ending(OutcomeView::Exit),
    }
}

/// What follows once turn number `count` is taken on, if the request `id` to
/// start it is answered properly.
pub open spec fn answering_properly(
    switches: Switches,
    state: StateView,
    count: nat,
    id: Option<Json>,
) -> Transition {
    course(switches, state, count).after(
        seq![
            answer(id, ReplyView::TurnAccepted),
            EffectView::Send(OutgoingView::TurnStarted { turn_id: "provider-turn-1"@ }),
        ],
    )
}

/// What the server does about the request `id` to start turn number `count`.
pub open spec fn starting(
    switches: Switches,
    state: StateView,
    count: nat,
    id: Option<Json>,
) -> Transition {
    let accepted = accepting(switches, state, count);
    match start_mode(switches, count) {
        StartMode::Rejected => rejecting(switches, state, id),
        StartMode::Answered => answering_properly(switches, accepted.state, count, id).after(
            accepted.effects,
        ),
        _ => mishandling(switches, accepted.state, count, id).after(accepted.effects),
    }
}

/// The server between two messages.
#[derive(Debug, PartialEq, Eq)]
pub struct Session {
    /// The faults to play.
    pub switches: Switches,
    /// Whether calls are recorded.
    pub logs_calls: bool,
    /// What the server remembers.
    pub state: FakeState,
    /// How many turns it was asked to start.
    pub turn_start_count: u64,
}

/// The mathematical form of a [`Session`].
pub struct SessionView {
    pub switches: Switches,
    pub logs_calls: bool,
    pub state: StateView,
    pub turn_start_count: nat,
}

impl View for Session {
    type V = SessionView;

    open spec fn view(&self) -> SessionView {
        SessionView {
            switches: self.switches,
            logs_calls: self.logs_calls,
            state: self.state@,
            turn_start_count: self.turn_start_count as nat,
        }
    }
}

/// The session that a server starts with.
pub open spec fn opened(
    switches: Switches,
    logs_calls: bool,
    stored: Option<StateView>,
) -> SessionView {
    SessionView { switches, logs_calls, state: restored(stored), turn_start_count: 0 }
}

impl SessionView {
    /// A line for the call log, if there is one.
    pub open spec fn logged(self, line: Seq<char>) -> Seq<EffectView> {
        only_if(self.logs_calls, seq![EffectView::Log(line)])
    }

    /// What the server does about a call, apart from recording it.
    pub open spec fn answering(
        self,
        method: Seq<char>,
        id: Option<Json>,
        offers_task_context: bool,
    ) -> Transition {
        let unauthorized = self.switches.require_dynamic_tool && !offers_task_context;
        if method == "initialize"@ {
            Transition::idle(self.state).after(seq![answer(id, ReplyView::Initialized)])
        } else if method == "initialized"@ {
            Transition::idle(self.state)
        } else if method == "thread/start"@ {
            if unauthorized {
                Transition::idle(self.state).ending(
                    OutcomeView::Fail(Failure::ThreadStartWithoutTool),
                )
            } else {
                Transition::idle(initial_state()).after(
                    seq![EffectView::Save(initial_state())] + only_if(
                        self.switches.pre_response_notification,
                        seq![warning(Notice::BeforeThreadResponse)],
                    ) + seq![
                        answer(
                            id,
                            ReplyView::Thread { thread_id: initial_state().thread_id },
                        ),
                    ],
                )
            }
        } else if method == "thread/resume"@ {
            if unauthorized {
                Transition::idle(self.state).ending(
                    OutcomeView::Fail(Failure::ThreadResumeWithoutTool),
                )
            } else {
                Transition::idle(self.state).after(
                    seq![answer(id, ReplyView::Thread { thread_id: self.state.thread_id })],
                )
            }
        } else if method == "thread/read"@ {
            Transition::idle(self.state).after(
                seq![
                    answer(
                        id,
                        ReplyView::ThreadRead {
                            thread_id: self.state.thread_id,
                            active_turn_id: self.state.active_turn_id,
                        },
                    ),
                ],
            ).ending(
                if self.switches.fail_after_thread_read {
                    OutcomeView::Fail(Failure::AfterThreadRead)
                } else if self.switches.exit_after_thread_read {
                    OutcomeView::Exit
                } else {
                    OutcomeView::Continue
                },
            )
        } else if method == "turn/start"@ {
            starting(self.switches, self.state, self.turn_start_count + 1, id)
        } else if method == "turn/steer"@ {
            Transition::idle(self.state).after(seq![answer(id, ReplyView::Accepted)])
        } else if method == "turn/interrupt"@ {
            finishing(self.state, TurnStatus::Interrupted).after(
                seq![answer(id, ReplyView::Accepted)],
            )
        } else if id is Some {
            Transition::idle(self.state).after(
                seq![answer(id, ReplyView::Unsupported { method })],
            )
        } else {
            Transition::idle(self.state)
        }
    }

    /// What the server does about the answer to its tool call.
    pub open spec fn tool_answered(self, reply: ToolReplyView) -> Transition {
        match reply {
            ToolReplyView::Failed => if self.state.active_turn_id is Some {
                finishing(self.state, TurnStatus::Failed).after(
                    self.logged("tool-response:failure"@),
                )
            } else {
                Transition::idle(self.state).after(self.logged("tool-response:failure"@))
            },
            ToolReplyView::SuccessMissing => Transition::idle(self.state).ending(
                OutcomeView::Fail(Failure::ToolSuccessMissing),
            ),
            ToolReplyView::TextMissing => Transition::idle(self.state).ending(
                OutcomeView::Fail(Failure::ToolTextMissing),
            ),
            ToolReplyView::InvalidResult(reason) => Transition::idle(self.state).ending(
                OutcomeView::InvalidJson(reason),
            ),
            ToolReplyView::ResultChanged => Transition::idle(self.state).ending(
                OutcomeView::Fail(Failure::ToolResultChanged),
            ),
            ToolReplyView::Accepted => if self.switches.replay_completed_tool_call {
                Transition::idle(self.state).after(
                    seq![
                        EffectView::Send(
                            OutgoingView::ToolCall {
                                request: ToolRequest::Replay,
                                thread_id: self.state.thread_id,
                                calling_turn_id: self.state.active_turn_id,
                            },
                        ),
                    ],
                )
            } else {
                finishing(self.state, TurnStatus::Completed)
            },
        }
    }

    /// What the server does about a message.
    pub open spec fn transition(self, incoming: IncomingView) -> Transition {
        match incoming {
            IncomingView::RuntimeReply => finishing(self.state, TurnStatus::Completed),
            IncomingView::ToolReply(reply) => self.tool_answered(reply),
            IncomingView::Call { method, id, offers_task_context } => self.answering(
                method,
                id,
                offers_task_context,
            ).after(self.logged(method)),
            IncomingView::Unaddressed => Transition::idle(self.state),
        }
    }

    /// The server after a message.
    pub open spec fn next(self, incoming: IncomingView) -> SessionView {
        SessionView {
            state: self.transition(incoming).state,
            turn_start_count: if incoming.starts_turn() {
                self.turn_start_count + 1
            } else {
                self.turn_start_count
            },
            ..self
        }
    }
}

/// Records a call, if calls are recorded.
pub fn log_call(logs_calls: bool, line: &str, effects: &mut Vec<Effect>)
    ensures
        trace(final(effects)@) == trace(old(effects)@) + only_if(
            logs_calls,
            seq![EffectView::Log(line@)],
        ),
{
    if logs_calls {
        emit(effects, Effect::Log(line.to_owned()));
    }
}

/// Answers the request `id`.
fn respond(id: Option<Value>, reply: Reply, effects: &mut Vec<Effect>)
    ensures
        trace(final(effects)@) == trace(old(effects)@).push(answer(optional_json(id), reply@)),
{
    emit(effects, Effect::Send(Outgoing::Response { id, reply }));
}

/// Warns the client.
fn warn(notice: Notice, effects: &mut Vec<Effect>)
    ensures
        trace(final(effects)@) == trace(old(effects)@).push(warning(notice)),
{
    emit(effects, Effect::Send(Outgoing::Warning(notice)));
}

impl Session {
    /// The session that a server starts with, given what is stored.
    pub fn open(config: &Config, stored: Option<FakeState>) -> (session: Session)
        ensures
            session@ == opened(
                config.switches,
                config.call_log is Some,
                optional_state(stored),
            ),
    {
        Session {
            switches: config.switches,
            logs_calls: config.call_log.is_some(),
            state: load_state(stored),
            turn_start_count: 0,
        }
    }

    /// Shows the client the evidence that follows the answer, if any.
    fn show_late_evidence(&mut self, effects: &mut Vec<Effect>)
        ensures
            final(self)@ == (SessionView {
                state: late_evidence(
                    old(self)@.switches,
                    old(self)@.state,
                    old(self)@.turn_start_count,
                ).state,
                ..old(self)@
            }),
            trace(final(effects)@) == trace(old(effects)@) + late_evidence(
                old(self)@.switches,
                old(self)@.state,
                old(self)@.turn_start_count,
            ).effects,
    {
        let switches = self.switches;
        if self.turn_start_count == 2 && (switches.complete_ambiguous_second_turn
            || switches.conflicting_ambiguous_second_turn)
            && !switches.complete_ambiguous_second_turn_before_response {
            emit_ambiguous_turn_evidence(
                &mut self.state,
                !switches.omit_ambiguous_turn_started,
                switches.conflicting_ambiguous_second_turn,
                effects,
            );
        }
    }

    /// Plays what follows the end of a turn that ran its course.
    fn play_aftermath(&self, effects: &mut Vec<Effect>) -> (outcome: Outcome)
        ensures
            trace(final(effects)@) == trace(old(effects)@) + aftermath(
                self@.switches,
                self@.state,
            ).effects,
            outcome@ == aftermath(self@.switches, self@.state).outcome,
    {
        let switches = self.switches;
        if switches.emit_post_completion_warning {
            warn(Notice::LiveAfterTerminal, effects);
        }
        if switches.fail_after_turn_completion {
            if let Some(delay) = switches.fail_after_turn_completion_delay_ms {
                emit(effects, Effect::Sleep(delay));
                warn(Notice::LiveAfterTerminal, effects);
            }
            return Outcome::Fail(Failure::AfterTurnCompletion);
        }
        if switches.exit_after_turn_completion {
            return Outcome::Exit;
        }
        Outcome::Continue
    }

    /// Plays the course of a turn that is answered properly.
    fn play_course(&mut self, effects: &mut Vec<Effect>) -> (outcome: Outcome)
        ensures
            ({
                let before = old(self)@;
                let played = course(before.switches, before.state, before.turn_start_count);
                &&& final(self)@ == SessionView { state: played.state, ..before }
                &&& trace(final(effects)@) == trace(old(effects)@) + played.effects
                &&& outcome@ == played.outcome
            }),
    {
        let switches = self.switches;
        if switches.fail_after_second_turn_start && self.turn_start_count == 2 {
            return Outcome::Fail(Failure::AfterSecondTurnStart);
        }
        if switches.exit_after_turn_start {
            return Outcome::Exit;
        }
        if switches.emit_tool_call {
            emit(
                effects,
                Effect::Send(
                    Outgoing::ToolCall {
                        request: ToolRequest::Call,
                        thread_id: self.state.thread_id.clone(),
                        calling_turn_id: Some("provider-turn-1".to_owned()),
                    },
                ),
            );
            if switches.complete_after_tool_call {
                finish_turn(&mut self.state, TurnStatus::Completed, effects);
                if switches.exit_after_tool_call_completion {
                    return Outcome::Exit;
                }
            }
            return Outcome::Continue;
        }
        if switches.emit_question {
            emit(
                effects,
                Effect::Send(Outgoing::Question { thread_id: self.state.thread_id.clone() }),
            );
            return Outcome::Continue;
        }
        if switches.hold_turn {
            return Outcome::Continue;
        }
        finish_turn(&mut self.state, TurnStatus::Completed, effects);
        self.play_aftermath(effects)
    }

    /// Makes a turn the one in progress and shows the client the evidence of it
    /// that precedes the answer, if any.
    fn take_on_turn(&mut self, effects: &mut Vec<Effect>)
        ensures
            ({
                let before = old(self)@;
                let accepted = accepting(before.switches, before.state, before.turn_start_count);
                &&& final(self)@ == SessionView { state: accepted.state, ..before }
                &&& trace(final(effects)@) == trace(old(effects)@) + accepted.effects
            }),
    {
        let switches = self.switches;
        let second = self.turn_start_count == 2;
        let turn_id = if second && (switches.complete_ambiguous_second_turn
            || switches.complete_ambiguous_second_turn_before_response
            || switches.conflicting_ambiguous_second_turn
            || switches.retain_ambiguous_second_turn_active
            || switches.hold_ambiguous_second_turn_after_item) {
            "provider-turn-2"
        } else {
            "provider-turn-1"
        };
        self.state.active_turn_id = Some(turn_id.to_owned());
        emit(effects, Effect::Save(self.state.clone()));
        if second && switches.complete_ambiguous_second_turn_before_response {
            emit_ambiguous_turn_evidence(
                &mut self.state,
                !switches.omit_ambiguous_turn_started,
                false,
                effects,
            );
        }
    }

    /// Refuses the request `id` to start the second turn.
    fn reject_turn(&self, id: Option<Value>, effects: &mut Vec<Effect>) -> (outcome: Outcome)
        ensures
            ({
                let played = rejecting(self@.switches, self@.state, optional_json(id));
                &&& trace(final(effects)@) == trace(old(effects)@) + played.effects
                &&& outcome@ == played.outcome
            }),
    {
        warn(Notice::BeforeRejection, effects);
        if self.switches.emit_turn_before_rejected_second_start {
            emit(
                effects,
                Effect::Send(
                    Outgoing::TurnStarted { turn_id: "provider-turn-contradiction".to_owned() },
                ),
            );
        }
        respond(id, Reply::Rejected, effects);
        Outcome::Fail(Failure::AfterSecondTurnRejection)
    }

    /// Goes on with a second turn whose request `id` is not answered properly.
    fn mishandle_turn(&mut self, id: Option<Value>, effects: &mut Vec<Effect>) -> (outcome: Outcome)
        requires
            !(start_mode(old(self)@.switches, old(self)@.turn_start_count) is Answered),
            !(start_mode(old(self)@.switches, old(self)@.turn_start_count) is Rejected),
        ensures
            ({
                let before = old(self)@;
                let played = mishandling(
                    before.switches,
                    before.state,
                    before.turn_start_count,
                    optional_json(id),
                );
                &&& final(self)@ == SessionView { state: played.state, ..before }
                &&& trace(final(effects)@) == trace(old(effects)@) + played.effects
                &&& outcome@ == played.outcome
            }),
    {
        let switches = self.switches;
        if switches.fail_after_accepting_second_turn_before_response {
            self.show_late_evidence(effects);
            return Outcome::Fail(Failure::AfterAcceptingSecondTurn);
        }
        if switches.exit_after_accepting_second_turn_before_response {
            return Outcome::Exit;
        }
        if switches.malformed_error_second_turn_start {
            respond(id, Reply::EmptyError, effects);
            self.show_late_evidence(effects);
            return Outcome::Fail(Failure::AfterMalformedTurnError);
        }
        respond(id, Reply::TurnUnnamed, effects);
        if switches.hold_ambiguous_second_turn_after_item {
            emit(effects, Effect::Send(Outgoing::ItemCompleted(Item::Replacement)));
            return Outcome::Continue;
        }
        self.show_late_evidence(effects);
        Outcome::Fail(Failure::AfterMissingTurnIdentity)
    }

    /// Goes on with a turn whose request `id` is answered properly.
    fn answer_turn(&mut self, id: Option<Value>, effects: &mut Vec<Effect>) -> (outcome: Outcome)
        ensures
            ({
                let before = old(self)@;
                let played = answering_properly(
                    before.switches,
                    before.state,
                    before.turn_start_count,
                    optional_json(id),
                );
                &&& final(self)@ == SessionView { state: played.state, ..before }
                &&& trace(final(effects)@) == trace(old(effects)@) + played.effects
                &&& outcome@ == played.outcome
            }),
    {
        respond(id, Reply::TurnAccepted, effects);
        emit(
            effects,
            Effect::Send(Outgoing::TurnStarted { turn_id: "provider-turn-1".to_owned() }),
        );
        self.play_course(effects)
    }

    /// Deals with the request `id` to start a turn.
    fn start_turn(&mut self, id: Option<Value>, effects: &mut Vec<Effect>) -> (outcome: Outcome)
        requires
            old(self).turn_start_count < u64::MAX,
        ensures
            ({
                let before = old(self)@;
                let count = before.turn_start_count + 1;
                let played = starting(before.switches, before.state, count, optional_json(id));
                &&& final(self)@ == SessionView {
                    state: played.state,
                    turn_start_count: count,
                    ..before
                }
                &&& trace(final(effects)@) == trace(old(effects)@) + played.effects
                &&& outcome@ == played.outcome
            }),
    {
        self.turn_start_count = self.turn_start_count + 1;
        let switches = self.switches;
        if self.turn_start_count == 2 {
            if switches.reject_second_turn_start {
                return self.reject_turn(id, effects);
            }
            if switches.fail_after_accepting_second_turn_before_response
                || switches.exit_after_accepting_second_turn_before_response
                || switches.malformed_error_second_turn_start
                || switches.missing_id_second_turn_start {
                self.take_on_turn(effects);
                return self.mishandle_turn(id, effects);
            }
        }
        self.take_on_turn(effects);
        self.answer_turn(id, effects)
    }


    /// Opens a new thread for the request `id`.
    fn start_thread(&mut self, id: Option<Value>, effects: &mut Vec<Effect>)
        ensures
            final(self)@ == (SessionView { state: initial_state(), ..old(self)@ }),
            trace(final(effects)@) == trace(old(effects)@) + (
            seq![EffectView::Save(initial_state())] + only_if(
                old(self)@.switches.pre_response_notification,
                seq![warning(Notice::BeforeThreadResponse)],
            ) + seq![
                answer(
                    optional_json(id),
                    ReplyView::Thread { thread_id: initial_state().thread_id },
                ),
            ]),
    {
        self.state.thread_id = "codex-thread-1".to_owned();
        self.state.active_turn_id = None;
        emit(effects, Effect::Save(self.state.clone()));
        if self.switches.pre_response_notification {
            warn(Notice::BeforeThreadResponse, effects);
        }
        respond(id, Reply::Thread { thread_id: self.state.thread_id.clone() }, effects);
    }

    /// Does what a call asks for.
    fn answer_call(
        &mut self,
        method: &str,
        id: Option<Value>,
        offers_task_context: bool,
        effects: &mut Vec<Effect>,
    ) -> (outcome: Outcome)
        requires
            method@ == "turn/start"@ ==> old(self).turn_start_count < u64::MAX,
        ensures
            ({
                let before = old(self)@;
                let played = before.answering(method@, optional_json(id), offers_task_context);
                &&& final(self)@ == SessionView {
                    state: played.state,
                    turn_start_count: if method@ == "turn/start"@ {
                        before.turn_start_count + 1
                    } else {
                        before.turn_start_count
                    },
                    ..before
                }
                &&& trace(final(effects)@) == trace(old(effects)@) + played.effects
                &&& outcome@ == played.outcome
            }),
    {
        let unauthorized = self.switches.require_dynamic_tool && !offers_task_context;
        proof {
            reveal_strlit("initialize");
            reveal_strlit("initialized");
            reveal_strlit("thread/start");
            reveal_strlit("thread/resume");
            reveal_strlit("thread/read");
            reveal_strlit("turn/start");
            assert("turn/start"@[1] != "initialize"@[1]);
            assert("turn/start"@[1] != "initialized"@[1]);
            assert("turn/start"@[1] != "thread/start"@[1]);
            assert("turn/start"@[1] != "thread/resume"@[1]);
            assert("turn/start"@[1] != "thread/read"@[1]);
        }
        if method.eq("initialize") {
            respond(id, Reply::Initialized, effects);
            Outcome::Continue
        } else if method.eq("initialized") {
            Outcome::Continue
        } else if method.eq("thread/start") {
            if unauthorized {
                return Outcome::Fail(Failure::ThreadStartWithoutTool);
            }
            self.start_thread(id, effects);
            Outcome::Continue
        } else if method.eq("thread/resume") {
            if unauthorized {
                return Outcome::Fail(Failure::ThreadResumeWithoutTool);
            }
            respond(id, Reply::Thread { thread_id: self.state.thread_id.clone() }, effects);
            Outcome::Continue
        } else if method.eq("thread/read") {
            let state = self.state.clone();
            respond(
                id,
                Reply::ThreadRead {
                    thread_id: state.thread_id,
                    active_turn_id: state.active_turn_id,
                },
                effects,
            );
            if self.switches.fail_after_thread_read {
                Outcome::Fail(Failure::AfterThreadRead)
            } else if self.switches.exit_after_thread_read {
                Outcome::Exit
            } else {
                Outcome::Continue
            }
        } else if method.eq("turn/start") {
            self.start_turn(id, effects)
        } else if method.eq("turn/steer") {
            respond(id, Reply::Accepted, effects);
            Outcome::Continue
        } else if method.eq("turn/interrupt") {
            respond(id, Reply::Accepted, effects);
            finish_turn(&mut self.state, TurnStatus::Interrupted, effects);
            Outcome::Continue
        } else {
            if id.is_some() {
                respond(id, Reply::Unsupported { method: method.to_owned() }, effects);
            }
            Outcome::Continue
        }
    }

    /// Deals with the answer to the tool call.
    fn take_tool_reply(&mut self, reply: ToolReply, effects: &mut Vec<Effect>) -> (outcome: Outcome)
        ensures
            ({
                let before = old(self)@;
                let played = before.tool_answered(reply@);
                &&& final(self)@ == SessionView { state: played.state, ..before }
                &&& trace(final(effects)@) == trace(old(effects)@) + played.effects
                &&& outcome@ == played.outcome
            }),
    {
        match reply {
            ToolReply::Failed => {
                log_call(self.logs_calls, "tool-response:failure", effects);
                if self.state.active_turn_id.is_some() {
                    finish_turn(&mut self.state, TurnStatus::Failed, effects);
                }
                Outcome::Continue
            },
            ToolReply::SuccessMissing => Outcome::Fail(Failure::ToolSuccessMissing),
            ToolReply::TextMissing => Outcome::Fail(Failure::ToolTextMissing),
            ToolReply::InvalidResult(reason) => Outcome::InvalidJson(reason),
            ToolReply::ResultChanged => Outcome::Fail(Failure::ToolResultChanged),
            ToolReply::Accepted => {
                if self.switches.replay_completed_tool_call {
                    let state = self.state.clone();
                    emit(
                        effects,
                        Effect::Send(
                            Outgoing::ToolCall {
                                request: ToolRequest::Replay,
                                thread_id: state.thread_id,
                                calling_turn_id: state.active_turn_id,
                            },
                        ),
                    );
                } else {
                    finish_turn(&mut self.state, TurnStatus::Completed, effects);
                }
                Outcome::Continue
            },
        }
    }

    /// Deals with a message.
    pub fn handle(&mut self, incoming: Incoming) -> (step: Step)
        requires
            incoming@.starts_turn() ==> old(self).turn_start_count < u64::MAX,
        ensures
            final(self)@ == old(self)@.next(incoming@),
            trace(step.effects@) == old(self)@.transition(incoming@).effects,
            step.outcome@ == old(self)@.transition(incoming@).outcome,
    {
        let mut effects: Vec<Effect> = Vec::new();
        let outcome = match incoming {
            Incoming::RuntimeReply => {
                finish_turn(&mut self.state, TurnStatus::Completed, &mut effects);
                Outcome::Continue
            },
            Incoming::ToolReply(reply) => self.take_tool_reply(reply, &mut effects),
            Incoming::Call { method, id, offers_task_context } => {
                log_call(self.logs_calls, method.as_str(), &mut effects);
                self.answer_call(method.as_str(), id, offers_task_context, &mut effects)
            },
            Incoming::Unaddressed => Outcome::Continue,
        };
        Step { effects, outcome }
    }

    /// Deals with a line. One that is not JSON ends the server.
    ///
    /// The turns are counted in 64 bits: the count must have room for one more,
    /// since the line may turn out to start a turn.
    pub fn receive(&mut self, line: &str) -> (step: Step)
        requires
            old(self).turn_start_count < u64::MAX,
        ensures
            match parsed(line@) {
                Ok(message) => {
                    let incoming = incoming_of(message);
                    &&& final(self)@ == old(self)@.next(incoming)
                    &&& trace(step.effects@) == old(self)@.transition(incoming).effects
                    &&& step.outcome@ == old(self)@.transition(incoming).outcome
                },
                Err(reason) => {
                    &&& final(self)@ == old(self)@
                    &&& trace(step.effects@) == Seq::<EffectView>::empty()
                    &&& step.outcome@ == OutcomeView::InvalidJson(reason)
                },
            },
    {
        match Incoming::read_line(line) {
            Ok(incoming) => self.handle(incoming),
            Err(reason) => Step { effects: Vec::new(), outcome: Outcome::InvalidJson(reason) },
        }
    }

}

} // verus!
