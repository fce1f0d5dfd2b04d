//! What each call, each answer and each end of a turn brings about.

use crate::json::Json;
use crate::message::{IncomingView, ToolReplyView};
use crate::options::Switches;
use crate::protocol::{Item, Notice, OutgoingView, ReplyView, ToolRequest, TurnStatus};
use crate::session::{
    evidence, finishing, opened, restored, EffectView, Failure, OutcomeView, SessionView,
    StateView, Transition,
};
use vstd::prelude::*;

verus! {

/// No two methods are taken for each other.
pub(crate) proof fn lemma_methods()
    ensures
        "initialize"@ != "initialized"@,
        "initialize"@ != "thread/start"@,
        "initialize"@ != "thread/resume"@,
        "initialize"@ != "thread/read"@,
        "initialize"@ != "turn/start"@,
        "initialize"@ != "turn/steer"@,
        "initialize"@ != "turn/interrupt"@,
        "initialized"@ != "thread/start"@,
        "initialized"@ != "thread/resume"@,
        "initialized"@ != "thread/read"@,
        "initialized"@ != "turn/start"@,
        "initialized"@ != "turn/steer"@,
        "initialized"@ != "turn/interrupt"@,
        "thread/start"@ != "thread/resume"@,
        "thread/start"@ != "thread/read"@,
        "thread/start"@ != "turn/start"@,
        "thread/start"@ != "turn/steer"@,
        "thread/start"@ != "turn/interrupt"@,
        "thread/resume"@ != "thread/read"@,
        "thread/resume"@ != "turn/start"@,
        "thread/resume"@ != "turn/steer"@,
        "thread/resume"@ != "turn/interrupt"@,
        "thread/read"@ != "turn/start"@,
        "thread/read"@ != "turn/steer"@,
        "thread/read"@ != "turn/interrupt"@,
        "turn/start"@ != "turn/steer"@,
        "turn/start"@ != "turn/interrupt"@,
        "turn/steer"@ != "turn/interrupt"@,
{
    reveal_strlit("initialize");
    reveal_strlit("initialized");
    reveal_strlit("thread/start");
    reveal_strlit("thread/resume");
    reveal_strlit("thread/read");
    reveal_strlit("turn/start");
    reveal_strlit("turn/steer");
    reveal_strlit("turn/interrupt");
    assert("initialize"@.len() == 10);
    assert("initialized"@.len() == 11);
    assert("thread/start"@.len() == 12);
    assert("thread/resume"@.len() == 13);
    assert("thread/read"@.len() == 11);
    assert("initialize"@[0] == 'i');
    assert("turn/start"@[0] == 't');
    assert("turn/steer"@[0] == 't');
    assert("turn/interrupt"@.len() == 14);
    assert("initialized"@[0] == 'i');
    assert("thread/read"@[0] == 't');
    assert("turn/start"@.len() == 10);
    assert("turn/steer"@.len() == 10);
    assert("turn/start"@[7] == 'a');
    assert("turn/steer"@[7] == 'e');
}

/// A call is recorded, if calls are, and then does what the method asks for.
pub proof fn law_call_is_recorded_and_then_answered(
    session: SessionView,
    method: Seq<char>,
    id: Option<Json>,
    offers: bool,
)
    ensures
        session.transition(
            IncomingView::Call { method, id, offers_task_context: offers },
        ) == (Transition {
            effects: (if session.logs_calls {
                seq![EffectView::Log(method)]
            } else {
                Seq::empty()
            }) + session.answering(method, id, offers).effects,
            ..session.answering(method, id, offers)
        }),
{
    assert(session.transition(
        IncomingView::Call { method, id, offers_task_context: offers },
    ) =~= (Transition {
            effects: (if session.logs_calls {
                seq![EffectView::Log(method)]
            } else {
                Seq::empty()
            }) + session.answering(method, id, offers).effects,
            ..session.answering(method, id, offers)
        }));
}

/// An initialization is answered and changes nothing.
pub proof fn law_initialize(session: SessionView, id: Option<Json>, offers: bool)
    ensures
        session.answering("initialize"@, id, offers) == (Transition {
            state: session.state,
            effects: seq![
                EffectView::Send(OutgoingView::Response { id, reply: ReplyView::Initialized }),
            ],
            outcome: OutcomeView::Continue,
        }),
{
    lemma_methods();
    assert(session.answering("initialize"@, id, offers) =~= (Transition {
            state: session.state,
            effects: seq![
                EffectView::Send(OutgoingView::Response { id, reply: ReplyView::Initialized }),
            ],
            outcome: OutcomeView::Continue,
        }));
}

/// The end of an initialization is passed over.
pub proof fn law_initialized(session: SessionView, id: Option<Json>, offers: bool)
    ensures
        session.answering("initialized"@, id, offers) == (Transition {
            state: session.state,
            effects: Seq::empty(),
            outcome: OutcomeView::Continue,
        }),
{
    lemma_methods();
    assert(session.answering("initialized"@, id, offers) =~= (Transition {
            state: session.state,
            effects: Seq::empty(),
            outcome: OutcomeView::Continue,
        }));
}

/// A thread start opens the first thread without a turn, whatever was open before:
/// the state is stored, perhaps the client is warned, and then it is answered.
pub proof fn law_thread_start(session: SessionView, id: Option<Json>, offers: bool)
    requires
        offers || !session.switches.require_dynamic_tool,
    ensures
        session.answering("thread/start"@, id, offers) == (Transition {
            state: StateView { thread_id: "codex-thread-1"@, active_turn_id: None },
            effects: seq![
                EffectView::Save(StateView { thread_id: "codex-thread-1"@, active_turn_id: None }),
            ] + (if session.switches.pre_response_notification {
                seq![EffectView::Send(OutgoingView::Warning(Notice::BeforeThreadResponse))]
            } else {
                Seq::empty()
            }) + seq![
                EffectView::Send(
                    OutgoingView::Response {
                        id,
                        reply: ReplyView::Thread { thread_id: "codex-thread-1"@ },
                    },
                ),
            ],
            outcome: OutcomeView::Continue,
        }),
{
    lemma_methods();
    assert(session.answering("thread/start"@, id, offers) =~= (Transition {
            state: StateView { thread_id: "codex-thread-1"@, active_turn_id: None },
            effects: seq![
                EffectView::Save(StateView { thread_id: "codex-thread-1"@, active_turn_id: None }),
            ] + (if session.switches.pre_response_notification {
                seq![EffectView::Send(OutgoingView::Warning(Notice::BeforeThreadResponse))]
            } else {
                Seq::empty()
            }) + seq![
                EffectView::Send(
                    OutgoingView::Response {
                        id,
                        reply: ReplyView::Thread { thread_id: "codex-thread-1"@ },
                    },
                ),
            ],
            outcome: OutcomeView::Continue,
        }));
}

/// A resumed thread is the one that is open, with its turn, and nothing changes.
pub proof fn law_thread_resume(session: SessionView, id: Option<Json>, offers: bool)
    requires
        offers || !session.switches.require_dynamic_tool,
    ensures
        session.answering("thread/resume"@, id, offers) == (Transition {
            state: session.state,
            effects: seq![
                EffectView::Send(
                    OutgoingView::Response {
                        id,
                        reply: ReplyView::Thread { thread_id: session.state.thread_id },
                    },
                ),
            ],
            outcome: OutcomeView::Continue,
        }),
{
    lemma_methods();
    assert(session.answering("thread/resume"@, id, offers) =~= (Transition {
            state: session.state,
            effects: seq![
                EffectView::Send(
                    OutgoingView::Response {
                        id,
                        reply: ReplyView::Thread { thread_id: session.state.thread_id },
                    },
                ),
            ],
            outcome: OutcomeView::Continue,
        }));
}

/// Without the tool that the server insists on no thread is started.
pub proof fn law_thread_start_without_the_tool(session: SessionView, id: Option<Json>, offers: bool)
    requires
        !offers,
        session.switches.require_dynamic_tool,
    ensures
        session.answering("thread/start"@, id, offers) == (Transition {
            state: session.state,
            effects: Seq::empty(),
            outcome: OutcomeView::Fail(Failure::ThreadStartWithoutTool),
        }),
{
    lemma_methods();
    assert(session.answering("thread/start"@, id, offers) =~= (Transition {
            state: session.state,
            effects: Seq::empty(),
            outcome: OutcomeView::Fail(Failure::ThreadStartWithoutTool),
        }));
}

/// Without the tool that the server insists on no thread is resumed.
pub proof fn law_thread_resume_without_the_tool(
    session: SessionView,
    id: Option<Json>,
    offers: bool,
)
    requires
        !offers,
        session.switches.require_dynamic_tool,
    ensures
        session.answering("thread/resume"@, id, offers) == (Transition {
            state: session.state,
            effects: Seq::empty(),
            outcome: OutcomeView::Fail(Failure::ThreadResumeWithoutTool),
        }),
{
    lemma_methods();
    assert(session.answering("thread/resume"@, id, offers) =~= (Transition {
            state: session.state,
            effects: Seq::empty(),
            outcome: OutcomeView::Fail(Failure::ThreadResumeWithoutTool),
        }));
}

/// A thread is read as it is: the answer tells the thread and the turn in
/// progress, and nothing changes. The server may end there.
pub proof fn law_thread_read(session: SessionView, id: Option<Json>, offers: bool)
    ensures
        session.answering("thread/read"@, id, offers) == (Transition {
            state: session.state,
            effects: seq![
                EffectView::Send(
                    OutgoingView::Response {
                        id,
                        reply: ReplyView::ThreadRead {
                            thread_id: session.state.thread_id,
                            active_turn_id: session.state.active_turn_id,
                        },
                    },
                ),
            ],
            outcome: if session.switches.fail_after_thread_read {
                OutcomeView::Fail(Failure::AfterThreadRead)
            } else if session.switches.exit_after_thread_read {
                OutcomeView::Exit
            } else {
                OutcomeView::Continue
            },
        }),
{
    lemma_methods();
    assert(session.answering("thread/read"@, id, offers) =~= (Transition {
            state: session.state,
            effects: seq![
                EffectView::Send(
                    OutgoingView::Response {
                        id,
                        reply: ReplyView::ThreadRead {
                            thread_id: session.state.thread_id,
                            active_turn_id: session.state.active_turn_id,
                        },
                    },
                ),
            ],
            outcome: if session.switches.fail_after_thread_read {
                OutcomeView::Fail(Failure::AfterThreadRead)
            } else if session.switches.exit_after_thread_read {
                OutcomeView::Exit
            } else {
                OutcomeView::Continue
            },
        }));
}

/// Steering is granted and changes nothing: a turn in progress stays so.
pub proof fn law_steer(session: SessionView, id: Option<Json>, offers: bool)
    ensures
        session.answering("turn/steer"@, id, offers) == (Transition {
            state: session.state,
            effects: seq![
                EffectView::Send(OutgoingView::Response { id, reply: ReplyView::Accepted }),
            ],
            outcome: OutcomeView::Continue,
        }),
{
    lemma_methods();
    assert(session.answering("turn/steer"@, id, offers) =~= (Transition {
            state: session.state,
            effects: seq![
                EffectView::Send(OutgoingView::Response { id, reply: ReplyView::Accepted }),
            ],
            outcome: OutcomeView::Continue,
        }));
}

/// An interruption is granted, and then the turn in progress ends as interrupted.
pub proof fn law_interrupt(session: SessionView, id: Option<Json>, offers: bool)
    ensures
        session.answering("turn/interrupt"@, id, offers) == (Transition {
            state: StateView { active_turn_id: None, ..session.state },
            effects: seq![
                EffectView::Send(OutgoingView::Response { id, reply: ReplyView::Accepted }),
                EffectView::Send(OutgoingView::ItemCompleted(Item::Final)),
                EffectView::Send(OutgoingView::TokenUsage { thread_id: session.state.thread_id }),
                EffectView::Send(
                    OutgoingView::TurnCompleted {
                        turn_id: (match session.state.active_turn_id {
                            Some(active) => active,
                            None => "provider-turn-1"@,
                        }),
                        status: TurnStatus::Interrupted,
                    },
                ),
                EffectView::Save(StateView { active_turn_id: None, ..session.state }),
            ],
            outcome: OutcomeView::Continue,
        }),
{
    lemma_methods();
    assert(session.answering("turn/interrupt"@, id, offers) =~= (Transition {
            state: StateView { active_turn_id: None, ..session.state },
            effects: seq![
                EffectView::Send(OutgoingView::Response { id, reply: ReplyView::Accepted }),
                EffectView::Send(OutgoingView::ItemCompleted(Item::Final)),
                EffectView::Send(OutgoingView::TokenUsage { thread_id: session.state.thread_id }),
                EffectView::Send(
                    OutgoingView::TurnCompleted {
                        turn_id: (match session.state.active_turn_id {
                            Some(active) => active,
                            None => "provider-turn-1"@,
                        }),
                        status: TurnStatus::Interrupted,
                    },
                ),
                EffectView::Save(StateView { active_turn_id: None, ..session.state }),
            ],
            outcome: OutcomeView::Continue,
        }));
}

/// A method that the server does not know is refused by name where an answer is
/// due, else passed over.
pub proof fn law_unknown_method(
    session: SessionView,
    method: Seq<char>,
    id: Option<Json>,
    offers: bool,
)
    requires
        method != "initialize"@,
        method != "initialized"@,
        method != "thread/start"@,
        method != "thread/resume"@,
        method != "thread/read"@,
        method != "turn/start"@,
        method != "turn/steer"@,
        method != "turn/interrupt"@,
    ensures
        session.answering(method, id, offers) == (Transition {
            state: session.state,
            effects: if id is Some {
                seq![
                    EffectView::Send(
                        OutgoingView::Response { id, reply: ReplyView::Unsupported { method } },
                    ),
                ]
            } else {
                Seq::empty()
            },
            outcome: OutcomeView::Continue,
        }),
{
    assert(session.answering(method, id, offers) =~= (Transition {
            state: session.state,
            effects: if id is Some {
                seq![
                    EffectView::Send(
                        OutgoingView::Response { id, reply: ReplyView::Unsupported { method } },
                    ),
                ]
            } else {
                Seq::empty()
            },
            outcome: OutcomeView::Continue,
        }));
}

/// The answer to the question completes the turn in progress.
pub proof fn law_question_answered(session: SessionView)
    ensures
        session.transition(IncomingView::RuntimeReply) == (Transition {
            state: StateView { active_turn_id: None, ..session.state },
            effects: seq![
                EffectView::Send(OutgoingView::ItemCompleted(Item::Final)),
                EffectView::Send(OutgoingView::TokenUsage { thread_id: session.state.thread_id }),
                EffectView::Send(
                    OutgoingView::TurnCompleted {
                        turn_id: (match session.state.active_turn_id {
                            Some(active) => active,
                            None => "provider-turn-1"@,
                        }),
                        status: TurnStatus::Completed,
                    },
                ),
                EffectView::Save(StateView { active_turn_id: None, ..session.state }),
            ],
            outcome: OutcomeView::Continue,
        }),
{
    assert(session.transition(IncomingView::RuntimeReply) =~= (Transition {
            state: StateView { active_turn_id: None, ..session.state },
            effects: seq![
                EffectView::Send(OutgoingView::ItemCompleted(Item::Final)),
                EffectView::Send(OutgoingView::TokenUsage { thread_id: session.state.thread_id }),
                EffectView::Send(
                    OutgoingView::TurnCompleted {
                        turn_id: (match session.state.active_turn_id {
                            Some(active) => active,
                            None => "provider-turn-1"@,
                        }),
                        status: TurnStatus::Completed,
                    },
                ),
                EffectView::Save(StateView { active_turn_id: None, ..session.state }),
            ],
            outcome: OutcomeView::Continue,
        }));
}

/// What is not addressed to the server changes nothing.
pub proof fn law_unaddressed(session: SessionView)
    ensures
        session.transition(IncomingView::Unaddressed) == (Transition {
            state: session.state,
            effects: Seq::empty(),
            outcome: OutcomeView::Continue,
        }),
{
    assert(session.transition(IncomingView::Unaddressed) =~= (Transition {
            state: session.state,
            effects: Seq::empty(),
            outcome: OutcomeView::Continue,
        }));
}

/// A failed tool is recorded and fails the turn in progress, under its own
/// identity.
pub proof fn law_failed_tool_fails_the_turn(session: SessionView, turn_id: Seq<char>)
    requires
        session.state.active_turn_id == Some(turn_id),
    ensures
        session.transition(IncomingView::ToolReply(ToolReplyView::Failed)) == (Transition {
            state: StateView { active_turn_id: None, ..session.state },
            effects: (if session.logs_calls {
                seq![EffectView::Log("tool-response:failure"@)]
            } else {
                Seq::empty()
            }) + seq![
                EffectView::Send(OutgoingView::ItemCompleted(Item::Final)),
                EffectView::Send(OutgoingView::TokenUsage { thread_id: session.state.thread_id }),
                EffectView::Send(
                    OutgoingView::TurnCompleted {
                        turn_id: turn_id,
                        status: TurnStatus::Failed,
                    },
                ),
                EffectView::Save(StateView { active_turn_id: None, ..session.state }),
            ],
            outcome: OutcomeView::Continue,
        }),
{
    assert(session.transition(IncomingView::ToolReply(ToolReplyView::Failed)) =~= (Transition {
            state: StateView { active_turn_id: None, ..session.state },
            effects: (if session.logs_calls {
                seq![EffectView::Log("tool-response:failure"@)]
            } else {
                Seq::empty()
            }) + seq![
                EffectView::Send(OutgoingView::ItemCompleted(Item::Final)),
                EffectView::Send(OutgoingView::TokenUsage { thread_id: session.state.thread_id }),
                EffectView::Send(
                    OutgoingView::TurnCompleted {
                        turn_id: turn_id,
                        status: TurnStatus::Failed,
                    },
                ),
                EffectView::Save(StateView { active_turn_id: None, ..session.state }),
            ],
            outcome: OutcomeView::Continue,
        }));
}

/// A failed tool without a turn in progress is only recorded.
pub proof fn law_failed_tool_without_a_turn(session: SessionView)
    requires
        session.state.active_turn_id is None,
    ensures
        session.transition(IncomingView::ToolReply(ToolReplyView::Failed)) == (Transition {
            state: session.state,
            effects: (if session.logs_calls {
                seq![EffectView::Log("tool-response:failure"@)]
            } else {
                Seq::empty()
            }),
            outcome: OutcomeView::Continue,
        }),
{
    assert(session.transition(IncomingView::ToolReply(ToolReplyView::Failed)) =~= (Transition {
            state: session.state,
            effects: (if session.logs_calls {
                seq![EffectView::Log("tool-response:failure"@)]
            } else {
                Seq::empty()
            }),
            outcome: OutcomeView::Continue,
        }));
}

/// An answer that does not say whether the tool succeeded fails the server.
pub proof fn law_tool_success_missing(session: SessionView)
    ensures
        session.transition(IncomingView::ToolReply(ToolReplyView::SuccessMissing)) == (Transition {
            state: session.state,
            effects: Seq::empty(),
            outcome: OutcomeView::Fail(Failure::ToolSuccessMissing),
        }),
{
    assert(session.transition(
        IncomingView::ToolReply(ToolReplyView::SuccessMissing),
    ) =~= (Transition {
            state: session.state,
            effects: Seq::empty(),
            outcome: OutcomeView::Fail(Failure::ToolSuccessMissing),
        }));
}

/// A success without a text fails the server.
pub proof fn law_tool_text_missing(session: SessionView)
    ensures
        session.transition(IncomingView::ToolReply(ToolReplyView::TextMissing)) == (Transition {
            state: session.state,
            effects: Seq::empty(),
            outcome: OutcomeView::Fail(Failure::ToolTextMissing),
        }),
{
    assert(session.transition(IncomingView::ToolReply(ToolReplyView::TextMissing)) =~= (Transition {
            state: session.state,
            effects: Seq::empty(),
            outcome: OutcomeView::Fail(Failure::ToolTextMissing),
        }));
}

/// A changed result fails the server.
pub proof fn law_tool_result_changed(session: SessionView)
    ensures
        session.transition(IncomingView::ToolReply(ToolReplyView::ResultChanged)) == (Transition {
            state: session.state,
            effects: Seq::empty(),
            outcome: OutcomeView::Fail(Failure::ToolResultChanged),
        }),
{
    assert(session.transition(
        IncomingView::ToolReply(ToolReplyView::ResultChanged),
    ) =~= (Transition {
            state: session.state,
            effects: Seq::empty(),
            outcome: OutcomeView::Fail(Failure::ToolResultChanged),
        }));
}

/// A result that is not JSON ends the server with the reason.
pub proof fn law_tool_invalid_result(session: SessionView, reason: Seq<char>)
    ensures
        session.transition(
            IncomingView::ToolReply(ToolReplyView::InvalidResult(reason)),
        ) == (Transition {
            state: session.state,
            effects: Seq::empty(),
            outcome: OutcomeView::InvalidJson(reason),
        }),
{
    assert(session.transition(
        IncomingView::ToolReply(ToolReplyView::InvalidResult(reason)),
    ) =~= (Transition {
            state: session.state,
            effects: Seq::empty(),
            outcome: OutcomeView::InvalidJson(reason),
        }));
}

/// An accepted result completes the turn in progress.
pub proof fn law_tool_accepted(session: SessionView)
    requires
        !session.switches.replay_completed_tool_call,
    ensures
        session.transition(IncomingView::ToolReply(ToolReplyView::Accepted)) == (Transition {
            state: StateView { active_turn_id: None, ..session.state },
            effects: seq![
                EffectView::Send(OutgoingView::ItemCompleted(Item::Final)),
                EffectView::Send(OutgoingView::TokenUsage { thread_id: session.state.thread_id }),
                EffectView::Send(
                    OutgoingView::TurnCompleted {
                        turn_id: (match session.state.active_turn_id {
                            Some(active) => active,
                            None => "provider-turn-1"@,
                        }),
                        status: TurnStatus::Completed,
                    },
                ),
                EffectView::Save(StateView { active_turn_id: None, ..session.state }),
            ],
            outcome: OutcomeView::Continue,
        }),
{
    assert(session.transition(IncomingView::ToolReply(ToolReplyView::Accepted)) =~= (Transition {
            state: StateView { active_turn_id: None, ..session.state },
            effects: seq![
                EffectView::Send(OutgoingView::ItemCompleted(Item::Final)),
                EffectView::Send(OutgoingView::TokenUsage { thread_id: session.state.thread_id }),
                EffectView::Send(
                    OutgoingView::TurnCompleted {
                        turn_id: (match session.state.active_turn_id {
                            Some(active) => active,
                            None => "provider-turn-1"@,
                        }),
                        status: TurnStatus::Completed,
                    },
                ),
                EffectView::Save(StateView { active_turn_id: None, ..session.state }),
            ],
            outcome: OutcomeView::Continue,
        }));
}

/// A server that replays tool calls makes the call once more in the same thread
/// and turn, and the turn goes on.
pub proof fn law_tool_replayed(session: SessionView)
    requires
        session.switches.replay_completed_tool_call,
    ensures
        session.transition(IncomingView::ToolReply(ToolReplyView::Accepted)) == (Transition {
            state: session.state,
            effects: seq![
                EffectView::Send(
                    OutgoingView::ToolCall {
                        request: ToolRequest::Replay,
                        thread_id: session.state.thread_id,
                        calling_turn_id: session.state.active_turn_id,
                    },
                ),
            ],
            outcome: OutcomeView::Continue,
        }),
{
    assert(session.transition(IncomingView::ToolReply(ToolReplyView::Accepted)) =~= (Transition {
            state: session.state,
            effects: seq![
                EffectView::Send(
                    OutgoingView::ToolCall {
                        request: ToolRequest::Replay,
                        thread_id: session.state.thread_id,
                        calling_turn_id: session.state.active_turn_id,
                    },
                ),
            ],
            outcome: OutcomeView::Continue,
        }));
}

/// A turn ends with its last message, its usage and its end, under its own
/// identity, and then the state without it is stored. The thread stays.
pub proof fn law_finishing(state: StateView, status: TurnStatus)
    ensures
        finishing(state, status) == (Transition {
            state: StateView { active_turn_id: None, ..state },
            effects: seq![
                EffectView::Send(OutgoingView::ItemCompleted(Item::Final)),
                EffectView::Send(OutgoingView::TokenUsage { thread_id: state.thread_id }),
                EffectView::Send(
                    OutgoingView::TurnCompleted {
                        turn_id: (match state.active_turn_id {
                            Some(active) => active,
                            None => "provider-turn-1"@,
                        }),
                        status: status,
                    },
                ),
                EffectView::Save(StateView { active_turn_id: None, ..state }),
            ],
            outcome: OutcomeView::Continue,
        }),
{
    assert(finishing(state, status) =~= (Transition {
            state: StateView { active_turn_id: None, ..state },
            effects: seq![
                EffectView::Send(OutgoingView::ItemCompleted(Item::Final)),
                EffectView::Send(OutgoingView::TokenUsage { thread_id: state.thread_id }),
                EffectView::Send(
                    OutgoingView::TurnCompleted {
                        turn_id: (match state.active_turn_id {
                            Some(active) => active,
                            None => "provider-turn-1"@,
                        }),
                        status: status,
                    },
                ),
                EffectView::Save(StateView { active_turn_id: None, ..state }),
            ],
            outcome: OutcomeView::Continue,
        }));
}

/// Evidence of a turn shows its start, where asked for, and its end, both under
/// the turn's own identity.
pub proof fn law_evidence(state: StateView, started: bool)
    ensures
        evidence(state, started, false) == (Transition {
            state: StateView { active_turn_id: None, ..state },
            effects: (if started {
                seq![
                    EffectView::Send(
                        OutgoingView::TurnStarted {
                            turn_id: match state.active_turn_id {
                                Some(active) => active,
                                None => "provider-turn-2"@,
                            },
                        },
                    ),
                ]
            } else {
                Seq::empty()
            }) + seq![
                EffectView::Send(OutgoingView::ItemCompleted(Item::Final)),
                EffectView::Send(OutgoingView::TokenUsage { thread_id: state.thread_id }),
                EffectView::Send(
                    OutgoingView::TurnCompleted {
                        turn_id: (match state.active_turn_id {
                            Some(active) => active,
                            None => "provider-turn-1"@,
                        }),
                        status: TurnStatus::Completed,
                    },
                ),
                EffectView::Save(StateView { active_turn_id: None, ..state }),
            ],
            outcome: OutcomeView::Continue,
        }),
{
    assert(evidence(state, started, false) =~= (Transition {
            state: StateView { active_turn_id: None, ..state },
            effects: (if started {
                seq![
                    EffectView::Send(
                        OutgoingView::TurnStarted {
                            turn_id: match state.active_turn_id {
                                Some(active) => active,
                                None => "provider-turn-2"@,
                            },
                        },
                    ),
                ]
            } else {
                Seq::empty()
            }) + seq![
                EffectView::Send(OutgoingView::ItemCompleted(Item::Final)),
                EffectView::Send(OutgoingView::TokenUsage { thread_id: state.thread_id }),
                EffectView::Send(
                    OutgoingView::TurnCompleted {
                        turn_id: (match state.active_turn_id {
                            Some(active) => active,
                            None => "provider-turn-1"@,
                        }),
                        status: TurnStatus::Completed,
                    },
                ),
                EffectView::Save(StateView { active_turn_id: None, ..state }),
            ],
            outcome: OutcomeView::Continue,
        }));
}

/// Contradictory evidence of a turn shows its start, where asked for, and the end
/// of another turn. Nothing changes.
pub proof fn law_contradictory_evidence(state: StateView, started: bool)
    ensures
        evidence(state, started, true) == (Transition {
            state: state,
            effects: (if started {
                seq![
                    EffectView::Send(
                        OutgoingView::TurnStarted {
                            turn_id: match state.active_turn_id {
                                Some(active) => active,
                                None => "provider-turn-2"@,
                            },
                        },
                    ),
                ]
            } else {
                Seq::empty()
            }) + seq![
                EffectView::Send(
                    OutgoingView::TurnCompleted {
                        turn_id: "provider-turn-conflict"@,
                        status: TurnStatus::Completed,
                    },
                ),
            ],
            outcome: OutcomeView::Continue,
        }),
{
    assert(evidence(state, started, true) =~= (Transition {
            state: state,
            effects: (if started {
                seq![
                    EffectView::Send(
                        OutgoingView::TurnStarted {
                            turn_id: match state.active_turn_id {
                                Some(active) => active,
                                None => "provider-turn-2"@,
                            },
                        },
                    ),
                ]
            } else {
                Seq::empty()
            }) + seq![
                EffectView::Send(
                    OutgoingView::TurnCompleted {
                        turn_id: "provider-turn-conflict"@,
                        status: TurnStatus::Completed,
                    },
                ),
            ],
            outcome: OutcomeView::Continue,
        }));
}

/// A server starts with what is stored, or with the first thread without a
/// turn, and has started no turns.
pub proof fn law_opened(switches: Switches, logs_calls: bool, state: StateView)
    ensures
        restored(Some(state)) == state,
        restored(None) == (StateView { thread_id: "codex-thread-1"@, active_turn_id: None }),
        opened(switches, logs_calls, Some(state)) == (SessionView {
            switches,
            logs_calls,
            state,
            turn_start_count: 0,
        }),
        opened(switches, logs_calls, None) == (SessionView {
            switches,
            logs_calls,
            state: StateView { thread_id: "codex-thread-1"@, active_turn_id: None },
            turn_start_count: 0,
        }),
{
}

/// After a message the server is in the state that the message led to, keeps
/// its set-up, and has counted one more turn just if the message was a call to
/// start one.
pub proof fn law_next(session: SessionView, incoming: IncomingView)
    ensures
        session.next(incoming).state == session.transition(incoming).state,
        session.next(incoming).switches == session.switches,
        session.next(incoming).logs_calls == session.logs_calls,
        session.next(incoming).turn_start_count == session.turn_start_count + (
        match incoming {
            IncomingView::Call { method, .. } => if method == "turn/start"@ {
                1int
            } else {
                0int
            },
            _ => 0int,
        }),
        incoming.starts_turn() == (incoming matches IncomingView::Call { method, .. } && method
            == "turn/start"@),
{
}

} // verus!
