//! A restarted server goes on where the last one was.

use crate::json::Json;
use crate::message::IncomingView;
use crate::options::Switches;
use crate::protocol::{OutgoingView, ReplyView, TurnStatus};
use crate::session::{
    accepted_turn_id, accepting, aftermath, answer, answering_properly, course, evidence,
    finishing, initial_state, late_evidence, mishandling, opened, rejecting, restored, start_mode,
    starting, EffectView, OutcomeView, SessionView, StartMode, StateView, Transition,
};
use vstd::prelude::*;

verus! {

/// What is stored once some effects are performed.
pub open spec fn stored_after(stored: Option<StateView>, effects: Seq<EffectView>) -> Option<
    StateView,
>
    decreases effects.len(),
{
    if effects.len() == 0 {
        stored
    } else {
        match effects.last() {
            EffectView::Save(state) => Some(state),
            _ => stored_after(stored, effects.drop_last()),
        }
    }
}

/// Performing one row of effects after another.
proof fn lemma_stored_after_both(
    stored: Option<StateView>,
    first: Seq<EffectView>,
    second: Seq<EffectView>,
)
    ensures
        stored_after(stored, first + second) == stored_after(stored_after(stored, first), second),
    decreases second.len(),
{
    if second.len() == 0 {
        assert(first + second =~= first);
    } else {
        lemma_stored_after_both(stored, first, second.drop_last());
        assert((first + second).drop_last() =~= first + second.drop_last());
    }
}

/// Effects that store nothing leave the store alone.
proof fn lemma_nothing_stored(stored: Option<StateView>, effects: Seq<EffectView>)
    requires
        forall|i: int| 0 <= i < effects.len() ==> !(#[trigger] effects[i] is Save),
    ensures
        stored_after(stored, effects) == stored,
    decreases effects.len(),
{
    if effects.len() > 0 {
        assert(!(effects[effects.len() - 1] is Save));
        assert forall|i: int| 0 <= i < effects.drop_last().len() implies !(
        #[trigger] effects.drop_last()[i] is Save) by {
            assert(!(effects[i] is Save));
        }
        lemma_nothing_stored(stored, effects.drop_last());
    }
}

/// A transition that stores the state it leads to, or leaves both alone.
pub open spec fn keeps_store(transition: Transition, before: StateView) -> bool {
    forall|stored: Option<StateView>| restored(stored) == before ==> restored(
        #[trigger] stored_after(stored, transition.effects),
    ) == transition.state
}

proof fn lemma_idle_keeps_store(transition: Transition, before: StateView)
    requires
        transition.state == before,
        forall|i: int|
            0 <= i < transition.effects.len() ==> !(#[trigger] transition.effects[i] is Save),
    ensures
        keeps_store(transition, before),
{
    assert forall|stored: Option<StateView>| restored(stored) == before implies restored(
        #[trigger] stored_after(stored, transition.effects),
    ) == transition.state by {
        lemma_nothing_stored(stored, transition.effects);
    }
}

/// One transition after another.
proof fn lemma_chain_keeps_store(
    effects: Seq<EffectView>,
    middle: StateView,
    second: Transition,
    before: StateView,
)
    requires
        keeps_store(
            Transition { state: middle, effects, outcome: OutcomeView::Continue },
            before,
        ),
        keeps_store(second, middle),
    ensures
        keeps_store(second.after(effects), before),
{
    assert forall|stored: Option<StateView>| restored(stored) == before implies restored(
        #[trigger] stored_after(stored, second.after(effects).effects),
    ) == second.state by {
        lemma_stored_after_both(stored, effects, second.effects);
        let between = stored_after(stored, effects);
        assert(restored(between) == middle);
        assert(restored(stored_after(between, second.effects)) == second.state);
    }
}

proof fn lemma_finishing_keeps_store(
    state: StateView,
    status: TurnStatus,
)
    ensures
        keeps_store(finishing(state, status), state),
{
    let played = finishing(state, status);
    assert(played.effects.last() == EffectView::Save(played.state));
}

proof fn lemma_evidence_keeps_store(state: StateView, started: bool, conflicting: bool)
    ensures
        keeps_store(evidence(state, started, conflicting), state),
{
    let played = evidence(state, started, conflicting);
    if conflicting {
        lemma_idle_keeps_store(played, state);
    } else {
        assert(played.effects.last() == EffectView::Save(played.state));
    }
}

proof fn lemma_accepting_keeps_store(switches: Switches, state: StateView, count: nat)
    ensures
        keeps_store(accepting(switches, state, count), state),
{
    let accepted = StateView {
        active_turn_id: Some(accepted_turn_id(switches, count)),
        ..state
    };
    let save = seq![EffectView::Save(accepted)];
    let early = if count == 2 && switches.complete_ambiguous_second_turn_before_response {
        lemma_evidence_keeps_store(accepted, !switches.omit_ambiguous_turn_started, false);
        evidence(accepted, !switches.omit_ambiguous_turn_started, false)
    } else {
        lemma_idle_keeps_store(Transition::idle(accepted), accepted);
        Transition::idle(accepted)
    };
    assert(save.last() == EffectView::Save(accepted));
    lemma_chain_keeps_store(save, accepted, early, state);
}

proof fn lemma_late_evidence_keeps_store(switches: Switches, state: StateView, count: nat)
    ensures
        keeps_store(late_evidence(switches, state, count), state),
{
    lemma_evidence_keeps_store(
        state,
        !switches.omit_ambiguous_turn_started,
        switches.conflicting_ambiguous_second_turn,
    );
    lemma_idle_keeps_store(Transition::idle(state), state);
}

proof fn lemma_course_keeps_store(switches: Switches, state: StateView, count: nat)
    ensures
        keeps_store(course(switches, state, count), state),
{
    let played = course(switches, state, count);
    let end = finishing(state, TurnStatus::Completed);
    lemma_finishing_keeps_store(state, TurnStatus::Completed);
    if forall|i: int| 0 <= i < played.effects.len() ==> !(#[trigger] played.effects[i] is Save) {
        if played.state == state {
            lemma_idle_keeps_store(played, state);
        }
    }
    let after = aftermath(switches, end.state);
    lemma_idle_keeps_store(after, end.state);
    lemma_chain_keeps_store(end.effects, end.state, after, state);
    if switches.emit_tool_call {
        assert(switches.complete_after_tool_call && !switches.exit_after_turn_start && !(
        switches.fail_after_second_turn_start && count == 2) ==> played.effects.last()
            == EffectView::Save(played.state));
    }
}

proof fn lemma_mishandling_keeps_store(
    switches: Switches,
    state: StateView,
    count: nat,
    id: Option<Json>,
)
    ensures
        keeps_store(mishandling(switches, state, count, id), state),
{
    let played = mishandling(switches, state, count, id);
    let late = late_evidence(switches, state, count);
    lemma_late_evidence_keeps_store(switches, state, count);
    let unnamed = seq![answer(id, ReplyView::TurnUnnamed)];
    let malformed = seq![answer(id, ReplyView::EmptyError)];
    lemma_idle_keeps_store(
        Transition { state, effects: unnamed, outcome: OutcomeView::Continue },
        state,
    );
    lemma_idle_keeps_store(
        Transition { state, effects: malformed, outcome: OutcomeView::Continue },
        state,
    );
    lemma_chain_keeps_store(unnamed, state, late, state);
    lemma_chain_keeps_store(malformed, state, late, state);
    if played.effects.len() <= 2 && played.state == state && forall|i: int|
        0 <= i < played.effects.len() ==> !(#[trigger] played.effects[i] is Save) {
        lemma_idle_keeps_store(played, state);
    }
}

proof fn lemma_starting_keeps_store(
    switches: Switches,
    state: StateView,
    count: nat,
    id: Option<Json>,
)
    ensures
        keeps_store(starting(switches, state, count, id), state),
{
    let accepted = accepting(switches, state, count);
    lemma_accepting_keeps_store(switches, state, count);
    let opening = Transition {
        state: accepted.state,
        effects: accepted.effects,
        outcome: OutcomeView::Continue,
    };
    assert(keeps_store(opening, state));
    match start_mode(switches, count) {
        StartMode::Rejected => {
            lemma_idle_keeps_store(rejecting(switches, state, id), state);
        },
        StartMode::Answered => {
            let answered = seq![
                answer(id, ReplyView::TurnAccepted),
                EffectView::Send(OutgoingView::TurnStarted { turn_id: "provider-turn-1"@ }),
            ];
            lemma_idle_keeps_store(
                Transition {
                    state: accepted.state,
                    effects: answered,
                    outcome: OutcomeView::Continue,
                },
                accepted.state,
            );
            lemma_course_keeps_store(switches, accepted.state, count);
            lemma_chain_keeps_store(
                answered,
                accepted.state,
                course(switches, accepted.state, count),
                accepted.state,
            );
            lemma_chain_keeps_store(
                accepted.effects,
                accepted.state,
                answering_properly(switches, accepted.state, count, id),
                state,
            );
        },
        _ => {
            lemma_mishandling_keeps_store(switches, accepted.state, count, id);
            lemma_chain_keeps_store(
                accepted.effects,
                accepted.state,
                mishandling(switches, accepted.state, count, id),
                state,
            );
        },
    }
}

proof fn lemma_answering_keeps_store(
    session: SessionView,
    method: Seq<char>,
    id: Option<Json>,
    offers_task_context: bool,
)
    ensures
        keeps_store(session.answering(method, id, offers_task_context), session.state),
{
    let played = session.answering(method, id, offers_task_context);
    lemma_starting_keeps_store(session.switches, session.state, session.turn_start_count + 1, id);
    let accepted = seq![answer(id, ReplyView::Accepted)];
    let interrupted = finishing(session.state, TurnStatus::Interrupted);
    lemma_finishing_keeps_store(session.state, TurnStatus::Interrupted);
    lemma_idle_keeps_store(
        Transition { state: session.state, effects: accepted, outcome: OutcomeView::Continue },
        session.state,
    );
    lemma_chain_keeps_store(accepted, session.state, interrupted, session.state);
    if played.state == session.state && forall|i: int|
        0 <= i < played.effects.len() ==> !(#[trigger] played.effects[i] is Save) {
        lemma_idle_keeps_store(played, session.state);
    }
    let opened_thread = initial_state();
    let save = seq![EffectView::Save(opened_thread)];
    let rest = played.effects.skip(1);
    if played.effects.len() > 0 && played.effects[0] == EffectView::Save(opened_thread)
        && played.state == opened_thread && forall|i: int|
        0 <= i < rest.len() ==> !(#[trigger] rest[i] is Save) {
        assert(save.last() == EffectView::Save(opened_thread));
        let tail = Transition { effects: rest, ..played };
        lemma_idle_keeps_store(tail, opened_thread);
        lemma_chain_keeps_store(save, opened_thread, tail, session.state);
        assert(tail.after(save) =~= played);
    }
}

/// A step leaves the store and the server in agreement: a server that starts
/// from what is stored then is in the state that this one is in.
pub proof fn law_step_keeps_store(
    session: SessionView,
    incoming: IncomingView,
    stored: Option<StateView>,
)
    requires
        restored(stored) == session.state,
    ensures
        restored(stored_after(stored, session.transition(incoming).effects)) == session.next(
            incoming,
        ).state,
{
    let played = session.transition(incoming);
    match incoming {
        IncomingView::RuntimeReply => {
            lemma_finishing_keeps_store(session.state, TurnStatus::Completed);
        },
        IncomingView::ToolReply(reply) => {
            let finished = finishing(session.state, TurnStatus::Failed);
            let log = session.logged("tool-response:failure"@);
            lemma_finishing_keeps_store(session.state, TurnStatus::Failed);
            lemma_finishing_keeps_store(session.state, TurnStatus::Completed);
            let logging = Transition {
                state: session.state,
                effects: log,
                outcome: OutcomeView::Continue,
            };
            lemma_idle_keeps_store(logging, session.state);
            lemma_chain_keeps_store(log, session.state, finished, session.state);
            if played.state == session.state && forall|i: int|
                0 <= i < played.effects.len() ==> !(#[trigger] played.effects[i] is Save) {
                lemma_idle_keeps_store(played, session.state);
            }
        },
        IncomingView::Call { method, id, offers_task_context } => {
            let log = session.logged(method);
            let answered = session.answering(method, id, offers_task_context);
            lemma_idle_keeps_store(
                Transition { state: session.state, effects: log, outcome: OutcomeView::Continue },
                session.state,
            );
            lemma_answering_keeps_store(session, method, id, offers_task_context);
            lemma_chain_keeps_store(log, session.state, answered, session.state);
        },
        IncomingView::Unaddressed => {
            lemma_idle_keeps_store(played, session.state);
        },
    }
    assert(keeps_store(played, session.state));
}

/// The server after a row of messages.
pub open spec fn session_after(session: SessionView, history: Seq<IncomingView>) -> SessionView
    decreases history.len(),
{
    if history.len() == 0 {
        session
    } else {
        session_after(session, history.drop_last()).next(history.last())
    }
}

/// What is stored after a row of messages.
pub open spec fn stored_after_all(
    stored: Option<StateView>,
    session: SessionView,
    history: Seq<IncomingView>,
) -> Option<StateView>
    decreases history.len(),
{
    if history.len() == 0 {
        stored
    } else {
        stored_after(
            stored_after_all(stored, session, history.drop_last()),
            session_after(session, history.drop_last()).transition(history.last()).effects,
        )
    }
}

/// Whatever a server was sent, a server that is started from what it stored is
/// in the same state.
pub proof fn law_restart_restores_the_state(
    switches: Switches,
    logs_calls: bool,
    stored: Option<StateView>,
    history: Seq<IncomingView>,
)
    ensures
        ({
            let session = opened(switches, logs_calls, stored);
            restored(stored_after_all(stored, session, history)) == session_after(
                session,
                history,
            ).state
        }),
    decreases history.len(),
{
    if history.len() > 0 {
        let session = opened(switches, logs_calls, stored);
        law_restart_restores_the_state(switches, logs_calls, stored, history.drop_last());
        law_step_keeps_store(
            session_after(session, history.drop_last()),
            history.last(),
            stored_after_all(stored, session, history.drop_last()),
        );
    }
}

/// A client that reads the thread from a restarted server is told of the very
/// turn that was in progress before.
pub proof fn law_restart_reports_the_turn_in_progress(
    switches: Switches,
    logs_calls: bool,
    stored: Option<StateView>,
    history: Seq<IncomingView>,
    new_switches: Switches,
    id: Option<Json>,
    offers_task_context: bool,
)
    ensures
        ({
            let session = opened(switches, logs_calls, stored);
            let before = session_after(session, history).state;
            let restarted = opened(
                new_switches,
                logs_calls,
                stored_after_all(stored, session, history),
            );
            restarted.answering("thread/read"@, id, offers_task_context).effects == seq![
                answer(
                    id,
                    ReplyView::ThreadRead {
                        thread_id: before.thread_id,
                        active_turn_id: before.active_turn_id,
                    },
                ),
            ]
        }),
{
    law_restart_restores_the_state(switches, logs_calls, stored, history);
    reveal_strlit("initialize");
    reveal_strlit("initialized");
    reveal_strlit("thread/start");
    reveal_strlit("thread/resume");
    reveal_strlit("thread/read");
    assert("thread/read"@[0] != "initialize"@[0]);
    assert("thread/read"@[0] != "initialized"@[0]);
    assert("thread/read"@[7] != "thread/start"@[7]);
    assert("thread/read"@[9] != "thread/resume"@[9]);
}

} // verus!
