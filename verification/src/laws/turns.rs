//! How turns begin and end.

use crate::json::Json;
use crate::message::{IncomingView, ToolReplyView};
use crate::laws::store::session_after;
use crate::options::Switches;
use crate::protocol::{Item, Notice, OutgoingView, ReplyView, TurnStatus};
use crate::session::{
    accepted_turn_id, accepting, aftermath, answer, answering_properly, course, evidence,
    finishing, late_evidence, mishandling, start_mode, starting, warning, EffectView, Failure,
    OutcomeView, SessionView, StartMode, StateView, Transition,
};
use vstd::prelude::*;

verus! {

/// Whether an effect tells the client that a turn has ended, other than the
/// turn that the server makes up to contradict itself.
pub open spec fn is_completion(effect: EffectView) -> bool {
    effect matches EffectView::Send(OutgoingView::TurnCompleted { turn_id, .. }) && turn_id
        != "provider-turn-conflict"@
}

/// Whether the end of a turn at position `i` comes right after the turn's last
/// message and what it used.
pub open spec fn follows_result(effects: Seq<EffectView>, i: int) -> bool {
    &&& i >= 2
    &&& effects[i - 2] == EffectView::Send(OutgoingView::ItemCompleted(Item::Final))
    &&& effects[i - 1] matches EffectView::Send(OutgoingView::TokenUsage { .. })
}

/// Whether each end of a turn among some effects comes right after its result.
pub open spec fn results_come_first(effects: Seq<EffectView>) -> bool {
    forall|i: int|
        0 <= i < effects.len() && is_completion(#[trigger] effects[i]) ==> follows_result(
            effects,
            i,
        )
}

/// Whether some effects end a turn.
pub open spec fn ends_turn(effects: Seq<EffectView>) -> bool {
    exists|i: int| 0 <= i < effects.len() && is_completion(#[trigger] effects[i])
}

proof fn lemma_both_results_come_first(first: Seq<EffectView>, second: Seq<EffectView>)
    requires
        results_come_first(first),
        results_come_first(second),
    ensures
        results_come_first(first + second),
        ends_turn(first + second) ==> ends_turn(first) || ends_turn(second),
{
    let both = first + second;
    assert forall|i: int|
        0 <= i < both.len() && is_completion(#[trigger] both[i]) implies follows_result(
        both,
        i,
    ) && (ends_turn(first) || ends_turn(second)) by {
        if i < first.len() {
            assert(is_completion(first[i]));
            assert(follows_result(first, i));
        } else {
            let place = i - first.len();
            assert(is_completion(second[place]));
            assert(follows_result(second, place));
            assert(both[i - 2] == second[place - 2]);
            assert(both[i - 1] == second[place - 1]);
        }
    }
}

proof fn lemma_quiet(effects: Seq<EffectView>)
    requires
        forall|i: int| 0 <= i < effects.len() ==> !is_completion(#[trigger] effects[i]),
    ensures
        results_come_first(effects),
        !ends_turn(effects),
{
}

/// Whether a transition ends turns in good order: each end comes right after
/// the turn's result, and where there is one no turn is left in progress.
pub open spec fn ends_in_order(transition: Transition) -> bool {
    &&& results_come_first(transition.effects)
    &&& ends_turn(transition.effects) ==> transition.state.active_turn_id is None
}

/// The same of one row of effects after another.
proof fn lemma_chain_ends_in_order(effects: Seq<EffectView>, middle: StateView, second: Transition)
    requires
        results_come_first(effects),
        ends_turn(effects) ==> middle.active_turn_id is None,
        ends_in_order(second),
        middle.active_turn_id is None ==> second.state.active_turn_id is None,
    ensures
        ends_in_order(second.after(effects)),
{
    lemma_both_results_come_first(effects, second.effects);
}

proof fn lemma_finishing_ends_in_order(state: StateView, status: TurnStatus)
    ensures
        ends_in_order(finishing(state, status)),
{
}

proof fn lemma_evidence_ends_in_order(state: StateView, started: bool, conflicting: bool)
    ensures
        ends_in_order(evidence(state, started, conflicting)),
        state.active_turn_id is None ==> evidence(
            state,
            started,
            conflicting,
        ).state.active_turn_id is None,
{
    let played = evidence(state, started, conflicting);
    if conflicting {
        lemma_quiet(played.effects);
    } else {
        let finished = finishing(state, TurnStatus::Completed);
        let start = played.effects.take(played.effects.len() - finished.effects.len());
        lemma_finishing_ends_in_order(state, TurnStatus::Completed);
        lemma_quiet(start);
        lemma_chain_ends_in_order(start, state, finished);
        assert(played =~= finished.after(start));
    }
}

proof fn lemma_course_ends_in_order(switches: Switches, state: StateView, count: nat)
    ensures
        ends_in_order(course(switches, state, count)),
        state.active_turn_id is None ==> course(
            switches,
            state,
            count,
        ).state.active_turn_id is None,
{
    let played = course(switches, state, count);
    let finished = finishing(state, TurnStatus::Completed).effects;
    lemma_finishing_ends_in_order(state, TurnStatus::Completed);
    if played.state == state && forall|i: int|
        0 <= i < played.effects.len() ==> !is_completion(#[trigger] played.effects[i]) {
        lemma_quiet(played.effects);
    } else if switches.emit_tool_call {
        let call = played.effects.take(1);
        lemma_quiet(call);
        lemma_both_results_come_first(call, finished);
        assert(played.effects =~= call + finished);
    } else {
        let rest = played.effects.skip(finished.len() as int);
        lemma_quiet(rest);
        lemma_both_results_come_first(finished, rest);
        assert(played.effects =~= finished + rest);
    }
}

proof fn lemma_accepting_ends_in_order(switches: Switches, state: StateView, count: nat)
    ensures
        ends_in_order(accepting(switches, state, count)),
{
    let accepted = StateView {
        active_turn_id: Some(accepted_turn_id(switches, count)),
        ..state
    };
    let save = seq![EffectView::Save(accepted)];
    lemma_quiet(save);
    let early = evidence(accepted, !switches.omit_ambiguous_turn_started, false);
    lemma_evidence_ends_in_order(accepted, !switches.omit_ambiguous_turn_started, false);
    lemma_chain_ends_in_order(save, accepted, early);
    lemma_quiet(Transition::idle(accepted).effects);
    lemma_chain_ends_in_order(save, accepted, Transition::idle(accepted));
}

proof fn lemma_mishandling_ends_in_order(
    switches: Switches,
    state: StateView,
    count: nat,
    id: Option<Json>,
)
    ensures
        ends_in_order(mishandling(switches, state, count, id)),
        state.active_turn_id is None ==> mishandling(
            switches,
            state,
            count,
            id,
        ).state.active_turn_id is None,
{
    let played = mishandling(switches, state, count, id);
    let late = late_evidence(switches, state, count);
    lemma_evidence_ends_in_order(
        state,
        !switches.omit_ambiguous_turn_started,
        switches.conflicting_ambiguous_second_turn,
    );
    lemma_quiet(Transition::idle(state).effects);
    assert(ends_in_order(late));
    let unnamed = seq![answer(id, ReplyView::TurnUnnamed)];
    let malformed = seq![answer(id, ReplyView::EmptyError)];
    lemma_quiet(unnamed);
    lemma_quiet(malformed);
    lemma_chain_ends_in_order(unnamed, state, late);
    lemma_chain_ends_in_order(malformed, state, late);
    if forall|i: int| 0 <= i < played.effects.len() ==> !is_completion(#[trigger] played.effects[i]) {
        lemma_quiet(played.effects);
    }
}

proof fn lemma_starting_ends_in_order(
    switches: Switches,
    state: StateView,
    count: nat,
    id: Option<Json>,
)
    ensures
        ends_in_order(starting(switches, state, count, id)),
{
    let accepted = accepting(switches, state, count);
    lemma_accepting_ends_in_order(switches, state, count);
    match start_mode(switches, count) {
        StartMode::Rejected => {
            lemma_quiet(starting(switches, state, count, id).effects);
        },
        StartMode::Answered => {
            let answered = seq![
                answer(id, ReplyView::TurnAccepted),
                EffectView::Send(OutgoingView::TurnStarted { turn_id: "provider-turn-1"@ }),
            ];
            lemma_quiet(answered);
            lemma_course_ends_in_order(switches, accepted.state, count);
            lemma_chain_ends_in_order(
                answered,
                accepted.state,
                course(switches, accepted.state, count),
            );
            lemma_chain_ends_in_order(
                accepted.effects,
                accepted.state,
                answering_properly(switches, accepted.state, count, id),
            );
        },
        _ => {
            lemma_mishandling_ends_in_order(switches, accepted.state, count, id);
            lemma_chain_ends_in_order(
                accepted.effects,
                accepted.state,
                mishandling(switches, accepted.state, count, id),
            );
        },
    }
}

proof fn lemma_answering_ends_in_order(
    session: SessionView,
    method: Seq<char>,
    id: Option<Json>,
    offers_task_context: bool,
)
    ensures
        ends_in_order(session.answering(method, id, offers_task_context)),
{
    let played = session.answering(method, id, offers_task_context);
    lemma_starting_ends_in_order(session.switches, session.state, session.turn_start_count + 1, id);
    let accepted = seq![answer(id, ReplyView::Accepted)];
    lemma_quiet(accepted);
    lemma_finishing_ends_in_order(session.state, TurnStatus::Interrupted);
    lemma_chain_ends_in_order(
        accepted,
        session.state,
        finishing(session.state, TurnStatus::Interrupted),
    );
    if forall|i: int| 0 <= i < played.effects.len() ==> !is_completion(#[trigger] played.effects[i]) {
        lemma_quiet(played.effects);
    }
}

/// Wherever the server tells its client that a turn has ended, it has just told
/// the turn's result, and no turn is in progress once the step is done. (The
/// end of a turn that it makes up to contradict itself is no such end.)
pub proof fn law_turns_end_in_order(session: SessionView, incoming: IncomingView)
    ensures
        results_come_first(session.transition(incoming).effects),
        ends_turn(session.transition(incoming).effects) ==> session.next(
            incoming,
        ).state.active_turn_id is None,
{
    let played = session.transition(incoming);
    match incoming {
        IncomingView::RuntimeReply => {
            lemma_finishing_ends_in_order(session.state, TurnStatus::Completed);
        },
        IncomingView::ToolReply(reply) => {
            let log = session.logged("tool-response:failure"@);
            lemma_quiet(log);
            lemma_finishing_ends_in_order(session.state, TurnStatus::Completed);
            lemma_finishing_ends_in_order(session.state, TurnStatus::Failed);
            lemma_chain_ends_in_order(
                log,
                session.state,
                finishing(session.state, TurnStatus::Failed),
            );
            if forall|i: int|
                0 <= i < played.effects.len() ==> !is_completion(#[trigger] played.effects[i]) {
                lemma_quiet(played.effects);
            }
        },
        IncomingView::Call { method, id, offers_task_context } => {
            let log = session.logged(method);
            let answered = session.answering(method, id, offers_task_context);
            lemma_quiet(log);
            lemma_answering_ends_in_order(session, method, id, offers_task_context);
            lemma_both_results_come_first(log, answered.effects);
        },
        IncomingView::Unaddressed => {
            lemma_quiet(played.effects);
        },
    }
}

/// A turn that is taken on is stored before anything is said about it. It has
/// the identity that [`accepted_turn_id`] gives it, which for every turn but
/// the second is the first identity.
pub proof fn law_turn_is_stored_before_its_answer(
    switches: Switches,
    state: StateView,
    count: nat,
    id: Option<Json>,
)
    requires
        !(start_mode(switches, count) is Rejected),
    ensures
        starting(switches, state, count, id).effects.len() > 0,
        starting(switches, state, count, id).effects[0] == EffectView::Save(
            StateView { active_turn_id: Some(accepted_turn_id(switches, count)), ..state },
        ),
        count != 2 ==> accepted_turn_id(switches, count) == "provider-turn-1"@,
{
}

/// Every turn but the second is answered properly and announced, whatever
/// faults are to be played.
pub proof fn law_only_the_second_turn_is_mishandled(
    switches: Switches,
    state: StateView,
    count: nat,
    id: Option<Json>,
)
    requires
        count != 2,
    ensures
        ({
            let accepted = StateView { active_turn_id: Some("provider-turn-1"@), ..state };
            starting(switches, state, count, id) == course(switches, accepted, count).after(
                seq![
                    EffectView::Save(accepted),
                    answer(id, ReplyView::TurnAccepted),
                    EffectView::Send(OutgoingView::TurnStarted { turn_id: "provider-turn-1"@ }),
                ],
            )
        }),
{
    let accepted = StateView { active_turn_id: Some("provider-turn-1"@), ..state };
    assert(starting(switches, state, count, id) =~= course(switches, accepted, count).after(
        seq![
            EffectView::Save(accepted),
            answer(id, ReplyView::TurnAccepted),
            EffectView::Send(OutgoingView::TurnStarted { turn_id: "provider-turn-1"@ }),
        ],
    ));
}

/// Where the server contradicts itself about which turn has ended, the turn in
/// progress stays in progress and nothing is stored.
pub proof fn law_contradiction_keeps_the_turn(state: StateView, started: bool)
    ensures
        evidence(state, started, true).state == state,
        !ends_turn(evidence(state, started, true).effects),
        forall|i: int|
            0 <= i < evidence(state, started, true).effects.len() ==> !(
            #[trigger] evidence(state, started, true).effects[i] is Save),
{
}

/// A tool that fails after its turn has ended is recorded and otherwise passed
/// over.
pub proof fn law_late_tool_failure_is_passed_over(session: SessionView)
    requires
        session.state.active_turn_id is None,
    ensures
        ({
            let played = session.transition(IncomingView::ToolReply(ToolReplyView::Failed));
            &&& played.state == session.state
            &&& played.effects == session.logged("tool-response:failure"@)
            &&& played.outcome == OutcomeView::Continue
        }),
{
}

/// A server that lingers before it fails after a turn shows that it was alive
/// till the end: once it has waited, the last thing it does is to send a
/// warning.
pub proof fn law_lingering_server_shows_that_it_is_alive(
    switches: Switches,
    state: StateView,
    delay: u64,
)
    requires
        switches.fail_after_turn_completion,
        switches.fail_after_turn_completion_delay_ms == Some(delay),
    ensures
        ({
            let played = aftermath(switches, state);
            &&& played.effects.len() >= 2
            &&& played.effects[played.effects.len() - 2] == EffectView::Sleep(delay)
            &&& played.effects.last() == warning(Notice::LiveAfterTerminal)
            &&& played.outcome == OutcomeView::Fail(Failure::AfterTurnCompletion)
        }),
{
}

/// How many of some messages ask to start a turn.
pub open spec fn turn_starts(history: Seq<IncomingView>) -> nat
    decreases history.len(),
{
    if history.len() == 0 {
        0
    } else {
        turn_starts(history.drop_last()) + if history.last().starts_turn() {
            1nat
        } else {
            0nat
        }
    }
}

/// A server counts the turns that it was asked to start, and keeps its set-up.
pub proof fn law_turn_starts_are_counted(session: SessionView, history: Seq<IncomingView>)
    ensures
        session_after(session, history).turn_start_count == session.turn_start_count + turn_starts(
            history,
        ),
        session_after(session, history).switches == session.switches,
        session_after(session, history).logs_calls == session.logs_calls,
    decreases history.len(),
{
    if history.len() > 0 {
        law_turn_starts_are_counted(session, history.drop_last());
    }
}

} // verus!
