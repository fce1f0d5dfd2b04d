//! Who is answered, how often and with what.

use crate::json::Json;
use crate::message::IncomingView;
use crate::options::Switches;
use crate::protocol::{OutgoingView, ReplyView};
use crate::session::{
    accepting, answer, course, late_evidence, mishandling, start_mode, starting, EffectView,
    Failure, OutcomeView, SessionView, StartMode, StateView,
};
use vstd::prelude::*;

verus! {

/// Whether an effect is the answer to a request.
pub open spec fn is_answer(effect: EffectView) -> bool {
    effect matches EffectView::Send(OutgoingView::Response { .. })
}

/// How many answers some effects hold.
pub open spec fn answer_count(effects: Seq<EffectView>) -> nat
    decreases effects.len(),
{
    if effects.len() == 0 {
        0
    } else {
        answer_count(effects.drop_last()) + if is_answer(effects.last()) {
            1nat
        } else {
            0nat
        }
    }
}

/// Whether some effects hold no answer.
pub open spec fn answers_nothing(effects: Seq<EffectView>) -> bool {
    forall|i: int| 0 <= i < effects.len() ==> !is_answer(#[trigger] effects[i])
}

proof fn lemma_count_of_both(first: Seq<EffectView>, second: Seq<EffectView>)
    ensures
        answer_count(first + second) == answer_count(first) + answer_count(second),
    decreases second.len(),
{
    if second.len() == 0 {
        assert(first + second =~= first);
    } else {
        lemma_count_of_both(first, second.drop_last());
        assert((first + second).drop_last() =~= first + second.drop_last());
    }
}

proof fn lemma_count_of_nothing(effects: Seq<EffectView>)
    requires
        answers_nothing(effects),
    ensures
        answer_count(effects) == 0,
    decreases effects.len(),
{
    if effects.len() > 0 {
        assert(!is_answer(effects[effects.len() - 1]));
        assert forall|i: int| 0 <= i < effects.drop_last().len() implies !is_answer(
            #[trigger] effects.drop_last()[i],
        ) by {
            assert(!is_answer(effects[i]));
        }
        lemma_count_of_nothing(effects.drop_last());
    }
}

/// One answer, at position `place`, and no other.
proof fn lemma_count_of_one(effects: Seq<EffectView>, place: int)
    requires
        0 <= place < effects.len(),
        is_answer(effects[place]),
        forall|i: int|
            0 <= i < effects.len() && i != place ==> !is_answer(#[trigger] effects[i]),
    ensures
        answer_count(effects) == 1,
{
    let head = effects.take(place);
    let tail = effects.skip(place + 1);
    let middle = seq![effects[place]];
    assert(effects =~= head + middle + tail);
    lemma_count_of_both(head + middle, tail);
    lemma_count_of_both(head, middle);
    assert forall|i: int| 0 <= i < head.len() implies !is_answer(#[trigger] head[i]) by {
        assert(!is_answer(effects[i]));
    }
    assert forall|i: int| 0 <= i < tail.len() implies !is_answer(#[trigger] tail[i]) by {
        assert(!is_answer(effects[place + 1 + i]));
    }
    lemma_count_of_nothing(head);
    lemma_count_of_nothing(tail);
    assert(middle.drop_last() =~= Seq::<EffectView>::empty());
    assert(answer_count(middle.drop_last()) == 0);
    assert(answer_count(middle) == 1);
}

/// Nothing that surrounds the answer to the start of a turn is an answer.
proof fn lemma_parts_answer_nothing(switches: Switches, state: StateView, count: nat)
    ensures
        answers_nothing(accepting(switches, state, count).effects),
        answers_nothing(late_evidence(switches, state, count).effects),
        answers_nothing(course(switches, state, count).effects),
{
}

/// Where the answer to the start of a turn stands among the effects, if there
/// is one.
proof fn lemma_start_answer(switches: Switches, state: StateView, count: nat, id: Option<Json>)
    ensures
        ({
            let effects = starting(switches, state, count, id).effects;
            let place = match start_mode(switches, count) {
                StartMode::Rejected => effects.len() - 1,
                _ => accepting(switches, state, count).effects.len() as int,
            };
            let mode = start_mode(switches, count);
            if mode is Unanswered || mode is Abandoned {
                answers_nothing(effects)
            } else {
                &&& 0 <= place < effects.len()
                &&& effects[place] matches EffectView::Send(
                    OutgoingView::Response { id: echoed, .. },
                )
                &&& echoed == id
                &&& forall|i: int|
                    0 <= i < effects.len() && i != place ==> !is_answer(#[trigger] effects[i])
            }
        }),
{
    let accepted = accepting(switches, state, count);
    lemma_parts_answer_nothing(switches, state, count);
    lemma_parts_answer_nothing(switches, accepted.state, count);
    let late = late_evidence(switches, accepted.state, count);
    let played = course(switches, accepted.state, count);
    let effects = starting(switches, state, count, id).effects;
    let opening = accepted.effects.len() as int;
    match start_mode(switches, count) {
        StartMode::Rejected => {},
        StartMode::Answered => {
            assert forall|i: int| 0 <= i < effects.len() && i != opening implies !is_answer(
                #[trigger] effects[i],
            ) by {
                if i < opening {
                    assert(effects[i] == accepted.effects[i]);
                } else if i >= opening + 2 {
                    assert(effects[i] == played.effects[i - opening - 2]);
                }
            }
        },
        _ => {
            let rest = mishandling(switches, accepted.state, count, id).effects;
            assert(effects =~= accepted.effects + rest);
            assert forall|i: int| 0 < i < rest.len() implies !is_answer(#[trigger] rest[i]) by {
                if rest.len() == 1 + late.effects.len() {
                    assert(rest[i] == late.effects[i - 1] || !is_answer(rest[i]));
                }
            }
            assert forall|i: int| 0 <= i < effects.len() && i != opening implies !is_answer(
                #[trigger] effects[i],
            ) by {
                if i < opening {
                    assert(effects[i] == accepted.effects[i]);
                } else {
                    assert(effects[i] == rest[i - opening]);
                }
            }
        },
    }
}

/// Whether the server answers calls of `method` at all.
pub open spec fn answers_method(method: Seq<char>) -> bool {
    ||| method == "initialize"@
    ||| method == "thread/start"@
    ||| method == "thread/resume"@
    ||| method == "thread/read"@
    ||| method == "turn/start"@
    ||| method == "turn/steer"@
    ||| method == "turn/interrupt"@
}

/// Whether a call opens a thread without the tool that the server insists on.
pub open spec fn is_unauthorized(
    session: SessionView,
    method: Seq<char>,
    offers_task_context: bool,
) -> bool {
    &&& method == "thread/start"@ || method == "thread/resume"@
    &&& session.switches.require_dynamic_tool
    &&& !offers_task_context
}

/// Whether a call starts a turn that the server takes on without a word.
pub open spec fn is_met_with_silence(session: SessionView, method: Seq<char>) -> bool {
    let mode = start_mode(session.switches, session.turn_start_count + 1);
    method == "turn/start"@ && (mode is Unanswered || mode is Abandoned)
}

/// Whether the server answers a message.
pub open spec fn is_answered(session: SessionView, incoming: IncomingView) -> bool {
    match incoming {
        IncomingView::Call { method, id, offers_task_context } => {
            if answers_method(method) {
                !is_unauthorized(session, method, offers_task_context) && !is_met_with_silence(
                    session,
                    method,
                )
            } else {
                method != "initialized"@ && id is Some
            }
        },
        _ => false,
    }
}

/// The methods that could be taken for each other differ.
proof fn lemma_methods_differ()
    ensures
        "initialize"@ != "initialized"@,
        !answers_method("initialized"@),
        "turn/start"@ != "initialize"@,
        "turn/start"@ != "initialized"@,
        "turn/start"@ != "thread/start"@,
        "turn/start"@ != "thread/resume"@,
        "turn/start"@ != "thread/read"@,
        "thread/start"@ != "initialize"@,
        "thread/start"@ != "initialized"@,
        "thread/resume"@ != "initialize"@,
        "thread/resume"@ != "initialized"@,
        "thread/resume"@ != "thread/start"@,
{
    reveal_strlit("initialize");
    reveal_strlit("initialized");
    reveal_strlit("thread/start");
    reveal_strlit("thread/resume");
    reveal_strlit("thread/read");
    reveal_strlit("turn/start");
    reveal_strlit("turn/steer");
    reveal_strlit("turn/interrupt");
    assert("initialize"@.len() == 10);
    assert("initialized"@.len() == 11);
    assert("turn/start"@[1] == 'u');
    assert("initialize"@[1] == 'n');
    assert("initialized"@[1] == 'n');
    assert("thread/start"@[1] == 'h');
    assert("thread/resume"@[1] == 'h');
    assert("thread/read"@[1] == 'h');
    assert("turn/steer"@[1] == 'u');
    assert("turn/interrupt"@[1] == 'u');
    assert("thread/start"@[7] == 's');
    assert("thread/resume"@[7] == 'r');
}

/// Where the answer to a call stands among the effects, if there is one.
proof fn lemma_call_answer(
    session: SessionView,
    method: Seq<char>,
    id: Option<Json>,
    offers_task_context: bool,
) -> (place: int)
    ensures
        ({
            let effects = session.answering(method, id, offers_task_context).effects;
            if is_answered(session, IncomingView::Call { method, id, offers_task_context }) {
                &&& 0 <= place < effects.len()
                &&& effects[place] matches EffectView::Send(
                    OutgoingView::Response { id: echoed, .. },
                )
                &&& echoed == id
                &&& forall|i: int|
                    0 <= i < effects.len() && i != place ==> !is_answer(#[trigger] effects[i])
            } else {
                answers_nothing(effects)
            }
        }),
{
    lemma_methods_differ();
    let count = session.turn_start_count + 1;
    let effects = session.answering(method, id, offers_task_context).effects;
    if method == "turn/start"@ {
        lemma_start_answer(session.switches, session.state, count, id);
        match start_mode(session.switches, count) {
            StartMode::Rejected => effects.len() - 1,
            _ => accepting(session.switches, session.state, count).effects.len() as int,
        }
    } else if method == "thread/start"@ {
        effects.len() - 1
    } else {
        0
    }
}

/// Every answer carries the `id` of the message that it answers, and nothing
/// but a call is answered.
pub proof fn law_answers_echo_the_request(session: SessionView, incoming: IncomingView)
    ensures
        forall|i: int|
            0 <= i < session.transition(incoming).effects.len() ==> (
            #[trigger] session.transition(incoming).effects[i] matches EffectView::Send(
                OutgoingView::Response { id: echoed, .. },
            ) ==> (incoming matches IncomingView::Call { id, .. } && echoed == id)),
{
    if let IncomingView::Call { method, id, offers_task_context } = incoming {
        let place = lemma_call_answer(session, method, id, offers_task_context);
        let answered = session.answering(method, id, offers_task_context).effects;
        let log = session.logged(method);
        let effects = session.transition(incoming).effects;
        assert forall|i: int| 0 <= i < effects.len() implies (
        #[trigger] effects[i] matches EffectView::Send(
            OutgoingView::Response { id: echoed, .. },
        ) ==> echoed == id) by {
            if i >= log.len() {
                assert(effects[i] == answered[i - log.len()]);
            }
        }
    }
}

/// A message is answered once or not at all, and which of the two is settled
/// by what the message asks for and by how the server is set up.
pub proof fn law_answered_once(session: SessionView, incoming: IncomingView)
    ensures
        answer_count(session.transition(incoming).effects) == if is_answered(session, incoming) {
            1nat
        } else {
            0nat
        },
{
    let effects = session.transition(incoming).effects;
    if let IncomingView::Call { method, id, offers_task_context } = incoming {
        let place = lemma_call_answer(session, method, id, offers_task_context);
        let answered = session.answering(method, id, offers_task_context).effects;
        let log = session.logged(method);
        lemma_count_of_both(log, answered);
        lemma_count_of_nothing(log);
        if is_answered(session, incoming) {
            lemma_count_of_one(answered, place);
        } else {
            lemma_count_of_nothing(answered);
        }
    } else {
        lemma_count_of_nothing(effects);
    }
}

/// A second turn that is refused is answered with the refusal, under the `id`
/// of the request and as the last thing done. It changes nothing, stores
/// nothing, and the server fails.
pub proof fn law_refused_turn_changes_nothing(session: SessionView, id: Option<Json>, offers: bool)
    requires
        session.turn_start_count == 1,
        session.switches.reject_second_turn_start,
    ensures
        ({
            let incoming = IncomingView::Call {
                method: "turn/start"@,
                id,
                offers_task_context: offers,
            };
            let played = session.transition(incoming);
            &&& played.state == session.state
            &&& forall|i: int|
                0 <= i < played.effects.len() ==> !(#[trigger] played.effects[i] is Save)
            &&& played.effects.len() > 0
            &&& played.effects.last() == answer(id, ReplyView::Rejected)
            &&& played.outcome == OutcomeView::Fail(Failure::AfterSecondTurnRejection)
        }),
{
    lemma_methods_differ();
}

/// A request for a method that the server does not know is answered with an
/// error that names the method; a notification of one is passed over. Neither
/// changes anything.
pub proof fn law_unknown_method_changes_nothing(
    session: SessionView,
    method: Seq<char>,
    id: Option<Json>,
    offers: bool,
)
    requires
        !answers_method(method),
        method != "initialized"@,
    ensures
        ({
            let played = session.answering(method, id, offers);
            &&& played.state == session.state
            &&& played.outcome == OutcomeView::Continue
            &&& played.effects == if id is Some {
                seq![answer(id, ReplyView::Unsupported { method })]
            } else {
                Seq::empty()
            }
        }),
{
}

/// A client that does not offer the tool that the server insists on gets no
/// thread: nothing is sent, nothing is stored, and the server fails.
pub proof fn law_unauthorized_thread_is_refused(
    session: SessionView,
    method: Seq<char>,
    id: Option<Json>,
    offers: bool,
)
    requires
        is_unauthorized(session, method, offers),
    ensures
        ({
            let played = session.transition(
                IncomingView::Call { method, id, offers_task_context: offers },
            );
            &&& played.state == session.state
            &&& played.effects == session.logged(method)
            &&& played.outcome == OutcomeView::Fail(
                if method == "thread/start"@ {
                    Failure::ThreadStartWithoutTool
                } else {
                    Failure::ThreadResumeWithoutTool
                },
            )
        }),
{
    lemma_methods_differ();
}

} // verus!
