//! What is written to the call log.

use crate::json::Json;
use crate::message::{IncomingView, ToolReplyView};
use crate::options::Switches;
use crate::session::{accepting, course, late_evidence, starting, EffectView, SessionView, StateView};
use vstd::prelude::*;

verus! {

/// The lines that some effects add to the call log.
pub open spec fn log_lines(effects: Seq<EffectView>) -> Seq<Seq<char>>
    decreases effects.len(),
{
    if effects.len() == 0 {
        Seq::empty()
    } else {
        match effects.last() {
            EffectView::Log(line) => log_lines(effects.drop_last()).push(line),
            _ => log_lines(effects.drop_last()),
        }
    }
}

/// Whether some effects leave the call log alone.
pub open spec fn logs_nothing(effects: Seq<EffectView>) -> bool {
    forall|i: int| 0 <= i < effects.len() ==> !(#[trigger] effects[i] is Log)
}

proof fn lemma_lines_of_both(first: Seq<EffectView>, second: Seq<EffectView>)
    requires
        logs_nothing(second),
    ensures
        log_lines(first + second) == log_lines(first),
    decreases second.len(),
{
    if second.len() == 0 {
        assert(first + second =~= first);
    } else {
        assert(!(second[second.len() - 1] is Log));
        assert forall|i: int| 0 <= i < second.drop_last().len() implies !(
        #[trigger] second.drop_last()[i] is Log) by {
            assert(!(second[i] is Log));
        }
        lemma_lines_of_both(first, second.drop_last());
        assert((first + second).drop_last() =~= first + second.drop_last());
    }
}

proof fn lemma_parts_log_nothing(switches: Switches, state: StateView, count: nat)
    ensures
        logs_nothing(accepting(switches, state, count).effects),
        logs_nothing(late_evidence(switches, state, count).effects),
        logs_nothing(course(switches, state, count).effects),
{
}

proof fn lemma_starting_logs_nothing(
    switches: Switches,
    state: StateView,
    count: nat,
    id: Option<Json>,
)
    ensures
        logs_nothing(starting(switches, state, count, id).effects),
{
    lemma_parts_log_nothing(switches, state, count);
    lemma_parts_log_nothing(switches, accepting(switches, state, count).state, count);
}

/// The lines that a message adds to the call log of a server that keeps one.
pub open spec fn recorded(incoming: IncomingView) -> Seq<Seq<char>> {
    match incoming {
        IncomingView::Call { method, .. } => seq![method],
        IncomingView::ToolReply(ToolReplyView::Failed) => seq!["tool-response:failure"@],
        _ => Seq::empty(),
    }
}

/// The call log holds one line for each call that is received, its method, and
/// one for each tool that failed, and nothing else.
pub proof fn law_calls_are_recorded_once(session: SessionView, incoming: IncomingView)
    ensures
        log_lines(session.transition(incoming).effects) == if session.logs_calls {
            recorded(incoming)
        } else {
            Seq::empty()
        },
{
    let effects = session.transition(incoming).effects;
    let nothing = Seq::<EffectView>::empty();
    match incoming {
        IncomingView::Call { method, id, offers_task_context } => {
            let log = session.logged(method);
            let answered = session.answering(method, id, offers_task_context).effects;
            lemma_starting_logs_nothing(
                session.switches,
                session.state,
                session.turn_start_count + 1,
                id,
            );
            assert(logs_nothing(answered));
            lemma_lines_of_both(log, answered);
            reveal_with_fuel(log_lines, 2);
            assert(log_lines(log) =~= if session.logs_calls {
                seq![method]
            } else {
                Seq::empty()
            });
        },
        IncomingView::ToolReply(ToolReplyView::Failed) => {
            let line = "tool-response:failure"@;
            let log = session.logged(line);
            let rest = effects.skip(log.len() as int);
            assert(effects =~= log + rest);
            assert(logs_nothing(rest));
            lemma_lines_of_both(log, rest);
            reveal_with_fuel(log_lines, 2);
            assert(log_lines(log) =~= if session.logs_calls {
                seq![line]
            } else {
                Seq::empty()
            });
        },
        _ => {
            assert(logs_nothing(effects));
            lemma_lines_of_both(nothing, effects);
            assert(nothing + effects =~= effects);
        },
    }
}

} // verus!
