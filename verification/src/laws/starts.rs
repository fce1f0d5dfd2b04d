//! What the request to start a turn brings about.
//!
//! The effects of a turn that is taken on fall into an opening, in which the
//! turn becomes the one in progress, and what follows it. The opening is one
//! effect long, unless the turn is completed before it is answered.

use crate::json::Json;
use crate::laws::calls::lemma_methods;
use crate::protocol::{Item, Notice, OutgoingView, ReplyView, ToolRequest, TurnStatus};
use crate::session::{
    accepting, answering_properly, course, mishandling, starting, EffectView, Failure, OutcomeView,
    SessionView, StateView,
};
use vstd::prelude::*;

verus! {

/// The refusal of the second turn comes after a warning, perhaps the start of
/// another turn, and is the last thing said. The turn is not taken on.
pub proof fn law_start_refused(session: SessionView, id: Option<Json>, offers: bool)
    requires
        session.turn_start_count == 1,
        session.switches.reject_second_turn_start,
    ensures
        ({
            let played = session.answering("turn/start"@, id, offers);
            &&& played.effects == seq![
                EffectView::Send(OutgoingView::Warning(Notice::BeforeRejection)),
            ] + (if session.switches.emit_turn_before_rejected_second_start {
                seq![
                    EffectView::Send(
                        OutgoingView::TurnStarted { turn_id: "provider-turn-contradiction"@ },
                    ),
                ]
            } else {
                Seq::empty()
            }) + seq![
                EffectView::Send(OutgoingView::Response { id, reply: ReplyView::Rejected }),
            ]
            &&& played.state == session.state
            &&& played.outcome == OutcomeView::Fail(Failure::AfterSecondTurnRejection)
        }),
{
    lemma_methods();
}

/// How the effects of a turn that is taken on are put together.
proof fn lemma_parts(session: SessionView, id: Option<Json>, offers: bool)
    requires
        session.turn_start_count != 1 || !session.switches.reject_second_turn_start,
    ensures
        ({
            let switches = session.switches;
            let second = session.turn_start_count == 1;
            let played = session.answering("turn/start"@, id, offers);
            let early = second && switches.complete_ambiguous_second_turn_before_response;
            let opening: int = if !early {
                1
            } else if switches.omit_ambiguous_turn_started {
                5
            } else {
                6
            };
            let turn_id = if second && (switches.complete_ambiguous_second_turn
                || switches.complete_ambiguous_second_turn_before_response
                || switches.conflicting_ambiguous_second_turn
                || switches.retain_ambiguous_second_turn_active
                || switches.hold_ambiguous_second_turn_after_item) {
                "provider-turn-2"@
            } else {
                "provider-turn-1"@
            };
            let state = StateView {
                active_turn_id: if early {
                    None
                } else {
                    Some(turn_id)
                },
                ..session.state
            };
            let count = session.turn_start_count + 1;
            let accepted = accepting(switches, session.state, count);
            let proper = !second || !(
            switches.fail_after_accepting_second_turn_before_response
                || switches.exit_after_accepting_second_turn_before_response
                || switches.malformed_error_second_turn_start
                || switches.missing_id_second_turn_start);
            let rest = if proper {
                answering_properly(switches, state, count, id)
            } else {
                mishandling(switches, state, count, id)
            };
            &&& accepted.state == state
            &&& accepted.effects.len() == opening
            &&& played.effects == accepted.effects + rest.effects
            &&& played.effects.take(opening) == accepted.effects
            &&& played.effects.skip(opening) == rest.effects
            &&& played.state == rest.state
            &&& played.outcome == rest.outcome
        }),
{
    lemma_methods();
    let count = session.turn_start_count + 1;
    let accepted = accepting(session.switches, session.state, count);
    let played = session.answering("turn/start"@, id, offers);
    assert(played == starting(session.switches, session.state, count, id));
    let rest = played.effects.skip(accepted.effects.len() as int);
    assert(played.effects =~= accepted.effects + rest);
    assert(played.effects.take(accepted.effects.len() as int) =~= accepted.effects);
    assert(rest =~= answering_properly(session.switches, accepted.state, count, id).effects || rest
        =~= mishandling(session.switches, accepted.state, count, id).effects);
}

/// A turn that is taken on is stored as the one in progress before anything is
/// said. The first turn has the first identity and so have all the others, but a
/// second turn that is to be seen has one of its own. Where it is to complete
/// before it is answered, its start and its end follow at once.
pub proof fn law_start_opening(session: SessionView, id: Option<Json>, offers: bool)
    requires
        session.turn_start_count != 1 || !session.switches.reject_second_turn_start,
    ensures
        ({
            let switches = session.switches;
            let second = session.turn_start_count == 1;
            let played = session.answering("turn/start"@, id, offers);
            let early = second && switches.complete_ambiguous_second_turn_before_response;
            let opening: int = if !early {
                1
            } else if switches.omit_ambiguous_turn_started {
                5
            } else {
                6
            };
            let turn_id = if second && (switches.complete_ambiguous_second_turn
                || switches.complete_ambiguous_second_turn_before_response
                || switches.conflicting_ambiguous_second_turn
                || switches.retain_ambiguous_second_turn_active
                || switches.hold_ambiguous_second_turn_after_item) {
                "provider-turn-2"@
            } else {
                "provider-turn-1"@
            };
            &&& played.effects.len() >= opening
            &&& played.effects.take(opening) == seq![
                EffectView::Save(
                    StateView { active_turn_id: Some(turn_id), ..session.state },
                ),
            ] + (if early && !switches.omit_ambiguous_turn_started {
                seq![EffectView::Send(OutgoingView::TurnStarted { turn_id: "provider-turn-2"@ })]
            } else {
                Seq::empty()
            }) + (if early {
                seq![
                    EffectView::Send(OutgoingView::ItemCompleted(Item::Final)),
                    EffectView::Send(
                        OutgoingView::TokenUsage { thread_id: session.state.thread_id },
                    ),
                    EffectView::Send(
                        OutgoingView::TurnCompleted {
                            turn_id: "provider-turn-2"@,
                            status: TurnStatus::Completed,
                        },
                    ),
                    EffectView::Save(StateView { active_turn_id: None, ..session.state }),
                ]
            } else {
                Seq::empty()
            })
        }),
{
    lemma_parts(session, id, offers);
}

/// A second turn can be taken on without an answer: what may follow is evidence of
/// it under its own identity, and the server fails.
pub proof fn law_start_unanswered(session: SessionView, id: Option<Json>, offers: bool)
    requires
        session.turn_start_count == 1,
        !session.switches.reject_second_turn_start,
        session.switches.fail_after_accepting_second_turn_before_response,
    ensures
        ({
            let switches = session.switches;
            let second = session.turn_start_count == 1;
            let played = session.answering("turn/start"@, id, offers);
            let early = second && switches.complete_ambiguous_second_turn_before_response;
            let opening: int = if !early {
                1
            } else if switches.omit_ambiguous_turn_started {
                5
            } else {
                6
            };
            let turn_id = if second && (switches.complete_ambiguous_second_turn
                || switches.complete_ambiguous_second_turn_before_response
                || switches.conflicting_ambiguous_second_turn
                || switches.retain_ambiguous_second_turn_active
                || switches.hold_ambiguous_second_turn_after_item) {
                "provider-turn-2"@
            } else {
                "provider-turn-1"@
            };
            let completes = switches.complete_ambiguous_second_turn
                && !switches.conflicting_ambiguous_second_turn
                && !switches.complete_ambiguous_second_turn_before_response;
            let contradicts = switches.conflicting_ambiguous_second_turn
                && !switches.complete_ambiguous_second_turn_before_response;
            let late = (if (completes || contradicts) && !switches.omit_ambiguous_turn_started {
                seq![EffectView::Send(OutgoingView::TurnStarted { turn_id: "provider-turn-2"@ })]
            } else {
                Seq::empty()
            }) + (if completes {
                seq![
                    EffectView::Send(OutgoingView::ItemCompleted(Item::Final)),
                    EffectView::Send(
                        OutgoingView::TokenUsage { thread_id: session.state.thread_id },
                    ),
                    EffectView::Send(
                        OutgoingView::TurnCompleted {
                            turn_id: "provider-turn-2"@,
                            status: TurnStatus::Completed,
                        },
                    ),
                    EffectView::Save(StateView { active_turn_id: None, ..session.state }),
                ]
            } else if contradicts {
                seq![
                    EffectView::Send(
                        OutgoingView::TurnCompleted {
                            turn_id: "provider-turn-conflict"@,
                            status: TurnStatus::Completed,
                        },
                    ),
                ]
            } else {
                Seq::empty()
            });
            &&& played.effects.skip(opening) == late
            &&& played.state == StateView {
                active_turn_id: if early || completes {
                    None
                } else {
                    Some(turn_id)
                },
                ..session.state
            }
            &&& played.outcome == OutcomeView::Fail(Failure::AfterAcceptingSecondTurn)
        }),
{
    lemma_parts(session, id, offers);
}

/// A second turn can be taken on without an answer or any other sign, and the
/// server exits.
pub proof fn law_start_abandoned(session: SessionView, id: Option<Json>, offers: bool)
    requires
        session.turn_start_count == 1,
        !session.switches.reject_second_turn_start,
        !session.switches.fail_after_accepting_second_turn_before_response,
        session.switches.exit_after_accepting_second_turn_before_response,
    ensures
        ({
            let switches = session.switches;
            let second = session.turn_start_count == 1;
            let played = session.answering("turn/start"@, id, offers);
            let early = second && switches.complete_ambiguous_second_turn_before_response;
            let opening: int = if !early {
                1
            } else if switches.omit_ambiguous_turn_started {
                5
            } else {
                6
            };
            let turn_id = if second && (switches.complete_ambiguous_second_turn
                || switches.complete_ambiguous_second_turn_before_response
                || switches.conflicting_ambiguous_second_turn
                || switches.retain_ambiguous_second_turn_active
                || switches.hold_ambiguous_second_turn_after_item) {
                "provider-turn-2"@
            } else {
                "provider-turn-1"@
            };
            let state = StateView {
                active_turn_id: if early {
                    None
                } else {
                    Some(turn_id)
                },
                ..session.state
            };
            &&& played.effects.skip(opening) == Seq::<EffectView>::empty()
            &&& played.state == state
            &&& played.outcome == OutcomeView::Exit
        }),
{
    lemma_parts(session, id, offers);
}

/// A second turn can be answered with an error that says nothing: what may follow
/// is evidence of it under its own identity, and the server fails.
pub proof fn law_start_malformed(session: SessionView, id: Option<Json>, offers: bool)
    requires
        session.turn_start_count == 1,
        !session.switches.reject_second_turn_start,
        !session.switches.fail_after_accepting_second_turn_before_response,
        !session.switches.exit_after_accepting_second_turn_before_response,
        session.switches.malformed_error_second_turn_start,
    ensures
        ({
            let switches = session.switches;
            let second = session.turn_start_count == 1;
            let played = session.answering("turn/start"@, id, offers);
            let early = second && switches.complete_ambiguous_second_turn_before_response;
            let opening: int = if !early {
                1
            } else if switches.omit_ambiguous_turn_started {
                5
            } else {
                6
            };
            let turn_id = if second && (switches.complete_ambiguous_second_turn
                || switches.complete_ambiguous_second_turn_before_response
                || switches.conflicting_ambiguous_second_turn
                || switches.retain_ambiguous_second_turn_active
                || switches.hold_ambiguous_second_turn_after_item) {
                "provider-turn-2"@
            } else {
                "provider-turn-1"@
            };
            let completes = switches.complete_ambiguous_second_turn
                && !switches.conflicting_ambiguous_second_turn
                && !switches.complete_ambiguous_second_turn_before_response;
            let contradicts = switches.conflicting_ambiguous_second_turn
                && !switches.complete_ambiguous_second_turn_before_response;
            let late = (if (completes || contradicts) && !switches.omit_ambiguous_turn_started {
                seq![EffectView::Send(OutgoingView::TurnStarted { turn_id: "provider-turn-2"@ })]
            } else {
                Seq::empty()
            }) + (if completes {
                seq![
                    EffectView::Send(OutgoingView::ItemCompleted(Item::Final)),
                    EffectView::Send(
                        OutgoingView::TokenUsage { thread_id: session.state.thread_id },
                    ),
                    EffectView::Send(
                        OutgoingView::TurnCompleted {
                            turn_id: "provider-turn-2"@,
                            status: TurnStatus::Completed,
                        },
                    ),
                    EffectView::Save(StateView { active_turn_id: None, ..session.state }),
                ]
            } else if contradicts {
                seq![
                    EffectView::Send(
                        OutgoingView::TurnCompleted {
                            turn_id: "provider-turn-conflict"@,
                            status: TurnStatus::Completed,
                        },
                    ),
                ]
            } else {
                Seq::empty()
            });
            &&& played.effects.skip(opening) == seq![
                EffectView::Send(OutgoingView::Response { id, reply: ReplyView::EmptyError }),
            ] + late
            &&& played.state == StateView {
                active_turn_id: if early || completes {
                    None
                } else {
                    Some(turn_id)
                },
                ..session.state
            }
            &&& played.outcome == OutcomeView::Fail(Failure::AfterMalformedTurnError)
        }),
{
    lemma_parts(session, id, offers);
}

/// A second turn can be answered without its name: what may follow is evidence of
/// it under its own identity, and the server fails.
pub proof fn law_start_unnamed(session: SessionView, id: Option<Json>, offers: bool)
    requires
        session.turn_start_count == 1,
        !session.switches.reject_second_turn_start,
        !session.switches.fail_after_accepting_second_turn_before_response,
        !session.switches.exit_after_accepting_second_turn_before_response,
        !session.switches.malformed_error_second_turn_start,
        session.switches.missing_id_second_turn_start,
        !session.switches.hold_ambiguous_second_turn_after_item,
    ensures
        ({
            let switches = session.switches;
            let second = session.turn_start_count == 1;
            let played = session.answering("turn/start"@, id, offers);
            let early = second && switches.complete_ambiguous_second_turn_before_response;
            let opening: int = if !early {
                1
            } else if switches.omit_ambiguous_turn_started {
                5
            } else {
                6
            };
            let turn_id = if second && (switches.complete_ambiguous_second_turn
                || switches.complete_ambiguous_second_turn_before_response
                || switches.conflicting_ambiguous_second_turn
                || switches.retain_ambiguous_second_turn_active
                || switches.hold_ambiguous_second_turn_after_item) {
                "provider-turn-2"@
            } else {
                "provider-turn-1"@
            };
            let completes = switches.complete_ambiguous_second_turn
                && !switches.conflicting_ambiguous_second_turn
                && !switches.complete_ambiguous_second_turn_before_response;
            let contradicts = switches.conflicting_ambiguous_second_turn
                && !switches.complete_ambiguous_second_turn_before_response;
            let late = (if (completes || contradicts) && !switches.omit_ambiguous_turn_started {
                seq![EffectView::Send(OutgoingView::TurnStarted { turn_id: "provider-turn-2"@ })]
            } else {
                Seq::empty()
            }) + (if completes {
                seq![
                    EffectView::Send(OutgoingView::ItemCompleted(Item::Final)),
                    EffectView::Send(
                        OutgoingView::TokenUsage { thread_id: session.state.thread_id },
                    ),
                    EffectView::Send(
                        OutgoingView::TurnCompleted {
                            turn_id: "provider-turn-2"@,
                            status: TurnStatus::Completed,
                        },
                    ),
                    EffectView::Save(StateView { active_turn_id: None, ..session.state }),
                ]
            } else if contradicts {
                seq![
                    EffectView::Send(
                        OutgoingView::TurnCompleted {
                            turn_id: "provider-turn-conflict"@,
                            status: TurnStatus::Completed,
                        },
                    ),
                ]
            } else {
                Seq::empty()
            });
            &&& played.effects.skip(opening) == seq![
                EffectView::Send(OutgoingView::Response { id, reply: ReplyView::TurnUnnamed }),
            ] + late
            &&& played.state == StateView {
                active_turn_id: if early || completes {
                    None
                } else {
                    Some(turn_id)
                },
                ..session.state
            }
            &&& played.outcome == OutcomeView::Fail(Failure::AfterMissingTurnIdentity)
        }),
{
    lemma_parts(session, id, offers);
}

/// A second turn that is answered without its name can be left in progress after
/// some output, whatever evidence was asked for.
pub proof fn law_start_unnamed_and_held(session: SessionView, id: Option<Json>, offers: bool)
    requires
        session.turn_start_count == 1,
        !session.switches.reject_second_turn_start,
        !session.switches.fail_after_accepting_second_turn_before_response,
        !session.switches.exit_after_accepting_second_turn_before_response,
        !session.switches.malformed_error_second_turn_start,
        session.switches.missing_id_second_turn_start,
        session.switches.hold_ambiguous_second_turn_after_item,
    ensures
        ({
            let switches = session.switches;
            let second = session.turn_start_count == 1;
            let played = session.answering("turn/start"@, id, offers);
            let early = second && switches.complete_ambiguous_second_turn_before_response;
            let opening: int = if !early {
                1
            } else if switches.omit_ambiguous_turn_started {
                5
            } else {
                6
            };
            let turn_id = if second && (switches.complete_ambiguous_second_turn
                || switches.complete_ambiguous_second_turn_before_response
                || switches.conflicting_ambiguous_second_turn
                || switches.retain_ambiguous_second_turn_active
                || switches.hold_ambiguous_second_turn_after_item) {
                "provider-turn-2"@
            } else {
                "provider-turn-1"@
            };
            let state = StateView {
                active_turn_id: if early {
                    None
                } else {
                    Some(turn_id)
                },
                ..session.state
            };
            &&& played.effects.skip(opening) == seq![
                EffectView::Send(OutgoingView::Response { id, reply: ReplyView::TurnUnnamed }),
                EffectView::Send(OutgoingView::ItemCompleted(Item::Replacement)),
            ]
            &&& played.state == state
            &&& played.outcome == OutcomeView::Continue
        }),
{
    lemma_parts(session, id, offers);
}

/// How the effects of a turn that is answered properly go on.
proof fn lemma_course(session: SessionView, id: Option<Json>, offers: bool)
    requires
        session.turn_start_count != 1 || !(session.switches.reject_second_turn_start
            || session.switches.fail_after_accepting_second_turn_before_response
            || session.switches.exit_after_accepting_second_turn_before_response
            || session.switches.malformed_error_second_turn_start
            || session.switches.missing_id_second_turn_start),
    ensures
        ({
            let switches = session.switches;
            let second = session.turn_start_count == 1;
            let played = session.answering("turn/start"@, id, offers);
            let early = second && switches.complete_ambiguous_second_turn_before_response;
            let opening: int = if !early {
                1
            } else if switches.omit_ambiguous_turn_started {
                5
            } else {
                6
            };
            let turn_id = if second && (switches.complete_ambiguous_second_turn
                || switches.complete_ambiguous_second_turn_before_response
                || switches.conflicting_ambiguous_second_turn
                || switches.retain_ambiguous_second_turn_active
                || switches.hold_ambiguous_second_turn_after_item) {
                "provider-turn-2"@
            } else {
                "provider-turn-1"@
            };
            let state = StateView {
                active_turn_id: if early {
                    None
                } else {
                    Some(turn_id)
                },
                ..session.state
            };
            let rest = course(switches, state, session.turn_start_count + 1);
            &&& played.effects.len() >= opening + 2
            &&& played.effects.subrange(opening, opening + 2) == seq![
                EffectView::Send(OutgoingView::Response { id, reply: ReplyView::TurnAccepted }),
                EffectView::Send(OutgoingView::TurnStarted { turn_id: "provider-turn-1"@ }),
            ]
            &&& played.effects.skip(opening + 2) == rest.effects
            &&& played.state == rest.state
            &&& played.outcome == rest.outcome
        }),
{
    lemma_parts(session, id, offers);
    let switches = session.switches;
    let second = session.turn_start_count == 1;
    let played = session.answering("turn/start"@, id, offers);
    let early = second && switches.complete_ambiguous_second_turn_before_response;
    let opening: int = if !early {
        1
    } else if switches.omit_ambiguous_turn_started {
        5
    } else {
        6
    };
    let turn_id = if second && (switches.complete_ambiguous_second_turn
        || switches.complete_ambiguous_second_turn_before_response
        || switches.conflicting_ambiguous_second_turn
        || switches.retain_ambiguous_second_turn_active
        || switches.hold_ambiguous_second_turn_after_item) {
        "provider-turn-2"@
    } else {
        "provider-turn-1"@
    };
    let state = StateView {
        active_turn_id: if early {
            None
        } else {
            Some(turn_id)
        },
        ..session.state
    };
    let rest = course(switches, state, session.turn_start_count + 1);
    let answered = answering_properly(switches, state, session.turn_start_count + 1, id);
    assert(played.effects.skip(opening) == answered.effects);
    assert(answered.effects.skip(2) =~= rest.effects);
    assert(answered.effects.take(2) =~= seq![
        EffectView::Send(OutgoingView::Response { id, reply: ReplyView::TurnAccepted }),
        EffectView::Send(OutgoingView::TurnStarted { turn_id: "provider-turn-1"@ }),
    ]);
    assert(played.effects.skip(opening + 2) =~= played.effects.skip(opening).skip(2));
    assert(played.effects.subrange(opening, opening + 2) =~= played.effects.skip(opening).take(2));
}

/// Every other turn, whatever its number, is answered as accepted and announced
/// right behind the opening.
pub proof fn law_start_answered(session: SessionView, id: Option<Json>, offers: bool)
    requires
        session.turn_start_count != 1 || !(session.switches.reject_second_turn_start
            || session.switches.fail_after_accepting_second_turn_before_response
            || session.switches.exit_after_accepting_second_turn_before_response
            || session.switches.malformed_error_second_turn_start
            || session.switches.missing_id_second_turn_start),
    ensures
        ({
            let switches = session.switches;
            let second = session.turn_start_count == 1;
            let played = session.answering("turn/start"@, id, offers);
            let early = second && switches.complete_ambiguous_second_turn_before_response;
            let opening: int = if !early {
                1
            } else if switches.omit_ambiguous_turn_started {
                5
            } else {
                6
            };
            &&& played.effects.len() >= opening + 2
            &&& played.effects.subrange(opening, opening + 2) == seq![
                EffectView::Send(OutgoingView::Response { id, reply: ReplyView::TurnAccepted }),
                EffectView::Send(OutgoingView::TurnStarted { turn_id: "provider-turn-1"@ }),
            ]
        }),
{
    lemma_course(session, id, offers);
}

/// The server can fail once the second turn is announced, which is then left in
/// progress.
pub proof fn law_course_failed(session: SessionView, id: Option<Json>, offers: bool)
    requires
        session.turn_start_count != 1 || !(session.switches.reject_second_turn_start
            || session.switches.fail_after_accepting_second_turn_before_response
            || session.switches.exit_after_accepting_second_turn_before_response
            || session.switches.malformed_error_second_turn_start
            || session.switches.missing_id_second_turn_start),
        session.switches.fail_after_second_turn_start,
        session.turn_start_count == 1,
    ensures
        ({
            let switches = session.switches;
            let second = session.turn_start_count == 1;
            let played = session.answering("turn/start"@, id, offers);
            let early = second && switches.complete_ambiguous_second_turn_before_response;
            let opening: int = if !early {
                1
            } else if switches.omit_ambiguous_turn_started {
                5
            } else {
                6
            };
            let turn_id = if second && (switches.complete_ambiguous_second_turn
                || switches.complete_ambiguous_second_turn_before_response
                || switches.conflicting_ambiguous_second_turn
                || switches.retain_ambiguous_second_turn_active
                || switches.hold_ambiguous_second_turn_after_item) {
                "provider-turn-2"@
            } else {
                "provider-turn-1"@
            };
            let state = StateView {
                active_turn_id: if early {
                    None
                } else {
                    Some(turn_id)
                },
                ..session.state
            };
            &&& played.effects.skip(opening + 2) == Seq::<EffectView>::empty()
            &&& played.state == state
            &&& played.outcome == OutcomeView::Fail(Failure::AfterSecondTurnStart)
        }),
{
    lemma_course(session, id, offers);
}

/// The server can exit once a turn is announced, which is then left in progress,
/// whatever its number.
pub proof fn law_course_exited(session: SessionView, id: Option<Json>, offers: bool)
    requires
        session.turn_start_count != 1 || !(session.switches.reject_second_turn_start
            || session.switches.fail_after_accepting_second_turn_before_response
            || session.switches.exit_after_accepting_second_turn_before_response
            || session.switches.malformed_error_second_turn_start
            || session.switches.missing_id_second_turn_start),
        !(session.switches.fail_after_second_turn_start && session.turn_start_count == 1),
        session.switches.exit_after_turn_start,
    ensures
        ({
            let switches = session.switches;
            let second = session.turn_start_count == 1;
            let played = session.answering("turn/start"@, id, offers);
            let early = second && switches.complete_ambiguous_second_turn_before_response;
            let opening: int = if !early {
                1
            } else if switches.omit_ambiguous_turn_started {
                5
            } else {
                6
            };
            let turn_id = if second && (switches.complete_ambiguous_second_turn
                || switches.complete_ambiguous_second_turn_before_response
                || switches.conflicting_ambiguous_second_turn
                || switches.retain_ambiguous_second_turn_active
                || switches.hold_ambiguous_second_turn_after_item) {
                "provider-turn-2"@
            } else {
                "provider-turn-1"@
            };
            let state = StateView {
                active_turn_id: if early {
                    None
                } else {
                    Some(turn_id)
                },
                ..session.state
            };
            &&& played.effects.skip(opening + 2) == Seq::<EffectView>::empty()
            &&& played.state == state
            &&& played.outcome == OutcomeView::Exit
        }),
{
    lemma_course(session, id, offers);
}

/// Where the tool is to be called, every turn calls it once, right after it is
/// announced, and waits.
pub proof fn law_course_calls_the_tool(session: SessionView, id: Option<Json>, offers: bool)
    requires
        session.turn_start_count != 1 || !(session.switches.reject_second_turn_start
            || session.switches.fail_after_accepting_second_turn_before_response
            || session.switches.exit_after_accepting_second_turn_before_response
            || session.switches.malformed_error_second_turn_start
            || session.switches.missing_id_second_turn_start),
        !(session.switches.fail_after_second_turn_start && session.turn_start_count == 1),
        !session.switches.exit_after_turn_start,
        session.switches.emit_tool_call,
        !session.switches.complete_after_tool_call,
    ensures
        ({
            let switches = session.switches;
            let second = session.turn_start_count == 1;
            let played = session.answering("turn/start"@, id, offers);
            let early = second && switches.complete_ambiguous_second_turn_before_response;
            let opening: int = if !early {
                1
            } else if switches.omit_ambiguous_turn_started {
                5
            } else {
                6
            };
            let turn_id = if second && (switches.complete_ambiguous_second_turn
                || switches.complete_ambiguous_second_turn_before_response
                || switches.conflicting_ambiguous_second_turn
                || switches.retain_ambiguous_second_turn_active
                || switches.hold_ambiguous_second_turn_after_item) {
                "provider-turn-2"@
            } else {
                "provider-turn-1"@
            };
            let state = StateView {
                active_turn_id: if early {
                    None
                } else {
                    Some(turn_id)
                },
                ..session.state
            };
            &&& played.effects.skip(opening + 2) == seq![
                EffectView::Send(
                    OutgoingView::ToolCall {
                        request: ToolRequest::Call,
                        thread_id: session.state.thread_id,
                        calling_turn_id: Some("provider-turn-1"@),
                    },
                ),
            ]
            &&& played.state == state
            &&& played.outcome == OutcomeView::Continue
        }),
{
    lemma_course(session, id, offers);
}

/// Where the turn is not to wait for its tool, every turn calls it once and ends
/// right away, under the identity that it was stored with.
pub proof fn law_course_calls_the_tool_and_ends(
    session: SessionView,
    id: Option<Json>,
    offers: bool,
)
    requires
        session.turn_start_count != 1 || !(session.switches.reject_second_turn_start
            || session.switches.fail_after_accepting_second_turn_before_response
            || session.switches.exit_after_accepting_second_turn_before_response
            || session.switches.malformed_error_second_turn_start
            || session.switches.missing_id_second_turn_start),
        !(session.switches.fail_after_second_turn_start && session.turn_start_count == 1),
        !session.switches.exit_after_turn_start,
        session.switches.emit_tool_call,
        session.switches.complete_after_tool_call,
    ensures
        ({
            let switches = session.switches;
            let second = session.turn_start_count == 1;
            let played = session.answering("turn/start"@, id, offers);
            let early = second && switches.complete_ambiguous_second_turn_before_response;
            let opening: int = if !early {
                1
            } else if switches.omit_ambiguous_turn_started {
                5
            } else {
                6
            };
            let turn_id = if second && (switches.complete_ambiguous_second_turn
                || switches.complete_ambiguous_second_turn_before_response
                || switches.conflicting_ambiguous_second_turn
                || switches.retain_ambiguous_second_turn_active
                || switches.hold_ambiguous_second_turn_after_item) {
                "provider-turn-2"@
            } else {
                "provider-turn-1"@
            };
            let state = StateView {
                active_turn_id: if early {
                    None
                } else {
                    Some(turn_id)
                },
                ..session.state
            };
            let ended = if early {
                "provider-turn-1"@
            } else {
                turn_id
            };
            &&& played.effects.skip(opening + 2) == seq![
                EffectView::Send(
                    OutgoingView::ToolCall {
                        request: ToolRequest::Call,
                        thread_id: session.state.thread_id,
                        calling_turn_id: Some("provider-turn-1"@),
                    },
                ),
            ] + seq![
                EffectView::Send(OutgoingView::ItemCompleted(Item::Final)),
                EffectView::Send(OutgoingView::TokenUsage { thread_id: session.state.thread_id }),
                EffectView::Send(
                    OutgoingView::TurnCompleted {
                        turn_id: ended,
                        status: TurnStatus::Completed,
                    },
                ),
                EffectView::Save(StateView { active_turn_id: None, ..session.state }),
            ]
            &&& played.state == StateView { active_turn_id: None, ..session.state }
            &&& played.outcome == if switches.exit_after_tool_call_completion {
                OutcomeView::Exit
            } else {
                OutcomeView::Continue
            }
        }),
{
    lemma_course(session, id, offers);
}

/// Where the tool is to be called, every turn calls it exactly once, whatever its
/// number, and right behind the announcement of the turn.
pub proof fn law_tool_is_called_once_in_every_turn(
    session: SessionView,
    id: Option<Json>,
    offers: bool,
)
    requires
        session.turn_start_count != 1 || !(session.switches.reject_second_turn_start
            || session.switches.fail_after_accepting_second_turn_before_response
            || session.switches.exit_after_accepting_second_turn_before_response
            || session.switches.malformed_error_second_turn_start
            || session.switches.missing_id_second_turn_start),
        !(session.switches.fail_after_second_turn_start && session.turn_start_count == 1),
        !session.switches.exit_after_turn_start,
        session.switches.emit_tool_call,
    ensures
        ({
            let effects = session.answering("turn/start"@, id, offers).effects;
            exists|call: int|
                {
                    &&& 0 < call < effects.len()
                    &&& #[trigger] effects[call] == EffectView::Send(
                        OutgoingView::ToolCall {
                            request: ToolRequest::Call,
                            thread_id: session.state.thread_id,
                            calling_turn_id: Some("provider-turn-1"@),
                        },
                    )
                    &&& effects[call - 1] == EffectView::Send(
                        OutgoingView::TurnStarted { turn_id: "provider-turn-1"@ },
                    )
                    &&& forall|other: int|
                        0 <= other < effects.len() && other != call ==> !(
                        #[trigger] effects[other] matches EffectView::Send(message)
                            && message is ToolCall)
                }
        }),
{
    law_start_opening(session, id, offers);
    law_start_answered(session, id, offers);
    if session.switches.complete_after_tool_call {
        law_course_calls_the_tool_and_ends(session, id, offers);
    } else {
        law_course_calls_the_tool(session, id, offers);
    }
    let switches = session.switches;
    let effects = session.answering("turn/start"@, id, offers).effects;
    let early = session.turn_start_count == 1
        && switches.complete_ambiguous_second_turn_before_response;
    let opening: int = if !early {
        1
    } else if switches.omit_ambiguous_turn_started {
        5
    } else {
        6
    };
    let call = opening + 2;
    assert(effects[call] == effects.skip(call)[0]);
    assert(effects[call - 1] == effects.subrange(opening, call)[1]);
    assert forall|other: int| 0 <= other < effects.len() && other != call implies !(
    #[trigger] effects[other] matches EffectView::Send(message) && message is ToolCall) by {
        if other < opening {
            assert(effects[other] == effects.take(opening)[other]);
        } else if other < call {
            assert(effects[other] == effects.subrange(opening, call)[other - opening]);
        } else {
            assert(effects[other] == effects.skip(call)[other - call]);
        }
    }
}

/// Where the question is to be asked and no tool called, every turn asks it once
/// and waits.
pub proof fn law_course_asks_the_question(session: SessionView, id: Option<Json>, offers: bool)
    requires
        session.turn_start_count != 1 || !(session.switches.reject_second_turn_start
            || session.switches.fail_after_accepting_second_turn_before_response
            || session.switches.exit_after_accepting_second_turn_before_response
            || session.switches.malformed_error_second_turn_start
            || session.switches.missing_id_second_turn_start),
        !(session.switches.fail_after_second_turn_start && session.turn_start_count == 1),
        !session.switches.exit_after_turn_start,
        !session.switches.emit_tool_call,
        session.switches.emit_question,
    ensures
        ({
            let switches = session.switches;
            let second = session.turn_start_count == 1;
            let played = session.answering("turn/start"@, id, offers);
            let early = second && switches.complete_ambiguous_second_turn_before_response;
            let opening: int = if !early {
                1
            } else if switches.omit_ambiguous_turn_started {
                5
            } else {
                6
            };
            let turn_id = if second && (switches.complete_ambiguous_second_turn
                || switches.complete_ambiguous_second_turn_before_response
                || switches.conflicting_ambiguous_second_turn
                || switches.retain_ambiguous_second_turn_active
                || switches.hold_ambiguous_second_turn_after_item) {
                "provider-turn-2"@
            } else {
                "provider-turn-1"@
            };
            let state = StateView {
                active_turn_id: if early {
                    None
                } else {
                    Some(turn_id)
                },
                ..session.state
            };
            &&& played.effects.skip(opening + 2) == seq![
                EffectView::Send(OutgoingView::Question { thread_id: session.state.thread_id }),
            ]
            &&& played.state == state
            &&& played.outcome == OutcomeView::Continue
        }),
{
    lemma_course(session, id, offers);
}

/// Where turns are to be held, every turn stays in progress.
pub proof fn law_course_held(session: SessionView, id: Option<Json>, offers: bool)
    requires
        session.turn_start_count != 1 || !(session.switches.reject_second_turn_start
            || session.switches.fail_after_accepting_second_turn_before_response
            || session.switches.exit_after_accepting_second_turn_before_response
            || session.switches.malformed_error_second_turn_start
            || session.switches.missing_id_second_turn_start),
        !(session.switches.fail_after_second_turn_start && session.turn_start_count == 1),
        !session.switches.exit_after_turn_start,
        !session.switches.emit_tool_call,
        !session.switches.emit_question,
        session.switches.hold_turn,
    ensures
        ({
            let switches = session.switches;
            let second = session.turn_start_count == 1;
            let played = session.answering("turn/start"@, id, offers);
            let early = second && switches.complete_ambiguous_second_turn_before_response;
            let opening: int = if !early {
                1
            } else if switches.omit_ambiguous_turn_started {
                5
            } else {
                6
            };
            let turn_id = if second && (switches.complete_ambiguous_second_turn
                || switches.complete_ambiguous_second_turn_before_response
                || switches.conflicting_ambiguous_second_turn
                || switches.retain_ambiguous_second_turn_active
                || switches.hold_ambiguous_second_turn_after_item) {
                "provider-turn-2"@
            } else {
                "provider-turn-1"@
            };
            let state = StateView {
                active_turn_id: if early {
                    None
                } else {
                    Some(turn_id)
                },
                ..session.state
            };
            &&& played.effects.skip(opening + 2) == Seq::<EffectView>::empty()
            &&& played.state == state
            &&& played.outcome == OutcomeView::Continue
        }),
{
    lemma_course(session, id, offers);
}

/// Every other turn ends right away, under the identity that it was stored with.
/// Then the client may be warned, and the server may fail, with or without
/// lingering, or exit.
pub proof fn law_course_ended(session: SessionView, id: Option<Json>, offers: bool)
    requires
        session.turn_start_count != 1 || !(session.switches.reject_second_turn_start
            || session.switches.fail_after_accepting_second_turn_before_response
            || session.switches.exit_after_accepting_second_turn_before_response
            || session.switches.malformed_error_second_turn_start
            || session.switches.missing_id_second_turn_start),
        !(session.switches.fail_after_second_turn_start && session.turn_start_count == 1),
        !session.switches.exit_after_turn_start,
        !session.switches.emit_tool_call,
        !session.switches.emit_question,
        !session.switches.hold_turn,
    ensures
        ({
            let switches = session.switches;
            let second = session.turn_start_count == 1;
            let played = session.answering("turn/start"@, id, offers);
            let early = second && switches.complete_ambiguous_second_turn_before_response;
            let opening: int = if !early {
                1
            } else if switches.omit_ambiguous_turn_started {
                5
            } else {
                6
            };
            let turn_id = if second && (switches.complete_ambiguous_second_turn
                || switches.complete_ambiguous_second_turn_before_response
                || switches.conflicting_ambiguous_second_turn
                || switches.retain_ambiguous_second_turn_active
                || switches.hold_ambiguous_second_turn_after_item) {
                "provider-turn-2"@
            } else {
                "provider-turn-1"@
            };
            let state = StateView {
                active_turn_id: if early {
                    None
                } else {
                    Some(turn_id)
                },
                ..session.state
            };
            let ended = if early {
                "provider-turn-1"@
            } else {
                turn_id
            };
            &&& played.effects.skip(opening + 2) == seq![
                EffectView::Send(OutgoingView::ItemCompleted(Item::Final)),
                EffectView::Send(OutgoingView::TokenUsage { thread_id: session.state.thread_id }),
                EffectView::Send(
                    OutgoingView::TurnCompleted {
                        turn_id: ended,
                        status: TurnStatus::Completed,
                    },
                ),
                EffectView::Save(StateView { active_turn_id: None, ..session.state }),
            ] + (if switches.emit_post_completion_warning {
                seq![EffectView::Send(OutgoingView::Warning(Notice::LiveAfterTerminal))]
            } else {
                Seq::empty()
            }) + (match switches.fail_after_turn_completion_delay_ms {
                Some(delay) if switches.fail_after_turn_completion => seq![
                    EffectView::Sleep(delay),
                    EffectView::Send(OutgoingView::Warning(Notice::LiveAfterTerminal)),
                ],
                _ => Seq::empty(),
            })
            &&& played.state == StateView { active_turn_id: None, ..session.state }
            &&& played.outcome == if switches.fail_after_turn_completion {
                OutcomeView::Fail(Failure::AfterTurnCompletion)
            } else if switches.exit_after_turn_completion {
                OutcomeView::Exit
            } else {
                OutcomeView::Continue
            }
        }),
{
    lemma_course(session, id, offers);
}

} // verus!
