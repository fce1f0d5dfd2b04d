use fake_codex_app_server::options::Config;
use fake_codex_app_server::protocol::{
    Item, Notice, Outgoing, Reply, ToolRequest, TurnStatus,
};
use fake_codex_app_server::session::{
    emit_ambiguous_turn_evidence, finish_turn, load_state, log_call, Effect, FakeState, Failure,
    Outcome, Session, Step,
};
use serde_json::Value;

const TOOLS: &str = r#"{"dynamicTools":[{"name":"get_task_context","description":"Read task context.","inputSchema":{"type":"object"}}]}"#;
const TOOL_OK: &str = r#"{"id":"tool-request-1","result":{"success":true,"contentItems":[{"text":"{\"ok\":true,\"task\":{\"id\":\"task-1\"}}"}]}}"#;
const TOOL_FAILED: &str = r#"{"id":"tool-request-1","result":{"success":false}}"#;
const ANSWER: &str = r#"{"id":"runtime-request-1","result":{}}"#;

fn resume(switches: &[&str], stored: Option<FakeState>) -> Session {
    let mut args = vec!["--state-file".to_string(), "state.json".to_string()];
    args.extend(switches.iter().map(|word| word.to_string()));
    Session::open(&Config::from_args(&args).unwrap(), stored)
}

fn open(switches: &[&str]) -> Session {
    resume(switches, None)
}

fn call(session: &mut Session, method: &str) -> Step {
    session.receive(&format!(r#"{{"id":1,"method":"{method}"}}"#))
}

fn state(turn: Option<&str>) -> FakeState {
    FakeState {
        thread_id: "codex-thread-1".to_string(),
        active_turn_id: turn.map(str::to_string),
    }
}

fn save(turn: Option<&str>) -> Effect {
    Effect::Save(state(turn))
}

fn respond(reply: Reply) -> Effect {
    Effect::Send(Outgoing::Response { id: Some(Value::from(1)), reply })
}

fn warning(notice: Notice) -> Effect {
    Effect::Send(Outgoing::Warning(notice))
}

fn started(turn: &str) -> Effect {
    Effect::Send(Outgoing::TurnStarted { turn_id: turn.to_string() })
}

fn completed(turn: &str, status: TurnStatus) -> Effect {
    Effect::Send(Outgoing::TurnCompleted { turn_id: turn.to_string(), status })
}

fn finished(turn: &str, status: TurnStatus) -> Vec<Effect> {
    vec![
        Effect::Send(Outgoing::ItemCompleted(Item::Final)),
        Effect::Send(Outgoing::TokenUsage { thread_id: "codex-thread-1".to_string() }),
        completed(turn, status),
        save(None),
    ]
}

fn accepted() -> Vec<Effect> {
    vec![
        save(Some("provider-turn-1")),
        respond(Reply::TurnAccepted),
        started("provider-turn-1"),
    ]
}

fn joined(parts: Vec<Vec<Effect>>) -> Vec<Effect> {
    parts.into_iter().flatten().collect()
}

/// A session that has run one turn, with the step of its second start.
fn second_start(switches: &[&str]) -> (Session, Step) {
    let mut session = open(switches);
    let first = call(&mut session, "turn/start");
    assert_eq!(
        first.effects,
        joined(vec![accepted(), finished("provider-turn-1", TurnStatus::Completed)])
    );
    assert_eq!(first.outcome, Outcome::Continue);
    let second = call(&mut session, "turn/start");
    assert_eq!(session.turn_start_count, 2);
    (session, second)
}

#[test]
fn a_server_without_a_stored_state_starts_afresh() {
    assert_eq!(load_state(None), state(None));
    assert_eq!(load_state(Some(state(Some("x")))), state(Some("x")));
    assert_eq!(open(&[]).state, state(None));
}

#[test]
fn initialization_is_answered_once() {
    let mut session = open(&[]);
    let step = call(&mut session, "initialize");
    assert_eq!(step.effects, vec![respond(Reply::Initialized)]);
    let step = session.receive(r#"{"method":"initialized"}"#);
    assert_eq!(step, Step { effects: vec![], outcome: Outcome::Continue });
    let step = session.receive(r#"{"method":"initialize"}"#);
    assert_eq!(
        step.effects,
        vec![Effect::Send(Outgoing::Response { id: None, reply: Reply::Initialized })]
    );
}

#[test]
fn a_thread_start_resets_the_state() {
    let mut session = resume(
        &["--notification-before-response"],
        Some(FakeState { thread_id: "other".to_string(), active_turn_id: Some("t".to_string()) }),
    );
    let step = call(&mut session, "thread/start");
    assert_eq!(
        step.effects,
        vec![
            save(None),
            warning(Notice::BeforeThreadResponse),
            respond(Reply::Thread { thread_id: "codex-thread-1".to_string() }),
        ]
    );
    assert_eq!(session.state, state(None));
}

#[test]
fn a_resumed_thread_is_reported_with_its_turn() {
    let stored = FakeState { thread_id: "other".to_string(), active_turn_id: Some("t".to_string()) };
    let mut session = resume(&[], Some(stored.clone()));
    let step = call(&mut session, "thread/resume");
    assert_eq!(step.effects, vec![respond(Reply::Thread { thread_id: "other".to_string() })]);
    let step = call(&mut session, "thread/read");
    assert_eq!(
        step.effects,
        vec![respond(Reply::ThreadRead {
            thread_id: "other".to_string(),
            active_turn_id: Some("t".to_string()),
        })]
    );
    assert_eq!(step.outcome, Outcome::Continue);
    assert_eq!(session.state, stored);
}

#[test]
fn reading_a_thread_can_end_the_server() {
    let mut session = open(&["--exit-after-thread-read"]);
    assert_eq!(call(&mut session, "thread/read").outcome, Outcome::Exit);
    let mut session = open(&["--exit-after-thread-read", "--fail-after-thread-read"]);
    let step = call(&mut session, "thread/read");
    assert_eq!(step.outcome, Outcome::Fail(Failure::AfterThreadRead));
    assert_eq!(step.effects.len(), 1);
}

#[test]
fn a_required_tool_must_be_offered() {
    for (method, failure) in [
        ("thread/start", Failure::ThreadStartWithoutTool),
        ("thread/resume", Failure::ThreadResumeWithoutTool),
    ] {
        let mut session = open(&["--require-dynamic-tool"]);
        let line = format!(r#"{{"id":1,"method":"{method}","params":{TOOLS}}}"#);
        assert_eq!(session.receive(&line).outcome, Outcome::Continue);
        let step = call(&mut session, method);
        assert_eq!(step, Step { effects: vec![], outcome: Outcome::Fail(failure) });
    }
}

#[test]
fn a_plain_turn_runs_its_course() {
    let mut session = open(&[]);
    let step = call(&mut session, "turn/start");
    assert_eq!(
        step.effects,
        joined(vec![accepted(), finished("provider-turn-1", TurnStatus::Completed)])
    );
    assert_eq!(step.outcome, Outcome::Continue);
    assert_eq!(session.state, state(None));
}

#[test]
fn a_held_turn_survives_a_restart_and_is_interrupted() {
    let mut session = open(&["--hold-turn"]);
    let step = call(&mut session, "turn/start");
    assert_eq!(step.effects, accepted());
    let stored = step
        .effects
        .into_iter()
        .filter_map(|effect| match effect {
            Effect::Save(state) => Some(state),
            _ => None,
        })
        .last();
    assert_eq!(stored, Some(session.state.clone()));
    let mut restarted = resume(&["--hold-turn"], stored);
    assert_eq!(restarted.state, session.state);
    let step = call(&mut restarted, "thread/read");
    assert_eq!(
        step.effects,
        vec![respond(Reply::ThreadRead {
            thread_id: "codex-thread-1".to_string(),
            active_turn_id: Some("provider-turn-1".to_string()),
        })]
    );
    let step = call(&mut restarted, "turn/interrupt");
    assert_eq!(
        step.effects,
        joined(vec![
            vec![respond(Reply::Accepted)],
            finished("provider-turn-1", TurnStatus::Interrupted),
        ])
    );
    assert_eq!(restarted.state, state(None));
}

#[test]
fn a_turn_can_be_steered() {
    let mut session = open(&[]);
    assert_eq!(call(&mut session, "turn/steer").effects, vec![respond(Reply::Accepted)]);
}

#[test]
fn the_server_can_exit_while_a_turn_is_in_progress() {
    let mut session = open(&["--exit-after-turn-start"]);
    let step = call(&mut session, "turn/start");
    assert_eq!(step, Step { effects: accepted(), outcome: Outcome::Exit });
    assert_eq!(session.state, state(Some("provider-turn-1")));
}

#[test]
fn what_follows_a_turn_is_configurable() {
    let turn = || joined(vec![accepted(), finished("provider-turn-1", TurnStatus::Completed)]);
    let mut session = open(&["--emit-post-completion-warning", "--exit-after-turn-completion"]);
    let step = call(&mut session, "turn/start");
    assert_eq!(step.effects, joined(vec![turn(), vec![warning(Notice::LiveAfterTerminal)]]));
    assert_eq!(step.outcome, Outcome::Exit);

    let mut session = open(&["--fail-after-turn-completion", "--exit-after-turn-completion"]);
    let step = call(&mut session, "turn/start");
    assert_eq!(step.effects, turn());
    assert_eq!(step.outcome, Outcome::Fail(Failure::AfterTurnCompletion));

    let mut session = open(&[
        "--emit-post-completion-warning",
        "--fail-after-turn-completion",
        "--fail-after-turn-completion-delay-ms",
        "250",
    ]);
    let step = call(&mut session, "turn/start");
    assert_eq!(
        step.effects,
        joined(vec![
            turn(),
            vec![
                warning(Notice::LiveAfterTerminal),
                Effect::Sleep(250),
                warning(Notice::LiveAfterTerminal),
            ],
        ])
    );
    assert_eq!(step.outcome, Outcome::Fail(Failure::AfterTurnCompletion));
}

fn tool_call(request: ToolRequest, turn: Option<&str>) -> Effect {
    Effect::Send(Outgoing::ToolCall {
        request,
        thread_id: "codex-thread-1".to_string(),
        calling_turn_id: turn.map(str::to_string),
    })
}

#[test]
fn a_tool_call_ends_the_turn_once_it_is_answered() {
    let mut session = open(&["--emit-tool-call"]);
    let step = call(&mut session, "turn/start");
    assert_eq!(
        step.effects,
        joined(vec![
            accepted(),
            vec![tool_call(ToolRequest::Call, Some("provider-turn-1"))],
        ])
    );
    let step = session.receive(TOOL_OK);
    assert_eq!(step.effects, finished("provider-turn-1", TurnStatus::Completed));
    assert_eq!(step.outcome, Outcome::Continue);
}

#[test]
fn an_answered_tool_call_can_be_replayed() {
    let mut session = open(&["--emit-tool-call", "--replay-completed-tool-call"]);
    call(&mut session, "turn/start");
    let step = session.receive(TOOL_OK);
    assert_eq!(step.effects, vec![tool_call(ToolRequest::Replay, Some("provider-turn-1"))]);
    let step = session.receive(r#"{"id":"tool-request-replay","result":{"success":true}}"#);
    assert_eq!(step, Step { effects: vec![], outcome: Outcome::Continue });
}

#[test]
fn a_failed_tool_fails_the_turn_only_while_it_is_in_progress() {
    let mut session = open(&["--emit-tool-call", "--call-log", "calls.log"]);
    call(&mut session, "turn/start");
    let step = session.receive(TOOL_FAILED);
    let log = || vec![Effect::Log("tool-response:failure".to_string())];
    assert_eq!(
        step.effects,
        joined(vec![log(), finished("provider-turn-1", TurnStatus::Failed)])
    );
    let step = session.receive(TOOL_FAILED);
    assert_eq!(step, Step { effects: log(), outcome: Outcome::Continue });
}

#[test]
fn a_turn_can_end_before_its_tool_answers() {
    let mut session = open(&["--emit-tool-call", "--complete-after-tool-call"]);
    let step = call(&mut session, "turn/start");
    assert_eq!(
        step.effects,
        joined(vec![
            accepted(),
            vec![tool_call(ToolRequest::Call, Some("provider-turn-1"))],
            finished("provider-turn-1", TurnStatus::Completed),
        ])
    );
    assert_eq!(step.outcome, Outcome::Continue);
    let mut session = open(&[
        "--emit-tool-call",
        "--complete-after-tool-call",
        "--exit-after-tool-call-completion",
    ]);
    assert_eq!(call(&mut session, "turn/start").outcome, Outcome::Exit);
}

#[test]
fn a_bad_tool_answer_fails_the_server() {
    for (result, failure) in [
        ("{}", Failure::ToolSuccessMissing),
        (r#"{"success":true}"#, Failure::ToolTextMissing),
        (r#"{"success":true,"contentItems":[{"text":"{}"}]}"#, Failure::ToolResultChanged),
    ] {
        let mut session = open(&[]);
        let step =
            session.receive(&format!(r#"{{"id":"tool-request-1","result":{result}}}"#));
        assert_eq!(step, Step { effects: vec![], outcome: Outcome::Fail(failure) });
    }
    let mut session = open(&[]);
    let reason = serde_json::from_str::<Value>("x").unwrap_err().to_string();
    let step = session.receive(
        r#"{"id":"tool-request-1","result":{"success":true,"contentItems":[{"text":"x"}]}}"#,
    );
    assert_eq!(step, Step { effects: vec![], outcome: Outcome::InvalidJson(reason) });
}

#[test]
fn a_question_ends_the_turn_once_it_is_answered() {
    let mut session = open(&["--emit-question"]);
    let step = call(&mut session, "turn/start");
    assert_eq!(
        step.effects,
        joined(vec![
            accepted(),
            vec![Effect::Send(Outgoing::Question { thread_id: "codex-thread-1".to_string() })],
        ])
    );
    let step = session.receive(ANSWER);
    assert_eq!(step.effects, finished("provider-turn-1", TurnStatus::Completed));
    // A second answer ends a turn that is no longer there.
    let step = session.receive(ANSWER);
    assert_eq!(step.effects, finished("provider-turn-1", TurnStatus::Completed));
}

#[test]
fn a_tool_call_goes_before_a_question() {
    let mut session = open(&["--emit-question", "--emit-tool-call"]);
    let step = call(&mut session, "turn/start");
    assert_eq!(step.effects[3], tool_call(ToolRequest::Call, Some("provider-turn-1")));
}

#[test]
fn a_refused_second_turn_changes_nothing() {
    let (session, step) = second_start(&["--reject-second-turn-start"]);
    assert_eq!(
        step,
        Step {
            effects: vec![warning(Notice::BeforeRejection), respond(Reply::Rejected)],
            outcome: Outcome::Fail(Failure::AfterSecondTurnRejection),
        }
    );
    assert_eq!(session.state, state(None));
    let (_, step) = second_start(&[
        "--reject-second-turn-start",
        "--emit-turn-before-rejected-second-start",
    ]);
    assert_eq!(
        step.effects,
        vec![
            warning(Notice::BeforeRejection),
            started("provider-turn-contradiction"),
            respond(Reply::Rejected),
        ]
    );
}

#[test]
fn an_improperly_answered_second_turn_fails() {
    let taken = || save(Some("provider-turn-1"));
    for (switch, effects, failure) in [
        (
            "--fail-after-accepting-second-turn-before-response",
            vec![taken()],
            Failure::AfterAcceptingSecondTurn,
        ),
        (
            "--malformed-error-second-turn-start",
            vec![taken(), respond(Reply::EmptyError)],
            Failure::AfterMalformedTurnError,
        ),
        (
            "--missing-id-second-turn-start",
            vec![taken(), respond(Reply::TurnUnnamed)],
            Failure::AfterMissingTurnIdentity,
        ),
    ] {
        let (session, step) = second_start(&[switch]);
        assert_eq!(step, Step { effects, outcome: Outcome::Fail(failure) });
        assert_eq!(session.state, state(Some("provider-turn-1")));
    }
    let (_, step) = second_start(&["--exit-after-accepting-second-turn-before-response"]);
    assert_eq!(step, Step { effects: vec![taken()], outcome: Outcome::Exit });
}

#[test]
fn an_improperly_answered_second_turn_can_complete() {
    let evidence = || {
        joined(vec![
            vec![started("provider-turn-2")],
            finished("provider-turn-2", TurnStatus::Completed),
        ])
    };
    let (session, step) = second_start(&[
        "--fail-after-accepting-second-turn-before-response",
        "--complete-ambiguous-second-turn",
    ]);
    assert_eq!(
        step.effects,
        joined(vec![vec![save(Some("provider-turn-2"))], evidence()])
    );
    assert_eq!(session.state, state(None));
    let (_, step) = second_start(&[
        "--malformed-error-second-turn-start",
        "--complete-ambiguous-second-turn",
    ]);
    assert_eq!(
        step.effects,
        joined(vec![
            vec![save(Some("provider-turn-2")), respond(Reply::EmptyError)],
            evidence(),
        ])
    );
    let (_, step) = second_start(&[
        "--missing-id-second-turn-start",
        "--complete-ambiguous-second-turn",
        "--omit-ambiguous-turn-started",
    ]);
    assert_eq!(
        step.effects,
        joined(vec![
            vec![save(Some("provider-turn-2")), respond(Reply::TurnUnnamed)],
            finished("provider-turn-2", TurnStatus::Completed),
        ])
    );
}

#[test]
fn a_second_turn_can_complete_before_its_answer() {
    let (_, step) = second_start(&[
        "--missing-id-second-turn-start",
        "--complete-ambiguous-second-turn-before-response",
        "--omit-ambiguous-turn-started",
    ]);
    assert_eq!(
        step.effects,
        joined(vec![
            vec![save(Some("provider-turn-2"))],
            finished("provider-turn-2", TurnStatus::Completed),
            vec![respond(Reply::TurnUnnamed)],
        ])
    );
    // Answered properly, it runs its course on top of that.
    let (_, step) = second_start(&["--complete-ambiguous-second-turn-before-response"]);
    assert_eq!(
        step.effects,
        joined(vec![
            vec![save(Some("provider-turn-2")), started("provider-turn-2")],
            finished("provider-turn-2", TurnStatus::Completed),
            vec![respond(Reply::TurnAccepted), started("provider-turn-1")],
            finished("provider-turn-1", TurnStatus::Completed),
        ])
    );
}

#[test]
fn contradictory_evidence_keeps_the_second_turn() {
    let (session, step) = second_start(&[
        "--missing-id-second-turn-start",
        "--conflicting-ambiguous-second-turn",
    ]);
    assert_eq!(
        step.effects,
        vec![
            save(Some("provider-turn-2")),
            respond(Reply::TurnUnnamed),
            started("provider-turn-2"),
            completed("provider-turn-conflict", TurnStatus::Completed),
        ]
    );
    assert_eq!(session.state, state(Some("provider-turn-2")));
}

#[test]
fn a_second_turn_can_be_kept_under_its_own_identity() {
    let (session, step) = second_start(&[
        "--fail-after-accepting-second-turn-before-response",
        "--retain-ambiguous-second-turn-active",
    ]);
    assert_eq!(step.effects, vec![save(Some("provider-turn-2"))]);
    assert_eq!(session.state, state(Some("provider-turn-2")));
    let (session, step) = second_start(&[
        "--missing-id-second-turn-start",
        "--hold-ambiguous-second-turn-after-item",
        "--complete-ambiguous-second-turn",
    ]);
    assert_eq!(
        step,
        Step {
            effects: vec![
                save(Some("provider-turn-2")),
                respond(Reply::TurnUnnamed),
                Effect::Send(Outgoing::ItemCompleted(Item::Replacement)),
            ],
            outcome: Outcome::Continue,
        }
    );
    assert_eq!(session.state, state(Some("provider-turn-2")));
}

#[test]
fn an_answered_second_turn_can_fail_the_server() {
    let (session, step) = second_start(&["--fail-after-second-turn-start"]);
    assert_eq!(
        step,
        Step {
            effects: accepted(),
            outcome: Outcome::Fail(Failure::AfterSecondTurnStart),
        }
    );
    assert_eq!(session.state, state(Some("provider-turn-1")));
}

#[test]
fn the_third_turn_is_plain_again() {
    let (mut session, _) = second_start(&["--reject-second-turn-start"]);
    let step = call(&mut session, "turn/start");
    assert_eq!(
        step.effects,
        joined(vec![accepted(), finished("provider-turn-1", TurnStatus::Completed)])
    );
    assert_eq!(session.turn_start_count, 3);
}

#[test]
fn the_first_matching_fault_is_played() {
    let (_, step) = second_start(&[
        "--missing-id-second-turn-start",
        "--malformed-error-second-turn-start",
        "--exit-after-accepting-second-turn-before-response",
        "--fail-after-accepting-second-turn-before-response",
    ]);
    assert_eq!(step.outcome, Outcome::Fail(Failure::AfterAcceptingSecondTurn));
}

#[test]
fn unknown_methods_are_refused_only_where_an_answer_is_due() {
    let mut session = open(&[]);
    let step = call(&mut session, "model/list");
    assert_eq!(
        step.effects,
        vec![respond(Reply::Unsupported { method: "model/list".to_string() })]
    );
    let step = session.receive(r#"{"method":"model/list"}"#);
    assert_eq!(step, Step { effects: vec![], outcome: Outcome::Continue });
}

#[test]
fn calls_are_recorded_first() {
    let mut session = open(&["--call-log", "calls.log"]);
    let step = call(&mut session, "model/list");
    assert_eq!(step.effects[0], Effect::Log("model/list".to_string()));
    assert_eq!(step.effects.len(), 2);
    assert_eq!(session.receive("{}").effects, vec![]);
    let mut effects = Vec::new();
    log_call(false, "x", &mut effects);
    assert_eq!(effects, vec![]);
    log_call(true, "x", &mut effects);
    assert_eq!(effects, vec![Effect::Log("x".to_string())]);
}

#[test]
fn a_line_that_is_not_json_ends_the_server() {
    let mut session = open(&["--call-log", "calls.log"]);
    let reason = serde_json::from_str::<Value>("oops").unwrap_err().to_string();
    let step = session.receive("oops");
    assert_eq!(step, Step { effects: vec![], outcome: Outcome::InvalidJson(reason.clone()) });
    assert_eq!(step.outcome.error_message(), Some(reason));
}

#[test]
fn a_turn_that_is_not_there_ends_under_a_default_identity() {
    let mut effects = Vec::new();
    let mut idle = state(None);
    finish_turn(&mut idle, TurnStatus::Failed, &mut effects);
    assert_eq!(effects, finished("provider-turn-1", TurnStatus::Failed));
    let mut effects = Vec::new();
    emit_ambiguous_turn_evidence(&mut idle, true, true, &mut effects);
    assert_eq!(
        effects,
        vec![
            started("provider-turn-2"),
            completed("provider-turn-conflict", TurnStatus::Completed),
        ]
    );
}

#[test]
fn failures_are_reported_in_words() {
    for (failure, words) in [
        (Failure::ToolSuccessMissing, "semantic tool response omitted success"),
        (Failure::ToolTextMissing, "semantic tool response omitted content text"),
        (Failure::ToolResultChanged, "semantic tool response changed the operation result"),
        (Failure::ThreadStartWithoutTool, "thread/start omitted the authorized dynamic tool"),
        (Failure::ThreadResumeWithoutTool, "thread/resume omitted the authorized dynamic tool"),
        (Failure::AfterThreadRead, "configured failure after thread read"),
        (Failure::AfterSecondTurnRejection, "configured failure after second turn rejection"),
        (Failure::AfterAcceptingSecondTurn, "configured failure after accepting second turn"),
        (Failure::AfterMalformedTurnError, "configured failure after malformed turn error"),
        (Failure::AfterMissingTurnIdentity, "configured failure after missing turn identity"),
        (Failure::AfterSecondTurnStart, "configured failure after second turn start"),
        (Failure::AfterTurnCompletion, "configured failure after turn completion"),
    ] {
        assert_eq!(failure.message(), words);
        assert_eq!(Outcome::Fail(failure).error_message(), Some(words.to_string()));
    }
    assert_eq!(Outcome::Continue.error_message(), None);
    assert_eq!(Outcome::Exit.error_message(), None);
}
