use fake_codex_app_server::protocol::{
    Item, Notice, Outgoing, Reply, ToolRequest, TurnStatus,
};
use serde_json::Value;

fn parse(text: &str) -> Value {
    serde_json::from_str(text).unwrap()
}

fn check(message: Outgoing, expected: &str) {
    let expected = parse(expected);
    assert_eq!(message.render(), expected);
    let line = message.wire_line();
    assert!(line.ends_with('\n'));
    assert_eq!(line.matches('\n').count(), 1);
    assert_eq!(parse(&line), expected);
    assert_eq!(line, format!("{expected}\n"));
}

fn response(id: Option<&str>, reply: Reply) -> Outgoing {
    Outgoing::Response { id: id.map(parse), reply }
}

#[test]
fn warnings_are_spelled_out() {
    check(
        Outgoing::Warning(Notice::BeforeThreadResponse),
        r#"{"method":"warning","params":{"message":"buffered before thread response"}}"#,
    );
    check(
        Outgoing::Warning(Notice::BeforeRejection),
        r#"{"method":"warning","params":{"message":"buffered before replacement rejection"}}"#,
    );
    check(
        Outgoing::Warning(Notice::LiveAfterTerminal),
        r#"{"method":"warning","params":{"message":"provider remained live after terminal"}}"#,
    );
}

#[test]
fn turn_notifications_are_spelled_out() {
    check(
        Outgoing::TurnStarted { turn_id: "provider-turn-2".to_string() },
        r#"{"method":"turn/started","params":{"turn":{"id":"provider-turn-2"}}}"#,
    );
    for (status, word) in [
        (TurnStatus::Completed, "completed"),
        (TurnStatus::Failed, "failed"),
        (TurnStatus::Interrupted, "interrupted"),
    ] {
        check(
            Outgoing::TurnCompleted { turn_id: "provider-turn-1".to_string(), status },
            &format!(
                r#"{{"method":"turn/completed","params":{{"turn":{{"id":"provider-turn-1","status":"{word}"}}}}}}"#
            ),
        );
    }
}

#[test]
fn items_and_usage_are_spelled_out() {
    check(
        Outgoing::ItemCompleted(Item::Final),
        r#"{"method":"item/completed","params":{"item":{"id":"message-1","type":"agentMessage","status":"completed","text":"Codex completed the fake turn."}}}"#,
    );
    check(
        Outgoing::ItemCompleted(Item::Replacement),
        r#"{"method":"item/completed","params":{"item":{"id":"replacement-message-before-terminal","type":"agentMessage","status":"completed","text":"Replacement output before terminal authority."}}}"#,
    );
    check(
        Outgoing::TokenUsage { thread_id: "t\n\"1\"".to_string() },
        r#"{"method":"thread/tokenUsage/updated","params":{"threadId":"t\n\"1\"","tokenUsage":{"total":{"inputTokens":12,"outputTokens":3},"last":{"inputTokens":12,"outputTokens":3,"requests":1}}}}"#,
    );
}

#[test]
fn tool_calls_are_spelled_out() {
    check(
        Outgoing::ToolCall {
            request: ToolRequest::Call,
            thread_id: "codex-thread-1".to_string(),
            calling_turn_id: Some("provider-turn-1".to_string()),
        },
        r#"{"id":"tool-request-1","method":"item/tool/call","params":{"threadId":"codex-thread-1","turnId":"provider-turn-1","callId":"semantic-call-1","tool":"get_task_context","arguments":{}}}"#,
    );
    check(
        Outgoing::ToolCall {
            request: ToolRequest::Replay,
            thread_id: "codex-thread-1".to_string(),
            calling_turn_id: None,
        },
        r#"{"id":"tool-request-replay","method":"item/tool/call","params":{"threadId":"codex-thread-1","turnId":null,"callId":"semantic-call-1","tool":"get_task_context","arguments":{}}}"#,
    );
}

#[test]
fn the_question_is_spelled_out() {
    check(
        Outgoing::Question { thread_id: "codex-thread-1".to_string() },
        r#"{"id":"runtime-request-1","method":"item/tool/requestUserInput","params":{"threadId":"codex-thread-1","turnId":"provider-turn-1","itemId":"question-item-1","isBlocking":true,"title":"Deployment input","questions":[{"id":"environment","header":"Environment","question":"Where should we deploy?","options":[{"label":"Staging","description":"Deploy safely."},{"label":"Production","description":"Deploy directly."}]}]}}"#,
    );
}

#[test]
fn results_are_spelled_out() {
    check(
        response(Some("1"), Reply::Initialized),
        r#"{"id":1,"result":{"user":{"sessionId":"codex-account-session"}}}"#,
    );
    check(
        response(Some("\"x\""), Reply::Thread { thread_id: "codex-thread-1".to_string() }),
        r#"{"id":"x","result":{"thread":{"id":"codex-thread-1","sessionId":"codex-account-session"}}}"#,
    );
    check(
        response(
            Some("2"),
            Reply::ThreadRead { thread_id: "codex-thread-1".to_string(), active_turn_id: None },
        ),
        r#"{"id":2,"result":{"thread":{"id":"codex-thread-1","turns":[]}}}"#,
    );
    check(
        response(
            Some("2"),
            Reply::ThreadRead {
                thread_id: "codex-thread-1".to_string(),
                active_turn_id: Some("provider-turn-2".to_string()),
            },
        ),
        r#"{"id":2,"result":{"thread":{"id":"codex-thread-1","turns":[{"id":"provider-turn-2","status":"inProgress"}]}}}"#,
    );
    check(
        response(Some("3"), Reply::TurnAccepted),
        r#"{"id":3,"result":{"turn":{"id":"provider-turn-1","status":"inProgress"}}}"#,
    );
    check(
        response(Some("3"), Reply::TurnUnnamed),
        r#"{"id":3,"result":{"turn":{"status":"inProgress"}}}"#,
    );
    check(response(None, Reply::Accepted), r#"{"id":null,"result":{"accepted":true}}"#);
}

#[test]
fn errors_are_spelled_out() {
    check(
        response(Some("[1,{}]"), Reply::Rejected),
        r#"{"id":[1,{}],"error":{"code":-32000,"message":"replacement turn rejected"}}"#,
    );
    check(
        response(Some("null"), Reply::Unsupported { method: "a \"b\"".to_string() }),
        r#"{"id":null,"error":{"code":-32601,"message":"unsupported fake method a \"b\""}}"#,
    );
    check(response(Some("4"), Reply::EmptyError), r#"{"id":4,"error":{}}"#);
}

#[test]
fn the_deepest_readable_id_is_read_back() {
    let id = format!("{}{}", "[".repeat(126), "]".repeat(126));
    let message = response(Some(&id), Reply::EmptyError);
    assert_eq!(parse(&message.wire_line()), message.render());
}
