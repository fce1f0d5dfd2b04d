use fake_codex_app_server::message::{
    has_task_context_tool, judge_result, read_tool_reply, Incoming, ToolReply,
};
use serde_json::Value;

fn parse(text: &str) -> Value {
    serde_json::from_str(text).unwrap()
}

const TOOL: &str = r#"{"name":"get_task_context","description":"Read task context.","inputSchema":{"type":"object"}}"#;

fn offer(tools: &str) -> Value {
    parse(&format!(r#"{{"params":{{"dynamicTools":{tools}}}}}"#))
}

#[test]
fn the_task_context_tool_is_found_among_others() {
    assert!(has_task_context_tool(&offer(&format!("[{TOOL}]"))));
    assert!(has_task_context_tool(&offer(&format!("[1, {{}}, {TOOL}, null]"))));
}

#[test]
fn a_tool_that_differs_is_not_the_task_context_tool() {
    for tools in [
        "[]",
        "null",
        TOOL,
        r#"[{"name":"other","description":"Read task context.","inputSchema":{"type":"object"}}]"#,
        r#"[{"name":"get_task_context","description":"read task context.","inputSchema":{"type":"object"}}]"#,
        r#"[{"name":"get_task_context","description":"Read task context.","inputSchema":{"type":"array"}}]"#,
        r#"[{"name":"get_task_context","description":"Read task context.","inputSchema":"object"}]"#,
        r#"[{"name":1,"description":"Read task context.","inputSchema":{"type":"object"}}]"#,
    ] {
        assert!(!has_task_context_tool(&offer(tools)), "{tools}");
    }
    assert!(!has_task_context_tool(&parse("{}")));
    assert!(!has_task_context_tool(&parse(r#"{"dynamicTools":[]}"#)));
    assert!(!has_task_context_tool(&parse("[]")));
}

#[test]
fn a_result_is_judged_by_its_content() {
    assert_eq!(judge_result(Ok(parse(r#"{"task":{"id":"task-1"},"ok":true}"#))), ToolReply::Accepted);
    for text in [
        "null",
        "{}",
        r#"{"ok":true}"#,
        r#"{"ok":false,"task":{"id":"task-1"}}"#,
        r#"{"ok":true,"task":{"id":"task-2"}}"#,
        r#"{"ok":true,"task":{"id":"task-1","x":1}}"#,
        r#"{"ok":true,"task":{"id":"task-1"},"x":0.0}"#,
    ] {
        assert_eq!(judge_result(Ok(parse(text))), ToolReply::ResultChanged, "{text}");
    }
    assert_eq!(
        judge_result(Err("why".to_string())),
        ToolReply::InvalidResult("why".to_string())
    );
}

fn reply(result: &str) -> ToolReply {
    read_tool_reply(&parse(&format!(r#"{{"id":"tool-request-1","result":{result}}}"#)))
}

#[test]
fn a_tool_reply_is_read_step_by_step() {
    assert_eq!(reply(r#"{"success":false}"#), ToolReply::Failed);
    assert_eq!(reply(r#"{}"#), ToolReply::SuccessMissing);
    assert_eq!(reply("null"), ToolReply::SuccessMissing);
    assert_eq!(reply(r#"{"success":"true"}"#), ToolReply::SuccessMissing);
    assert_eq!(reply(r#"{"success":1}"#), ToolReply::SuccessMissing);
    assert_eq!(reply(r#"{"success":true}"#), ToolReply::TextMissing);
    assert_eq!(reply(r#"{"success":true,"contentItems":[]}"#), ToolReply::TextMissing);
    assert_eq!(reply(r#"{"success":true,"contentItems":[{"text":1}]}"#), ToolReply::TextMissing);
    assert_eq!(
        reply(r#"{"success":true,"contentItems":[{"text":"{}"}]}"#),
        ToolReply::ResultChanged
    );
    assert_eq!(
        reply(r#"{"success":true,"contentItems":[{"text":"{\"ok\":true,\"task\":{\"id\":\"task-1\"}}"},{}]}"#),
        ToolReply::Accepted
    );
    // An object is as good as an array where the path leads through it.
    assert_eq!(
        reply(r#"{"success":true,"contentItems":{"0":{"text":"[]"}}}"#),
        ToolReply::ResultChanged
    );
    let reason = serde_json::from_str::<Value>("{").unwrap_err().to_string();
    assert_eq!(
        reply(r#"{"success":true,"contentItems":[{"text":"{"}]}"#),
        ToolReply::InvalidResult(reason)
    );
}

#[test]
fn messages_are_told_apart() {
    assert_eq!(Incoming::read(&parse(r#"{"id":"runtime-request-1"}"#)), Incoming::RuntimeReply);
    assert_eq!(
        Incoming::read(&parse(r#"{"id":"tool-request-1","result":{"success":false}}"#)),
        Incoming::ToolReply(ToolReply::Failed)
    );
    assert_eq!(
        Incoming::read(&parse(r#"{"id":"tool-request-1","method":"x"}"#)),
        Incoming::Call {
            method: "x".to_string(),
            id: Some(parse("\"tool-request-1\"")),
            offers_task_context: false,
        }
    );
    assert_eq!(
        Incoming::read(&parse(&format!(
            r#"{{"method":"thread/start","params":{{"dynamicTools":[{TOOL}]}}}}"#
        ))),
        Incoming::Call {
            method: "thread/start".to_string(),
            id: None,
            offers_task_context: true,
        }
    );
    for text in [
        "{}",
        "[]",
        "null",
        r#"{"id":"tool-request-replay"}"#,
        r#"{"id":"runtime-request-1","method":null}"#,
        r#"{"id":7}"#,
        r#"{"method":7,"id":7}"#,
    ] {
        assert_eq!(Incoming::read(&parse(text)), Incoming::Unaddressed, "{text}");
    }
}

#[test]
fn a_null_id_is_an_id() {
    assert_eq!(
        Incoming::read(&parse(r#"{"id":null,"method":"x"}"#)),
        Incoming::Call { method: "x".to_string(), id: Some(Value::Null), offers_task_context: false }
    );
}

#[test]
fn a_line_that_is_not_json_is_reported() {
    let reason = serde_json::from_str::<Value>("{\"id\":").unwrap_err().to_string();
    assert_eq!(Incoming::read_line("{\"id\":"), Err(reason));
    assert_eq!(Incoming::read_line(" {} "), Ok(Incoming::Unaddressed));
    assert!(Incoming::read_line("").is_err());
}
