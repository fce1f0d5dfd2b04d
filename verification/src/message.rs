//! What a client sends.
//!
//! A line is read as JSON and then as one of the few things that the server
//! tells apart, the cases of [`Incoming`].

use crate::json::{
    at, bool_value, float_free, from_str, get, is_plain, json, json_items, lemma_object_float_free,
    member, object_of, optional_json, parsed, pointer_text, spells, text_of, text_value, Json,
    Members,
};
use serde_json::Value;
use vstd::prelude::*;

verus! {

/// The client's answer to a tool call.
#[derive(Debug, PartialEq, Eq)]
pub enum ToolReply {
    /// The tool failed.
    Failed,
    /// The answer does not say whether the tool succeeded.
    SuccessMissing,
    /// The tool succeeded, but the answer carries no text.
    TextMissing,
    /// The text is not JSON, for the reason given.
    InvalidResult(String),
    /// The text is not the result that the tool is known to give.
    ResultChanged,
    /// The tool succeeded with the result that it is known to give.
    Accepted,
}

/// The mathematical form of a [`ToolReply`].
pub enum ToolReplyView {
    Failed,
    SuccessMissing,
    TextMissing,
    InvalidResult(Seq<char>),
    ResultChanged,
    Accepted,
}

impl View for ToolReply {
    type V = ToolReplyView;

    open spec fn view(&self) -> ToolReplyView {
        match self {
            ToolReply::Failed => ToolReplyView::Failed,
            ToolReply::SuccessMissing => ToolReplyView::SuccessMissing,
            ToolReply::TextMissing => ToolReplyView::TextMissing,
            ToolReply::InvalidResult(reason) => ToolReplyView::InvalidResult(reason@),
            ToolReply::ResultChanged => ToolReplyView::ResultChanged,
            ToolReply::Accepted => ToolReplyView::Accepted,
        }
    }
}

/// A message from the client to the server.
#[derive(Debug, PartialEq, Eq)]
pub enum Incoming {
    /// The answer to the question.
    RuntimeReply,
    /// The answer to the tool call.
    ToolReply(ToolReply),
    /// A request or, without an `id`, a notification.
    Call {
        method: String,
        id: Option<Value>,
        /// Whether the parameters offer the task context tool.
        offers_task_context: bool,
    },
    /// Anything else.
    Unaddressed,
}

/// The mathematical form of an [`Incoming`].
pub enum IncomingView {
    RuntimeReply,
    ToolReply(ToolReplyView),
    Call { method: Seq<char>, id: Option<Json>, offers_task_context: bool },
    Unaddressed,
}

impl IncomingView {
    /// Whether the message asks to start a turn.
    pub open spec fn starts_turn(self) -> bool {
        self matches IncomingView::Call { method, .. } && method == "turn/start"@
    }
}

impl View for Incoming {
    type V = IncomingView;

    open spec fn view(&self) -> IncomingView {
        match self {
            Incoming::RuntimeReply => IncomingView::RuntimeReply,
            Incoming::ToolReply(reply) => IncomingView::ToolReply(reply@),
            Incoming::Call { method, id, offers_task_context } => IncomingView::Call {
                method: method@,
                id: optional_json(*id),
                offers_task_context: *offers_task_context,
            },
            Incoming::Unaddressed => IncomingView::Unaddressed,
        }
    }
}

/// Whether a tool is the one that reads the task context.
pub open spec fn is_task_context_tool(tool: Json) -> bool {
    &&& text_of(member(tool, "name"@)) == Some("get_task_context"@)
    &&& text_of(member(tool, "description"@)) == Some("Read task context."@)
    &&& text_of(at(tool, seq!["inputSchema"@, "type"@])) == Some("object"@)
}

/// Whether the task context tool is among some tools.
pub open spec fn holds_task_context_tool(tools: Seq<Json>) -> bool {
    exists|i: int| 0 <= i < tools.len() && is_task_context_tool(#[trigger] tools[i])
}

/// Whether the parameters of a message offer the task context tool.
pub open spec fn offers_task_context(message: Json) -> bool {
    match at(message, seq!["params"@, "dynamicTools"@]) {
        Some(Json::Array(tools)) => holds_task_context_tool(tools),
        _ => false,
    }
}

/// The result that the tool is known to give.
pub open spec fn expected_result() -> Json {
    object_of(
        seq![
            ("ok"@, Json::Bool(true)),
            ("task"@, object_of(seq![("id"@, Json::Text("task-1"@))])),
        ],
    )
}

/// What a tool's result is worth, once it has been read as JSON.
pub open spec fn judged(result: Result<Json, Seq<char>>) -> ToolReplyView {
    match result {
        Err(reason) => ToolReplyView::InvalidResult(reason),
        Ok(tree) => if tree == expected_result() {
            ToolReplyView::Accepted
        } else {
            ToolReplyView::ResultChanged
        },
    }
}

/// What the client's answer to a tool call says.
pub open spec fn tool_reply_of(message: Json) -> ToolReplyView {
    match at(message, seq!["result"@, "success"@]) {
        Some(Json::Bool(false)) => ToolReplyView::Failed,
        Some(Json::Bool(true)) => match text_of(
            at(message, seq!["result"@, "contentItems"@, "0"@, "text"@]),
        ) {
            Some(content) => judged(parsed(content)),
            None => ToolReplyView::TextMissing,
        },
        _ => ToolReplyView::SuccessMissing,
    }
}

/// What a message is to the server. A message with a method is a call; one
/// without is an answer if it has the `id` of something that the server asked.
pub open spec fn incoming_of(message: Json) -> IncomingView {
    let id = member(message, "id"@);
    match member(message, "method"@) {
        Some(Json::Text(method)) => IncomingView::Call {
            method,
            id,
            offers_task_context: offers_task_context(message),
        },
        Some(_) => IncomingView::Unaddressed,
        None => if text_of(id) == Some("runtime-request-1"@) {
            IncomingView::RuntimeReply
        } else if text_of(id) == Some("tool-request-1"@) {
            IncomingView::ToolReply(tool_reply_of(message))
        } else {
            IncomingView::Unaddressed
        },
    }
}

/// A path of two plain tokens is spelled as expected.
proof fn lemma_spells_two(pointer: Seq<char>, first: Seq<char>, second: Seq<char>)
    requires
        is_plain(first),
        is_plain(second),
        pointer == seq!['/'] + first + seq!['/'] + second,
    ensures
        spells(pointer, seq![first, second]),
{
    let path = seq![first, second];
    reveal_with_fuel(pointer_text, 3);
    assert(path.drop_last() =~= seq![first]);
    assert(path.drop_last().drop_last() =~= Seq::<Seq<char>>::empty());
    assert(pointer =~= pointer_text(path));
}

/// The path to the tools that a message offers.
proof fn lemma_tools_pointer()
    ensures
        spells("/params/dynamicTools"@, seq!["params"@, "dynamicTools"@]),
{
    reveal_strlit("/params/dynamicTools");
    reveal_strlit("params");
    reveal_strlit("dynamicTools");
    assert("/params/dynamicTools"@ =~= seq!['/'] + "params"@ + seq!['/'] + "dynamicTools"@);
    lemma_spells_two("/params/dynamicTools"@, "params"@, "dynamicTools"@);
}

/// The path to the kind of input that a tool takes.
proof fn lemma_schema_pointer()
    ensures
        spells("/inputSchema/type"@, seq!["inputSchema"@, "type"@]),
{
    reveal_strlit("/inputSchema/type");
    reveal_strlit("inputSchema");
    reveal_strlit("type");
    assert("/inputSchema/type"@ =~= seq!['/'] + "inputSchema"@ + seq!['/'] + "type"@);
    lemma_spells_two("/inputSchema/type"@, "inputSchema"@, "type"@);
}

/// The path to whether a tool succeeded.
proof fn lemma_success_pointer()
    ensures
        spells("/result/success"@, seq!["result"@, "success"@]),
{
    reveal_strlit("/result/success");
    reveal_strlit("result");
    reveal_strlit("success");
    assert("/result/success"@ =~= seq!['/'] + "result"@ + seq!['/'] + "success"@);
    lemma_spells_two("/result/success"@, "result"@, "success"@);
}

/// The path to the text of a tool's result.
proof fn lemma_content_pointer()
    ensures
        spells(
            "/result/contentItems/0/text"@,
            seq!["result"@, "contentItems"@, "0"@, "text"@],
        ),
{
    reveal_strlit("/result/contentItems/0/text");
    reveal_strlit("result");
    reveal_strlit("contentItems");
    reveal_strlit("0");
    reveal_strlit("text");
    let path = seq!["result"@, "contentItems"@, "0"@, "text"@];
    reveal_with_fuel(pointer_text, 5);
    assert(path.drop_last() =~= seq!["result"@, "contentItems"@, "0"@]);
    assert(path.drop_last().drop_last() =~= seq!["result"@, "contentItems"@]);
    assert(path.drop_last().drop_last().drop_last() =~= seq!["result"@]);
    assert(path.drop_last().drop_last().drop_last().drop_last() =~= Seq::<Seq<char>>::empty());
    assert("/result/contentItems/0/text"@ =~= pointer_text(path));
}

/// Whether a document that may be absent is the text `expected`.
fn is_text(value: Option<&Value>, expected: &str) -> (same: bool)
    ensures
        same == (value matches Some(present) && json(*present) == Json::Text(expected@)),
{
    match value {
        Some(present) => match present.as_str() {
            Some(content) => content.eq(expected),
            None => false,
        },
        None => false,
    }
}

/// Whether the parameters of a message offer the task context tool.
pub fn has_task_context_tool(message: &Value) -> (offered: bool)
    ensures
        offered == offers_task_context(json(*message)),
{
    proof {
        lemma_tools_pointer();
        lemma_schema_pointer();
    }
    let tools: &Vec<Value> = match message.pointer("/params/dynamicTools") {
        Some(found) => match found.as_array() {
            Some(list) => list,
            None => return false,
        },
        None => return false,
    };
    let ghost trees = json_items(tools@);
    let mut index: usize = 0;
    while index < tools.len()
        invariant
            index <= tools@.len(),
            trees == json_items(tools@),
            at(json(*message), seq!["params"@, "dynamicTools"@]) == Some(Json::Array(trees)),
            spells("/inputSchema/type"@, seq!["inputSchema"@, "type"@]),
            forall|i: int| 0 <= i < index ==> !is_task_context_tool(#[trigger] trees[i]),
        decreases tools@.len() - index,
    {
        let tool: &Value = &tools[index];
        assert(trees[index as int] == json(*tool));
        if is_text(get(tool, "name"), "get_task_context") && is_text(
            get(tool, "description"),
            "Read task context.",
        ) && is_text(tool.pointer("/inputSchema/type"), "object") {
            assert(is_task_context_tool(trees[index as int]));
            assert(holds_task_context_tool(trees));
            return true;
        }
        index = index + 1;
    }
    false
}

/// The result that the tool is known to give.
fn expected_result_value() -> (value: Value)
    ensures
        json(value) == expected_result(),
        float_free(json(value)),
{
    let task = Members::new().with("id", text_value("task-1")).build();
    let value = Members::new().with("ok", bool_value(true)).with("task", task).build();
    proof {
        let inner = seq![("id"@, Json::Text("task-1"@))];
        let outer = seq![("ok"@, Json::Bool(true)), ("task"@, object_of(inner))];
        lemma_object_float_free(inner);
        lemma_object_float_free(outer);
        assert(json(value) == object_of(outer));
    }
    value
}

/// What a tool's result is worth, once it has been read as JSON.
pub fn judge_result(result: Result<Value, String>) -> (reply: ToolReply)
    ensures
        reply@ == judged(
            match result {
                Ok(value) => Ok(json(value)),
                Err(reason) => Err(reason@),
            },
        ),
{
    match result {
        Ok(value) => if value.eq(&expected_result_value()) {
            ToolReply::Accepted
        } else {
            ToolReply::ResultChanged
        },
        Err(reason) => ToolReply::InvalidResult(reason),
    }
}

/// Whether a document that may be absent is the truth value `expected`.
fn is_bool(value: Option<&Value>, expected: bool) -> (same: bool)
    ensures
        same == (value matches Some(present) && json(*present) == Json::Bool(expected)),
{
    match value {
        Some(present) => present.eq(&bool_value(expected)),
        None => false,
    }
}

/// Reads the client's answer to a tool call.
pub fn read_tool_reply(message: &Value) -> (reply: ToolReply)
    ensures
        reply@ == tool_reply_of(json(*message)),
{
    proof {
        lemma_success_pointer();
        lemma_content_pointer();
    }
    let success = message.pointer("/result/success");
    if is_bool(success, false) {
        return ToolReply::Failed;
    }
    if !is_bool(success, true) {
        return ToolReply::SuccessMissing;
    }
    match message.pointer("/result/contentItems/0/text") {
        Some(found) => match found.as_str() {
            Some(content) => judge_result(from_str(content)),
            None => ToolReply::TextMissing,
        },
        None => ToolReply::TextMissing,
    }
}

impl Incoming {
    /// Tells what a message is to the server.
    pub fn read(message: &Value) -> (incoming: Incoming)
        ensures
            incoming@ == incoming_of(json(*message)),
    {
        let id = get(message, "id");
        match get(message, "method") {
            Some(field) => match field.as_str() {
                Some(method) => {
                    let id: Option<Value> = match id {
                        Some(present) => Some(present.clone()),
                        None => None,
                    };
                    Incoming::Call {
                        method: method.to_owned(),
                        id,
                        offers_task_context: has_task_context_tool(message),
                    }
                },
                None => Incoming::Unaddressed,
            },
            None => if is_text(id, "runtime-request-1") {
                Incoming::RuntimeReply
            } else if is_text(id, "tool-request-1") {
                Incoming::ToolReply(read_tool_reply(message))
            } else {
                Incoming::Unaddressed
            },
        }
    }

    /// Reads a line, or says why it is not JSON.
    pub fn read_line(line: &str) -> (result: Result<Incoming, String>)
        ensures
            match result {
                Ok(incoming) => parsed(line@) matches Ok(message) && incoming@ == incoming_of(
                    message,
                ),
                Err(reason) => parsed(line@) == Err::<Json, Seq<char>>(reason@),
            },
    {
        match from_str(line) {
            Ok(message) => Ok(Incoming::read(&message)),
            Err(reason) => Err(reason),
        }
    }
}

} // verus!
