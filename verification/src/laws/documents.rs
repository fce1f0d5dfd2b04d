//! What each message says, read off its document.
//!
//! The laws go from a message of the library to what its client finds in the
//! JSON document: which members each object has, and what stands where.

use crate::decimal::decimal_value;
use crate::json::{array_position, at, json, members, object_of, optional_json, Json};
use crate::options::optional_text;
use crate::protocol::{
    nullable, nullable_text, Item, Notice, Outgoing, Reply, ToolRequest, TurnStatus,
};
use serde_json::Value;
use vstd::prelude::*;

verus! {

/// Whether `tree` is what a document holds at the end of `path`.
pub open spec fn says(document: Json, path: Seq<Seq<char>>, tree: Json) -> bool {
    at(document, path) == Some(tree)
}

/// Whether a document holds an object with just these members at the end of
/// `path`.
pub open spec fn has_names(
    document: Json,
    path: Seq<Seq<char>>,
    names: Set<Seq<char>>,
) -> bool {
    at(document, path) matches Some(Json::Object(fields)) && fields.dom() == names
}

/// Whether a document holds an array of `count` items at the end of `path`.
pub open spec fn has_items(document: Json, path: Seq<Seq<char>>, count: nat) -> bool {
    at(document, path) matches Some(Json::Array(items)) && items.len() == count
}

pub(crate) proof fn lemma_members_none()
    ensures
        members(Seq::empty()) == Map::<Seq<char>, Json>::empty(),
{
}

pub(crate) proof fn lemma_members_one(a: (Seq<char>, Json))
    ensures
        members(seq![a]) == Map::<Seq<char>, Json>::empty().insert(a.0, a.1),
{
    assert(seq![a].drop_last() =~= Seq::empty());
    lemma_members_none();
}

pub(crate) proof fn lemma_members_two(a: (Seq<char>, Json), b: (Seq<char>, Json))
    ensures
        members(seq![a, b]) == Map::<Seq<char>, Json>::empty().insert(a.0, a.1).insert(b.0, b.1),
{
    assert(seq![a, b].drop_last() =~= seq![a]);
    lemma_members_one(a);
}

pub(crate) proof fn lemma_members_three(
    a: (Seq<char>, Json),
    b: (Seq<char>, Json),
    c: (Seq<char>, Json),
)
    ensures
        members(seq![a, b, c]) == Map::<Seq<char>, Json>::empty().insert(a.0, a.1).insert(
            b.0,
            b.1,
        ).insert(c.0, c.1),
{
    assert(seq![a, b, c].drop_last() =~= seq![a, b]);
    lemma_members_two(a, b);
}

pub(crate) proof fn lemma_members_four(
    a: (Seq<char>, Json),
    b: (Seq<char>, Json),
    c: (Seq<char>, Json),
    d: (Seq<char>, Json),
)
    ensures
        members(seq![a, b, c, d]) == Map::<Seq<char>, Json>::empty().insert(a.0, a.1).insert(
            b.0,
            b.1,
        ).insert(c.0, c.1).insert(d.0, d.1),
{
    assert(seq![a, b, c, d].drop_last() =~= seq![a, b, c]);
    lemma_members_three(a, b, c);
}

pub(crate) proof fn lemma_members_five(
    a: (Seq<char>, Json),
    b: (Seq<char>, Json),
    c: (Seq<char>, Json),
    d: (Seq<char>, Json),
    e: (Seq<char>, Json),
)
    ensures
        members(seq![a, b, c, d, e]) == Map::<Seq<char>, Json>::empty().insert(a.0, a.1).insert(
            b.0,
            b.1,
        ).insert(c.0, c.1).insert(d.0, d.1).insert(e.0, e.1),
{
    assert(seq![a, b, c, d, e].drop_last() =~= seq![a, b, c, d]);
    lemma_members_four(a, b, c, d);
}

pub(crate) proof fn lemma_members_six(
    a: (Seq<char>, Json),
    b: (Seq<char>, Json),
    c: (Seq<char>, Json),
    d: (Seq<char>, Json),
    e: (Seq<char>, Json),
    f: (Seq<char>, Json),
)
    ensures
        members(seq![a, b, c, d, e, f]) == Map::<Seq<char>, Json>::empty().insert(a.0, a.1).insert(
            b.0,
            b.1,
        ).insert(c.0, c.1).insert(d.0, d.1).insert(e.0, e.1).insert(f.0, f.1),
{
    assert(seq![a, b, c, d, e, f].drop_last() =~= seq![a, b, c, d, e]);
    lemma_members_five(a, b, c, d, e);
}

/// The positions that paths lead through.
proof fn lemma_positions()
    ensures
        array_position("0"@) == Some(0nat),
        array_position("1"@) == Some(1nat),
{
    reveal_strlit("0");
    reveal_strlit("1");
    reveal_with_fuel(decimal_value, 2);
    assert("0"@.len() == 1 && "0"@[0] == '0');
    assert("1"@.len() == 1 && "1"@[0] == '1');
    assert("0"@.drop_last() =~= Seq::<char>::empty());
    assert("1"@.drop_last() =~= Seq::<char>::empty());
}

proof fn lemma_names_method_params()
    ensures
        "method"@ != "params"@,
{
    reveal_strlit("method");
    reveal_strlit("params");
    assert("method"@[0] == 'm');
    assert("params"@[0] == 'p');
}

proof fn lemma_names_id_type_status_text()
    ensures
        "id"@ != "type"@,
        "id"@ != "status"@,
        "id"@ != "text"@,
        "type"@ != "status"@,
        "type"@ != "text"@,
        "status"@ != "text"@,
{
    reveal_strlit("id");
    reveal_strlit("type");
    reveal_strlit("status");
    reveal_strlit("text");
    assert("id"@.len() == 2);
    assert("type"@.len() == 4);
    assert("status"@.len() == 6);
    assert("text"@.len() == 4);
    assert("type"@[1] == 'y');
    assert("text"@[1] == 'e');
}

proof fn lemma_names_input_tokens_output_tokens()
    ensures
        "inputTokens"@ != "outputTokens"@,
{
    reveal_strlit("inputTokens");
    reveal_strlit("outputTokens");
    assert("inputTokens"@.len() == 11);
    assert("outputTokens"@.len() == 12);
}

proof fn lemma_names_input_tokens_output_tokens_requests()
    ensures
        "inputTokens"@ != "outputTokens"@,
        "inputTokens"@ != "requests"@,
        "outputTokens"@ != "requests"@,
{
    reveal_strlit("inputTokens");
    reveal_strlit("outputTokens");
    reveal_strlit("requests");
    assert("inputTokens"@.len() == 11);
    assert("outputTokens"@.len() == 12);
    assert("requests"@.len() == 8);
}

proof fn lemma_names_total_last()
    ensures
        "total"@ != "last"@,
{
    reveal_strlit("total");
    reveal_strlit("last");
    assert("total"@.len() == 5);
    assert("last"@.len() == 4);
}

proof fn lemma_names_thread_id_token_usage()
    ensures
        "threadId"@ != "tokenUsage"@,
{
    reveal_strlit("threadId");
    reveal_strlit("tokenUsage");
    assert("threadId"@.len() == 8);
    assert("tokenUsage"@.len() == 10);
}

proof fn lemma_names_thread_id_turn_id_call_id_tool_arguments()
    ensures
        "threadId"@ != "turnId"@,
        "threadId"@ != "callId"@,
        "threadId"@ != "tool"@,
        "threadId"@ != "arguments"@,
        "turnId"@ != "callId"@,
        "turnId"@ != "tool"@,
        "turnId"@ != "arguments"@,
        "callId"@ != "tool"@,
        "callId"@ != "arguments"@,
        "tool"@ != "arguments"@,
{
    reveal_strlit("threadId");
    reveal_strlit("turnId");
    reveal_strlit("callId");
    reveal_strlit("tool");
    reveal_strlit("arguments");
    assert("threadId"@.len() == 8);
    assert("turnId"@.len() == 6);
    assert("callId"@.len() == 6);
    assert("tool"@.len() == 4);
    assert("arguments"@.len() == 9);
    assert("turnId"@[0] == 't');
    assert("callId"@[0] == 'c');
}

proof fn lemma_names_id_method_params()
    ensures
        "id"@ != "method"@,
        "id"@ != "params"@,
        "method"@ != "params"@,
{
    reveal_strlit("id");
    reveal_strlit("method");
    reveal_strlit("params");
    assert("id"@.len() == 2);
    assert("method"@.len() == 6);
    assert("params"@.len() == 6);
    assert("method"@[0] == 'm');
    assert("params"@[0] == 'p');
}

proof fn lemma_names_label_description()
    ensures
        "label"@ != "description"@,
{
    reveal_strlit("label");
    reveal_strlit("description");
    assert("label"@.len() == 5);
    assert("description"@.len() == 11);
}

proof fn lemma_names_id_header_question_options()
    ensures
        "id"@ != "header"@,
        "id"@ != "question"@,
        "id"@ != "options"@,
        "header"@ != "question"@,
        "header"@ != "options"@,
        "question"@ != "options"@,
{
    reveal_strlit("id");
    reveal_strlit("header");
    reveal_strlit("question");
    reveal_strlit("options");
    assert("id"@.len() == 2);
    assert("header"@.len() == 6);
    assert("question"@.len() == 8);
    assert("options"@.len() == 7);
}

proof fn lemma_names_thread_id_turn_id_item_id_is_blocking_title_questions()
    ensures
        "threadId"@ != "turnId"@,
        "threadId"@ != "itemId"@,
        "threadId"@ != "isBlocking"@,
        "threadId"@ != "title"@,
        "threadId"@ != "questions"@,
        "turnId"@ != "itemId"@,
        "turnId"@ != "isBlocking"@,
        "turnId"@ != "title"@,
        "turnId"@ != "questions"@,
        "itemId"@ != "isBlocking"@,
        "itemId"@ != "title"@,
        "itemId"@ != "questions"@,
        "isBlocking"@ != "title"@,
        "isBlocking"@ != "questions"@,
        "title"@ != "questions"@,
{
    reveal_strlit("threadId");
    reveal_strlit("turnId");
    reveal_strlit("itemId");
    reveal_strlit("isBlocking");
    reveal_strlit("title");
    reveal_strlit("questions");
    assert("threadId"@.len() == 8);
    assert("turnId"@.len() == 6);
    assert("itemId"@.len() == 6);
    assert("isBlocking"@.len() == 10);
    assert("title"@.len() == 5);
    assert("questions"@.len() == 9);
    assert("turnId"@[0] == 't');
    assert("itemId"@[0] == 'i');
}

proof fn lemma_names_id_result()
    ensures
        "id"@ != "result"@,
{
    reveal_strlit("id");
    reveal_strlit("result");
    assert("id"@.len() == 2);
    assert("result"@.len() == 6);
}

proof fn lemma_names_id_session_id()
    ensures
        "id"@ != "sessionId"@,
{
    reveal_strlit("id");
    reveal_strlit("sessionId");
    assert("id"@.len() == 2);
    assert("sessionId"@.len() == 9);
}

proof fn lemma_names_id_status()
    ensures
        "id"@ != "status"@,
{
    reveal_strlit("id");
    reveal_strlit("status");
    assert("id"@.len() == 2);
    assert("status"@.len() == 6);
}

proof fn lemma_names_id_turns()
    ensures
        "id"@ != "turns"@,
{
    reveal_strlit("id");
    reveal_strlit("turns");
    assert("id"@.len() == 2);
    assert("turns"@.len() == 5);
}

proof fn lemma_names_code_message()
    ensures
        "code"@ != "message"@,
{
    reveal_strlit("code");
    reveal_strlit("message");
    assert("code"@.len() == 4);
    assert("message"@.len() == 7);
}

proof fn lemma_names_id_error()
    ensures
        "id"@ != "error"@,
{
    reveal_strlit("id");
    reveal_strlit("error");
    assert("id"@.len() == 2);
    assert("error"@.len() == 5);
}

/// The names that a notification or a request can have differ.
proof fn lemma_envelope_names()
    ensures
        "id"@ != "method"@,
        "id"@ != "params"@,
        "method"@ != "params"@,
        "id"@ != "result"@,
        "id"@ != "error"@,
        "id"@ != "status"@,
{
    reveal_strlit("id");
    reveal_strlit("method");
    reveal_strlit("params");
    reveal_strlit("result");
    reveal_strlit("error");
    reveal_strlit("status");
    assert("id"@.len() == 2);
    assert("method"@[0] == 'm');
    assert("params"@[0] == 'p');
    assert("result"@.len() == 6);
    assert("error"@.len() == 5);
    assert("status"@.len() == 6);
}

/// A turn's start names the turn, whichever it is.
pub proof fn law_turn_started_document(turn_id: String)
    ensures
        ({
            let document = (Outgoing::TurnStarted { turn_id })@.json();
            &&& has_names(document, seq![], set!["method"@, "params"@])
            &&& says(document, seq!["method"@], Json::Text("turn/started"@))
            &&& has_names(document, seq!["params"@], set!["turn"@])
            &&& has_names(document, seq!["params"@, "turn"@], set!["id"@])
            &&& says(document, seq!["params"@, "turn"@, "id"@], Json::Text(turn_id@))
        }),
{
    reveal_with_fuel(at, 5);
    lemma_envelope_names();
    let turn = seq![("id"@, Json::Text(turn_id@))];
    let params = seq![("turn"@, object_of(turn))];
    lemma_members_one(turn[0]);
    lemma_members_one(params[0]);
    lemma_members_two(("method"@, Json::Text("turn/started"@)), ("params"@, object_of(params)));
    assert(members(turn).dom() =~= set!["id"@]);
    assert(members(params).dom() =~= set!["turn"@]);
    let document = (Outgoing::TurnStarted { turn_id })@.json();
    assert(document->Object_0.dom() =~= set!["method"@, "params"@]);
}

/// A turn's end names the turn, whichever it is, and how it ended.
pub proof fn law_turn_completed_document(turn_id: String, status: TurnStatus)
    ensures
        ({
            let document = (Outgoing::TurnCompleted { turn_id, status })@.json();
            &&& has_names(document, seq![], set!["method"@, "params"@])
            &&& says(document, seq!["method"@], Json::Text("turn/completed"@))
            &&& has_names(document, seq!["params"@], set!["turn"@])
            &&& has_names(document, seq!["params"@, "turn"@], set!["id"@, "status"@])
            &&& says(document, seq!["params"@, "turn"@, "id"@], Json::Text(turn_id@))
            &&& says(
                document,
                seq!["params"@, "turn"@, "status"@],
                Json::Text(
                    match status {
                        TurnStatus::Completed => "completed"@,
                        TurnStatus::Failed => "failed"@,
                        TurnStatus::Interrupted => "interrupted"@,
                    },
                ),
            )
        }),
{
    reveal_with_fuel(at, 5);
    lemma_envelope_names();
    let turn = seq![("id"@, Json::Text(turn_id@)), ("status"@, Json::Text(status.spec_text()))];
    let params = seq![("turn"@, object_of(turn))];
    lemma_members_two(turn[0], turn[1]);
    lemma_members_one(params[0]);
    lemma_members_two(("method"@, Json::Text("turn/completed"@)), ("params"@, object_of(params)));
    assert(members(turn).dom() =~= set!["id"@, "status"@]);
    assert(members(params).dom() =~= set!["turn"@]);
    let document = (Outgoing::TurnCompleted { turn_id, status })@.json();
    assert(document->Object_0.dom() =~= set!["method"@, "params"@]);
}

/// Ends of different turns are different documents.
pub proof fn law_turn_ends_are_told_apart(
    first: String,
    second: String,
    status: TurnStatus,
    other_status: TurnStatus,
)
    requires
        first@ != second@,
    ensures
        (Outgoing::TurnCompleted { turn_id: first, status })@.json() != (Outgoing::TurnCompleted {
            turn_id: second,
            status: other_status,
        })@.json(),
{
    law_turn_completed_document(first, status);
    law_turn_completed_document(second, other_status);
}

/// A warning carries its sentence.
pub proof fn law_warning_document(notice: Notice)
    ensures
        ({
            let document = (Outgoing::Warning(notice))@.json();
            &&& has_names(document, seq![], set!["method"@, "params"@])
            &&& says(document, seq!["method"@], Json::Text("warning"@))
            &&& has_names(document, seq!["params"@], set!["message"@])
            &&& says(
                document,
                seq!["params"@, "message"@],
                Json::Text(
                    match notice {
                        Notice::BeforeThreadResponse => "buffered before thread response"@,
                        Notice::BeforeRejection => "buffered before replacement rejection"@,
                        Notice::LiveAfterTerminal => "provider remained live after terminal"@,
                    },
                ),
            )
        }),
{
    reveal_with_fuel(at, 4);
    let params: Seq<(Seq<char>, Json)> = seq![("message"@, Json::Text(notice.spec_text()))];
    lemma_members_one(params[0]);
    assert(members(params).dom() =~= set!["message"@]);
    let whole: Seq<(Seq<char>, Json)> = seq![
        ("method"@, Json::Text("warning"@)),
        ("params"@, object_of(params)),
    ];
    lemma_names_method_params();
    lemma_members_two(whole[0], whole[1]);
    assert(members(whole).dom() =~= set!["method"@, "params"@]);
    assert((Outgoing::Warning(notice))@.json() == object_of(whole));
}

/// A finished item is an agent message with its text.
pub proof fn law_item_document(item: Item)
    ensures
        ({
            let document = (Outgoing::ItemCompleted(item))@.json();
            &&& has_names(document, seq![], set!["method"@, "params"@])
            &&& says(document, seq!["method"@], Json::Text("item/completed"@))
            &&& has_names(document, seq!["params"@], set!["item"@])
            &&& has_names(
                document,
                seq!["params"@, "item"@],
                set!["id"@, "type"@, "status"@, "text"@],
            )
            &&& says(
                document,
                seq!["params"@, "item"@, "id"@],
                Json::Text(
                    match item {
                        Item::Final => "message-1"@,
                        Item::Replacement => "replacement-message-before-terminal"@,
                    },
                ),
            )
            &&& says(document, seq!["params"@, "item"@, "type"@], Json::Text("agentMessage"@))
            &&& says(document, seq!["params"@, "item"@, "status"@], Json::Text("completed"@))
            &&& says(
                document,
                seq!["params"@, "item"@, "text"@],
                Json::Text(
                    match item {
                        Item::Final => "Codex completed the fake turn."@,
                        Item::Replacement => "Replacement output before terminal authority."@,
                    },
                ),
            )
        }),
{
    reveal_with_fuel(at, 5);
    let item_inner: Seq<(Seq<char>, Json)> = seq![
        ("id"@, Json::Text(item.spec_id())),
        ("type"@, Json::Text("agentMessage"@)),
        ("status"@, Json::Text("completed"@)),
        ("text"@, Json::Text(item.spec_text())),
    ];
    lemma_names_id_type_status_text();
    lemma_members_four(item_inner[0], item_inner[1], item_inner[2], item_inner[3]);
    assert(members(item_inner).dom() =~= set!["id"@, "type"@, "status"@, "text"@]);
    let params: Seq<(Seq<char>, Json)> = seq![("item"@, object_of(item_inner))];
    lemma_members_one(params[0]);
    assert(members(params).dom() =~= set!["item"@]);
    let whole: Seq<(Seq<char>, Json)> = seq![
        ("method"@, Json::Text("item/completed"@)),
        ("params"@, object_of(params)),
    ];
    lemma_names_method_params();
    lemma_members_two(whole[0], whole[1]);
    assert(members(whole).dom() =~= set!["method"@, "params"@]);
    assert((Outgoing::ItemCompleted(item))@.json() == object_of(whole));
}

/// The usage is that of the thread, whichever it is.
pub proof fn law_usage_document(thread_id: String)
    ensures
        ({
            let document = (Outgoing::TokenUsage { thread_id })@.json();
            &&& has_names(document, seq![], set!["method"@, "params"@])
            &&& says(document, seq!["method"@], Json::Text("thread/tokenUsage/updated"@))
            &&& has_names(document, seq!["params"@], set!["threadId"@, "tokenUsage"@])
            &&& says(document, seq!["params"@, "threadId"@], Json::Text(thread_id@))
            &&& has_names(document, seq!["params"@, "tokenUsage"@], set!["total"@, "last"@])
            &&& has_names(
                document,
                seq!["params"@, "tokenUsage"@, "total"@],
                set!["inputTokens"@, "outputTokens"@],
            )
            &&& says(
                document,
                seq!["params"@, "tokenUsage"@, "total"@, "inputTokens"@],
                Json::Integer(12),
            )
            &&& says(
                document,
                seq!["params"@, "tokenUsage"@, "total"@, "outputTokens"@],
                Json::Integer(3),
            )
            &&& has_names(
                document,
                seq!["params"@, "tokenUsage"@, "last"@],
                set!["inputTokens"@, "outputTokens"@, "requests"@],
            )
            &&& says(
                document,
                seq!["params"@, "tokenUsage"@, "last"@, "inputTokens"@],
                Json::Integer(12),
            )
            &&& says(
                document,
                seq!["params"@, "tokenUsage"@, "last"@, "outputTokens"@],
                Json::Integer(3),
            )
            &&& says(
                document,
                seq!["params"@, "tokenUsage"@, "last"@, "requests"@],
                Json::Integer(1),
            )
        }),
{
    reveal_with_fuel(at, 6);
    let total: Seq<(Seq<char>, Json)> = seq![
        ("inputTokens"@, Json::Integer(12)),
        ("outputTokens"@, Json::Integer(3)),
    ];
    lemma_names_input_tokens_output_tokens();
    lemma_members_two(total[0], total[1]);
    assert(members(total).dom() =~= set!["inputTokens"@, "outputTokens"@]);
    let last: Seq<(Seq<char>, Json)> = seq![
        ("inputTokens"@, Json::Integer(12)),
        ("outputTokens"@, Json::Integer(3)),
        ("requests"@, Json::Integer(1)),
    ];
    lemma_names_input_tokens_output_tokens_requests();
    lemma_members_three(last[0], last[1], last[2]);
    assert(members(last).dom() =~= set!["inputTokens"@, "outputTokens"@, "requests"@]);
    let token_usage: Seq<(Seq<char>, Json)> = seq![
        ("total"@, object_of(total)),
        ("last"@, object_of(last)),
    ];
    lemma_names_total_last();
    lemma_members_two(token_usage[0], token_usage[1]);
    assert(members(token_usage).dom() =~= set!["total"@, "last"@]);
    let params: Seq<(Seq<char>, Json)> = seq![
        ("threadId"@, Json::Text(thread_id@)),
        ("tokenUsage"@, object_of(token_usage)),
    ];
    lemma_names_thread_id_token_usage();
    lemma_members_two(params[0], params[1]);
    assert(members(params).dom() =~= set!["threadId"@, "tokenUsage"@]);
    let whole: Seq<(Seq<char>, Json)> = seq![
        ("method"@, Json::Text("thread/tokenUsage/updated"@)),
        ("params"@, object_of(params)),
    ];
    lemma_names_method_params();
    lemma_members_two(whole[0], whole[1]);
    assert(members(whole).dom() =~= set!["method"@, "params"@]);
    assert((Outgoing::TokenUsage { thread_id })@.json() == object_of(whole));
}

/// A tool call names the thread and the turn that it is made in, whichever
/// they are.
pub proof fn law_tool_call_document(
    request: ToolRequest,
    thread_id: String,
    calling_turn_id: Option<String>,
)
    ensures
        ({
            let document = (Outgoing::ToolCall { request, thread_id, calling_turn_id })@.json();
            &&& has_names(document, seq![], set!["id"@, "method"@, "params"@])
            &&& says(
                document,
                seq!["id"@],
                Json::Text(
                    match request {
                        ToolRequest::Call => "tool-request-1"@,
                        ToolRequest::Replay => "tool-request-replay"@,
                    },
                ),
            )
            &&& says(document, seq!["method"@], Json::Text("item/tool/call"@))
            &&& has_names(
                document,
                seq!["params"@],
                set!["threadId"@, "turnId"@, "callId"@, "tool"@, "arguments"@],
            )
            &&& says(document, seq!["params"@, "threadId"@], Json::Text(thread_id@))
            &&& says(
                document,
                seq!["params"@, "turnId"@],
                match calling_turn_id {
                    Some(turn_id) => Json::Text(turn_id@),
                    None => Json::Null,
                },
            )
            &&& says(document, seq!["params"@, "callId"@], Json::Text("semantic-call-1"@))
            &&& says(document, seq!["params"@, "tool"@], Json::Text("get_task_context"@))
            &&& has_names(document, seq!["params"@, "arguments"@], Set::empty())
        }),
{
    reveal_with_fuel(at, 4);
    let arguments: Seq<(Seq<char>, Json)> = Seq::empty();
    lemma_members_none();
    assert(members(arguments).dom() =~= Set::empty());
    let params: Seq<(Seq<char>, Json)> = seq![
        ("threadId"@, Json::Text(thread_id@)),
        ("turnId"@, nullable_text(optional_text(calling_turn_id))),
        ("callId"@, Json::Text("semantic-call-1"@)),
        ("tool"@, Json::Text("get_task_context"@)),
        ("arguments"@, object_of(arguments)),
    ];
    lemma_names_thread_id_turn_id_call_id_tool_arguments();
    lemma_members_five(params[0], params[1], params[2], params[3], params[4]);
    assert(
        members(params).dom() =~= set!["threadId"@, "turnId"@, "callId"@, "tool"@, "arguments"@]
    );
    let whole: Seq<(Seq<char>, Json)> = seq![
        ("id"@, Json::Text(request.spec_id())),
        ("method"@, Json::Text("item/tool/call"@)),
        ("params"@, object_of(params)),
    ];
    lemma_names_id_method_params();
    lemma_members_three(whole[0], whole[1], whole[2]);
    assert(members(whole).dom() =~= set!["id"@, "method"@, "params"@]);
    assert(
        (Outgoing::ToolCall { request, thread_id, calling_turn_id })@.json() == object_of(whole)
    );
}

/// The question is asked in the thread, whichever it is.
pub proof fn law_question_document(thread_id: String)
    ensures
        ({
            let document = (Outgoing::Question { thread_id })@.json();
            &&& has_names(document, seq![], set!["id"@, "method"@, "params"@])
            &&& says(document, seq!["id"@], Json::Text("runtime-request-1"@))
            &&& says(document, seq!["method"@], Json::Text("item/tool/requestUserInput"@))
            &&& has_names(
                document,
                seq!["params"@],
                set!["threadId"@, "turnId"@, "itemId"@, "isBlocking"@, "title"@, "questions"@],
            )
            &&& says(document, seq!["params"@, "threadId"@], Json::Text(thread_id@))
            &&& says(document, seq!["params"@, "turnId"@], Json::Text("provider-turn-1"@))
            &&& says(document, seq!["params"@, "itemId"@], Json::Text("question-item-1"@))
            &&& says(document, seq!["params"@, "isBlocking"@], Json::Bool(true))
            &&& says(document, seq!["params"@, "title"@], Json::Text("Deployment input"@))
            &&& has_items(document, seq!["params"@, "questions"@], 1)
            &&& has_names(
                document,
                seq!["params"@, "questions"@, "0"@],
                set!["id"@, "header"@, "question"@, "options"@],
            )
            &&& says(
                document,
                seq!["params"@, "questions"@, "0"@, "id"@],
                Json::Text("environment"@),
            )
            &&& says(
                document,
                seq!["params"@, "questions"@, "0"@, "header"@],
                Json::Text("Environment"@),
            )
            &&& says(
                document,
                seq!["params"@, "questions"@, "0"@, "question"@],
                Json::Text("Where should we deploy?"@),
            )
            &&& has_items(document, seq!["params"@, "questions"@, "0"@, "options"@], 2)
            &&& has_names(
                document,
                seq!["params"@, "questions"@, "0"@, "options"@, "0"@],
                set!["label"@, "description"@],
            )
            &&& says(
                document,
                seq!["params"@, "questions"@, "0"@, "options"@, "0"@, "label"@],
                Json::Text("Staging"@),
            )
            &&& says(
                document,
                seq!["params"@, "questions"@, "0"@, "options"@, "0"@, "description"@],
                Json::Text("Deploy safely."@),
            )
            &&& has_names(
                document,
                seq!["params"@, "questions"@, "0"@, "options"@, "1"@],
                set!["label"@, "description"@],
            )
            &&& says(
                document,
                seq!["params"@, "questions"@, "0"@, "options"@, "1"@, "label"@],
                Json::Text("Production"@),
            )
            &&& says(
                document,
                seq!["params"@, "questions"@, "0"@, "options"@, "1"@, "description"@],
                Json::Text("Deploy directly."@),
            )
        }),
{
    reveal_with_fuel(at, 8);
    lemma_positions();
    let options_0: Seq<(Seq<char>, Json)> = seq![
        ("label"@, Json::Text("Staging"@)),
        ("description"@, Json::Text("Deploy safely."@)),
    ];
    lemma_names_label_description();
    lemma_members_two(options_0[0], options_0[1]);
    assert(members(options_0).dom() =~= set!["label"@, "description"@]);
    let options_1: Seq<(Seq<char>, Json)> = seq![
        ("label"@, Json::Text("Production"@)),
        ("description"@, Json::Text("Deploy directly."@)),
    ];
    lemma_names_label_description();
    lemma_members_two(options_1[0], options_1[1]);
    assert(members(options_1).dom() =~= set!["label"@, "description"@]);
    let questions: Seq<(Seq<char>, Json)> = seq![
        ("id"@, Json::Text("environment"@)),
        ("header"@, Json::Text("Environment"@)),
        ("question"@, Json::Text("Where should we deploy?"@)),
        ("options"@, Json::Array(seq![object_of(options_0), object_of(options_1)])),
    ];
    lemma_names_id_header_question_options();
    lemma_members_four(questions[0], questions[1], questions[2], questions[3]);
    assert(members(questions).dom() =~= set!["id"@, "header"@, "question"@, "options"@]);
    let params: Seq<(Seq<char>, Json)> = seq![
        ("threadId"@, Json::Text(thread_id@)),
        ("turnId"@, Json::Text("provider-turn-1"@)),
        ("itemId"@, Json::Text("question-item-1"@)),
        ("isBlocking"@, Json::Bool(true)),
        ("title"@, Json::Text("Deployment input"@)),
        ("questions"@, Json::Array(seq![object_of(questions)])),
    ];
    lemma_names_thread_id_turn_id_item_id_is_blocking_title_questions();
    lemma_members_six(params[0], params[1], params[2], params[3], params[4], params[5]);
    assert(
        members(params).dom() =~= set![
            "threadId"@,
            "turnId"@,
            "itemId"@,
            "isBlocking"@,
            "title"@,
            "questions"@,
        ]
    );
    let whole: Seq<(Seq<char>, Json)> = seq![
        ("id"@, Json::Text("runtime-request-1"@)),
        ("method"@, Json::Text("item/tool/requestUserInput"@)),
        ("params"@, object_of(params)),
    ];
    lemma_names_id_method_params();
    lemma_members_three(whole[0], whole[1], whole[2]);
    assert(members(whole).dom() =~= set!["id"@, "method"@, "params"@]);
    assert((Outgoing::Question { thread_id })@.json() == object_of(whole));
}

/// The answer to an initialization names the session.
pub proof fn law_initialized_document(id: Option<Value>)
    ensures
        ({
            let document = (Outgoing::Response { id, reply: Reply::Initialized })@.json();
            &&& has_names(document, seq![], set!["id"@, "result"@])
            &&& says(
                document,
                seq!["id"@],
                match id {
                    Some(value) => json(value),
                    None => Json::Null,
                },
            )
            &&& has_names(document, seq!["result"@], set!["user"@])
            &&& has_names(document, seq!["result"@, "user"@], set!["sessionId"@])
            &&& says(
                document,
                seq!["result"@, "user"@, "sessionId"@],
                Json::Text("codex-account-session"@),
            )
        }),
{
    reveal_with_fuel(at, 5);
    let user: Seq<(Seq<char>, Json)> = seq![("sessionId"@, Json::Text("codex-account-session"@))];
    lemma_members_one(user[0]);
    assert(members(user).dom() =~= set!["sessionId"@]);
    let result: Seq<(Seq<char>, Json)> = seq![("user"@, object_of(user))];
    lemma_members_one(result[0]);
    assert(members(result).dom() =~= set!["user"@]);
    let whole: Seq<(Seq<char>, Json)> = seq![
        ("id"@, nullable(optional_json(id))),
        ("result"@, object_of(result)),
    ];
    lemma_names_id_result();
    lemma_members_two(whole[0], whole[1]);
    assert(members(whole).dom() =~= set!["id"@, "result"@]);
    assert((Outgoing::Response { id, reply: Reply::Initialized })@.json() == object_of(whole));
}

/// The answer that opens a thread names it, whichever it is.
pub proof fn law_thread_document(id: Option<Value>, thread_id: String)
    ensures
        ({
            let document = (Outgoing::Response { id, reply: Reply::Thread { thread_id } })@.json();
            &&& has_names(document, seq![], set!["id"@, "result"@])
            &&& says(
                document,
                seq!["id"@],
                match id {
                    Some(value) => json(value),
                    None => Json::Null,
                },
            )
            &&& has_names(document, seq!["result"@], set!["thread"@])
            &&& has_names(document, seq!["result"@, "thread"@], set!["id"@, "sessionId"@])
            &&& says(document, seq!["result"@, "thread"@, "id"@], Json::Text(thread_id@))
            &&& says(
                document,
                seq!["result"@, "thread"@, "sessionId"@],
                Json::Text("codex-account-session"@),
            )
        }),
{
    reveal_with_fuel(at, 5);
    let thread: Seq<(Seq<char>, Json)> = seq![
        ("id"@, Json::Text(thread_id@)),
        ("sessionId"@, Json::Text("codex-account-session"@)),
    ];
    lemma_names_id_session_id();
    lemma_members_two(thread[0], thread[1]);
    assert(members(thread).dom() =~= set!["id"@, "sessionId"@]);
    let result: Seq<(Seq<char>, Json)> = seq![("thread"@, object_of(thread))];
    lemma_members_one(result[0]);
    assert(members(result).dom() =~= set!["thread"@]);
    let whole: Seq<(Seq<char>, Json)> = seq![
        ("id"@, nullable(optional_json(id))),
        ("result"@, object_of(result)),
    ];
    lemma_names_id_result();
    lemma_members_two(whole[0], whole[1]);
    assert(members(whole).dom() =~= set!["id"@, "result"@]);
    assert(
        (Outgoing::Response { id, reply: Reply::Thread { thread_id } })@.json() == object_of(whole)
    );
}

/// The answer to a read names the thread and the turn in progress, whichever
/// they are.
pub proof fn law_busy_thread_document(id: Option<Value>, thread_id: String, turn_id: String)
    ensures
        ({
            let document = (Outgoing::Response {
                id,
                reply: Reply::ThreadRead { thread_id, active_turn_id: Some(turn_id) },
            })@.json();
            &&& has_names(document, seq![], set!["id"@, "result"@])
            &&& says(
                document,
                seq!["id"@],
                match id {
                    Some(value) => json(value),
                    None => Json::Null,
                },
            )
            &&& has_names(document, seq!["result"@], set!["thread"@])
            &&& has_names(document, seq!["result"@, "thread"@], set!["id"@, "turns"@])
            &&& says(document, seq!["result"@, "thread"@, "id"@], Json::Text(thread_id@))
            &&& has_items(document, seq!["result"@, "thread"@, "turns"@], 1)
            &&& has_names(
                document,
                seq!["result"@, "thread"@, "turns"@, "0"@],
                set!["id"@, "status"@],
            )
            &&& says(
                document,
                seq!["result"@, "thread"@, "turns"@, "0"@, "id"@],
                Json::Text(turn_id@),
            )
            &&& says(
                document,
                seq!["result"@, "thread"@, "turns"@, "0"@, "status"@],
                Json::Text("inProgress"@),
            )
        }),
{
    reveal_with_fuel(at, 7);
    lemma_positions();
    let turns: Seq<(Seq<char>, Json)> = seq![
        ("id"@, Json::Text(turn_id@)),
        ("status"@, Json::Text("inProgress"@)),
    ];
    lemma_names_id_status();
    lemma_members_two(turns[0], turns[1]);
    assert(members(turns).dom() =~= set!["id"@, "status"@]);
    let thread: Seq<(Seq<char>, Json)> = seq![
        ("id"@, Json::Text(thread_id@)),
        ("turns"@, Json::Array(seq![object_of(turns)])),
    ];
    lemma_names_id_turns();
    lemma_members_two(thread[0], thread[1]);
    assert(members(thread).dom() =~= set!["id"@, "turns"@]);
    let result: Seq<(Seq<char>, Json)> = seq![("thread"@, object_of(thread))];
    lemma_members_one(result[0]);
    assert(members(result).dom() =~= set!["thread"@]);
    let whole: Seq<(Seq<char>, Json)> = seq![
        ("id"@, nullable(optional_json(id))),
        ("result"@, object_of(result)),
    ];
    lemma_names_id_result();
    lemma_members_two(whole[0], whole[1]);
    assert(members(whole).dom() =~= set!["id"@, "result"@]);
    assert(
        (Outgoing::Response {
            id,
            reply: Reply::ThreadRead { thread_id, active_turn_id: Some(turn_id) },
        })@.json() == object_of(whole)
    );
}

/// The answer to a read of a thread without a turn in progress lists none.
pub proof fn law_idle_thread_document(id: Option<Value>, thread_id: String)
    ensures
        ({
            let document = (Outgoing::Response {
                id,
                reply: Reply::ThreadRead { thread_id, active_turn_id: None },
            })@.json();
            &&& has_names(document, seq![], set!["id"@, "result"@])
            &&& says(
                document,
                seq!["id"@],
                match id {
                    Some(value) => json(value),
                    None => Json::Null,
                },
            )
            &&& has_names(document, seq!["result"@], set!["thread"@])
            &&& has_names(document, seq!["result"@, "thread"@], set!["id"@, "turns"@])
            &&& says(document, seq!["result"@, "thread"@, "id"@], Json::Text(thread_id@))
            &&& has_items(document, seq!["result"@, "thread"@, "turns"@], 0)
        }),
{
    reveal_with_fuel(at, 5);
    lemma_positions();
    let thread: Seq<(Seq<char>, Json)> = seq![
        ("id"@, Json::Text(thread_id@)),
        ("turns"@, Json::Array(Seq::empty())),
    ];
    lemma_names_id_turns();
    lemma_members_two(thread[0], thread[1]);
    assert(members(thread).dom() =~= set!["id"@, "turns"@]);
    let result: Seq<(Seq<char>, Json)> = seq![("thread"@, object_of(thread))];
    lemma_members_one(result[0]);
    assert(members(result).dom() =~= set!["thread"@]);
    let whole: Seq<(Seq<char>, Json)> = seq![
        ("id"@, nullable(optional_json(id))),
        ("result"@, object_of(result)),
    ];
    lemma_names_id_result();
    lemma_members_two(whole[0], whole[1]);
    assert(members(whole).dom() =~= set!["id"@, "result"@]);
    assert(
        (Outgoing::Response {
            id,
            reply: Reply::ThreadRead { thread_id, active_turn_id: None },
        })@.json() == object_of(whole)
    );
}

/// The proper answer to the start of a turn names the first turn.
pub proof fn law_turn_accepted_document(id: Option<Value>)
    ensures
        ({
            let document = (Outgoing::Response { id, reply: Reply::TurnAccepted })@.json();
            &&& has_names(document, seq![], set!["id"@, "result"@])
            &&& says(
                document,
                seq!["id"@],
                match id {
                    Some(value) => json(value),
                    None => Json::Null,
                },
            )
            &&& has_names(document, seq!["result"@], set!["turn"@])
            &&& has_names(document, seq!["result"@, "turn"@], set!["id"@, "status"@])
            &&& says(document, seq!["result"@, "turn"@, "id"@], Json::Text("provider-turn-1"@))
            &&& says(document, seq!["result"@, "turn"@, "status"@], Json::Text("inProgress"@))
        }),
{
    reveal_with_fuel(at, 5);
    let turn: Seq<(Seq<char>, Json)> = seq![
        ("id"@, Json::Text("provider-turn-1"@)),
        ("status"@, Json::Text("inProgress"@)),
    ];
    lemma_names_id_status();
    lemma_members_two(turn[0], turn[1]);
    assert(members(turn).dom() =~= set!["id"@, "status"@]);
    let result: Seq<(Seq<char>, Json)> = seq![("turn"@, object_of(turn))];
    lemma_members_one(result[0]);
    assert(members(result).dom() =~= set!["turn"@]);
    let whole: Seq<(Seq<char>, Json)> = seq![
        ("id"@, nullable(optional_json(id))),
        ("result"@, object_of(result)),
    ];
    lemma_names_id_result();
    lemma_members_two(whole[0], whole[1]);
    assert(members(whole).dom() =~= set!["id"@, "result"@]);
    assert((Outgoing::Response { id, reply: Reply::TurnAccepted })@.json() == object_of(whole));
}

/// An answer can leave out which turn it starts.
pub proof fn law_turn_unnamed_document(id: Option<Value>)
    ensures
        ({
            let document = (Outgoing::Response { id, reply: Reply::TurnUnnamed })@.json();
            &&& has_names(document, seq![], set!["id"@, "result"@])
            &&& says(
                document,
                seq!["id"@],
                match id {
                    Some(value) => json(value),
                    None => Json::Null,
                },
            )
            &&& has_names(document, seq!["result"@], set!["turn"@])
            &&& has_names(document, seq!["result"@, "turn"@], set!["status"@])
            &&& says(document, seq!["result"@, "turn"@, "status"@], Json::Text("inProgress"@))
        }),
{
    reveal_with_fuel(at, 5);
    let turn: Seq<(Seq<char>, Json)> = seq![("status"@, Json::Text("inProgress"@))];
    lemma_members_one(turn[0]);
    assert(members(turn).dom() =~= set!["status"@]);
    let result: Seq<(Seq<char>, Json)> = seq![("turn"@, object_of(turn))];
    lemma_members_one(result[0]);
    assert(members(result).dom() =~= set!["turn"@]);
    let whole: Seq<(Seq<char>, Json)> = seq![
        ("id"@, nullable(optional_json(id))),
        ("result"@, object_of(result)),
    ];
    lemma_names_id_result();
    lemma_members_two(whole[0], whole[1]);
    assert(members(whole).dom() =~= set!["id"@, "result"@]);
    assert((Outgoing::Response { id, reply: Reply::TurnUnnamed })@.json() == object_of(whole));
}

/// A request is granted in so many words.
pub proof fn law_accepted_document(id: Option<Value>)
    ensures
        ({
            let document = (Outgoing::Response { id, reply: Reply::Accepted })@.json();
            &&& has_names(document, seq![], set!["id"@, "result"@])
            &&& says(
                document,
                seq!["id"@],
                match id {
                    Some(value) => json(value),
                    None => Json::Null,
                },
            )
            &&& has_names(document, seq!["result"@], set!["accepted"@])
            &&& says(document, seq!["result"@, "accepted"@], Json::Bool(true))
        }),
{
    reveal_with_fuel(at, 4);
    let result: Seq<(Seq<char>, Json)> = seq![("accepted"@, Json::Bool(true))];
    lemma_members_one(result[0]);
    assert(members(result).dom() =~= set!["accepted"@]);
    let whole: Seq<(Seq<char>, Json)> = seq![
        ("id"@, nullable(optional_json(id))),
        ("result"@, object_of(result)),
    ];
    lemma_names_id_result();
    lemma_members_two(whole[0], whole[1]);
    assert(members(whole).dom() =~= set!["id"@, "result"@]);
    assert((Outgoing::Response { id, reply: Reply::Accepted })@.json() == object_of(whole));
}

/// A refused turn is answered with an error.
pub proof fn law_rejected_document(id: Option<Value>)
    ensures
        ({
            let document = (Outgoing::Response { id, reply: Reply::Rejected })@.json();
            &&& has_names(document, seq![], set!["id"@, "error"@])
            &&& says(
                document,
                seq!["id"@],
                match id {
                    Some(value) => json(value),
                    None => Json::Null,
                },
            )
            &&& has_names(document, seq!["error"@], set!["code"@, "message"@])
            &&& says(document, seq!["error"@, "code"@], Json::Integer(-32000))
            &&& says(document, seq!["error"@, "message"@], Json::Text("replacement turn rejected"@))
        }),
{
    reveal_with_fuel(at, 4);
    let error: Seq<(Seq<char>, Json)> = seq![
        ("code"@, Json::Integer(-32000)),
        ("message"@, Json::Text("replacement turn rejected"@)),
    ];
    lemma_names_code_message();
    lemma_members_two(error[0], error[1]);
    assert(members(error).dom() =~= set!["code"@, "message"@]);
    let whole: Seq<(Seq<char>, Json)> = seq![
        ("id"@, nullable(optional_json(id))),
        ("error"@, object_of(error)),
    ];
    lemma_names_id_error();
    lemma_members_two(whole[0], whole[1]);
    assert(members(whole).dom() =~= set!["id"@, "error"@]);
    assert((Outgoing::Response { id, reply: Reply::Rejected })@.json() == object_of(whole));
}

/// The error of an unknown method names the method, whichever it is.
pub proof fn law_unsupported_document(id: Option<Value>, method: String)
    ensures
        ({
            let document = (Outgoing::Response {
                id,
                reply: Reply::Unsupported { method },
            })@.json();
            &&& has_names(document, seq![], set!["id"@, "error"@])
            &&& says(
                document,
                seq!["id"@],
                match id {
                    Some(value) => json(value),
                    None => Json::Null,
                },
            )
            &&& has_names(document, seq!["error"@], set!["code"@, "message"@])
            &&& says(document, seq!["error"@, "code"@], Json::Integer(-32601))
            &&& says(
                document,
                seq!["error"@, "message"@],
                Json::Text("unsupported fake method "@ + method@),
            )
        }),
{
    reveal_with_fuel(at, 4);
    let error: Seq<(Seq<char>, Json)> = seq![
        ("code"@, Json::Integer(-32601)),
        ("message"@, Json::Text("unsupported fake method "@ + method@)),
    ];
    lemma_names_code_message();
    lemma_members_two(error[0], error[1]);
    assert(members(error).dom() =~= set!["code"@, "message"@]);
    let whole: Seq<(Seq<char>, Json)> = seq![
        ("id"@, nullable(optional_json(id))),
        ("error"@, object_of(error)),
    ];
    lemma_names_id_error();
    lemma_members_two(whole[0], whole[1]);
    assert(members(whole).dom() =~= set!["id"@, "error"@]);
    assert(
        (Outgoing::Response {
            id,
            reply: Reply::Unsupported { method },
        })@.json() == object_of(whole)
    );
}

/// An error can say nothing at all.
pub proof fn law_empty_error_document(id: Option<Value>)
    ensures
        ({
            let document = (Outgoing::Response { id, reply: Reply::EmptyError })@.json();
            &&& has_names(document, seq![], set!["id"@, "error"@])
            &&& says(
                document,
                seq!["id"@],
                match id {
                    Some(value) => json(value),
                    None => Json::Null,
                },
            )
            &&& has_names(document, seq!["error"@], Set::empty())
        }),
{
    reveal_with_fuel(at, 3);
    let error: Seq<(Seq<char>, Json)> = Seq::empty();
    lemma_members_none();
    assert(members(error).dom() =~= Set::empty());
    let whole: Seq<(Seq<char>, Json)> = seq![
        ("id"@, nullable(optional_json(id))),
        ("error"@, object_of(error)),
    ];
    lemma_names_id_error();
    lemma_members_two(whole[0], whole[1]);
    assert(members(whole).dom() =~= set!["id"@, "error"@]);
    assert((Outgoing::Response { id, reply: Reply::EmptyError })@.json() == object_of(whole));
}

} // verus!
