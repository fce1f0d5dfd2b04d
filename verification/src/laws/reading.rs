//! What a client's message is taken for.

use crate::json::{at, member, members, object_of, parsed, Json};
use crate::laws::documents::{lemma_members_one, lemma_members_two};
use crate::message::{
    expected_result, holds_task_context_tool, incoming_of, is_task_context_tool, judged,
    offers_task_context, tool_reply_of, IncomingView, ToolReplyView,
};
use vstd::prelude::*;

verus! {

/// A message with a method in words is a call of that method, under whatever
/// `id` it has, even where the `id` is that of something the server asked.
pub proof fn law_method_makes_a_call(message: Json, name: Seq<char>)
    requires
        member(message, "method"@) == Some(Json::Text(name)),
    ensures
        incoming_of(message) matches IncomingView::Call { method, id, .. } && method == name && id
            == member(message, "id"@),
{
}

/// A message offers the task context tool just if its list of tools holds one
/// with the right name, the right description and an object for its input, and
/// a call tells whether its message does.
pub proof fn law_tool_is_offered_by_its_description(message: Json)
    ensures
        offers_task_context(message) == (at(
            message,
            seq!["params"@, "dynamicTools"@],
        ) matches Some(Json::Array(tools)) && exists|i: int|
            0 <= i < tools.len() && member(#[trigger] tools[i], "name"@) == Some(
                Json::Text("get_task_context"@),
            ) && member(tools[i], "description"@) == Some(Json::Text("Read task context."@)) && at(
                tools[i],
                seq!["inputSchema"@, "type"@],
            ) == Some(Json::Text("object"@))),
        incoming_of(message) matches IncomingView::Call { offers_task_context: offered, .. }
            ==> offered == offers_task_context(message),
{
    if let Some(Json::Array(tools)) = at(message, seq!["params"@, "dynamicTools"@]) {
        assert forall|i: int| 0 <= i < tools.len() implies is_task_context_tool(
            #[trigger] tools[i],
        ) == (member(tools[i], "name"@) == Some(Json::Text("get_task_context"@)) && member(
            tools[i],
            "description"@,
        ) == Some(Json::Text("Read task context."@)) && at(
            tools[i],
            seq!["inputSchema"@, "type"@],
        ) == Some(Json::Text("object"@))) by {}
        if holds_task_context_tool(tools) {
            let i = choose|i: int| 0 <= i < tools.len() && is_task_context_tool(#[trigger] tools[i]);
            assert(is_task_context_tool(tools[i]));
        }
    }
}

/// A message whose method is no text is passed over, whatever its `id`.
pub proof fn law_wordless_method_is_passed_over(message: Json, method: Json)
    requires
        member(message, "method"@) == Some(method),
        !(method is Text),
    ensures
        incoming_of(message) == IncomingView::Unaddressed,
{
}

/// A message is the answer to the question just if it has the question's `id`
/// and no method, whatever else it holds.
pub proof fn law_question_is_answered_by_id(message: Json)
    ensures
        incoming_of(message) is RuntimeReply <==> member(message, "method"@) is None && member(
            message,
            "id"@,
        ) == Some(Json::Text("runtime-request-1"@)),
{
}

/// A message is the answer to the tool call just if it has the call's `id` and
/// no method, whatever else it holds.
pub proof fn law_tool_call_is_answered_by_id(message: Json)
    ensures
        incoming_of(message) is ToolReply <==> member(message, "method"@) is None && member(
            message,
            "id"@,
        ) == Some(Json::Text("tool-request-1"@)),
        incoming_of(message) matches IncomingView::ToolReply(reply) ==> reply == tool_reply_of(
            message,
        ),
{
    reveal_strlit("runtime-request-1");
    reveal_strlit("tool-request-1");
    assert("runtime-request-1"@[0] == 'r');
    assert("tool-request-1"@[0] == 't');
}

/// A message with neither a method nor the `id` of something the server asked
/// is passed over.
pub proof fn law_other_messages_are_passed_over(message: Json)
    requires
        member(message, "method"@) is None,
        member(message, "id"@) != Some(Json::Text("runtime-request-1"@)),
        member(message, "id"@) != Some(Json::Text("tool-request-1"@)),
    ensures
        incoming_of(message) == IncomingView::Unaddressed,
{
}

/// A tool that did not succeed has failed, whatever else the answer holds.
pub proof fn law_unsuccessful_tool_has_failed(message: Json)
    requires
        at(message, seq!["result"@, "success"@]) == Some(Json::Bool(false)),
    ensures
        tool_reply_of(message) == ToolReplyView::Failed,
        member(message, "method"@) is None && member(message, "id"@) == Some(
            Json::Text("tool-request-1"@),
        ) ==> incoming_of(message) == IncomingView::ToolReply(ToolReplyView::Failed),
{
    law_tool_call_is_answered_by_id(message);
}

/// An answer that does not say in a truth value whether the tool succeeded is
/// reported as such, whatever else it holds.
pub proof fn law_unknown_success_is_reported(message: Json)
    requires
        !(at(message, seq!["result"@, "success"@]) matches Some(Json::Bool(_))),
    ensures
        tool_reply_of(message) == ToolReplyView::SuccessMissing,
        member(message, "method"@) is None && member(message, "id"@) == Some(
            Json::Text("tool-request-1"@),
        ) ==> incoming_of(message) == IncomingView::ToolReply(ToolReplyView::SuccessMissing),
{
    law_tool_call_is_answered_by_id(message);
}

/// A success without a text in its first content item is reported as such.
pub proof fn law_missing_text_is_reported(message: Json)
    requires
        at(message, seq!["result"@, "success"@]) == Some(Json::Bool(true)),
        !(at(message, seq!["result"@, "contentItems"@, "0"@, "text"@]) matches Some(Json::Text(_))),
    ensures
        tool_reply_of(message) == ToolReplyView::TextMissing,
        member(message, "method"@) is None && member(message, "id"@) == Some(
            Json::Text("tool-request-1"@),
        ) ==> incoming_of(message) == IncomingView::ToolReply(ToolReplyView::TextMissing),
{
    law_tool_call_is_answered_by_id(message);
}

/// A success whose text is not JSON is reported with the reason, whatever the
/// text is.
pub proof fn law_unreadable_result_is_reported(
    message: Json,
    content: Seq<char>,
    reason: Seq<char>,
)
    requires
        at(message, seq!["result"@, "success"@]) == Some(Json::Bool(true)),
        at(message, seq!["result"@, "contentItems"@, "0"@, "text"@]) == Some(Json::Text(content)),
        parsed(content) == Err::<Json, Seq<char>>(reason),
    ensures
        tool_reply_of(message) == ToolReplyView::InvalidResult(reason),
        member(message, "method"@) is None && member(message, "id"@) == Some(
            Json::Text("tool-request-1"@),
        ) ==> incoming_of(message) == IncomingView::ToolReply(ToolReplyView::InvalidResult(reason)),
{
    law_tool_call_is_answered_by_id(message);
}

/// The expected result, by what it holds.
proof fn lemma_expected_result(result: Json)
    ensures
        result == expected_result() <==> (result matches Json::Object(fields) && fields.dom()
            == set!["ok"@, "task"@] && fields["ok"@] == Json::Bool(true) && (
        fields["task"@] matches Json::Object(task) && task.dom() == set!["id"@] && task["id"@]
            == Json::Text("task-1"@))),
{
    reveal_strlit("ok");
    reveal_strlit("task");
    assert("ok"@.len() == 2);
    assert("task"@.len() == 4);
    let inner = seq![("id"@, Json::Text("task-1"@))];
    let outer = seq![("ok"@, Json::Bool(true)), ("task"@, object_of(inner))];
    lemma_members_one(inner[0]);
    lemma_members_two(outer[0], outer[1]);
    assert(members(inner).dom() =~= set!["id"@]);
    assert(members(outer).dom() =~= set!["ok"@, "task"@]);
    if let Json::Object(fields) = result {
        if fields.dom() == set!["ok"@, "task"@] && fields["ok"@] == Json::Bool(true) {
            if let Json::Object(task) = fields["task"@] {
                if task.dom() == set!["id"@] && task["id"@] == Json::Text("task-1"@) {
                    assert(task =~= members(inner));
                    assert(fields =~= members(outer));
                }
            }
        }
    }
}

/// A result is accepted just if it has the two members that the tool is known
/// to give, with the values that it is known to give, and no others. Any other
/// result is reported as changed.
pub proof fn law_result_must_be_the_known_one(result: Json)
    ensures
        ({
            let known = result matches Json::Object(fields) && fields.dom() == set!["ok"@, "task"@]
                && fields["ok"@] == Json::Bool(true) && (
            fields["task"@] matches Json::Object(task) && task.dom() == set!["id"@] && task["id"@]
                == Json::Text("task-1"@));
            &&& known ==> judged(Ok(result)) == ToolReplyView::Accepted
            &&& !known ==> judged(Ok(result)) == ToolReplyView::ResultChanged
        }),
        forall|reason: Seq<char>| #[trigger]
            judged(Err(reason)) == ToolReplyView::InvalidResult(reason),
{
    lemma_expected_result(result);
}

/// The result of a tool that succeeded is the text of its first content item,
/// whatever that is and whatever else the answer holds.
pub proof fn law_successful_tool_is_judged_by_its_text(message: Json, content: Seq<char>)
    requires
        at(message, seq!["result"@, "success"@]) == Some(Json::Bool(true)),
        at(message, seq!["result"@, "contentItems"@, "0"@, "text"@]) == Some(Json::Text(content)),
    ensures
        tool_reply_of(message) == judged(parsed(content)),
        member(message, "method"@) is None && member(message, "id"@) == Some(
            Json::Text("tool-request-1"@),
        ) ==> incoming_of(message) == IncomingView::ToolReply(judged(parsed(content))),
{
    law_tool_call_is_answered_by_id(message);
}

} // verus!
