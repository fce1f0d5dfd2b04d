//! What goes over the wire.

use crate::json::{fits, member, members, object_of, Json};
use crate::message::{incoming_of, tool_reply_of, IncomingView};
use crate::protocol::{
    nullable_text, options_json, questions_json, usage_json, OutgoingView, ReplyView, ToolRequest,
};
use vstd::prelude::*;

verus! {

/// Whether each entry of a list fits a depth.
pub open spec fn all_fit(entries: Seq<(Seq<char>, Json)>, depth: nat) -> bool {
    forall|i: int| 0 <= i < entries.len() ==> fits((#[trigger] entries[i]).1, depth)
}

/// A member of an object fits one depth less.
proof fn lemma_member_fits(tree: Json, name: Seq<char>, depth: nat)
    requires
        fits(tree, depth),
        tree is Object,
        tree->Object_0.contains_key(name),
    ensures
        fits(tree->Object_0[name], (depth - 1) as nat),
{
}

proof fn lemma_object_fits(entries: Seq<(Seq<char>, Json)>, depth: nat)
    requires
        depth > 0,
        all_fit(entries, (depth - 1) as nat),
    ensures
        fits(object_of(entries), depth),
    decreases entries.len(),
{
    let inner = (depth - 1) as nat;
    if entries.len() > 0 {
        let shorter = entries.drop_last();
        assert forall|i: int| 0 <= i < shorter.len() implies fits(
            (#[trigger] shorter[i]).1,
            inner,
        ) by {
            assert(fits(entries[i].1, inner));
        }
        lemma_object_fits(shorter, depth);
        assert(fits(entries[entries.len() - 1].1, inner));
        let fields = members(entries);
        let before = members(shorter);
        assert forall|name: Seq<char>| fields.contains_key(name) implies fits(
            #[trigger] fields[name],
            inner,
        ) by {
            if name != entries.last().0 {
                assert(fields[name] == before[name]);
                assert(before.contains_key(name));
                lemma_member_fits(object_of(shorter), name, depth);
            }
        }
    }
}

/// Objects of entries that fit a depth fit one more.
proof fn lemma_objects_fit(depth: nat)
    ensures
        forall|entries: Seq<(Seq<char>, Json)>|
            all_fit(entries, depth) ==> fits(#[trigger] object_of(entries), depth + 1),
{
    assert forall|entries: Seq<(Seq<char>, Json)>| all_fit(entries, depth) implies fits(
        #[trigger] object_of(entries),
        depth + 1,
    ) by {
        lemma_object_fits(entries, depth + 1);
    }
}

/// What fits a depth fits every greater one.
proof fn lemma_fits_deeper(tree: Json, depth: nat, deeper: nat)
    requires
        fits(tree, depth),
        depth <= deeper,
    ensures
        fits(tree, deeper),
    decreases depth,
{
    match tree {
        Json::Array(items) => {
            assert forall|i: int| 0 <= i < items.len() implies fits(
                #[trigger] items[i],
                (deeper - 1) as nat,
            ) by {
                lemma_fits_deeper(items[i], (depth - 1) as nat, (deeper - 1) as nat);
            }
        },
        Json::Object(fields) => {
            assert forall|name: Seq<char>| fields.contains_key(name) implies fits(
                #[trigger] fields[name],
                (deeper - 1) as nat,
            ) by {
                lemma_fits_deeper(fields[name], (depth - 1) as nat, (deeper - 1) as nat);
            }
        },
        _ => {},
    }
}

proof fn lemma_body_fits(reply: ReplyView)
    ensures
        fits(reply.body(), 126),
{
    lemma_objects_fit(0);
    lemma_objects_fit(1);
    lemma_objects_fit(2);
    lemma_objects_fit(3);
    match reply {
        ReplyView::Rejected | ReplyView::Unsupported { .. } | ReplyView::EmptyError
        | ReplyView::Accepted => {
            assert(fits(reply.body(), 1));
            lemma_fits_deeper(reply.body(), 1, 126);
        },
        ReplyView::ThreadRead { .. } => {
            assert(fits(reply.body(), 4));
            lemma_fits_deeper(reply.body(), 4, 126);
        },
        _ => {
            assert(fits(reply.body(), 2));
            lemma_fits_deeper(reply.body(), 2, 126);
        },
    }
}

proof fn lemma_question_fits(thread_id: Seq<char>)
    ensures
        fits(OutgoingView::Question { thread_id }.json(), 127),
{
    let outgoing = OutgoingView::Question { thread_id };
    assert(fits(options_json(), 2)) by {
        lemma_objects_fit(0);
    }
    assert(fits(questions_json(), 4)) by {
        lemma_objects_fit(2);
    }
    assert(fits(outgoing.json(), 6)) by {
        lemma_objects_fit(4);
        lemma_objects_fit(5);
    }
    lemma_fits_deeper(outgoing.json(), 6, 127);
}

proof fn lemma_usage_fits(thread_id: Seq<char>)
    ensures
        fits(OutgoingView::TokenUsage { thread_id }.json(), 127),
{
    let outgoing = OutgoingView::TokenUsage { thread_id };
    assert(fits(usage_json(), 2)) by {
        lemma_objects_fit(0);
        lemma_objects_fit(1);
    }
    assert(fits(outgoing.json(), 4)) by {
        lemma_objects_fit(2);
        lemma_objects_fit(3);
    }
    lemma_fits_deeper(outgoing.json(), 4, 127);
}

/// Only an answer can repeat an `id` that is no text to rely on, and only where
/// the `id` is a number with a fraction or holds one, or nests too deep.
pub proof fn law_plain_ids_are_readable(outgoing: OutgoingView)
    ensures
        !(outgoing is Response) ==> outgoing.repeats_readable_id(),
        outgoing matches OutgoingView::Response { id: None, .. } ==> outgoing.repeats_readable_id(),
        outgoing matches OutgoingView::Response { id: Some(id), .. } ==> (id is Null || id is Bool
            || id is Integer || id is Text || fits(id, 126) ==> outgoing.repeats_readable_id()),
{
}

/// Every message of the server holds no fractions and nests no deeper than a
/// document may, so long as this is true of the `id` that it repeats.
pub proof fn law_messages_can_be_read_back(outgoing: OutgoingView)
    requires
        outgoing.repeats_readable_id(),
    ensures
        fits(outgoing.json(), 127),
{
    match outgoing {
        OutgoingView::Question { thread_id } => {
            lemma_question_fits(thread_id);
        },
        OutgoingView::TokenUsage { thread_id } => {
            lemma_usage_fits(thread_id);
        },
        OutgoingView::Response { id, reply } => {
            lemma_body_fits(reply);
            lemma_objects_fit(126);
        },
        OutgoingView::Warning(_) => {
            assert(fits(outgoing.json(), 2)) by {
                lemma_objects_fit(0);
                lemma_objects_fit(1);
            }
            lemma_fits_deeper(outgoing.json(), 2, 127);
        },
        _ => {
            assert(fits(outgoing.json(), 3)) by {
                lemma_objects_fit(0);
                lemma_objects_fit(1);
                lemma_objects_fit(2);
            }
            lemma_fits_deeper(outgoing.json(), 3, 127);
        },
    }
}

/// The member of a name that occurs once among the entries of an object.
proof fn lemma_first_member(entries: Seq<(Seq<char>, Json)>, name: Seq<char>)
    requires
        entries.len() > 0,
        entries[0].0 == name,
        forall|i: int| 0 < i < entries.len() ==> (#[trigger] entries[i]).0 != name,
    ensures
        member(object_of(entries), name) == Some(entries[0].1),
    decreases entries.len(),
{
    if entries.len() > 1 {
        lemma_first_member(entries.drop_last(), name);
        assert(entries[entries.len() - 1].0 != name);
    }
}

proof fn lemma_request_id(outgoing: OutgoingView)
    requires
        outgoing is ToolCall || outgoing is Question,
    ensures
        member(outgoing.json(), "id"@) == match outgoing {
            OutgoingView::ToolCall { request, .. } => Some(Json::Text(request.spec_id())),
            _ => Some(Json::Text("runtime-request-1"@)),
        },
{
    reveal_strlit("id");
    reveal_strlit("method");
    reveal_strlit("params");
    assert("id"@.len() == 2);
    assert("method"@.len() == 6);
    assert("params"@.len() == 6);
    match outgoing {
        OutgoingView::ToolCall { request, thread_id, calling_turn_id } => {
            let params = object_of(
                seq![
                    ("threadId"@, Json::Text(thread_id)),
                    ("turnId"@, nullable_text(calling_turn_id)),
                    ("callId"@, Json::Text("semantic-call-1"@)),
                    ("tool"@, Json::Text("get_task_context"@)),
                    ("arguments"@, object_of(Seq::empty())),
                ],
            );
            lemma_first_member(
                seq![
                    ("id"@, Json::Text(request.spec_id())),
                    ("method"@, Json::Text("item/tool/call"@)),
                    ("params"@, params),
                ],
                "id"@,
            );
        },
        OutgoingView::Question { thread_id } => {
            let params = object_of(
                seq![
                    ("threadId"@, Json::Text(thread_id)),
                    ("turnId"@, Json::Text("provider-turn-1"@)),
                    ("itemId"@, Json::Text("question-item-1"@)),
                    ("isBlocking"@, Json::Bool(true)),
                    ("title"@, Json::Text("Deployment input"@)),
                    ("questions"@, questions_json()),
                ],
            );
            lemma_first_member(
                seq![
                    ("id"@, Json::Text("runtime-request-1"@)),
                    ("method"@, Json::Text("item/tool/requestUserInput"@)),
                    ("params"@, params),
                ],
                "id"@,
            );
        },
        _ => {},
    }
}

/// An answer under the `id` of something that the server asked is taken for
/// the answer to just that. A repeated tool call is the exception: its answer
/// is passed over.
pub proof fn law_answers_find_their_question(outgoing: OutgoingView, reply: Json)
    requires
        outgoing is ToolCall || outgoing is Question,
        member(reply, "method"@) is None,
        member(reply, "id"@) == member(outgoing.json(), "id"@),
    ensures
        incoming_of(reply) == match outgoing {
            OutgoingView::Question { .. } => IncomingView::RuntimeReply,
            OutgoingView::ToolCall { request: ToolRequest::Call, .. } => IncomingView::ToolReply(
                tool_reply_of(reply),
            ),
            _ => IncomingView::Unaddressed,
        },
{
    lemma_request_id(outgoing);
    reveal_strlit("runtime-request-1");
    reveal_strlit("tool-request-1");
    reveal_strlit("tool-request-replay");
    assert("runtime-request-1"@[0] == 'r');
    assert("tool-request-1"@[0] == 't');
    assert("tool-request-replay"@[0] == 't');
    assert("tool-request-1"@.len() == 14);
    assert("tool-request-replay"@.len() == 19);
}

} // verus!
