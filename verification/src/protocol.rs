//! What the server sends.
//!
//! Each message is a value of [`Outgoing`]; [`Outgoing::render`] gives it its
//! JSON form and [`Outgoing::wire_line`] the line that goes over the wire.

use crate::json::{
    array_value, bool_value, fits, integer_value, json, json_items, object_of, optional_json,
    optional_value, parsed, serialized, text_value, to_string, Json, Members,
};
use crate::laws::wire::law_messages_can_be_read_back;
use crate::options::optional_text;
use serde_json::Value;
use vstd::prelude::*;

verus! {

/// How a turn ends.
#[derive(Clone, Copy, Debug, PartialEq, Eq, Structural)]
pub enum TurnStatus {
    Completed,
    Failed,
    Interrupted,
}

impl TurnStatus {
    /// The word for the status.
    pub open spec fn spec_text(self) -> Seq<char> {
        match self {
            TurnStatus::Completed => "completed"@,
            TurnStatus::Failed => "failed"@,
            TurnStatus::Interrupted => "interrupted"@,
        }
    }

    /// The word for the status.
    pub fn text(self) -> (word: &'static str)
        ensures
            word@ == self.spec_text(),
    {
        match self {
            TurnStatus::Completed => "completed",
            TurnStatus::Failed => "failed",
            TurnStatus::Interrupted => "interrupted",
        }
    }
}

/// What a warning says.
#[derive(Clone, Copy, Debug, PartialEq, Eq, Structural)]
pub enum Notice {
    /// Sent ahead of the answer to a thread start.
    BeforeThreadResponse,
    /// Sent ahead of the rejection of the second turn.
    BeforeRejection,
    /// Sent after a turn is complete.
    LiveAfterTerminal,
}

impl Notice {
    /// The sentence of the warning.
    pub open spec fn spec_text(self) -> Seq<char> {
        match self {
            Notice::BeforeThreadResponse => "buffered before thread response"@,
            Notice::BeforeRejection => "buffered before replacement rejection"@,
            Notice::LiveAfterTerminal => "provider remained live after terminal"@,
        }
    }

    /// The sentence of the warning.
    pub fn text(self) -> (sentence: &'static str)
        ensures
            sentence@ == self.spec_text(),
    {
        match self {
            Notice::BeforeThreadResponse => "buffered before thread response",
            Notice::BeforeRejection => "buffered before replacement rejection",
            Notice::LiveAfterTerminal => "provider remained live after terminal",
        }
    }
}

/// A finished agent message.
#[derive(Clone, Copy, Debug, PartialEq, Eq, Structural)]
pub enum Item {
    /// The message that each complete turn ends with.
    Final,
    /// The message of a second turn that is left in progress.
    Replacement,
}

impl Item {
    /// The identity of the message.
    pub open spec fn spec_id(self) -> Seq<char> {
        match self {
            Item::Final => "message-1"@,
            Item::Replacement => "replacement-message-before-terminal"@,
        }
    }

    /// The identity of the message.
    pub fn id(self) -> (id: &'static str)
        ensures
            id@ == self.spec_id(),
    {
        match self {
            Item::Final => "message-1",
            Item::Replacement => "replacement-message-before-terminal",
        }
    }

    /// What the message says.
    pub open spec fn spec_text(self) -> Seq<char> {
        match self {
            Item::Final => "Codex completed the fake turn."@,
            Item::Replacement => "Replacement output before terminal authority."@,
        }
    }

    /// What the message says.
    pub fn text(self) -> (sentence: &'static str)
        ensures
            sentence@ == self.spec_text(),
    {
        match self {
            Item::Final => "Codex completed the fake turn.",
            Item::Replacement => "Replacement output before terminal authority.",
        }
    }
}

/// A request that makes the client run its tool.
#[derive(Clone, Copy, Debug, PartialEq, Eq, Structural)]
pub enum ToolRequest {
    /// The call itself.
    Call,
    /// The same call once more.
    Replay,
}

impl ToolRequest {
    /// The identity of the request.
    pub open spec fn spec_id(self) -> Seq<char> {
        match self {
            ToolRequest::Call => "tool-request-1"@,
            ToolRequest::Replay => "tool-request-replay"@,
        }
    }

    /// The identity of the request.
    pub fn id(self) -> (id: &'static str)
        ensures
            id@ == self.spec_id(),
    {
        match self {
            ToolRequest::Call => "tool-request-1",
            ToolRequest::Replay => "tool-request-replay",
        }
    }
}

/// What the answer to a request says.
#[derive(Debug, PartialEq, Eq)]
pub enum Reply {
    /// The connection is set up.
    Initialized,
    /// The thread is open.
    Thread { thread_id: String },
    /// The thread with the turn in progress, if there is one.
    ThreadRead { thread_id: String, active_turn_id: Option<String> },
    /// The turn is in progress.
    TurnAccepted,
    /// The turn is in progress, without saying which.
    TurnUnnamed,
    /// The request is granted.
    Accepted,
    /// The second turn is refused.
    Rejected,
    /// The method is not known.
    Unsupported { method: String },
    /// An error without content.
    EmptyError,
}

/// The mathematical form of a [`Reply`].
pub enum ReplyView {
    Initialized,
    Thread { thread_id: Seq<char> },
    ThreadRead { thread_id: Seq<char>, active_turn_id: Option<Seq<char>> },
    TurnAccepted,
    TurnUnnamed,
    Accepted,
    Rejected,
    Unsupported { method: Seq<char> },
    EmptyError,
}

impl View for Reply {
    type V = ReplyView;

    open spec fn view(&self) -> ReplyView {
        match self {
            Reply::Initialized => ReplyView::Initialized,
            Reply::Thread { thread_id } => ReplyView::Thread { thread_id: thread_id@ },
            Reply::ThreadRead { thread_id, active_turn_id } => ReplyView::ThreadRead {
                thread_id: thread_id@,
                active_turn_id: optional_text(*active_turn_id),
            },
            Reply::TurnAccepted => ReplyView::TurnAccepted,
            Reply::TurnUnnamed => ReplyView::TurnUnnamed,
            Reply::Accepted => ReplyView::Accepted,
            Reply::Rejected => ReplyView::Rejected,
            Reply::Unsupported { method } => ReplyView::Unsupported { method: method@ },
            Reply::EmptyError => ReplyView::EmptyError,
        }
    }
}

/// A message from the server to its client.
#[derive(Debug, PartialEq, Eq)]
pub enum Outgoing {
    /// A warning.
    Warning(Notice),
    /// A turn has started.
    TurnStarted { turn_id: String },
    /// A turn has ended.
    TurnCompleted { turn_id: String, status: TurnStatus },
    /// An agent message is finished.
    ItemCompleted(Item),
    /// What the thread has used so far.
    TokenUsage { thread_id: String },
    /// A call of the client's task context tool.
    ToolCall { request: ToolRequest, thread_id: String, calling_turn_id: Option<String> },
    /// A question for the user.
    Question { thread_id: String },
    /// The answer to the request `id`.
    Response { id: Option<Value>, reply: Reply },
}

/// The mathematical form of an [`Outgoing`].
pub enum OutgoingView {
    Warning(Notice),
    TurnStarted { turn_id: Seq<char> },
    TurnCompleted { turn_id: Seq<char>, status: TurnStatus },
    ItemCompleted(Item),
    TokenUsage { thread_id: Seq<char> },
    ToolCall { request: ToolRequest, thread_id: Seq<char>, calling_turn_id: Option<Seq<char>> },
    Question { thread_id: Seq<char> },
    Response { id: Option<Json>, reply: ReplyView },
}

impl View for Outgoing {
    type V = OutgoingView;

    open spec fn view(&self) -> OutgoingView {
        match self {
            Outgoing::Warning(notice) => OutgoingView::Warning(*notice),
            Outgoing::TurnStarted { turn_id } => OutgoingView::TurnStarted { turn_id: turn_id@ },
            Outgoing::TurnCompleted { turn_id, status } => OutgoingView::TurnCompleted {
                turn_id: turn_id@,
                status: *status,
            },
            Outgoing::ItemCompleted(item) => OutgoingView::ItemCompleted(*item),
            Outgoing::TokenUsage { thread_id } => OutgoingView::TokenUsage {
                thread_id: thread_id@,
            },
            Outgoing::ToolCall { request, thread_id, calling_turn_id } => OutgoingView::ToolCall {
                request: *request,
                thread_id: thread_id@,
                calling_turn_id: optional_text(*calling_turn_id),
            },
            Outgoing::Question { thread_id } => OutgoingView::Question { thread_id: thread_id@ },
            Outgoing::Response { id, reply } => OutgoingView::Response {
                id: optional_json(*id),
                reply: reply@,
            },
        }
    }
}

/// A notification: a method with its parameters.
pub open spec fn notification_json(method: Seq<char>, params: Json) -> Json {
    object_of(seq![("method"@, Json::Text(method)), ("params"@, params)])
}

/// A request: a notification that is to be answered under `id`.
pub open spec fn request_json(id: Seq<char>, method: Seq<char>, params: Json) -> Json {
    object_of(
        seq![("id"@, Json::Text(id)), ("method"@, Json::Text(method)), ("params"@, params)],
    )
}

/// A value that may be absent, null standing for none.
pub open spec fn nullable(tree: Option<Json>) -> Json {
    match tree {
        Some(present) => present,
        None => Json::Null,
    }
}

/// A text that may be absent, null standing for none.
pub open spec fn nullable_text(text: Option<Seq<char>>) -> Json {
    match text {
        Some(present) => Json::Text(present),
        None => Json::Null,
    }
}

/// A notification: a method with its parameters.
fn notification(method: &str, params: Value) -> (value: Value)
    ensures
        json(value) == notification_json(method@, json(params)),
{
    Members::new().with("method", text_value(method)).with("params", params).build()
}

/// A request: a notification that is to be answered under `id`.
fn request(id: &str, method: &str, params: Value) -> (value: Value)
    ensures
        json(value) == request_json(id@, method@, json(params)),
{
    Members::new().with("id", text_value(id)).with("method", text_value(method)).with("params", params).build()
}

/// A text that may be absent, null standing for none.
fn nullable_text_value(content: &Option<String>) -> (value: Value)
    ensures
        json(value) == nullable_text(optional_text(*content)),
{
    match content {
        Some(present) => text_value(present.as_str()),
        None => optional_value(None),
    }
}

/// An object that wraps a turn.
pub open spec fn turn_json(turn: Seq<(Seq<char>, Json)>) -> Json {
    object_of(seq![("turn"@, object_of(turn))])
}

/// The two members that identify an open thread.
pub open spec fn thread_json(thread_id: Seq<char>) -> Json {
    object_of(
        seq![
            (
                "thread"@,
                object_of(
                    seq![
                        ("id"@, Json::Text(thread_id)),
                        ("sessionId"@, Json::Text("codex-account-session"@)),
                    ],
                ),
            ),
        ],
    )
}

/// The turns in progress: one at most.
pub open spec fn turns_json(active_turn_id: Option<Seq<char>>) -> Json {
    match active_turn_id {
        Some(turn_id) => Json::Array(
            seq![
                object_of(
                    seq![("id"@, Json::Text(turn_id)), ("status"@, Json::Text("inProgress"@))],
                ),
            ],
        ),
        None => Json::Array(Seq::empty()),
    }
}

/// An error with its number and its sentence.
pub open spec fn error_json(code: int, message: Seq<char>) -> Json {
    object_of(seq![("code"@, Json::Integer(code)), ("message"@, Json::Text(message))])
}

impl ReplyView {
    /// Whether the answer refuses the request.
    pub open spec fn is_error(self) -> bool {
        self is Rejected || self is Unsupported || self is EmptyError
    }

    /// What the answer holds: a result, or an error where it
    /// [`is_error`](ReplyView::is_error).
    pub open spec fn body(self) -> Json {
        match self {
            ReplyView::Initialized => object_of(
                seq![
                    (
                        "user"@,
                        object_of(seq![("sessionId"@, Json::Text("codex-account-session"@))]),
                    ),
                ],
            ),
            ReplyView::Thread { thread_id } => thread_json(thread_id),
            ReplyView::ThreadRead { thread_id, active_turn_id } => object_of(
                seq![
                    (
                        "thread"@,
                        object_of(
                            seq![
                                ("id"@, Json::Text(thread_id)),
                                ("turns"@, turns_json(active_turn_id)),
                            ],
                        ),
                    ),
                ],
            ),
            ReplyView::TurnAccepted => turn_json(
                seq![
                    ("id"@, Json::Text("provider-turn-1"@)),
                    ("status"@, Json::Text("inProgress"@)),
                ],
            ),
            ReplyView::TurnUnnamed => turn_json(seq![("status"@, Json::Text("inProgress"@))]),
            ReplyView::Accepted => object_of(seq![("accepted"@, Json::Bool(true))]),
            ReplyView::Rejected => error_json(-32000, "replacement turn rejected"@),
            ReplyView::Unsupported { method } => error_json(
                -32601,
                "unsupported fake method "@ + method,
            ),
            ReplyView::EmptyError => object_of(Seq::empty()),
        }
    }
}

impl Reply {
    /// Whether the answer refuses the request.
    fn is_error(&self) -> (error: bool)
        ensures
            error == self@.is_error(),
    {
        match self {
            Reply::Rejected => true,
            Reply::Unsupported { .. } => true,
            Reply::EmptyError => true,
            _ => false,
        }
    }

    /// What the answer holds.
    fn body(&self) -> (value: Value)
        ensures
            json(value) == self@.body(),
    {
        match self {
            Reply::Initialized => {
                let user = Members::new().with(
                    "sessionId",
                    text_value("codex-account-session"),
                ).build();
                Members::new().with("user", user).build()
            },
            Reply::Thread { thread_id } => {
                let thread = Members::new().with("id", text_value(thread_id.as_str())).with(
                    "sessionId",
                    text_value("codex-account-session"),
                ).build();
                Members::new().with("thread", thread).build()
            },
            Reply::ThreadRead { thread_id, active_turn_id } => {
                let thread = Members::new().with("id", text_value(thread_id.as_str())).with(
                    "turns",
                    turns_value(active_turn_id),
                ).build();
                Members::new().with("thread", thread).build()
            },
            Reply::TurnAccepted => {
                let turn = Members::new().with("id", text_value("provider-turn-1")).with(
                    "status",
                    text_value("inProgress"),
                ).build();
                Members::new().with("turn", turn).build()
            },
            Reply::TurnUnnamed => {
                let turn = Members::new().with("status", text_value("inProgress")).build();
                Members::new().with("turn", turn).build()
            },
            Reply::Accepted => Members::new().with("accepted", bool_value(true)).build(),
            Reply::Rejected => error_value(-32000, "replacement turn rejected"),
            Reply::Unsupported { method } => {
                let message = "unsupported fake method ".to_owned().concat(method.as_str());
                error_value(-32601, message.as_str())
            },
            Reply::EmptyError => Members::new().build(),
        }
    }
}

/// The turns in progress: one at most.
fn turns_value(active_turn_id: &Option<String>) -> (value: Value)
    ensures
        json(value) == turns_json(optional_text(*active_turn_id)),
{
    let mut turns: Vec<Value> = Vec::new();
    if let Some(turn_id) = active_turn_id {
        let turn = Members::new().with("id", text_value(turn_id.as_str())).with(
            "status",
            text_value("inProgress"),
        ).build();
        turns.push(turn);
    }
    let value = array_value(turns);
    proof {
        match optional_text(*active_turn_id) {
            Some(turn_id) => {
                assert(json_items(turns@) =~= seq![
                    object_of(
                        seq![("id"@, Json::Text(turn_id)), ("status"@, Json::Text("inProgress"@))],
                    ),
                ]);
            },
            None => {
                assert(json_items(turns@) =~= Seq::<Json>::empty());
            },
        }
    }
    value
}

/// An error with its number and its sentence.
fn error_value(code: i64, message: &str) -> (value: Value)
    ensures
        json(value) == error_json(code as int, message@),
{
    Members::new().with("code", integer_value(code)).with("message", text_value(message)).build()
}

/// The two options of the question.
pub open spec fn options_json() -> Json {
    Json::Array(
        seq![
            object_of(
                seq![
                    ("label"@, Json::Text("Staging"@)),
                    ("description"@, Json::Text("Deploy safely."@)),
                ],
            ),
            object_of(
                seq![
                    ("label"@, Json::Text("Production"@)),
                    ("description"@, Json::Text("Deploy directly."@)),
                ],
            ),
        ],
    )
}

/// The list of questions: the one question.
pub open spec fn questions_json() -> Json {
    Json::Array(
        seq![
            object_of(
                seq![
                    ("id"@, Json::Text("environment"@)),
                    ("header"@, Json::Text("Environment"@)),
                    ("question"@, Json::Text("Where should we deploy?"@)),
                    ("options"@, options_json()),
                ],
            ),
        ],
    )
}

/// The usage of a thread, in total and for the last request.
pub open spec fn usage_json() -> Json {
    object_of(
        seq![
            (
                "total"@,
                object_of(
                    seq![("inputTokens"@, Json::Integer(12)), ("outputTokens"@, Json::Integer(3))],
                ),
            ),
            (
                "last"@,
                object_of(
                    seq![
                        ("inputTokens"@, Json::Integer(12)),
                        ("outputTokens"@, Json::Integer(3)),
                        ("requests"@, Json::Integer(1)),
                    ],
                ),
            ),
        ],
    )
}

impl OutgoingView {
    /// Whether the `id` that the message repeats, if it repeats one, holds no
    /// fractions and nests less deep than a document may.
    pub open spec fn repeats_readable_id(self) -> bool {
        self matches OutgoingView::Response { id: Some(id), .. } ==> fits(id, 126)
    }

    /// The JSON form of the message.
    pub open spec fn json(self) -> Json {
        match self {
            OutgoingView::Warning(notice) => notification_json(
                "warning"@,
                object_of(seq![("message"@, Json::Text(notice.spec_text()))]),
            ),
            OutgoingView::TurnStarted { turn_id } => notification_json(
                "turn/started"@,
                turn_json(seq![("id"@, Json::Text(turn_id))]),
            ),
            OutgoingView::TurnCompleted { turn_id, status } => notification_json(
                "turn/completed"@,
                turn_json(
                    seq![
                        ("id"@, Json::Text(turn_id)),
                        ("status"@, Json::Text(status.spec_text())),
                    ],
                ),
            ),
            OutgoingView::ItemCompleted(item) => notification_json(
                "item/completed"@,
                object_of(
                    seq![
                        (
                            "item"@,
                            object_of(
                                seq![
                                    ("id"@, Json::Text(item.spec_id())),
                                    ("type"@, Json::Text("agentMessage"@)),
                                    ("status"@, Json::Text("completed"@)),
                                    ("text"@, Json::Text(item.spec_text())),
                                ],
                            ),
                        ),
                    ],
                ),
            ),
            OutgoingView::TokenUsage { thread_id } => notification_json(
                "thread/tokenUsage/updated"@,
                object_of(
                    seq![("threadId"@, Json::Text(thread_id)), ("tokenUsage"@, usage_json())],
                ),
            ),
            OutgoingView::ToolCall { request, thread_id, calling_turn_id } => request_json(
                request.spec_id(),
                "item/tool/call"@,
                object_of(
                    seq![
                        ("threadId"@, Json::Text(thread_id)),
                        ("turnId"@, nullable_text(calling_turn_id)),
                        ("callId"@, Json::Text("semantic-call-1"@)),
                        ("tool"@, Json::Text("get_task_context"@)),
                        ("arguments"@, object_of(Seq::empty())),
                    ],
                ),
            ),
            OutgoingView::Question { thread_id } => request_json(
                "runtime-request-1"@,
                "item/tool/requestUserInput"@,
                object_of(
                    seq![
                        ("threadId"@, Json::Text(thread_id)),
                        ("turnId"@, Json::Text("provider-turn-1"@)),
                        ("itemId"@, Json::Text("question-item-1"@)),
                        ("isBlocking"@, Json::Bool(true)),
                        ("title"@, Json::Text("Deployment input"@)),
                        ("questions"@, questions_json()),
                    ],
                ),
            ),
            OutgoingView::Response { id, reply } => object_of(
                seq![
                    ("id"@, nullable(id)),
                    (
                        if reply.is_error() {
                            "error"@
                        } else {
                            "result"@
                        },
                        reply.body(),
                    ),
                ],
            ),
        }
    }
}

/// One option of the question.
fn option_value(label: &str, description: &str) -> (value: Value)
    ensures
        json(value) == object_of(
            seq![("label"@, Json::Text(label@)), ("description"@, Json::Text(description@))],
        ),
{
    Members::new().with("label", text_value(label)).with(
        "description",
        text_value(description),
    ).build()
}

/// The list of questions: the one question.
fn questions_value() -> (value: Value)
    ensures
        json(value) == questions_json(),
{
    let options: Vec<Value> = vec![
        option_value("Staging", "Deploy safely."),
        option_value("Production", "Deploy directly."),
    ];
    assert(Json::Array(json_items(options@)) == options_json()) by {
        assert(json_items(options@) =~= options_json()->Array_0);
    }
    let question = Members::new().with("id", text_value("environment")).with(
        "header",
        text_value("Environment"),
    ).with("question", text_value("Where should we deploy?")).with(
        "options",
        array_value(options),
    ).build();
    let questions: Vec<Value> = vec![question];
    assert(Json::Array(json_items(questions@)) == questions_json()) by {
        assert(json_items(questions@) =~= questions_json()->Array_0);
    }
    array_value(questions)
}

/// The usage of a thread, in total and for the last request.
fn usage_value() -> (value: Value)
    ensures
        json(value) == usage_json(),
{
    let total = Members::new().with("inputTokens", integer_value(12)).with(
        "outputTokens",
        integer_value(3),
    ).build();
    let last = Members::new().with("inputTokens", integer_value(12)).with(
        "outputTokens",
        integer_value(3),
    ).with("requests", integer_value(1)).build();
    Members::new().with("total", total).with("last", last).build()
}

impl Outgoing {
    /// The JSON form of the message.
    pub fn render(&self) -> (value: Value)
        ensures
            json(value) == self@.json(),
    {
        match self {
            Outgoing::Warning(notice) => {
                notification(
                    "warning",
                    Members::new().with("message", text_value(notice.text())).build(),
                )
            },
            Outgoing::TurnStarted { turn_id } => {
                let turn = Members::new().with("id", text_value(turn_id.as_str())).build();
                notification("turn/started", Members::new().with("turn", turn).build())
            },
            Outgoing::TurnCompleted { turn_id, status } => {
                let turn = Members::new().with("id", text_value(turn_id.as_str())).with(
                    "status",
                    text_value(status.text()),
                ).build();
                notification("turn/completed", Members::new().with("turn", turn).build())
            },
            Outgoing::ItemCompleted(item) => {
                let content = Members::new().with("id", text_value(item.id())).with(
                    "type",
                    text_value("agentMessage"),
                ).with("status", text_value("completed")).with(
                    "text",
                    text_value(item.text()),
                ).build();
                notification("item/completed", Members::new().with("item", content).build())
            },
            Outgoing::TokenUsage { thread_id } => {
                let params = Members::new().with("threadId", text_value(thread_id.as_str())).with(
                    "tokenUsage",
                    usage_value(),
                ).build();
                notification("thread/tokenUsage/updated", params)
            },
            Outgoing::ToolCall { request: tool_request, thread_id, calling_turn_id } => {
                let params = Members::new().with("threadId", text_value(thread_id.as_str())).with(
                    "turnId",
                    nullable_text_value(calling_turn_id),
                ).with("callId", text_value("semantic-call-1")).with(
                    "tool",
                    text_value("get_task_context"),
                ).with("arguments", Members::new().build()).build();
                request(tool_request.id(), "item/tool/call", params)
            },
            Outgoing::Question { thread_id } => {
                let params = Members::new().with("threadId", text_value(thread_id.as_str())).with(
                    "turnId",
                    text_value("provider-turn-1"),
                ).with("itemId", text_value("question-item-1")).with(
                    "isBlocking",
                    bool_value(true),
                ).with("title", text_value("Deployment input")).with(
                    "questions",
                    questions_value(),
                ).build();
                request("runtime-request-1", "item/tool/requestUserInput", params)
            },
            Outgoing::Response { id, reply } => {
                let echoed = optional_value(copy_optional(id));
                let name = if reply.is_error() {
                    "error"
                } else {
                    "result"
                };
                Members::new().with("id", echoed).with(name, reply.body()).build()
            },
        }
    }

    /// The line that carries the message: its compact JSON text and a line feed.
    ///
    /// The text holds no line feed of its own. The message is read back from it
    /// unchanged, unless it repeats an `id` that is itself no text to rely on:
    /// one with a fraction in it, or one nested too deep.
    pub fn wire_line(&self) -> (line: String)
        ensures
            line@ == serialized(self@.json()) + seq!['\n'],
            !serialized(self@.json()).contains('\n'),
            self@.repeats_readable_id() ==> parsed(serialized(self@.json())) == Ok::<
                Json,
                Seq<char>,
            >(self@.json()),
    {
        proof {
            if self@.repeats_readable_id() {
                law_messages_can_be_read_back(self@);
            }
        }
        let value = self.render();
        match to_string(&value) {
            Ok(content) => {
                let line = content.concat("\n");
                proof {
                    reveal_strlit("\n");
                    assert("\n"@ =~= seq!['\n']);
                }
                line
            },
            Err(_) => String::new(),
        }
    }
}

/// A copy of a value that may be absent.
pub(crate) fn copy_optional(value: &Option<Value>) -> (copy: Option<Value>)
    ensures
        optional_json(copy) == optional_json(*value),
{
    match value {
        Some(present) => Some(present.clone()),
        None => None,
    }
}

} // verus!
