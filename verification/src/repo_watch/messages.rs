//! The messages of a digest talk, and how they are recorded.

use vstd::prelude::*;

use crate::agent::chat::{message, say, say_result, tool_message};
use crate::agent::events::{part_text, Part};
use crate::json::make::{
    list, no_items, no_members_yet, obj2, object, object2, string, with_item, with_member,
};
use crate::json::notation::{compact, notation};
use crate::json::{json_views, Json, JsonView};
use crate::telemetry::{finish_of, genai_output_message, output_message};
use crate::text::{join, join_texts, text, views};

verus! {

/// A part of what is said to the model.
#[derive(Debug)]
pub enum UserPart {
    Text(String),
    /// The result of a tool call.
    ToolResult { id: String, content: Vec<Part> },
    /// Images and the like: nothing that this agent uses.
    Other,
}

/// A part of what the model says.
#[derive(Debug)]
pub enum AssistantPart {
    Text(String),
    ToolCall { id: String, name: String, arguments: Json },
    /// Reasoning and images: nothing that this agent uses.
    Other,
}

/// A message of the talk.
#[derive(Debug)]
pub enum ChatMessage {
    System(String),
    User(Vec<UserPart>),
    Assistant(Vec<AssistantPart>),
}

/// What a part of what is said to the model holds.
#[verifier::ext_equal]
pub enum UserPartView {
    Text(Seq<char>),
    ToolResult { id: Seq<char>, content: Seq<Option<Seq<char>>> },
    Other,
}

/// What a part of what the model says holds.
#[verifier::ext_equal]
pub enum AssistantPartView {
    Text(Seq<char>),
    ToolCall { id: Seq<char>, name: Seq<char>, arguments: JsonView },
    Other,
}

/// What a message holds.
#[verifier::ext_equal]
pub enum ChatMessageView {
    System(Seq<char>),
    User(Seq<UserPartView>),
    Assistant(Seq<AssistantPartView>),
}

/// The texts of the parts of a result, where they are texts.
pub open spec fn content_view(content: Seq<Part>) -> Seq<Option<Seq<char>>> {
    content.map_values(|part: Part| part_text(part))
}

impl View for UserPart {
    type V = UserPartView;

    open spec fn view(&self) -> UserPartView {
        match self {
            UserPart::Text(t) => UserPartView::Text(t@),
            UserPart::ToolResult { id, content } => UserPartView::ToolResult {
                id: id@,
                content: content_view(content@),
            },
            UserPart::Other => UserPartView::Other,
        }
    }
}

impl View for AssistantPart {
    type V = AssistantPartView;

    open spec fn view(&self) -> AssistantPartView {
        match self {
            AssistantPart::Text(t) => AssistantPartView::Text(t@),
            AssistantPart::ToolCall { id, name, arguments } => AssistantPartView::ToolCall {
                id: id@,
                name: name@,
                arguments: arguments@,
            },
            AssistantPart::Other => AssistantPartView::Other,
        }
    }
}

/// The views of parts of what is said to the model.
pub open spec fn user_views(parts: Seq<UserPart>) -> Seq<UserPartView> {
    parts.map_values(|part: UserPart| part@)
}

/// The views of parts of what the model says.
pub open spec fn assistant_views(parts: Seq<AssistantPart>) -> Seq<AssistantPartView> {
    parts.map_values(|part: AssistantPart| part@)
}

impl View for ChatMessage {
    type V = ChatMessageView;

    open spec fn view(&self) -> ChatMessageView {
        match self {
            ChatMessage::System(t) => ChatMessageView::System(t@),
            ChatMessage::User(parts) => ChatMessageView::User(user_views(parts@)),
            ChatMessage::Assistant(parts) => ChatMessageView::Assistant(assistant_views(parts@)),
        }
    }
}

/// The views of messages.
pub open spec fn message_views(messages: Seq<ChatMessage>) -> Seq<ChatMessageView> {
    messages.map_values(|m: ChatMessage| m@)
}

/// A message of the user that is a text.
pub open spec fn user_text(t: Seq<char>) -> ChatMessageView {
    ChatMessageView::User(Seq::empty().push(UserPartView::Text(t)))
}

/// A message that carries the result of a tool call.
pub open spec fn result_message(id: Seq<char>, result: Seq<char>) -> ChatMessageView {
    ChatMessageView::User(
        Seq::empty().push(
            UserPartView::ToolResult { id, content: Seq::empty().push(Some(result)) },
        ),
    )
}

/// A message of the user that is a text.
pub fn say_text(t: &str) -> (r: ChatMessage)
    ensures
        r@ == user_text(t@),
{
    let mut parts: Vec<UserPart> = Vec::new();
    parts.push(UserPart::Text(text(t)));
    assert(user_views(parts@) =~= Seq::empty().push(UserPartView::Text(t@)));
    ChatMessage::User(parts)
}

/// A message that carries the result of a tool call.
pub fn hand_result(id: &str, result: &str) -> (r: ChatMessage)
    ensures
        r@ == result_message(id@, result@),
{
    let mut content: Vec<Part> = Vec::new();
    content.push(Part::Text(text(result)));
    assert(content_view(content@) =~= Seq::empty().push(Some(result@)));
    let mut parts: Vec<UserPart> = Vec::new();
    parts.push(UserPart::ToolResult { id: text(id), content });
    assert(user_views(parts@) =~= Seq::empty().push(
        UserPartView::ToolResult { id: id@, content: Seq::empty().push(Some(result@)) },
    ));
    ChatMessage::User(parts)
}

// ─── Texts and calls ────────────────────────────────────────────────────────

/// The texts that are there, in their order.
pub open spec fn present(texts: Seq<Option<Seq<char>>>) -> Seq<Seq<char>>
    decreases texts.len(),
{
    if texts.len() == 0 {
        Seq::empty()
    } else {
        match texts.last() {
            Some(t) => present(texts.drop_last()).push(t),
            None => present(texts.drop_last()),
        }
    }
}

/// The texts in what the model says, in their order.
pub open spec fn said_texts(parts: Seq<AssistantPartView>) -> Seq<Seq<char>>
    decreases parts.len(),
{
    if parts.len() == 0 {
        Seq::empty()
    } else {
        match parts.last() {
            AssistantPartView::Text(t) => said_texts(parts.drop_last()).push(t),
            _ => said_texts(parts.drop_last()),
        }
    }
}

/// The text in what the model says, a line break between each two parts.
pub open spec fn said_text(parts: Seq<AssistantPartView>) -> Seq<char> {
    join(said_texts(parts), "\n"@)
}

/// The tool calls in what the model says, in their order.
pub open spec fn said_calls(parts: Seq<AssistantPartView>) -> Seq<AssistantPartView>
    decreases parts.len(),
{
    if parts.len() == 0 {
        Seq::empty()
    } else if parts.last() is ToolCall {
        said_calls(parts.drop_last()).push(parts.last())
    } else {
        said_calls(parts.drop_last())
    }
}

/// A tool call in the form of a chat message; the arguments as their JSON text.
pub open spec fn call_record(part: AssistantPartView) -> JsonView {
    match part {
        AssistantPartView::ToolCall { id, name, arguments } => obj2(
            "id"@,
            JsonView::Text(id),
            "function"@,
            obj2(
                "name"@,
                JsonView::Text(name),
                "arguments"@,
                JsonView::Text(notation(arguments)),
            ),
        ),
        _ => JsonView::Null,
    }
}

/// The tool calls in what the model says, in the form of a chat message.
pub open spec fn call_records(parts: Seq<AssistantPartView>) -> Seq<JsonView> {
    said_calls(parts).map_values(|part: AssistantPartView| call_record(part))
}

/// The text in what the model says.
pub fn assistant_text(parts: &Vec<AssistantPart>) -> (r: String)
    ensures
        r@ == said_text(assistant_views(parts@)),
{
    let ghost all = assistant_views(parts@);
    let mut texts: Vec<String> = Vec::new();
    let mut i: usize = 0;
    assert(views(texts@) =~= said_texts(all.take(0)));
    while i < parts.len()
        invariant
            i <= parts@.len(),
            all == assistant_views(parts@),
            views(texts@) == said_texts(all.take(i as int)),
        decreases parts@.len() - i,
    {
        let ghost before = views(texts@);
        assert(all.take(i + 1).drop_last() =~= all.take(i as int));
        assert(all[i as int] == parts@[i as int]@);
        match &parts[i] {
            AssistantPart::Text(t) => {
                texts.push(text(t.as_str()));
                assert(views(texts@) =~= before.push(t@));
            },
            _ => {},
        }
        i += 1;
    }
    assert(all.take(i as int) =~= all);
    join_texts(&texts, "\n")
}

/// The tool calls in what the model says, in the form of a chat message.
pub fn list_calls(parts: &Vec<AssistantPart>) -> (r: Vec<Json>)
    ensures
        json_views(r@) == call_records(assistant_views(parts@)),
{
    let ghost all = assistant_views(parts@);
    let mut out: Vec<Json> = no_items();
    let mut i: usize = 0;
    assert(call_records(all.take(0)) =~= Seq::empty());
    while i < parts.len()
        invariant
            i <= parts@.len(),
            all == assistant_views(parts@),
            json_views(out@) == call_records(all.take(i as int)),
        decreases parts@.len() - i,
    {
        assert(all.take(i + 1).drop_last() =~= all.take(i as int));
        assert(all[i as int] == parts@[i as int]@);
        match &parts[i] {
            AssistantPart::ToolCall { id, name, arguments } => {
                let written = compact(arguments);
                let record = object2(
                    "id",
                    string(id.as_str()),
                    "function",
                    object2(
                        "name",
                        string(name.as_str()),
                        "arguments",
                        string(written.as_str()),
                    ),
                );
                assert(call_records(all.take(i + 1)) =~= call_records(all.take(i as int)).push(
                    record@,
                ));
                out = with_item(out, record);
            },
            _ => {},
        }
        i += 1;
    }
    assert(all.take(i as int) =~= all);
    out
}

// ─── Records ────────────────────────────────────────────────────────────────

/// A part of what is said to the model, as chat messages.
pub open spec fn user_messages(part: UserPartView) -> Seq<JsonView> {
    match part {
        UserPartView::Text(t) => Seq::empty().push(message("user"@, t)),
        UserPartView::ToolResult { id, content } => Seq::empty().push(
            tool_message(id, join(present(content), "\n"@)),
        ),
        UserPartView::Other => Seq::empty(),
    }
}

/// Parts of what is said to the model, as chat messages.
pub open spec fn all_user_messages(parts: Seq<UserPartView>) -> Seq<JsonView>
    decreases parts.len(),
{
    if parts.len() == 0 {
        Seq::empty()
    } else {
        all_user_messages(parts.drop_last()) + user_messages(parts.last())
    }
}

/// What the model says, as a chat message.
pub open spec fn assistant_message(parts: Seq<AssistantPartView>) -> JsonView {
    let plain = Seq::empty().push(("role"@, JsonView::Text("assistant"@))).push(
        ("content"@, JsonView::Text(said_text(parts))),
    );
    JsonView::Object(
        if call_records(parts).len() == 0 {
            plain
        } else {
            plain.push(("tool_calls"@, JsonView::List(call_records(parts))))
        },
    )
}

/// A message as chat messages.
pub open spec fn formatted(m: ChatMessageView) -> Seq<JsonView> {
    match m {
        ChatMessageView::System(t) => Seq::empty().push(message("system"@, t)),
        ChatMessageView::User(parts) => all_user_messages(parts),
        ChatMessageView::Assistant(parts) => Seq::empty().push(assistant_message(parts)),
    }
}

/// Messages as chat messages.
pub open spec fn all_formatted(messages: Seq<ChatMessageView>) -> Seq<JsonView>
    decreases messages.len(),
{
    if messages.len() == 0 {
        Seq::empty()
    } else {
        all_formatted(messages.drop_last()) + formatted(messages.last())
    }
}

/// A talk as chat messages: the instructions, what was said, and what is said now.
pub open spec fn talk_messages(
    preamble: Seq<char>,
    history: Seq<ChatMessageView>,
    prompt: ChatMessageView,
) -> Seq<JsonView> {
    Seq::empty().push(message("system"@, preamble)) + all_formatted(history) + formatted(prompt)
}

/// The texts of the parts of a result, a line break between each two.
fn result_text(content: &Vec<Part>) -> (r: String)
    ensures
        r@ == join(present(content_view(content@)), "\n"@),
{
    let ghost all = content_view(content@);
    let mut texts: Vec<String> = Vec::new();
    let mut i: usize = 0;
    assert(views(texts@) =~= present(all.take(0)));
    while i < content.len()
        invariant
            i <= content@.len(),
            all == content_view(content@),
            views(texts@) == present(all.take(i as int)),
        decreases content@.len() - i,
    {
        let ghost before = views(texts@);
        assert(all.take(i + 1).drop_last() =~= all.take(i as int));
        assert(all[i as int] == part_text(content@[i as int]));
        match &content[i] {
            Part::Text(t) => {
                texts.push(text(t.as_str()));
                assert(views(texts@) =~= before.push(t@));
            },
            Part::Other => {},
        }
        i += 1;
    }
    assert(all.take(i as int) =~= all);
    join_texts(&texts, "\n")
}

/// `out`, followed by parts of what is said to the model as chat messages.
fn add_user(out: Vec<Json>, parts: &Vec<UserPart>) -> (r: Vec<Json>)
    ensures
        json_views(r@) == json_views(out@) + all_user_messages(user_views(parts@)),
{
    let ghost head = json_views(out@);
    let ghost all = user_views(parts@);
    let mut out = out;
    let mut i: usize = 0;
    assert(head + all_user_messages(all.take(0)) =~= head);
    while i < parts.len()
        invariant
            i <= parts@.len(),
            all == user_views(parts@),
            json_views(out@) == head + all_user_messages(all.take(i as int)),
        decreases parts@.len() - i,
    {
        let ghost before = json_views(out@);
        assert(all.take(i + 1).drop_last() =~= all.take(i as int));
        assert(all[i as int] == parts@[i as int]@);
        match &parts[i] {
            UserPart::Text(t) => {
                out = with_item(out, say("user", t.as_str()));
            },
            UserPart::ToolResult { id, content } => {
                let result = result_text(content);
                out = with_item(out, say_result(id.as_str(), result.as_str()));
            },
            UserPart::Other => {},
        }
        assert(json_views(out@) =~= before + user_messages(all[i as int]));
        i += 1;
        assert(json_views(out@) =~= head + all_user_messages(all.take(i as int)));
    }
    assert(all.take(i as int) =~= all);
    out
}

/// What the model says, as a chat message.
fn say_assistant(parts: &Vec<AssistantPart>) -> (r: Json)
    ensures
        r@ == assistant_message(assistant_views(parts@)),
{
    let said = assistant_text(parts);
    let calls = list_calls(parts);
    assert(json_views(calls@).len() == calls@.len());
    let members = with_member(no_members_yet(), "role", string("assistant"));
    let members = with_member(members, "content", string(said.as_str()));
    if calls.len() == 0 {
        object(members)
    } else {
        object(with_member(members, "tool_calls", list(calls)))
    }
}

/// `out`, followed by a message as chat messages.
fn add_message(out: Vec<Json>, m: &ChatMessage) -> (r: Vec<Json>)
    ensures
        json_views(r@) == json_views(out@) + formatted(m@),
{
    let ghost head = json_views(out@);
    match m {
        ChatMessage::System(t) => {
            let r = with_item(out, say("system", t.as_str()));
            assert(json_views(r@) =~= head + formatted(m@));
            r
        },
        ChatMessage::User(parts) => add_user(out, parts),
        ChatMessage::Assistant(parts) => {
            let r = with_item(out, say_assistant(parts));
            assert(json_views(r@) =~= head + formatted(m@));
            r
        },
    }
}

/// Converts a talk into chat messages, the form in which it is recorded. What is neither text nor
/// a tool call is left out.
pub fn openai_format_messages(
    preamble: &str,
    history: &Vec<ChatMessage>,
    prompt: &ChatMessage,
) -> (r: Vec<Json>)
    ensures
        json_views(r@) == talk_messages(preamble@, message_views(history@), prompt@),
{
    let ghost all = message_views(history@);
    let mut out = with_item(no_items(), say("system", preamble));
    let ghost head = json_views(out@);
    let mut i: usize = 0;
    assert(head + all_formatted(all.take(0)) =~= head);
    while i < history.len()
        invariant
            i <= history@.len(),
            all == message_views(history@),
            json_views(out@) == head + all_formatted(all.take(i as int)),
        decreases history@.len() - i,
    {
        assert(all.take(i + 1).drop_last() =~= all.take(i as int));
        assert(all[i as int] == history@[i as int]@);
        out = add_message(out, &history[i]);
        i += 1;
        assert(json_views(out@) =~= head + all_formatted(all.take(i as int)));
    }
    assert(all.take(i as int) =~= all);
    add_message(out, prompt)
}

/// Makes the record of what the model has said.
pub fn record_answer(parts: &Vec<AssistantPart>) -> (r: Json)
    ensures
        ({
            let said = assistant_views(parts@);
            r@ == output_message(said_text(said), call_records(said), finish_of(call_records(said)))
        }),
{
    let said = assistant_text(parts);
    let calls = list_calls(parts);
    assert(json_views(calls@).len() == calls@.len());
    let finish_reason = if calls.len() == 0 {
        "stop"
    } else {
        "tool_call"
    };
    genai_output_message(said.as_str(), &calls, finish_reason)
}

/// The tokens that a completion has used for its answer, given those of the request and those of
/// both.
pub fn output_tokens(prompt: u64, total: u64) -> (r: u64)
    ensures
        r == if total >= prompt {
            total - prompt
        } else {
            0
        },
{
    if total >= prompt {
        total - prompt
    } else {
        0
    }
}

} // verus!
