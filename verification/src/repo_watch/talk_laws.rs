//! What the repo-watch agent says and does in a talk, whatever the model answers.

use vstd::prelude::*;

use super::agent::{
    after_call, after_completion, delivered, delivery_reply, onward, opened, status_line,
    DeliveryView, TalkView, TurnView,
};
use super::messages::{
    all_user_messages, assistant_message, call_record, call_records, formatted, present, said_calls,
    said_text, said_texts, talk_messages, AssistantPartView, ChatMessageView, UserPartView,
};
use crate::agent::chat::{message, tool_message};
use crate::agent::events::EventView;
use crate::json::JsonView;
use crate::json::notation::notation;
use crate::text::join;
use crate::text::laws::join_appends;
use crate::text::lines::trim;
use crate::text::search::{contains, group_contained};

verus! {

/// A talk opens with the question as its prompt, nothing before it, and tools on offer.
pub proof fn talk_opens_with_the_question(prompt: Seq<char>)
    ensures
        opened(prompt) matches TurnView::Complete { talk, tools } && {
            &&& tools
            &&& talk.history.len() == 0
            &&& talk.prompt == ChatMessageView::User(seq![UserPartView::Text(prompt)])
        },
{
    assert(Seq::empty().push(UserPartView::Text(prompt)) =~= seq![UserPartView::Text(prompt)]);
}

/// The tool calls of an answer.
pub open spec fn calls_of(choice: Seq<AssistantPartView>) -> Seq<AssistantPartView> {
    choice.filter(|part: AssistantPartView| part is ToolCall)
}

proof fn calls_are_those(choice: Seq<AssistantPartView>)
    ensures
        said_calls(choice) == calls_of(choice),
    decreases choice.len(),
{
    reveal(Seq::filter);
    if choice.len() > 0 {
        calls_are_those(choice.drop_last());
    }
}

/// An answer with tool calls becomes part of the talk as it came, behind what was said before, and
/// its calls are made in their order: the first one is handed out.
pub proof fn answer_with_calls_is_recorded(talk: TalkView, choice: Seq<AssistantPartView>)
    requires
        !talk.forced,
        calls_of(choice).len() > 0,
    ensures
        after_completion(talk, Ok(choice)) matches TurnView::Call { talk: later, .. } && {
            &&& later.history == talk.history.push(talk.prompt)
            &&& later.prompt == ChatMessageView::Assistant(choice)
            &&& later.pending == calls_of(choice)
        },
{
    calls_are_those(choice);
}

/// The result of a tool call is the next thing said: the answer to the call that was waiting first,
/// under its identifier, behind everything said before. The calls behind it go on waiting.
pub proof fn result_answers_the_call(talk: TalkView, result: Seq<char>, id: Seq<char>)
    requires
        talk.pending.len() > 0,
        talk.pending[0] matches AssistantPartView::ToolCall { id: own, .. } && own == id,
    ensures
        talk.pending.len() > 1 ==> after_call(talk, result) is Call,
        after_call(talk, result) matches TurnView::Call { talk: later, .. } ==> {
            &&& later.history == talk.history.push(talk.prompt)
            &&& later.prompt == ChatMessageView::User(
                seq![UserPartView::ToolResult { id, content: seq![Some(result)] }],
            )
            &&& later.pending == talk.pending.drop_first()
        },
        talk.pending.len() == 1 && talk.asked < 20 ==> (after_call(talk, result) matches
            TurnView::Complete { talk: later, tools } && {
            &&& tools
            &&& later.history == talk.history.push(talk.prompt)
            &&& later.prompt == ChatMessageView::User(
                seq![UserPartView::ToolResult { id, content: seq![Some(result)] }],
            )
        }),
{
    let part = UserPartView::ToolResult { id, content: Seq::empty().push(Some(result)) };
    assert(Seq::empty().push(Some(result)) =~= seq![Some(result)]);
    assert(Seq::empty().push(part) =~= seq![part]);
}

/// What a model answers without calls is the digest, unchanged where there is neither markup in it
/// nor white space around it; the texts of several parts stand under each other, in their order.
pub proof fn answer_is_the_digest(talk: TalkView, choice: Seq<AssistantPartView>, digest: Seq<char>)
    requires
        said_text(choice) == digest,
        digest.len() > 0,
        digest == trim(digest),
        !contains(digest, "<｜"@),
        talk.forced || calls_of(choice).len() == 0,
    ensures
        after_completion(talk, Ok(choice)) == TurnView::Done(Ok(digest)),
{
    calls_are_those(choice);
}

/// What a model says is the text of its parts: of one part as it is, of several under each other,
/// in their order; calls and other parts add nothing to it.
pub proof fn parts_are_said_in_order(parts: Seq<AssistantPartView>, part: AssistantPartView)
    ensures
        part matches AssistantPartView::Text(t) ==> {
            &&& said_texts(parts).len() == 0 ==> said_text(parts.push(part)) == t
            &&& said_texts(parts).len() > 0 ==> said_text(parts.push(part)) == said_text(parts)
                + "\n"@ + t
            &&& said_texts(parts.push(part)).len() > 0
        },
        !(part is Text) ==> said_text(parts.push(part)) == said_text(parts),
        said_texts(Seq::empty()).len() == 0,
{
    assert(parts.push(part).drop_last() =~= parts);
    match part {
        AssistantPartView::Text(t) => join_appends(said_texts(parts), t, "\n"@),
        _ => {},
    }
}

/// A completion that fails ends the talk with its reason.
pub proof fn failure_is_told(talk: TalkView, reason: Seq<char>)
    ensures
        after_completion(talk, Err(reason)) matches TurnView::Done(Err(told)) && contains(
            told,
            reason,
        ),
{
    broadcast use group_contained;

}

/// A tool call is announced by its name and by what it is about: its repositories, or its
/// repository with the file or the symbol.
pub proof fn calls_are_announced(
    talk: TalkView,
    id: Seq<char>,
    name: Seq<char>,
    arguments: JsonView,
)
    requires
        talk.pending.len() > 0,
        talk.pending[0] == (AssistantPartView::ToolCall { id, name, arguments }),
    ensures
        onward(talk) matches TurnView::Call { status, .. } && {
            &&& status matches Some(line) ==> (name + ": "@).is_prefix_of(line)
            &&& arguments.at("repos"@) matches JsonView::List(repos) ==> (repos.len() > 0 ==> status
                == Some(name + ": "@ + join(crate::json::texts_of(repos), ", "@)))
            &&& !(arguments.at("repos"@) is List) ==> (arguments.at("repo"@) matches JsonView::Text(
                repo,
            ) ==> {
                &&& arguments.at("path"@) matches JsonView::Text(path) ==> (status matches Some(line)
                    && contains(line, repo + " "@ + path))
                &&& !(arguments.at("path"@) is Text) ==> (arguments.at("symbol"@) matches
                    JsonView::Text(symbol) ==> (status matches Some(line) && contains(
                    line,
                    repo + " `"@ + symbol,
                )))
            })
        },
{
    broadcast use group_contained;

    match status_line(talk.pending[0]) {
        Some(line) => {
            let head = name + ": "@;
            assert(head =~= line.take(head.len() as int));
        },
        None => {},
    }
}

/// A digest that is not for Slack is the answer, in one piece; one that was not made fails the task
/// with the reason; one that could not be posted is told with the reason.
pub proof fn digest_is_delivered(digest: Seq<char>, reason: Seq<char>)
    ensures
        delivered(false, Ok(digest)) == DeliveryView::Finish(
            seq![
                EventView::Artifact { text: digest, append: false, last_chunk: true },
                EventView::Completed,
            ],
        ),
        forall|wants_slack: bool|
            #[trigger] delivered(wants_slack, Err(reason)) == DeliveryView::Finish(
                seq![EventView::Failed(reason)],
            ),
        contains(delivery_reply(digest, Err(reason)), reason),
        contains(delivery_reply(digest, Err(reason)), digest),
{
    broadcast use group_contained;

}

// ─── The common format ──────────────────────────────────────────────────────

/// A talk is put in the common format message by message: the instructions first, then the history
/// in its order, then the prompt.
pub proof fn talk_is_formatted_in_order(
    preamble: Seq<char>,
    a: Seq<ChatMessageView>,
    m: ChatMessageView,
    prompt: ChatMessageView,
)
    ensures
        talk_messages(preamble, a.push(m), prompt) == talk_messages(preamble, a, m) + formatted(
            prompt,
        ),
        talk_messages(preamble, a, prompt)[0].holds("role"@, JsonView::Text("system"@)),
        talk_messages(preamble, a, prompt)[0].holds("content"@, JsonView::Text(preamble)),
{
    assert(a.push(m).drop_last() =~= a);
    assert(talk_messages(preamble, a.push(m), prompt) =~= talk_messages(preamble, a, m) + formatted(
        prompt,
    ));
    let first = message("system"@, preamble);
    assert(talk_messages(preamble, a, prompt)[0] == first);
    let members = first->Object_0;
    assert(members[0] == ("role"@, JsonView::Text("system"@)));
    assert(members[1] == ("content"@, JsonView::Text(preamble)));
}

/// In the common format, what a user says is a message of the user, and the result of a tool call
/// one that answers that call.
pub proof fn user_is_formatted(t: Seq<char>, id: Seq<char>, result: Seq<char>)
    ensures
        ({
            let said = formatted(ChatMessageView::User(seq![UserPartView::Text(t)]));
            &&& said.len() == 1
            &&& said[0].holds("role"@, JsonView::Text("user"@))
            &&& said[0].holds("content"@, JsonView::Text(t))
        }),
        ({
            let said = formatted(
                ChatMessageView::User(
                    seq![UserPartView::ToolResult { id, content: seq![Some(result)] }],
                ),
            );
            &&& said.len() == 1
            &&& said[0].holds("role"@, JsonView::Text("tool"@))
            &&& said[0].holds("tool_call_id"@, JsonView::Text(id))
            &&& said[0].holds("content"@, JsonView::Text(result))
        }),
{
    reveal_with_fuel(all_user_messages, 2);
    reveal_with_fuel(present, 2);
    let one = seq![UserPartView::Text(t)];
    assert(one.drop_last() =~= Seq::empty());
    let first = message("user"@, t)->Object_0;
    assert(all_user_messages(one) =~= seq![message("user"@, t)]);
    assert(first[0] == ("role"@, JsonView::Text("user"@)));
    assert(first[1] == ("content"@, JsonView::Text(t)));
    let content = seq![Some(result)];
    assert(content.drop_last() =~= Seq::empty());
    assert(present(content) =~= seq![result]);
    assert(join(present(content), "\n"@) == result);
    let two = seq![UserPartView::ToolResult { id, content }];
    assert(two.drop_last() =~= Seq::empty());
    assert(all_user_messages(two) =~= seq![tool_message(id, result)]);
    let second = tool_message(id, result)->Object_0;
    assert(second[0] == ("role"@, JsonView::Text("tool"@)));
    assert(second[1] == ("tool_call_id"@, JsonView::Text(id)));
    assert(second[2] == ("content"@, JsonView::Text(result)));
}

/// In the common format, a model's answer is one message with its text and with each of its calls:
/// identifier, name and arguments.
pub proof fn answer_is_formatted(parts: Seq<AssistantPartView>)
    ensures
        formatted(ChatMessageView::Assistant(parts)).len() == 1,
        ({
            let said = formatted(ChatMessageView::Assistant(parts))[0];
            &&& said.holds("role"@, JsonView::Text("assistant"@))
            &&& said.holds("content"@, JsonView::Text(said_text(parts)))
            &&& calls_of(parts).len() > 0 ==> exists|items: Seq<JsonView>|
                {
                    &&& #[trigger] said.holds("tool_calls"@, JsonView::List(items))
                    &&& items.len() == calls_of(parts).len()
                    &&& forall|i: int|
                        0 <= i < items.len() ==> records_call(#[trigger] items[i], calls_of(parts)[i])
                }
        }),
{
    calls_are_those(parts);
    let said = assistant_message(parts);
    let members = said->Object_0;
    assert(members[0] == ("role"@, JsonView::Text("assistant"@)));
    assert(members[1] == ("content"@, JsonView::Text(said_text(parts))));
    if calls_of(parts).len() > 0 {
        let items = call_records(parts);
        assert(members[2] == ("tool_calls"@, JsonView::List(items)));
        assert(said.holds("tool_calls"@, JsonView::List(items)));
        assert forall|i: int| 0 <= i < items.len() implies records_call(
            #[trigger] items[i],
            calls_of(parts)[i],
        ) by {
            all_are_calls(parts);
            call_is_recorded(said_calls(parts)[i]);
        }
    }
}

/// Whether a record is that of a tool call: its identifier, its name, and its arguments as text.
pub open spec fn records_call(item: JsonView, part: AssistantPartView) -> bool {
    part matches AssistantPartView::ToolCall { id, name, arguments } && {
        &&& item.holds("id"@, JsonView::Text(id))
        &&& exists|function: JsonView|
            {
                &&& #[trigger] item.holds("function"@, function)
                &&& function.holds("name"@, JsonView::Text(name))
                &&& function.holds("arguments"@, JsonView::Text(notation(arguments)))
            }
    }
}

proof fn all_are_calls(parts: Seq<AssistantPartView>)
    ensures
        forall|i: int| 0 <= i < said_calls(parts).len() ==> #[trigger] said_calls(parts)[i] is ToolCall,
    decreases parts.len(),
{
    if parts.len() > 0 {
        all_are_calls(parts.drop_last());
    }
}

proof fn call_is_recorded(part: AssistantPartView)
    requires
        part is ToolCall,
    ensures
        records_call(call_record(part), part),
{
    match part {
        AssistantPartView::ToolCall { id, name, arguments } => {
            let item = call_record(part);
            let function = item->Object_0[1].1;
            assert(item->Object_0[0] == ("id"@, JsonView::Text(id)));
            assert(item->Object_0[1] == ("function"@, function));
            assert(item.holds("function"@, function));
            assert(function->Object_0[0] == ("name"@, JsonView::Text(name)));
            assert(function->Object_0[1] == ("arguments"@, JsonView::Text(notation(arguments))));
        },
        _ => {},
    }
}

/// Instructions are formatted as a message of the system.
pub proof fn system_is_formatted(t: Seq<char>)
    ensures
        formatted(ChatMessageView::System(t)) == seq![message("system"@, t)],
{
}

/// The texts of a result are read in their order, and its other parts are passed over.
pub proof fn texts_of_a_result_are_read(texts: Seq<Option<Seq<char>>>, text: Option<Seq<char>>)
    ensures
        present(Seq::empty()) == Seq::<Seq<char>>::empty(),
        text matches Some(t) ==> present(texts.push(text)) == present(texts).push(t),
        text is None ==> present(texts.push(text)) == present(texts),
{
    assert(texts.push(text).drop_last() =~= texts);
}

} // verus!
