//! What the infrastructure assistant says and does in a talk, whatever is streamed.

use vstd::prelude::*;

use super::agent::{
    after_call, after_content, after_round, broken_off, call_json, content_event, onward, opened,
    real_calls, round_message, stream_body, TalkView, TurnView, SYSTEM_PROMPT,
};
use super::stream::BuilderView;
use crate::agent::chat::{message, tool_message};
use crate::agent::events::EventView;
use crate::json::JsonView;
use crate::text::decimal;

verus! {

/// The talk that a turn carries on.
pub open spec fn talk_of(turn: TurnView) -> Option<TalkView> {
    match turn {
        TurnView::Stream { talk, .. } => Some(talk),
        TurnView::Call { talk, .. } => Some(talk),
        TurnView::Finish { .. } => None,
    }
}

/// A call that is handed out is the first that waits: it has its name and its arguments.
pub proof fn waiting_call_is_made(model: Seq<char>, tools: Seq<JsonView>, talk: TalkView)
    requires
        talk.pending.len() > 0,
    ensures
        onward(model, tools, talk) matches TurnView::Call { talk: later, call } && {
            &&& call.name == talk.pending[0].name
            &&& call.arguments == talk.pending[0].arguments
            &&& later == talk
        },
{
}

/// A request carries the whole transcript, offers the tools, and asks for a stream.
pub proof fn request_carries_the_transcript(
    model: Seq<char>,
    tools: Seq<JsonView>,
    talk: TalkView,
)
    requires
        talk.pending.len() == 0,
    ensures
        onward(model, tools, talk) matches TurnView::Stream { talk: later, body } ==> {
            &&& body.holds("model"@, JsonView::Text(model))
            &&& body.holds("messages"@, JsonView::List(talk.messages))
            &&& body.holds("tools"@, JsonView::List(tools))
            &&& body.holds("stream"@, JsonView::Bool(true))
            &&& later.messages == talk.messages
            &&& later.full_text == talk.full_text
            &&& later.round_content.len() == 0
            &&& later.rounds == talk.rounds + 1
        },
        onward(model, tools, talk) matches TurnView::Finish { full_text, .. } ==> full_text
            == talk.full_text,
{
    let members = stream_body(model, talk.messages, tools)->Object_0;
    assert(members[0] == ("model"@, JsonView::Text(model)));
    assert(members[1] == ("messages"@, JsonView::List(talk.messages)));
    assert(members[2] == ("tools"@, JsonView::List(tools)));
    assert(members[4] == ("stream"@, JsonView::Bool(true)));
}

/// A talk opens with the instructions and the question.
pub proof fn talk_opens_with_the_question(
    model: Seq<char>,
    tools: Seq<JsonView>,
    user: Seq<char>,
)
    ensures
        opened(model, tools, user) matches TurnView::Stream { talk, body } && {
            &&& talk.messages.len() == 2
            &&& talk.messages[0].holds("role"@, JsonView::Text("system"@))
            &&& talk.messages[0].holds("content"@, JsonView::Text(SYSTEM_PROMPT@))
            &&& talk.messages[1].holds("role"@, JsonView::Text("user"@))
            &&& talk.messages[1].holds("content"@, JsonView::Text(user))
            &&& body.holds("messages"@, JsonView::List(talk.messages))
            &&& body.holds("tools"@, JsonView::List(tools))
            &&& body.holds("model"@, JsonView::Text(model))
        },
{
    let first = message("system"@, SYSTEM_PROMPT@)->Object_0;
    assert(first[0] == ("role"@, JsonView::Text("system"@)));
    assert(first[1] == ("content"@, JsonView::Text(SYSTEM_PROMPT@)));
    let second = message("user"@, user)->Object_0;
    assert(second[0] == ("role"@, JsonView::Text("user"@)));
    assert(second[1] == ("content"@, JsonView::Text(user)));
    match opened(model, tools, user) {
        TurnView::Stream { talk, body } => {
            let members = body->Object_0;
            assert(members[0] == ("model"@, JsonView::Text(model)));
            assert(members[1] == ("messages"@, JsonView::List(talk.messages)));
            assert(members[2] == ("tools"@, JsonView::List(tools)));
        },
        _ => {},
    }
}

/// The calls among `calls` that have a name.
pub open spec fn named(calls: Seq<BuilderView>) -> Seq<BuilderView> {
    calls.filter(|call: BuilderView| call.name.len() > 0)
}

/// The calls of a round that are made are those that have a name, in their order, with the names
/// and arguments they were streamed with; an identifier that was streamed is kept.
pub proof fn named_calls_are_made(calls: Seq<BuilderView>)
    ensures
        real_calls(calls).len() == named(calls).len(),
        forall|i: int|
            #![trigger real_calls(calls)[i]]
            0 <= i < named(calls).len() ==> {
                &&& real_calls(calls)[i].name == named(calls)[i].name
                &&& real_calls(calls)[i].arguments == named(calls)[i].arguments
                &&& named(calls)[i].id.len() > 0 ==> real_calls(calls)[i].id == named(calls)[i].id
                &&& named(calls)[i].id.len() == 0 ==> real_calls(calls)[i].id == "call_"@ + decimal(
                    i as nat,
                )
            },
    decreases calls.len(),
{
    reveal(Seq::filter);
    if calls.len() > 0 {
        named_calls_are_made(calls.drop_last());
        let head = real_calls(calls.drop_last());
        assert forall|i: int| #![trigger real_calls(calls)[i]] 0 <= i < named(calls).len() implies {
            &&& real_calls(calls)[i].name == named(calls)[i].name
            &&& real_calls(calls)[i].arguments == named(calls)[i].arguments
            &&& named(calls)[i].id.len() > 0 ==> real_calls(calls)[i].id == named(calls)[i].id
            &&& named(calls)[i].id.len() == 0 ==> real_calls(calls)[i].id == "call_"@ + decimal(
                i as nat,
            )
        } by {
            if i < head.len() {
                assert(real_calls(calls)[i] == head[i]);
                assert(named(calls)[i] == named(calls.drop_last())[i]);
            }
        }
    }
}

/// Whether a message reminds a model of a tool call: of its identifier, name and arguments.
pub open spec fn reminds(item: JsonView, call: BuilderView) -> bool {
    &&& item.holds("id"@, JsonView::Text(call.id))
    &&& exists|function: JsonView|
        {
            &&& #[trigger] item.holds("function"@, function)
            &&& function.holds("name"@, JsonView::Text(call.name))
            &&& function.holds("arguments"@, JsonView::Text(call.arguments))
        }
}

/// A round that ends with calls goes into the transcript as the model's message: what it has said
/// in this round, and every call that will be made. Then the first of these is handed out, with
/// the name and the arguments that were streamed.
pub proof fn round_is_recorded(
    model: Seq<char>,
    tools: Seq<JsonView>,
    talk: TalkView,
    calls: Seq<BuilderView>,
)
    requires
        named(calls).len() > 0,
    ensures
        after_round(model, tools, talk, calls) matches TurnView::Call { talk: later, call } && {
            let n = talk.messages.len() as int;
            &&& call.name == named(calls)[0].name
            &&& call.arguments == named(calls)[0].arguments
            &&& later.pending == real_calls(calls)
            &&& later.messages.len() == n + 1
            &&& later.messages.take(n) == talk.messages
            &&& later.messages[n].holds("role"@, JsonView::Text("assistant"@))
            &&& talk.round_content.len() > 0 ==> later.messages[n].holds(
                "content"@,
                JsonView::Text(talk.round_content),
            )
            &&& talk.round_content.len() == 0 ==> later.messages[n].holds(
                "content"@,
                JsonView::Null,
            )
            &&& exists|items: Seq<JsonView>|
                {
                    &&& #[trigger] later.messages[n].holds("tool_calls"@, JsonView::List(items))
                    &&& items.len() == later.pending.len()
                    &&& forall|i: int|
                        0 <= i < items.len() ==> reminds(#[trigger] items[i], later.pending[i])
                }
            &&& later.full_text == talk.full_text
        },
{
    named_calls_are_made(calls);
    assert(real_calls(calls)[0].name == named(calls)[0].name);
    let made = real_calls(calls);
    let said = round_message(talk.round_content, made);
    let members = said->Object_0;
    let items = made.map_values(|call: BuilderView| call_json(call));
    assert(members[0] == ("role"@, JsonView::Text("assistant"@)));
    assert(members[1].0 == "content"@);
    assert(members[2] == ("tool_calls"@, JsonView::List(items)));
    assert forall|i: int| 0 <= i < items.len() implies reminds(#[trigger] items[i], made[i]) by {
        let item = items[i];
        let function = item->Object_0[2].1;
        assert(item->Object_0[0] == ("id"@, JsonView::Text(made[i].id)));
        assert(item->Object_0[2] == ("function"@, function));
        assert(item.holds("function"@, function));
        assert(function->Object_0[0] == ("name"@, JsonView::Text(made[i].name)));
        assert(function->Object_0[1] == ("arguments"@, JsonView::Text(made[i].arguments)));
    }
    assert(said.holds("tool_calls"@, JsonView::List(items)));
    let n = talk.messages.len() as int;
    assert(talk.messages.push(said).take(n) =~= talk.messages);
}

/// A round without calls ends the task: it has completed, and what was answered is all that was
/// said.
pub proof fn round_without_calls_ends(
    model: Seq<char>,
    tools: Seq<JsonView>,
    talk: TalkView,
    calls: Seq<BuilderView>,
)
    requires
        named(calls).len() == 0,
    ensures
        after_round(model, tools, talk, calls) matches TurnView::Finish { events, full_text } && {
            &&& events.last() is Completed
            &&& full_text == talk.full_text
        },
{
    named_calls_are_made(calls);
}

/// The result of a tool call goes into the transcript as the answer to the call that was waiting
/// first; the calls behind it go on waiting.
pub proof fn result_answers_the_call(
    model: Seq<char>,
    tools: Seq<JsonView>,
    talk: TalkView,
    result: Seq<char>,
)
    requires
        talk.pending.len() > 0,
    ensures
        talk_of(after_call(model, tools, talk, result)) matches Some(later) ==> {
            let n = talk.messages.len() as int;
            &&& later.messages.len() == n + 1
            &&& later.messages.take(n) == talk.messages
            &&& later.messages[n].holds("role"@, JsonView::Text("tool"@))
            &&& later.messages[n].holds("tool_call_id"@, JsonView::Text(talk.pending[0].id))
            &&& later.messages[n].holds("content"@, JsonView::Text(result))
            &&& later.pending == talk.pending.drop_first()
            &&& later.full_text == talk.full_text
        },
        talk.pending.len() > 1 ==> (after_call(model, tools, talk, result) matches TurnView::Call {
            call,
            ..
        } && call.name == talk.pending[1].name && call.arguments == talk.pending[1].arguments),
        talk.pending.len() == 1 && talk.rounds < 6 ==> after_call(model, tools, talk, result)
            is Stream,
{
    let said = tool_message(talk.pending[0].id, result);
    let members = said->Object_0;
    assert(members[0] == ("role"@, JsonView::Text("tool"@)));
    assert(members[1] == ("tool_call_id"@, JsonView::Text(talk.pending[0].id)));
    assert(members[2] == ("content"@, JsonView::Text(result)));
    let n = talk.messages.len() as int;
    assert(talk.messages.push(said).take(n) =~= talk.messages);
    if talk.pending.len() > 1 {
        assert(talk.pending.drop_first()[0] == talk.pending[1]);
    }
}

/// A piece of the answer is reported as it came, and added to what was said in this round and in
/// all.
pub proof fn pieces_are_reported(talk: TalkView, delta: Seq<char>)
    ensures
        content_event(talk, delta) matches EventView::Artifact { text, .. } && text == delta,
        after_content(talk, delta).round_content == talk.round_content + delta,
        after_content(talk, delta).full_text == talk.full_text + delta,
        after_content(talk, delta).messages == talk.messages,
        after_content(talk, delta).pending == talk.pending,
        after_content(talk, delta).rounds == talk.rounds,
{
}

/// A fault fails the task with its reason.
pub proof fn fault_is_reported(talk: TalkView, reason: Seq<char>)
    ensures
        broken_off(talk, reason) matches TurnView::Finish { events, full_text } && events == seq![
            EventView::Failed(reason),
        ] && full_text == talk.full_text,
{
}

} // verus!
