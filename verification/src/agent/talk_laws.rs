//! What holds of every talk, whatever the model and the tools answer.

use vstd::prelude::*;

use super::chat::{chat_body, chosen, cut_markup_stays_cut, markup_is_cut, message, tool_message};
use super::events::EventView;
use super::talk::{
    after_call, after_chat, call_id, forced, nudge, onward, opened, RulesView, TalkView, TurnView,
};
use crate::json::{lookup, JsonView};
use crate::text::lines::trim;
use crate::text::search::contains;

verus! {

/// What can come back: the reply to a request for a completion, or the result of a tool call.
pub ghost enum Heard {
    Reply(Result<JsonView, Seq<char>>),
    Result(Seq<char>),
}

/// Whether `heard` is what the turn waits for.
pub open spec fn awaited(turn: TurnView, heard: Heard) -> bool {
    match turn {
        TurnView::Chat { .. } => heard is Reply,
        TurnView::Call { .. } => heard is Result,
        TurnView::Finish(_) => false,
    }
}

/// The turn after `heard`; what is not awaited changes nothing.
pub open spec fn next(rules: RulesView, turn: TurnView, heard: Heard) -> TurnView {
    match turn {
        TurnView::Chat { talk, .. } => match heard {
            Heard::Reply(reply) => after_chat(rules, talk, reply),
            Heard::Result(_) => turn,
        },
        TurnView::Call { talk, .. } => match heard {
            Heard::Result(result) => after_call(rules, talk, result),
            Heard::Reply(_) => turn,
        },
        TurnView::Finish(_) => turn,
    }
}

/// The turn after everything in `heard`.
pub open spec fn run(rules: RulesView, turn: TurnView, heard: Seq<Heard>) -> TurnView
    decreases heard.len(),
{
    if heard.len() == 0 {
        turn
    } else {
        next(rules, run(rules, turn, heard.drop_last()), heard.last())
    }
}

/// How many completions are asked for on the way through `heard`, the first turn included.
pub open spec fn chats(rules: RulesView, turn: TurnView, heard: Seq<Heard>) -> nat
    decreases heard.len(),
{
    if heard.len() == 0 {
        if turn is Chat {
            1
        } else {
            0
        }
    } else {
        let before = run(rules, turn, heard.drop_last());
        chats(rules, turn, heard.drop_last()) + if awaited(before, heard.last()) && next(
            rules,
            before,
            heard.last(),
        ) is Chat {
            1nat
        } else {
            0nat
        }
    }
}

/// How many of the replies in `heard` were awaited.
pub open spec fn replies(rules: RulesView, turn: TurnView, heard: Seq<Heard>) -> nat
    decreases heard.len(),
{
    if heard.len() == 0 {
        0
    } else {
        let before = run(rules, turn, heard.drop_last());
        replies(rules, turn, heard.drop_last()) + if before is Chat && heard.last() is Reply {
            1nat
        } else {
            0nat
        }
    }
}

/// What a turn on the way from the opening looks like after `count` completions were asked for.
spec fn in_order(rules: RulesView, turn: TurnView, count: nat) -> bool {
    match turn {
        TurnView::Chat { talk, .. } => {
            &&& talk.pending.len() == 0
            &&& talk.asked <= rules.turns
            &&& count == talk.asked + if talk.forced {
                1nat
            } else {
                0nat
            }
        },
        TurnView::Call { talk, .. } => {
            &&& talk.pending.len() > 0
            &&& talk.asked <= rules.turns
            &&& !talk.forced
            &&& count == talk.asked
        },
        TurnView::Finish(_) => count <= rules.turns + 1,
    }
}

/// Every turn on the way from the opening is in order.
proof fn stays_in_order(rules: RulesView, system: Seq<char>, user: Seq<char>, heard: Seq<Heard>)
    ensures
        ({
            let start = opened(rules, system, user);
            let turn = run(rules, start, heard);
            let count = chats(rules, start, heard);
            &&& in_order(rules, turn, count)
            &&& count == replies(rules, start, heard) + if turn is Chat {
                1nat
            } else {
                0nat
            }
        }),
    decreases heard.len(),
{
    if heard.len() > 0 {
        stays_in_order(rules, system, user, heard.drop_last());
    }
}

/// A talk asks for at most one completion per turn, and one more for the answer without tools.
pub proof fn completions_are_bounded(
    rules: RulesView,
    system: Seq<char>,
    user: Seq<char>,
    heard: Seq<Heard>,
)
    ensures
        chats(rules, opened(rules, system, user), heard) <= rules.turns + 1,
{
    stays_in_order(rules, system, user, heard);
}

/// Once as many awaited replies have come as completions may be asked for, the talk is over.
pub proof fn talk_ends(rules: RulesView, system: Seq<char>, user: Seq<char>, heard: Seq<Heard>)
    requires
        replies(rules, opened(rules, system, user), heard) >= rules.turns + 1,
    ensures
        run(rules, opened(rules, system, user), heard) is Finish,
{
    stays_in_order(rules, system, user, heard);
}

/// What was said in the talk that a turn carries on.
pub open spec fn said(turn: TurnView) -> Option<Seq<JsonView>> {
    match turn {
        TurnView::Chat { talk, .. } => Some(talk.messages),
        TurnView::Call { talk, .. } => Some(talk.messages),
        TurnView::Finish(_) => None,
    }
}

/// What was said stays said: a talk only adds messages.
pub proof fn transcript_grows(rules: RulesView, turn: TurnView, heard: Seq<Heard>)
    requires
        said(turn) is Some,
    ensures
        said(run(rules, turn, heard)) matches Some(later) ==> said(turn)->Some_0.is_prefix_of(
            later,
        ),
    decreases heard.len(),
{
    if heard.len() > 0 {
        transcript_grows(rules, turn, heard.drop_last());
        let before = run(rules, turn, heard.drop_last());
        match said(before) {
            Some(earlier) => {
                match said(next(rules, before, heard.last())) {
                    Some(later) => {
                        assert(earlier.is_prefix_of(later)) by {
                            assert(earlier =~= later.take(earlier.len() as int));
                        }
                        let first = said(turn)->Some_0;
                        assert(first =~= later.take(first.len() as int));
                    },
                    None => {},
                }
            },
            None => {},
        }
    }
}

/// The results in `heard`, as messages that answer `calls` one by one.
pub open spec fn result_messages(calls: Seq<JsonView>, results: Seq<Seq<char>>) -> Seq<JsonView> {
    Seq::new(calls.len(), |i: int| tool_message(call_id(calls[i]), results[i]))
}

/// The results as they come back.
pub open spec fn as_heard(results: Seq<Seq<char>>) -> Seq<Heard> {
    results.map_values(|result: Seq<char>| Heard::Result(result))
}

/// Each tool call of a turn is answered by one message, under its own identifier and in the order
/// of the calls, before the talk goes on.
pub proof fn calls_are_answered_in_order(
    rules: RulesView,
    talk: TalkView,
    results: Seq<Seq<char>>,
)
    requires
        results.len() == talk.pending.len(),
    ensures
        run(rules, onward(rules, talk), as_heard(results)) == onward(
            rules,
            TalkView {
                messages: talk.messages + result_messages(talk.pending, results),
                pending: Seq::empty(),
                ..talk
            },
        ),
{
    answered_up_to(rules, talk, results);
    assert(talk.pending.skip(results.len() as int) =~= Seq::empty());
    assert(talk.pending.take(results.len() as int) =~= talk.pending);
}

proof fn answered_up_to(rules: RulesView, talk: TalkView, results: Seq<Seq<char>>)
    requires
        results.len() <= talk.pending.len(),
    ensures
        run(rules, onward(rules, talk), as_heard(results)) == onward(
            rules,
            TalkView {
                messages: talk.messages + result_messages(
                    talk.pending.take(results.len() as int),
                    results,
                ),
                pending: talk.pending.skip(results.len() as int),
                ..talk
            },
        ),
    decreases results.len(),
{
    let n = results.len() as int;
    let heard = as_heard(results);
    if n == 0 {
        assert(talk.messages + result_messages(talk.pending.take(0), results) =~= talk.messages);
        assert(talk.pending.skip(0) =~= talk.pending);
    } else {
        let earlier = results.drop_last();
        answered_up_to(rules, talk, earlier);
        assert(as_heard(earlier) =~= heard.drop_last());
        let calls = talk.pending;
        assert(calls.skip(n - 1)[0] == calls[n - 1]);
        assert(calls.skip(n - 1).drop_first() =~= calls.skip(n));
        assert(talk.messages + result_messages(calls.take(n), results) =~= (talk.messages
            + result_messages(calls.take(n - 1), earlier)).push(
            tool_message(call_id(calls[n - 1]), results[n - 1]),
        ));
    }
}

/// Whether the events end the task once, at their end.
pub open spec fn ends_once(events: Seq<EventView>) -> bool {
    &&& events.len() > 0
    &&& events.last().ends()
    &&& forall|i: int| 0 <= i < events.len() - 1 ==> !(#[trigger] events[i]).ends()
}

/// A talk that finishes reports that the task has completed or failed, once, as its last event;
/// where there is a fallback, an answer that it reports is not empty.
pub proof fn finish_is_final(
    rules: RulesView,
    system: Seq<char>,
    user: Seq<char>,
    heard: Seq<Heard>,
)
    ensures
        run(rules, opened(rules, system, user), heard) matches TurnView::Finish(events) ==> {
            &&& ends_once(events)
            &&& forall|i: int|
                0 <= i < events.len() && rules.fallback.len() > 0 ==> (#[trigger] events[i] matches
                    EventView::Artifact { text, .. } ==> text.len() > 0)
        },
    decreases heard.len(),
{
    if heard.len() > 0 {
        finish_is_final(rules, system, user, heard.drop_last());
    }
}

/// An answer that a talk reports is the fallback, or has no white space around it and no tool-call
/// markup in it.
pub proof fn answers_are_plain(
    rules: RulesView,
    system: Seq<char>,
    user: Seq<char>,
    heard: Seq<Heard>,
)
    ensures
        run(rules, opened(rules, system, user), heard) matches TurnView::Finish(events) ==> forall|
            i: int,
        |
            0 <= i < events.len() ==> (#[trigger] events[i] matches EventView::Artifact {
                text,
                ..
            } ==> text == rules.fallback || (text == trim(text) && !contains(text, "<｜"@))),
    decreases heard.len(),
{
    if heard.len() > 0 {
        answers_are_plain(rules, system, user, heard.drop_last());
        match heard.last() {
            Heard::Reply(Ok(response)) => {
                let content = chosen(response).at("content"@).text_or(""@);
                markup_is_cut(content);
                cut_markup_stays_cut(content);
            },
            _ => {},
        }
    }
}

/// The request for an answer without tools offers none.
pub proof fn forced_answer_has_no_tools(rules: RulesView, talk: TalkView)
    ensures
        forced(rules, talk) matches TurnView::Chat { body, .. } && body.get("tools"@) is None,
{
    reveal_strlit("model");
    reveal_strlit("messages");
    reveal_strlit("tools");
    reveal_strlit("temperature");
    let said = talk.messages.push(message("user"@, nudge()));
    let members = chat_body(rules.model, said, Seq::empty())->Object_0;
    assert("model"@[0] != "tools"@[0]);
    assert("messages"@.len() != "tools"@.len());
    assert("temperature"@.len() != "tools"@.len());
    reveal_with_fuel(lookup, 4);
    assert(members.drop_first()[0] == members[1]);
    assert(members.drop_first().drop_first()[0] == members[2]);
}

// ─── What is said and done ──────────────────────────────────────────────────

/// The talk that a turn carries on.
pub open spec fn talk_of(turn: TurnView) -> Option<TalkView> {
    match turn {
        TurnView::Chat { talk, .. } => Some(talk),
        TurnView::Call { talk, .. } => Some(talk),
        TurnView::Finish(_) => None,
    }
}

/// A talk opens with the instructions and the question, in these roles, and with nothing else
/// before them.
pub proof fn talk_opens_with_the_question(rules: RulesView, system: Seq<char>, user: Seq<char>)
    ensures
        ({
            let messages = talk_of(opened(rules, system, user))->0.messages;
            &&& talk_of(opened(rules, system, user)) is Some
            &&& messages.len() >= 2
            &&& messages[0].holds("role"@, JsonView::Text("system"@))
            &&& messages[0].holds("content"@, JsonView::Text(system))
            &&& messages[1].holds("role"@, JsonView::Text("user"@))
            &&& messages[1].holds("content"@, JsonView::Text(user))
            &&& rules.turns > 0 ==> messages.len() == 2 && opened(rules, system, user) is Chat
        }),
{
    message_holds("system"@, system);
    message_holds("user"@, user);
    let messages = Seq::<JsonView>::empty().push(message("system"@, system)).push(
        message("user"@, user),
    );
    assert(messages[0] == message("system"@, system));
    assert(messages[1] == message("user"@, user));
}

/// A message holds its role and its content.
proof fn message_holds(role: Seq<char>, content: Seq<char>)
    ensures
        message(role, content).holds("role"@, JsonView::Text(role)),
        message(role, content).holds("content"@, JsonView::Text(content)),
{
    let members = message(role, content)->Object_0;
    assert(members[0] == ("role"@, JsonView::Text(role)));
    assert(members[1] == ("content"@, JsonView::Text(content)));
}

/// Where a reply leads on, the model's own message stands in the transcript behind what was said
/// before, as it came, tool calls and all.
pub proof fn reply_is_recorded(rules: RulesView, talk: TalkView, response: JsonView)
    requires
        !talk.forced,
    ensures
        talk_of(after_chat(rules, talk, Ok(response))) matches Some(later) ==> {
            let n = talk.messages.len() as int;
            &&& later.messages.len() > n
            &&& later.messages.take(n) == talk.messages
            &&& later.messages[n] == response.at("choices"@).first().at("message"@)
        },
{
    match talk_of(after_chat(rules, talk, Ok(response))) {
        Some(later) => {
            assert(later.messages.take(talk.messages.len() as int) =~= talk.messages);
        },
        None => {},
    }
}

/// Tool calls that a model asks for are made: the calls that wait are those of its message, in
/// their order, and the first one is handed out under its name and with its arguments.
pub proof fn asked_calls_are_made(
    rules: RulesView,
    talk: TalkView,
    response: JsonView,
    calls: Seq<JsonView>,
)
    requires
        !talk.forced,
        response.at("choices"@).first().at("message"@).at("tool_calls"@) == JsonView::List(calls),
        calls.len() > 0,
    ensures
        after_chat(rules, talk, Ok(response)) matches TurnView::Call { talk: later, call } && {
            &&& later.pending == calls
            &&& call.name == calls[0].at("function"@).at("name"@).text_or(""@)
            &&& call.arguments == calls[0].at("function"@).at("arguments"@).text_or("{}"@)
        },
{
}

/// The result of a tool call goes into the transcript as the answer to the call that was waiting
/// first, behind everything said before; the calls behind it go on waiting, and the next of them
/// is handed out.
pub proof fn result_answers_the_call(rules: RulesView, talk: TalkView, result: Seq<char>)
    requires
        talk.pending.len() > 0,
    ensures
        talk_of(after_call(rules, talk, result)) matches Some(later) && {
            let n = talk.messages.len() as int;
            &&& later.messages.len() > n
            &&& later.messages.take(n) == talk.messages
            &&& later.messages[n].holds("role"@, JsonView::Text("tool"@))
            &&& later.messages[n].holds(
                "tool_call_id"@,
                JsonView::Text(talk.pending[0].at("id"@).text_or(""@)),
            )
            &&& later.messages[n].holds("content"@, JsonView::Text(result))
            &&& later.pending == talk.pending.drop_first()
        },
        talk.pending.len() > 1 ==> (after_call(rules, talk, result) matches TurnView::Call {
            call,
            ..
        } && call.name == talk.pending[1].at("function"@).at("name"@).text_or(""@)
            && call.arguments == talk.pending[1].at("function"@).at("arguments"@).text_or("{}"@)),
{
    tool_message_holds(call_id(talk.pending[0]), result);
    match talk_of(after_call(rules, talk, result)) {
        Some(later) => {
            assert(later.messages.take(talk.messages.len() as int) =~= talk.messages);
        },
        None => {},
    }
    if talk.pending.len() > 1 {
        assert(talk.pending.drop_first()[0] == talk.pending[1]);
    }
}

proof fn tool_message_holds(id: Seq<char>, result: Seq<char>)
    ensures
        tool_message(id, result).holds("role"@, JsonView::Text("tool"@)),
        tool_message(id, result).holds("tool_call_id"@, JsonView::Text(id)),
        tool_message(id, result).holds("content"@, JsonView::Text(result)),
{
    let members = tool_message(id, result)->Object_0;
    assert(members[0] == ("role"@, JsonView::Text("tool"@)));
    assert(members[1] == ("tool_call_id"@, JsonView::Text(id)));
    assert(members[2] == ("content"@, JsonView::Text(result)));
}

/// Whether the end of a transcript is a model's message with tool calls and the answers to the
/// first of them, while the others are the ones that wait.
pub open spec fn answers_follow_calls(
    messages: Seq<JsonView>,
    pending: Seq<JsonView>,
    at: int,
) -> bool {
    &&& 0 <= at < messages.len()
    &&& messages[at].at("tool_calls"@) matches JsonView::List(calls) && {
        let done = messages.len() - at - 1;
        &&& done + pending.len() == calls.len()
        &&& pending == calls.skip(done)
        &&& forall|i: int|
            0 <= i < done ==> (#[trigger] messages[at + 1 + i]).holds(
                "tool_call_id"@,
                JsonView::Text(calls[i].at("id"@).text_or(""@)),
            )
    }
}

/// Wherever a tool call is handed out, the model has asked for it: the transcript ends with the
/// message that asks for it and the answers to the calls before it, each under the identifier of
/// its call, and the call is the first of that message that has no answer.
pub proof fn calls_are_the_models_own(
    rules: RulesView,
    system: Seq<char>,
    user: Seq<char>,
    heard: Seq<Heard>,
)
    ensures
        run(rules, opened(rules, system, user), heard) matches TurnView::Call { talk, call } ==> {
            &&& exists|at: int| #[trigger] answers_follow_calls(talk.messages, talk.pending, at)
            &&& talk.pending.len() > 0
            &&& call.name == talk.pending[0].at("function"@).at("name"@).text_or(""@)
            &&& call.arguments == talk.pending[0].at("function"@).at("arguments"@).text_or("{}"@)
        },
    decreases heard.len(),
{
    if heard.len() > 0 {
        let before = run(rules, opened(rules, system, user), heard.drop_last());
        calls_are_the_models_own(rules, system, user, heard.drop_last());
        match run(rules, opened(rules, system, user), heard) {
            TurnView::Call { talk: later, .. } => match (before, heard.last()) {
                (TurnView::Chat { talk, .. }, Heard::Reply(Ok(response))) => {
                    if !talk.forced {
                        let at = talk.messages.len() as int;
                        assert(later.messages[at] == chosen(response));
                        assert(later.pending.skip(0) =~= later.pending);
                        assert(answers_follow_calls(later.messages, later.pending, at));
                    }
                },
                (TurnView::Call { talk, .. }, Heard::Result(result)) => {
                    let at = choose|at: int|
                        #[trigger] answers_follow_calls(talk.messages, talk.pending, at);
                    let calls = talk.messages[at].at("tool_calls"@)->List_0;
                    let done = talk.messages.len() - at - 1;
                    tool_message_holds(call_id(talk.pending[0]), result);
                    assert(calls.skip(done)[0] == calls[done]);
                    assert(calls.skip(done).drop_first() =~= calls.skip(done + 1));
                    assert(later.messages[at] == talk.messages[at]);
                    assert forall|i: int| 0 <= i < done + 1 implies (
                    #[trigger] later.messages[at + 1 + i]).holds(
                        "tool_call_id"@,
                        JsonView::Text(calls[i].at("id"@).text_or(""@)),
                    ) by {
                        if i < done {
                            assert(later.messages[at + 1 + i] == talk.messages[at + 1 + i]);
                        }
                    }
                    assert(answers_follow_calls(later.messages, later.pending, at));
                },
                _ => {},
            },
            _ => {},
        }
    }
}

/// A request for a completion carries the whole transcript and the model's name; while tools may
/// be called and there are any, it offers all of them.
pub proof fn request_carries_the_transcript(
    rules: RulesView,
    system: Seq<char>,
    user: Seq<char>,
    heard: Seq<Heard>,
)
    ensures
        run(rules, opened(rules, system, user), heard) matches TurnView::Chat { talk, body } ==> {
            &&& body.holds("model"@, JsonView::Text(rules.model))
            &&& body.holds("messages"@, JsonView::List(talk.messages))
            &&& !talk.forced && rules.tools.len() > 0 ==> body.holds(
                "tools"@,
                JsonView::List(rules.tools),
            )
        },
{
    carries_it(rules, system, user, heard);
    match run(rules, opened(rules, system, user), heard) {
        TurnView::Chat { talk, body } => {
            let members = body->Object_0;
            assert(members[0] == ("model"@, JsonView::Text(rules.model)));
            assert(members[1] == ("messages"@, JsonView::List(talk.messages)));
            if !talk.forced && rules.tools.len() > 0 {
                assert(members[2] == ("tools"@, JsonView::List(rules.tools)));
            }
        },
        _ => {},
    }
}

proof fn carries_it(rules: RulesView, system: Seq<char>, user: Seq<char>, heard: Seq<Heard>)
    ensures
        run(rules, opened(rules, system, user), heard) matches TurnView::Chat { talk, body }
            ==> body == chat_body(
            rules.model,
            talk.messages,
            if talk.forced {
                Seq::empty()
            } else {
                rules.tools
            },
        ),
    decreases heard.len(),
{
    if heard.len() > 0 {
        carries_it(rules, system, user, heard.drop_last());
        stays_in_order(rules, system, user, heard.drop_last());
    }
}

/// The last thing said to a model that may call no more tools is said by the user.
pub proof fn last_request_is_the_users(rules: RulesView, talk: TalkView)
    ensures
        forced(rules, talk) matches TurnView::Chat { talk: later, body } && {
            &&& later.messages.drop_last() == talk.messages
            &&& later.messages.last().holds("role"@, JsonView::Text("user"@))
            &&& body.holds("messages"@, JsonView::List(later.messages))
            &&& body.holds("model"@, JsonView::Text(rules.model))
            &&& later.forced
        },
{
    message_holds("user"@, nudge());
    let said = talk.messages.push(message("user"@, nudge()));
    assert(said.drop_last() =~= talk.messages);
    let members = chat_body(rules.model, said, Seq::empty())->Object_0;
    assert(members[0] == ("model"@, JsonView::Text(rules.model)));
    assert(members[1] == ("messages"@, JsonView::List(said)));
}

/// What a model answers is what is reported: a content without tool calls, markup or white space
/// around it is the one artifact, unchanged.
pub proof fn answer_is_reported(
    rules: RulesView,
    talk: TalkView,
    response: JsonView,
    content: Seq<char>,
)
    requires
        response.at("choices"@).first().at("message"@).at("content"@) == JsonView::Text(content),
        talk.forced || !(response.at("choices"@).first().at("message"@).at("tool_calls"@) is List),
        content.len() > 0,
        content == trim(content),
        !contains(content, "<｜"@),
    ensures
        after_chat(rules, talk, Ok(response)) == TurnView::Finish(
            seq![
                EventView::Artifact { text: content, append: false, last_chunk: true },
                EventView::Completed,
            ],
        ),
{
}

/// A completion that fails ends the task with its reason.
pub proof fn failure_is_reported(rules: RulesView, talk: TalkView, reason: Seq<char>)
    ensures
        after_chat(rules, talk, Err(reason)) == TurnView::Finish(seq![EventView::Failed(reason)]),
{
}

/// Where a model says nothing, it is asked once more without tools; where it then says nothing, the
/// fallback is the answer.
pub proof fn silence_is_asked_once_more(rules: RulesView, talk: TalkView, response: JsonView)
    requires
        !(response.at("choices"@).first().at("message"@).at("content"@) is Text),
        !(response.at("choices"@).first().at("message"@).at("tool_calls"@) is List),
    ensures
        !talk.forced ==> (after_chat(rules, talk, Ok(response)) matches TurnView::Chat {
            talk: later,
            ..
        } && later.forced && later.asked == talk.asked),
        talk.forced ==> after_chat(rules, talk, Ok(response)) == TurnView::Finish(
            seq![
                EventView::Artifact { text: rules.fallback, append: false, last_chunk: true },
                EventView::Completed,
            ],
        ),
{
    reveal_strlit("");
    assert(trim(""@) =~= ""@);
    crate::text::search::find_is_first(""@, "<｜"@, 0);
    reveal_strlit("<｜");
}

} // verus!
