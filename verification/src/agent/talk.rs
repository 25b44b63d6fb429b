//! The talk with a model: it asks for tools, is handed their results, and ends with an answer.
//! Each step says what to do next; who runs the talk does it and hands back what came of it.

use vstd::prelude::*;

use super::chat::{
    chat_body, chosen, first_message, message, request_body, say, say_result, strip_tool_markup,
    tool_message, without_markup,
};
use super::events::{answer, answered, event_views, fail, failed, Event, EventView};
use super::preview::{preview_if_cut, preview_of, Style};
use crate::json::make::with_item;
use crate::json::serde::{json_of_text, parse};
use crate::json::{copies, json_views, parsed_view, Json, JsonView};
use crate::text::{opt_view, text};

verus! {

/// What is fixed for a talk.
#[derive(Debug)]
pub struct Rules {
    pub model: String,
    /// The descriptions of the tools on offer.
    pub tools: Vec<Json>,
    /// How many completions may be asked for with tools on offer.
    pub turns: usize,
    /// The answer where the model never gives one.
    pub fallback: String,
    pub style: Style,
}

/// What the rules hold.
#[verifier::ext_equal]
pub struct RulesView {
    pub model: Seq<char>,
    pub tools: Seq<JsonView>,
    pub turns: nat,
    pub fallback: Seq<char>,
    pub style: Style,
}

impl View for Rules {
    type V = RulesView;

    open spec fn view(&self) -> RulesView {
        RulesView {
            model: self.model@,
            tools: json_views(self.tools@),
            turns: self.turns as nat,
            fallback: self.fallback@,
            style: self.style,
        }
    }
}

/// How far a talk has come.
#[derive(Debug)]
pub struct Talk {
    /// Everything said so far.
    pub messages: Vec<Json>,
    /// How many completions have been asked for with tools on offer.
    pub asked: usize,
    /// The tool calls of this turn that have no result yet.
    pub pending: Vec<Json>,
    /// Whether the answer without tools has been asked for.
    pub forced: bool,
}

/// What a talk holds.
#[verifier::ext_equal]
pub struct TalkView {
    pub messages: Seq<JsonView>,
    pub asked: nat,
    pub pending: Seq<JsonView>,
    pub forced: bool,
}

impl View for Talk {
    type V = TalkView;

    open spec fn view(&self) -> TalkView {
        TalkView {
            messages: json_views(self.messages@),
            asked: self.asked as nat,
            pending: json_views(self.pending@),
            forced: self.forced,
        }
    }
}

/// A tool call to make.
#[derive(Debug)]
pub struct ToolCall {
    pub name: String,
    /// The arguments as the model wrote them: JSON text, if all is well.
    pub arguments: String,
    /// The status line that announces the call; none where it cannot be cut to length.
    pub preview: Option<String>,
}

/// What a tool call holds.
#[verifier::ext_equal]
pub struct ToolCallView {
    pub name: Seq<char>,
    pub arguments: Seq<char>,
    pub preview: Option<Seq<char>>,
}

impl View for ToolCall {
    type V = ToolCallView;

    open spec fn view(&self) -> ToolCallView {
        ToolCallView {
            name: self.name@,
            arguments: self.arguments@,
            preview: opt_view(self.preview),
        }
    }
}

/// What to do next.
#[derive(Debug)]
pub enum Turn {
    /// Ask for a completion with this body, and hand back what came of it.
    Chat { talk: Talk, body: Json },
    /// Announce and make this tool call, and hand back its result.
    Call { talk: Talk, call: ToolCall },
    /// Report these events: the task is over.
    Finish(Vec<Event>),
}

/// What a turn holds.
#[verifier::ext_equal]
pub enum TurnView {
    Chat { talk: TalkView, body: JsonView },
    Call { talk: TalkView, call: ToolCallView },
    Finish(Seq<EventView>),
}

impl View for Turn {
    type V = TurnView;

    open spec fn view(&self) -> TurnView {
        match self {
            Turn::Chat { talk, body } => TurnView::Chat { talk: talk@, body: body@ },
            Turn::Call { talk, call } => TurnView::Call { talk: talk@, call: call@ },
            Turn::Finish(events) => TurnView::Finish(event_views(events@)),
        }
    }
}

/// What is said to a model that may call no more tools.
pub open spec fn nudge() -> Seq<char> {
    "Tool calls are no longer available. Answer the original question now, using only the information already gathered above. Respond with plain text only."@
}

/// The name of the tool that is called.
pub open spec fn call_name(call: JsonView) -> Seq<char> {
    call.at("function"@).at("name"@).text_or(""@)
}

/// The arguments of a tool call.
pub open spec fn call_arguments(call: JsonView) -> Seq<char> {
    call.at("function"@).at("arguments"@).text_or("{}"@)
}

/// The identifier under which the result of a tool call is expected.
pub open spec fn call_id(call: JsonView) -> Seq<char> {
    call.at("id"@).text_or(""@)
}

/// The call to make, given what its arguments are read as.
pub open spec fn call_with(
    style: Style,
    call: JsonView,
    args: Result<JsonView, Seq<char>>,
) -> ToolCallView {
    ToolCallView {
        name: call_name(call),
        arguments: call_arguments(call),
        preview: preview_of(style, call_name(call), args),
    }
}

/// The call to make.
pub open spec fn call_for(style: Style, call: JsonView) -> ToolCallView {
    call_with(style, call, json_of_text(call_arguments(call)))
}

/// The talk is over: `text` is the answer, or the fallback where it is empty.
pub open spec fn closed_with(rules: RulesView, text: Seq<char>) -> TurnView {
    TurnView::Finish(
        answered(
            if text.len() == 0 {
                rules.fallback
            } else {
                text
            },
        ),
    )
}

/// The model is asked for an answer without tools.
pub open spec fn forced(rules: RulesView, talk: TalkView) -> TurnView {
    let said = talk.messages.push(message("user"@, nudge()));
    TurnView::Chat {
        talk: TalkView { messages: said, forced: true, ..talk },
        body: chat_body(rules.model, said, Seq::empty()),
    }
}

/// How the talk goes on: the next tool call of this turn; else one more completion with tools on
/// offer; else the answer without tools.
pub open spec fn onward(rules: RulesView, talk: TalkView) -> TurnView {
    if talk.pending.len() > 0 {
        TurnView::Call { talk, call: call_for(rules.style, talk.pending[0]) }
    } else if talk.asked < rules.turns {
        TurnView::Chat {
            talk: TalkView { asked: talk.asked + 1, ..talk },
            body: chat_body(rules.model, talk.messages, rules.tools),
        }
    } else {
        forced(rules, talk)
    }
}

/// How a talk begins.
pub open spec fn opened(rules: RulesView, system: Seq<char>, user: Seq<char>) -> TurnView {
    onward(
        rules,
        TalkView {
            messages: Seq::empty().push(message("system"@, system)).push(message("user"@, user)),
            asked: 0,
            pending: Seq::empty(),
            forced: false,
        },
    )
}

/// How the talk goes on after a completion was asked for.
pub open spec fn after_chat(
    rules: RulesView,
    talk: TalkView,
    reply: Result<JsonView, Seq<char>>,
) -> TurnView {
    match reply {
        Err(e) => TurnView::Finish(failed(e)),
        Ok(response) => {
            let choice = chosen(response);
            let text = without_markup(choice.at("content"@).text_or(""@));
            if talk.forced {
                closed_with(rules, text)
            } else {
                let said = TalkView { messages: talk.messages.push(choice), ..talk };
                match choice.at("tool_calls"@).items() {
                    Some(calls) => onward(rules, TalkView { pending: calls, ..said }),
                    None => if text.len() == 0 {
                        forced(rules, said)
                    } else {
                        closed_with(rules, text)
                    },
                }
            }
        },
    }
}

/// How the talk goes on after a tool call was made.
pub open spec fn after_call(rules: RulesView, talk: TalkView, result: Seq<char>) -> TurnView {
    onward(
        rules,
        TalkView {
            messages: talk.messages.push(tool_message(call_id(talk.pending[0]), result)),
            pending: talk.pending.drop_first(),
            ..talk
        },
    )
}

/// The call to make, given what its arguments were read as.
pub fn tool_call(style: Style, call: &Json, args: &Result<Json, String>) -> (r: ToolCall)
    ensures
        r@ == call_with(style, call@, parsed_view(*args)),
{
    let name = text(call.at("function").at("name").text_or(""));
    let arguments = text(call.at("function").at("arguments").text_or("{}"));
    let preview = preview_if_cut(style, name.as_str(), args);
    ToolCall { name, arguments, preview }
}

/// The talk is over.
fn close(rules: &Rules, text: String) -> (r: Turn)
    ensures
        r@ == closed_with(rules@, text@),
{
    if text.as_str().is_empty() {
        Turn::Finish(answer(crate::text::text(rules.fallback.as_str())))
    } else {
        Turn::Finish(answer(text))
    }
}

/// Asks for an answer without tools.
fn force(rules: &Rules, talk: Talk) -> (r: Turn)
    ensures
        r@ == forced(rules@, talk@),
{
    let messages = with_item(
        talk.messages,
        say(
            "user",
            "Tool calls are no longer available. Answer the original question now, using only the information already gathered above. Respond with plain text only.",
        ),
    );
    let no_tools: Vec<Json> = Vec::new();
    assert(json_views(no_tools@) =~= Seq::empty());
    let body = request_body(rules.model.as_str(), &messages, &no_tools);
    Turn::Chat {
        talk: Talk { messages, asked: talk.asked, pending: talk.pending, forced: true },
        body,
    }
}

/// Says how the talk goes on.
fn proceed(rules: &Rules, talk: Talk) -> (r: Turn)
    ensures
        r@ == onward(rules@, talk@),
{
    if talk.pending.len() > 0 {
        assert(json_views(talk.pending@)[0] == talk.pending@[0]@);
        let args = parse(talk.pending[0].at("function").at("arguments").text_or("{}"));
        let call = tool_call(rules.style, &talk.pending[0], &args);
        Turn::Call { talk, call }
    } else if talk.asked < rules.turns {
        let body = request_body(rules.model.as_str(), &talk.messages, &rules.tools);
        Turn::Chat {
            talk: Talk {
                messages: talk.messages,
                asked: talk.asked + 1,
                pending: talk.pending,
                forced: talk.forced,
            },
            body,
        }
    } else {
        force(rules, talk)
    }
}

/// Begins a talk about `user`, under the instructions in `system`.
pub fn open(rules: &Rules, system: &str, user: &str) -> (r: Turn)
    ensures
        r@ == opened(rules@, system@, user@),
{
    let empty: Vec<Json> = Vec::new();
    assert(json_views(empty@) =~= Seq::empty());
    let messages = with_item(with_item(empty, say("system", system)), say("user", user));
    let pending: Vec<Json> = Vec::new();
    assert(json_views(pending@) =~= Seq::empty());
    proceed(rules, Talk { messages, asked: 0, pending, forced: false })
}

/// Takes in what came of asking for a completion.
pub fn take_reply(rules: &Rules, talk: Talk, reply: Result<Json, String>) -> (r: Turn)
    ensures
        r@ == after_chat(rules@, talk@, parsed_view(reply)),
{
    match reply {
        Err(e) => Turn::Finish(fail(e)),
        Ok(response) => {
            let choice = first_message(&response);
            let answer_text = strip_tool_markup(choice.at("content").text_or(""));
            if talk.forced {
                return close(rules, answer_text);
            }
            let messages = with_item(talk.messages, choice.copy());
            match choice.at("tool_calls").as_items() {
                Some(calls) => proceed(
                    rules,
                    Talk {
                        messages,
                        asked: talk.asked,
                        pending: copies(calls),
                        forced: talk.forced,
                    },
                ),
                None => if answer_text.as_str().is_empty() {
                    force(
                        rules,
                        Talk {
                            messages,
                            asked: talk.asked,
                            pending: talk.pending,
                            forced: talk.forced,
                        },
                    )
                } else {
                    close(rules, answer_text)
                },
            }
        },
    }
}

/// Whether a tool call of this turn waits for its result.
pub fn is_calling(talk: &Talk) -> (r: bool)
    ensures
        r == (talk@.pending.len() > 0),
{
    talk.pending.len() > 0
}

/// Takes in the result of the tool call that was made.
pub fn take_result(rules: &Rules, talk: Talk, result: &str) -> (r: Turn)
    requires
        talk@.pending.len() > 0,
    ensures
        r@ == after_call(rules@, talk@, result@),
{
    let mut pending = talk.pending;
    let ghost calls = json_views(pending@);
    assert(calls[0] == pending@[0]@);
    let call = pending.remove(0);
    assert(json_views(pending@) =~= calls.drop_first());
    let messages = with_item(talk.messages, say_result(call.at("id").text_or(""), result));
    proceed(rules, Talk { messages, asked: talk.asked, pending, forced: talk.forced })
}

} // verus!
