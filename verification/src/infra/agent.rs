//! The infrastructure assistant's talk with a model: each round streams an answer, and tool calls
//! at its end are made before the next round.

use vstd::prelude::*;

use super::stream::{builder_views, BuilderView, ToolCallBuilder};
use crate::agent::card::{
    make_card, skill, skill_of, skill_views, streaming_card, Card, CardView, Skill, SkillView,
};
use crate::agent::chat::{message, say, say_result, tool_message};
use crate::agent::events::{event_views, fail, failed, Event, EventView};
use crate::agent::preview::{preview_if_cut, preview_of, Style};
use crate::agent::talk::{ToolCall, ToolCallView};
use crate::agent::talk_laws::ends_once;
use crate::json::make::{
    list, no_items, no_members_yet, obj1, obj2, obj3, object, object1, object2, object3, string,
    with_item, with_member,
};
use crate::json::serde::{json_of_text, parse};
use crate::json::{copies, json_views, parsed_view, Json, JsonView};
use crate::text::{count_text, decimal, text};

verus! {

/// Max rounds of a talk.
pub const MAX_ROUNDS: usize = 6;

/// The instructions that the model works under.
pub const SYSTEM_PROMPT: &'static str = "\
You are an Infrastructure Engineer assistant. You MUST use your tools for every answer — never \
respond from memory alone. Every claim must be backed by tool output.\n\n\
Tools:\n\
- terraform_modules — search Terraform Registry for IaC modules\n\
- terraform_provider — provider details (version, downloads, tier, source repo)\n\
- dns_lookup — resolve DNS records (A, AAAA, CNAME, MX, TXT, etc.)\n\
- ssl_check — verify TLS certificates and expiry dates\n\
- ip_info — IP geolocation and network information\n\n\
Rules:\n\
- ALWAYS call at least one tool before answering\n\
- For 'find a Terraform module for X': use terraform_modules\n\
- For domain diagnostics: dns_lookup first, then ssl_check\n\
- Always include specific versions and pin recommendations\n\
- All data must come from tool output, never from memory";

/// How far a talk has come.
#[derive(Debug)]
pub struct Talk {
    /// Everything said so far.
    pub messages: Vec<Json>,
    /// How many rounds were begun.
    pub rounds: usize,
    /// What the model has said in this round.
    pub round_content: String,
    /// What the model has said in all rounds.
    pub full_text: String,
    /// Whether anything of the answer was reported.
    pub streamed_any: bool,
    /// The tool calls of this round that have no result yet.
    pub pending: Vec<ToolCallBuilder>,
}

/// What a talk holds.
#[verifier::ext_equal]
pub struct TalkView {
    pub messages: Seq<JsonView>,
    pub rounds: nat,
    pub round_content: Seq<char>,
    pub full_text: Seq<char>,
    pub streamed_any: bool,
    pub pending: Seq<BuilderView>,
}

impl View for Talk {
    type V = TalkView;

    open spec fn view(&self) -> TalkView {
        TalkView {
            messages: json_views(self.messages@),
            rounds: self.rounds as nat,
            round_content: self.round_content@,
            full_text: self.full_text@,
            streamed_any: self.streamed_any,
            pending: builder_views(self.pending@),
        }
    }
}

/// What to do next.
#[derive(Debug)]
pub enum Turn {
    /// Ask for a streamed completion with this body.
    Stream { talk: Talk, body: Json },
    /// Announce and make this tool call, and hand back its result.
    Call { talk: Talk, call: ToolCall },
    /// Report these events: the task is over. `full_text` is all that was answered.
    Finish { events: Vec<Event>, full_text: String },
}

/// What a turn holds.
#[verifier::ext_equal]
pub enum TurnView {
    Stream { talk: TalkView, body: JsonView },
    Call { talk: TalkView, call: ToolCallView },
    Finish { events: Seq<EventView>, full_text: Seq<char> },
}

impl View for Turn {
    type V = TurnView;

    open spec fn view(&self) -> TurnView {
        match self {
            Turn::Stream { talk, body } => TurnView::Stream { talk: talk@, body: body@ },
            Turn::Call { talk, call } => TurnView::Call { talk: talk@, call: call@ },
            Turn::Finish { events, full_text } => TurnView::Finish {
                events: event_views(events@),
                full_text: full_text@,
            },
        }
    }
}

/// The body of a request for a streamed completion.
pub open spec fn stream_body(
    model: Seq<char>,
    messages: Seq<JsonView>,
    tools: Seq<JsonView>,
) -> JsonView {
    JsonView::Object(
        Seq::empty().push(("model"@, JsonView::Text(model))).push(
            ("messages"@, JsonView::List(messages)),
        ).push(("tools"@, JsonView::List(tools))).push(
            ("temperature"@, JsonView::Decimal("0.2"@)),
        ).push(("stream"@, JsonView::Bool(true))).push(
            ("stream_options"@, obj1("include_usage"@, JsonView::Bool(true))),
        ),
    )
}

/// The tool calls that have a name, each with an identifier: its own, or one made from its
/// position among them.
pub open spec fn real_calls(calls: Seq<BuilderView>) -> Seq<BuilderView>
    decreases calls.len(),
{
    if calls.len() == 0 {
        Seq::empty()
    } else {
        let head = real_calls(calls.drop_last());
        let last = calls.last();
        if last.name.len() == 0 {
            head
        } else {
            head.push(
                BuilderView {
                    id: if last.id.len() == 0 {
                        "call_"@ + decimal(head.len())
                    } else {
                        last.id
                    },
                    ..last
                },
            )
        }
    }
}

/// A tool call as the model is reminded of it.
pub open spec fn call_json(call: BuilderView) -> JsonView {
    obj3(
        "id"@,
        JsonView::Text(call.id),
        "type"@,
        JsonView::Text("function"@),
        "function"@,
        obj2("name"@, JsonView::Text(call.name), "arguments"@, JsonView::Text(call.arguments)),
    )
}

/// The message of a round that has ended with tool calls.
pub open spec fn round_message(content: Seq<char>, calls: Seq<BuilderView>) -> JsonView {
    obj3(
        "role"@,
        JsonView::Text("assistant"@),
        "content"@,
        if content.len() == 0 {
            JsonView::Null
        } else {
            JsonView::Text(content)
        },
        "tool_calls"@,
        JsonView::List(calls.map_values(|call: BuilderView| call_json(call))),
    )
}

/// The call to make, given what its arguments are read as.
pub open spec fn call_with(call: BuilderView, args: Result<JsonView, Seq<char>>) -> ToolCallView {
    ToolCallView {
        name: call.name,
        arguments: call.arguments,
        preview: preview_of(Style::FirstText, call.name, args),
    }
}

/// The talk is over: what was streamed is closed with an empty last piece.
pub open spec fn finished(talk: TalkView) -> TurnView {
    TurnView::Finish {
        events: if talk.streamed_any {
            Seq::empty().push(
                EventView::Artifact { text: ""@, append: true, last_chunk: true },
            ).push(EventView::Completed)
        } else {
            Seq::empty().push(EventView::Completed)
        },
        full_text: talk.full_text,
    }
}

/// How the talk goes on: the next tool call of this round; else one more round; else its end.
pub open spec fn onward(model: Seq<char>, tools: Seq<JsonView>, talk: TalkView) -> TurnView {
    if talk.pending.len() > 0 {
        let call = talk.pending[0];
        TurnView::Call { talk, call: call_with(call, json_of_text(call.arguments)) }
    } else if talk.rounds < MAX_ROUNDS {
        TurnView::Stream {
            talk: TalkView { rounds: talk.rounds + 1, round_content: Seq::empty(), ..talk },
            body: stream_body(model, talk.messages, tools),
        }
    } else {
        finished(talk)
    }
}

/// How a talk begins.
pub open spec fn opened(model: Seq<char>, tools: Seq<JsonView>, user: Seq<char>) -> TurnView {
    onward(
        model,
        tools,
        TalkView {
            messages: Seq::empty().push(message("system"@, SYSTEM_PROMPT@)).push(
                message("user"@, user),
            ),
            rounds: 0,
            round_content: Seq::empty(),
            full_text: Seq::empty(),
            streamed_any: false,
            pending: Seq::empty(),
        },
    )
}

/// The talk after a piece of the answer.
pub open spec fn after_content(talk: TalkView, delta: Seq<char>) -> TalkView {
    TalkView {
        round_content: talk.round_content + delta,
        full_text: talk.full_text + delta,
        streamed_any: true,
        ..talk
    }
}

/// The event that reports a piece of the answer: the first one begins an artifact, the others are
/// added to it.
pub open spec fn content_event(talk: TalkView, delta: Seq<char>) -> EventView {
    EventView::Artifact { text: delta, append: talk.streamed_any, last_chunk: false }
}

/// How the talk goes on after a round has ended with these tool calls.
pub open spec fn after_round(
    model: Seq<char>,
    tools: Seq<JsonView>,
    talk: TalkView,
    calls: Seq<BuilderView>,
) -> TurnView {
    let named = real_calls(calls);
    if named.len() == 0 {
        finished(talk)
    } else {
        onward(
            model,
            tools,
            TalkView {
                messages: talk.messages.push(round_message(talk.round_content, named)),
                pending: named,
                ..talk
            },
        )
    }
}

/// How the talk goes on after a tool call was made.
pub open spec fn after_call(
    model: Seq<char>,
    tools: Seq<JsonView>,
    talk: TalkView,
    result: Seq<char>,
) -> TurnView {
    onward(
        model,
        tools,
        TalkView {
            messages: talk.messages.push(tool_message(talk.pending[0].id, result)),
            pending: talk.pending.drop_first(),
            ..talk
        },
    )
}

/// How a talk ends that has gone wrong.
pub open spec fn broken_off(talk: TalkView, reason: Seq<char>) -> TurnView {
    TurnView::Finish { events: failed(reason), full_text: talk.full_text }
}

/// The body of a request for a streamed completion.
pub fn request_body(model: &str, messages: &Vec<Json>, tools: &Vec<Json>) -> (r: Json)
    ensures
        r@ == stream_body(model@, json_views(messages@), json_views(tools@)),
{
    let members = with_member(no_members_yet(), "model", string(model));
    let members = with_member(members, "messages", list(copies(messages)));
    let members = with_member(members, "tools", list(copies(tools)));
    let members = with_member(members, "temperature", Json::Decimal(text("0.2")));
    let members = with_member(members, "stream", Json::Bool(true));
    object(with_member(members, "stream_options", object1("include_usage", Json::Bool(true))))
}

/// The tool calls that have a name, each with an identifier.
pub fn pick_calls(calls: &Vec<ToolCallBuilder>) -> (r: Vec<ToolCallBuilder>)
    ensures
        builder_views(r@) == real_calls(builder_views(calls@)),
{
    let ghost all = builder_views(calls@);
    let mut out: Vec<ToolCallBuilder> = Vec::new();
    let mut i: usize = 0;
    assert(all.take(0) =~= Seq::empty());
    assert(builder_views(out@) =~= Seq::empty());
    while i < calls.len()
        invariant
            i <= calls@.len(),
            all == builder_views(calls@),
            builder_views(out@) == real_calls(all.take(i as int)),
        decreases calls@.len() - i,
    {
        let ghost before = builder_views(out@);
        assert(before.len() == out@.len());
        assert(all.take(i + 1).drop_last() =~= all.take(i as int));
        assert(all[i as int] == calls@[i as int]@);
        if !calls[i].name.as_str().is_empty() {
            let id = if calls[i].id.as_str().is_empty() {
                let mut made = text("call_");
                let number = count_text(out.len());
                made.append(number.as_str());
                made
            } else {
                text(calls[i].id.as_str())
            };
            let call = ToolCallBuilder {
                id,
                name: text(calls[i].name.as_str()),
                arguments: text(calls[i].arguments.as_str()),
            };
            let ghost added = call@;
            out.push(call);
            assert(builder_views(out@) =~= before.push(added));
        }
        i += 1;
    }
    assert(all.take(i as int) =~= all);
    out
}

/// The message of a round that has ended with tool calls.
fn say_round(content: &str, calls: &Vec<ToolCallBuilder>) -> (r: Json)
    ensures
        r@ == round_message(content@, builder_views(calls@)),
{
    let ghost all = builder_views(calls@).map_values(|call: BuilderView| call_json(call));
    let mut items: Vec<Json> = no_items();
    let mut i: usize = 0;
    while i < calls.len()
        invariant
            i <= calls@.len(),
            all == builder_views(calls@).map_values(|call: BuilderView| call_json(call)),
            json_views(items@) == all.take(i as int),
        decreases calls@.len() - i,
    {
        let call = object3(
            "id",
            string(calls[i].id.as_str()),
            "type",
            string("function"),
            "function",
            object2(
                "name",
                string(calls[i].name.as_str()),
                "arguments",
                string(calls[i].arguments.as_str()),
            ),
        );
        assert(all[i as int] == call_json(calls@[i as int]@));
        items = with_item(items, call);
        i += 1;
        assert(json_views(items@) =~= all.take(i as int));
    }
    assert(all.take(i as int) =~= all);
    let said = if content.is_empty() {
        Json::Null
    } else {
        string(content)
    };
    object3("role", string("assistant"), "content", said, "tool_calls", list(items))
}

/// The call to make, given what its arguments were read as.
pub fn tool_call(call: &ToolCallBuilder, args: &Result<Json, String>) -> (r: ToolCall)
    ensures
        r@ == call_with(call@, parsed_view(*args)),
{
    let preview = preview_if_cut(Style::FirstText, call.name.as_str(), args);
    ToolCall { name: text(call.name.as_str()), arguments: text(call.arguments.as_str()), preview }
}

/// The talk is over.
fn finish(talk: Talk) -> (r: Turn)
    ensures
        r@ == finished(talk@),
{
    let mut events: Vec<Event> = Vec::new();
    if talk.streamed_any {
        events.push(Event::Artifact { text: text(""), append: true, last_chunk: true });
        events.push(Event::Completed);
        assert(event_views(events@) =~= Seq::empty().push(
            EventView::Artifact { text: ""@, append: true, last_chunk: true },
        ).push(EventView::Completed));
    } else {
        events.push(Event::Completed);
        assert(event_views(events@) =~= Seq::empty().push(EventView::Completed));
    }
    Turn::Finish { events, full_text: talk.full_text }
}

/// Says how the talk goes on.
fn proceed(model: &str, tools: &Vec<Json>, talk: Talk) -> (r: Turn)
    ensures
        r@ == onward(model@, json_views(tools@), talk@),
{
    if talk.pending.len() > 0 {
        assert(builder_views(talk.pending@)[0] == talk.pending@[0]@);
        let args = parse(talk.pending[0].arguments.as_str());
        let call = tool_call(&talk.pending[0], &args);
        Turn::Call { talk, call }
    } else if talk.rounds < MAX_ROUNDS {
        let body = request_body(model, &talk.messages, tools);
        Turn::Stream {
            talk: Talk {
                messages: talk.messages,
                rounds: talk.rounds + 1,
                round_content: String::new(),
                full_text: talk.full_text,
                streamed_any: talk.streamed_any,
                pending: talk.pending,
            },
            body,
        }
    } else {
        finish(talk)
    }
}

/// The event that a task begins with.
pub fn greeting() -> (r: Event)
    ensures
        r@ == EventView::Working(None),
{
    Event::Working(None)
}

/// Begins the talk about what the user has asked for.
pub fn begin(model: &str, tools: &Vec<Json>, user_text: &str) -> (r: Turn)
    ensures
        r@ == opened(model@, json_views(tools@), user_text@),
{
    let messages = with_item(
        with_item(no_items(), say("system", SYSTEM_PROMPT)),
        say("user", user_text),
    );
    let pending: Vec<ToolCallBuilder> = Vec::new();
    assert(builder_views(pending@) =~= Seq::empty());
    proceed(
        model,
        tools,
        Talk {
            messages,
            rounds: 0,
            round_content: String::new(),
            full_text: String::new(),
            streamed_any: false,
            pending,
        },
    )
}

/// Takes in a piece of the answer, and says what to report of it.
pub fn take_content(talk: Talk, delta: &str) -> (r: (Talk, Event))
    ensures
        r.0@ == after_content(talk@, delta@),
        r.1@ == content_event(talk@, delta@),
{
    let event = Event::Artifact {
        text: text(delta),
        append: talk.streamed_any,
        last_chunk: false,
    };
    let mut round_content = talk.round_content;
    round_content.append(delta);
    let mut full_text = talk.full_text;
    full_text.append(delta);
    (
        Talk {
            messages: talk.messages,
            rounds: talk.rounds,
            round_content,
            full_text,
            streamed_any: true,
            pending: talk.pending,
        },
        event,
    )
}

/// Takes in the end of a round, with the tool calls that were put together in it.
pub fn take_end(
    model: &str,
    tools: &Vec<Json>,
    talk: Talk,
    calls: &Vec<ToolCallBuilder>,
) -> (r: Turn)
    ensures
        r@ == after_round(model@, json_views(tools@), talk@, builder_views(calls@)),
{
    let named = pick_calls(calls);
    assert(builder_views(named@).len() == named@.len());
    if named.len() == 0 {
        return finish(talk);
    }
    let said = say_round(talk.round_content.as_str(), &named);
    let messages = with_item(talk.messages, said);
    proceed(
        model,
        tools,
        Talk {
            messages,
            rounds: talk.rounds,
            round_content: talk.round_content,
            full_text: talk.full_text,
            streamed_any: talk.streamed_any,
            pending: named,
        },
    )
}

/// Takes in that a round has gone wrong.
pub fn take_error(talk: Talk, reason: String) -> (r: Turn)
    ensures
        r@ == broken_off(talk@, reason@),
{
    Turn::Finish { events: fail(reason), full_text: talk.full_text }
}

/// Whether a tool call of this round waits for its result.
pub fn is_calling(talk: &Talk) -> (r: bool)
    ensures
        r == (talk@.pending.len() > 0),
{
    talk.pending.len() > 0
}

/// Takes in the result of the tool call that was made.
pub fn take_result(model: &str, tools: &Vec<Json>, talk: Talk, result: &str) -> (r: Turn)
    requires
        talk@.pending.len() > 0,
    ensures
        r@ == after_call(model@, json_views(tools@), talk@, result@),
{
    let mut pending = talk.pending;
    let ghost calls = builder_views(pending@);
    assert(calls[0] == pending@[0]@);
    let call = pending.remove(0);
    assert(builder_views(pending@) =~= calls.drop_first());
    let messages = with_item(talk.messages, say_result(call.id.as_str(), result));
    proceed(
        model,
        tools,
        Talk {
            messages,
            rounds: talk.rounds,
            round_content: talk.round_content,
            full_text: talk.full_text,
            streamed_any: talk.streamed_any,
            pending,
        },
    )
}

// ─── Laws ───────────────────────────────────────────────────────────────────

/// What can come back in a talk.
pub ghost enum Heard {
    /// A piece of the answer.
    Content(Seq<char>),
    /// The round has ended, with these tool calls.
    End(Seq<BuilderView>),
    /// The round has gone wrong.
    Fault(Seq<char>),
    /// The result of a tool call.
    Result(Seq<char>),
}

/// The turn after `heard`; what is not awaited changes nothing.
pub open spec fn next(
    model: Seq<char>,
    tools: Seq<JsonView>,
    turn: TurnView,
    heard: Heard,
) -> TurnView {
    match turn {
        TurnView::Stream { talk, body } => match heard {
            Heard::Content(delta) => TurnView::Stream { talk: after_content(talk, delta), body },
            Heard::End(calls) => after_round(model, tools, talk, calls),
            Heard::Fault(reason) => broken_off(talk, reason),
            Heard::Result(_) => turn,
        },
        TurnView::Call { talk, .. } => match heard {
            Heard::Result(result) => after_call(model, tools, talk, result),
            _ => turn,
        },
        TurnView::Finish { .. } => turn,
    }
}

/// The turn after everything in `heard`.
pub open spec fn run(
    model: Seq<char>,
    tools: Seq<JsonView>,
    turn: TurnView,
    heard: Seq<Heard>,
) -> TurnView
    decreases heard.len(),
{
    if heard.len() == 0 {
        turn
    } else {
        next(model, tools, run(model, tools, turn, heard.drop_last()), heard.last())
    }
}

/// How many streamed completions are asked for on the way through `heard`, the first turn
/// included: each end of a round or tool result that leads to one asks for it.
pub open spec fn streams(
    model: Seq<char>,
    tools: Seq<JsonView>,
    turn: TurnView,
    heard: Seq<Heard>,
) -> nat
    decreases heard.len(),
{
    if heard.len() == 0 {
        if turn is Stream {
            1
        } else {
            0
        }
    } else {
        let before = run(model, tools, turn, heard.drop_last());
        let after = next(model, tools, before, heard.last());
        streams(model, tools, turn, heard.drop_last()) + if after is Stream && (heard.last() is End
            && before is Stream || heard.last() is Result && before is Call) {
            1nat
        } else {
            0nat
        }
    }
}

/// The pieces of the answer that are reported on the way through `heard`.
pub open spec fn reported(
    model: Seq<char>,
    tools: Seq<JsonView>,
    turn: TurnView,
    heard: Seq<Heard>,
) -> Seq<EventView>
    decreases heard.len(),
{
    if heard.len() == 0 {
        Seq::empty()
    } else {
        let before = run(model, tools, turn, heard.drop_last());
        let head = reported(model, tools, turn, heard.drop_last());
        match before {
            TurnView::Stream { talk, .. } => match heard.last() {
                Heard::Content(delta) => head.push(content_event(talk, delta)),
                _ => head,
            },
            _ => head,
        }
    }
}

/// The text of the pieces, one after the other.
pub open spec fn artifact_text(events: Seq<EventView>) -> Seq<char>
    decreases events.len(),
{
    if events.len() == 0 {
        Seq::empty()
    } else {
        artifact_text(events.drop_last()) + match events.last() {
            EventView::Artifact { text, .. } => text,
            _ => Seq::empty(),
        }
    }
}

/// What was answered, as a turn knows it.
pub open spec fn text_so_far(turn: TurnView) -> Seq<char> {
    match turn {
        TurnView::Stream { talk, .. } => talk.full_text,
        TurnView::Call { talk, .. } => talk.full_text,
        TurnView::Finish { full_text, .. } => full_text,
    }
}

/// What a turn on the way from the opening looks like.
spec fn in_order(turn: TurnView, count: nat, pieces: Seq<EventView>) -> bool {
    &&& artifact_text(pieces) == text_so_far(turn)
    &&& forall|i: int|
        0 <= i < pieces.len() ==> (#[trigger] pieces[i] matches EventView::Artifact {
            append,
            last_chunk,
            ..
        } && append == (i > 0) && !last_chunk)
    &&& match turn {
        TurnView::Stream { talk, .. } => {
            &&& talk.pending.len() == 0
            &&& count == talk.rounds
            &&& talk.rounds <= MAX_ROUNDS
            &&& talk.streamed_any == (pieces.len() > 0)
        },
        TurnView::Call { talk, .. } => {
            &&& talk.pending.len() > 0
            &&& count == talk.rounds
            &&& talk.rounds <= MAX_ROUNDS
            &&& talk.streamed_any == (pieces.len() > 0)
        },
        TurnView::Finish { events, .. } => {
            &&& count <= MAX_ROUNDS
            &&& ends_once(events)
            &&& events.last() is Completed ==> events.len() == if pieces.len() > 0 {
                2nat
            } else {
                1nat
            }
            &&& events.last() is Completed && events.len() == 2 ==> (events[0] matches
                EventView::Artifact { append, last_chunk, .. } && append && last_chunk)
        },
    }
}

/// Every turn on the way from the opening is in order.
proof fn stays_in_order(
    model: Seq<char>,
    tools: Seq<JsonView>,
    user: Seq<char>,
    heard: Seq<Heard>,
)
    ensures
        ({
            let start = opened(model, tools, user);
            in_order(
                run(model, tools, start, heard),
                streams(model, tools, start, heard),
                reported(model, tools, start, heard),
            )
        }),
    decreases heard.len(),
{
    if heard.len() > 0 {
        stays_in_order(model, tools, user, heard.drop_last());
        let start = opened(model, tools, user);
        let before = reported(model, tools, start, heard.drop_last());
        let after = reported(model, tools, start, heard);
        if after.len() > before.len() {
            assert(after.drop_last() =~= before);
        }
    }
}

/// A talk asks for at most six streamed completions.
pub proof fn rounds_are_bounded(
    model: Seq<char>,
    tools: Seq<JsonView>,
    user: Seq<char>,
    heard: Seq<Heard>,
)
    ensures
        streams(model, tools, opened(model, tools, user), heard) <= 6,
{
    stays_in_order(model, tools, user, heard);
}

/// The answer is reported as one artifact: its first piece begins it, the others are added to it,
/// and together they are the text that the talk ends with.
pub proof fn answer_is_one_artifact(
    model: Seq<char>,
    tools: Seq<JsonView>,
    user: Seq<char>,
    heard: Seq<Heard>,
)
    ensures
        ({
            let start = opened(model, tools, user);
            let pieces = reported(model, tools, start, heard);
            &&& artifact_text(pieces) == text_so_far(run(model, tools, start, heard))
            &&& forall|i: int|
                0 <= i < pieces.len() ==> (#[trigger] pieces[i] matches EventView::Artifact {
                    append,
                    last_chunk,
                    ..
                } && append == (i > 0) && !last_chunk)
        }),
{
    stays_in_order(model, tools, user, heard);
}

/// A talk that finishes ends the task once, at its end; where it has completed and anything was
/// answered, the artifact is closed before.
pub proof fn finish_closes_the_artifact(
    model: Seq<char>,
    tools: Seq<JsonView>,
    user: Seq<char>,
    heard: Seq<Heard>,
)
    ensures
        ({
            let start = opened(model, tools, user);
            let pieces = reported(model, tools, start, heard);
            run(model, tools, start, heard) matches TurnView::Finish { events, .. } ==> {
                &&& ends_once(events)
                &&& events.last() is Completed && pieces.len() > 0 ==> (events[0] matches
                    EventView::Artifact { append, last_chunk, .. } && append && last_chunk)
            }
        }),
{
    stays_in_order(model, tools, user, heard);
}

/// Every tool call that is made has a name and an identifier.
pub proof fn calls_are_identified(calls: Seq<BuilderView>)
    ensures
        forall|i: int|
            0 <= i < real_calls(calls).len() ==> {
                &&& (#[trigger] real_calls(calls)[i]).name.len() > 0
                &&& real_calls(calls)[i].id.len() > 0
            },
    decreases calls.len(),
{
    reveal_strlit("call_");
    if calls.len() > 0 {
        let head = real_calls(calls.drop_last());
        calls_are_identified(calls.drop_last());
        assert forall|i: int| 0 <= i < real_calls(calls).len() implies {
            &&& (#[trigger] real_calls(calls)[i]).name.len() > 0
            &&& real_calls(calls)[i].id.len() > 0
        } by {
            if i < head.len() {
                assert(real_calls(calls)[i] == head[i]);
            } else {
                assert(("call_"@ + decimal(head.len())).len() > 0);
            }
        }
    }
}

/// The results as messages that answer `calls` one by one.
pub open spec fn result_messages(
    calls: Seq<BuilderView>,
    results: Seq<Seq<char>>,
) -> Seq<JsonView> {
    Seq::new(calls.len(), |i: int| tool_message(calls[i].id, results[i]))
}

/// The results as they come back.
pub open spec fn as_heard(results: Seq<Seq<char>>) -> Seq<Heard> {
    results.map_values(|result: Seq<char>| Heard::Result(result))
}

/// Each tool call of a round is answered by one message, under its own identifier and in the order
/// of the calls, before the next round begins.
pub proof fn calls_are_answered_in_order(
    model: Seq<char>,
    tools: Seq<JsonView>,
    talk: TalkView,
    results: Seq<Seq<char>>,
)
    requires
        results.len() == talk.pending.len(),
    ensures
        run(model, tools, onward(model, tools, talk), as_heard(results)) == onward(
            model,
            tools,
            TalkView {
                messages: talk.messages + result_messages(talk.pending, results),
                pending: Seq::empty(),
                ..talk
            },
        ),
{
    answered_up_to(model, tools, talk, results);
    assert(talk.pending.skip(results.len() as int) =~= Seq::empty());
    assert(talk.pending.take(results.len() as int) =~= talk.pending);
}

proof fn answered_up_to(
    model: Seq<char>,
    tools: Seq<JsonView>,
    talk: TalkView,
    results: Seq<Seq<char>>,
)
    requires
        results.len() <= talk.pending.len(),
    ensures
        run(model, tools, onward(model, tools, talk), as_heard(results)) == onward(
            model,
            tools,
            TalkView {
                messages: talk.messages + result_messages(
                    talk.pending.take(results.len() as int),
                    results,
                ),
                pending: talk.pending.skip(results.len() as int),
                ..talk
            },
        ),
    decreases results.len(),
{
    let n = results.len() as int;
    let heard = as_heard(results);
    if n == 0 {
        assert(talk.messages + result_messages(talk.pending.take(0), results) =~= talk.messages);
        assert(talk.pending.skip(0) =~= talk.pending);
    } else {
        let earlier = results.drop_last();
        answered_up_to(model, tools, talk, earlier);
        assert(as_heard(earlier) =~= heard.drop_last());
        let calls = talk.pending;
        assert(calls.skip(n - 1)[0] == calls[n - 1]);
        assert(calls.skip(n - 1).drop_first() =~= calls.skip(n));
        assert(talk.messages + result_messages(calls.take(n), results) =~= (talk.messages
            + result_messages(calls.take(n - 1), earlier)).push(
            tool_message(calls[n - 1].id, results[n - 1]),
        ));
    }
}

/// What was said in the talk that a turn carries on.
pub open spec fn said(turn: TurnView) -> Option<Seq<JsonView>> {
    match turn {
        TurnView::Stream { talk, .. } => Some(talk.messages),
        TurnView::Call { talk, .. } => Some(talk.messages),
        TurnView::Finish { .. } => None,
    }
}

/// What was said stays said: a talk only adds messages.
pub proof fn transcript_grows(
    model: Seq<char>,
    tools: Seq<JsonView>,
    turn: TurnView,
    heard: Seq<Heard>,
)
    requires
        said(turn) is Some,
    ensures
        said(run(model, tools, turn, heard)) matches Some(later) ==> said(
            turn,
        )->Some_0.is_prefix_of(later),
    decreases heard.len(),
{
    if heard.len() > 0 {
        transcript_grows(model, tools, turn, heard.drop_last());
        let before = run(model, tools, turn, heard.drop_last());
        match (said(before), said(next(model, tools, before, heard.last()))) {
            (Some(earlier), Some(later)) => {
                assert(earlier =~= later.take(earlier.len() as int));
                let first = said(turn)->Some_0;
                assert(first =~= later.take(first.len() as int));
            },
            _ => {},
        }
    }
}

// ─── Card ───────────────────────────────────────────────────────────────────

/// What the agent can do.
pub open spec fn skills_view() -> Seq<SkillView> {
    seq![
        skill_of(
            "terraform-search"@,
            "Terraform Registry"@,
            "Search for Terraform modules and provider documentation"@,
            ("infrastructure"@, "terraform"@, "iac"@),
            Some("Find a Terraform module for AWS VPC"@),
        ),
        skill_of(
            "dns-lookup"@,
            "DNS Lookup"@,
            "Resolve DNS records (A, AAAA, CNAME, MX, TXT, NS) for any domain"@,
            ("infrastructure"@, "dns"@, "networking"@),
            Some("What DNS records does github.com have?"@),
        ),
        skill_of(
            "ip-geolocation"@,
            "IP Geolocation"@,
            "Get geolocation and network info for an IP address"@,
            ("infrastructure"@, "networking"@, "ip"@),
            Some("Where is IP 8.8.8.8 located?"@),
        ),
    ]
}

/// What the agent says of itself.
pub open spec fn infra_card(port: u16) -> CardView {
    streaming_card(
        "Infrastructure Manager"@,
        "Terraform module search, DNS resolution, IP geolocation, and provider info"@,
        "1.0.0"@,
        skills_view(),
        port,
    )
}

/// What the agent says of itself.
pub fn agent_card(port: u16) -> (r: Card)
    ensures
        r@ == infra_card(port),
{
    let mut skills: Vec<Skill> = Vec::new();
    skills.push(
        skill(
            "terraform-search",
            "Terraform Registry",
            "Search for Terraform modules and provider documentation",
            ("infrastructure", "terraform", "iac"),
            Some("Find a Terraform module for AWS VPC"),
        ),
    );
    skills.push(
        skill(
            "dns-lookup",
            "DNS Lookup",
            "Resolve DNS records (A, AAAA, CNAME, MX, TXT, NS) for any domain",
            ("infrastructure", "dns", "networking"),
            Some("What DNS records does github.com have?"),
        ),
    );
    skills.push(
        skill(
            "ip-geolocation",
            "IP Geolocation",
            "Get geolocation and network info for an IP address",
            ("infrastructure", "networking", "ip"),
            Some("Where is IP 8.8.8.8 located?"),
        ),
    );
    assert(skill_views(skills@) =~= skills_view());
    make_card(
        "Infrastructure Manager",
        "Terraform module search, DNS resolution, IP geolocation, and provider info",
        "1.0.0",
        skills,
        port,
    )
}

} // verus!
