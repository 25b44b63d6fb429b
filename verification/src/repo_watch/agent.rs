//! The repo-watch agent's talk with a model, and what becomes of the digest that it ends with.

use vstd::prelude::*;

use super::github::{can_shorten, has_short, short, short_hash};
use super::messages::{
    assistant_text, assistant_views, hand_result, message_views, result_message, said_calls,
    said_text, say_text, user_text, AssistantPart, AssistantPartView, ChatMessage, ChatMessageView,
};
use crate::agent::card::{
    make_card, skill, skill_of, skill_views, streaming_card, Card, CardView, Skill, SkillView,
};
use crate::agent::chat::{
    cut_markup_stays_cut, markup_is_cut, or_else, strip_tool_markup, without_markup, Settings,
};
use crate::agent::events::{answer, answered, event_views, fail, failed, Event, EventView};
use crate::agent::talk::nudge;
use crate::json::{json_views, texts_in, texts_of, Json, JsonView};
use crate::text::case::{all_ascii, ascii_lowercase, lower, lowercase};
use crate::text::lines::{trim, trim_end, trim_start, words, words_of};
use crate::text::search::{contains, contains_text, find, find_is_first};
use crate::text::{join, join_texts, opt_view, outcome, prefixed, text, views};

verus! {

/// Upper bound on completions with tools on offer per request: a digest can make many calls, but
/// not without end.
pub const MAX_TOOL_TURNS: usize = 20;

/// The agent's configuration, read once from the environment at startup.
pub struct RepoWatchAgent {
    pub model: String,
    pub api_key: String,
    pub base_url: String,
    /// The repositories to report on where the request names none.
    pub default_repos: Vec<String>,
}

impl RepoWatchAgent {
    /// The configuration from what the environment gives; what it leaves out has a default. The
    /// watch list is written with white space between the repositories.
    pub fn new(
        repos: Option<String>,
        base_url: Option<String>,
        api_key: Option<String>,
        model: Option<String>,
    ) -> (r: RepoWatchAgent)
        ensures
            r.base_url@ == or_else(opt_view(base_url), "https://api.openai.com/v1"@),
            r.api_key@ == or_else(opt_view(api_key), Seq::empty()),
            r.model@ == or_else(opt_view(model), "gpt-4o-mini"@),
            views(r.default_repos@) == match opt_view(repos) {
                Some(list) => words(list),
                None => Seq::empty(),
            },
    {
        let settings = Settings::new(base_url, api_key, model);
        let default_repos = match repos {
            Some(list) => words_of(list.as_str()),
            None => {
                let none: Vec<String> = Vec::new();
                assert(views(none@) =~= Seq::empty());
                none
            },
        };
        RepoWatchAgent {
            model: settings.model,
            api_key: settings.api_key,
            base_url: settings.base_url,
            default_repos,
        }
    }
}

// ─── Previews ───────────────────────────────────────────────────────────────

/// What a tool call is announced with, where its commit hash can be cut: the repositories, or the
/// repository and what is looked at in it.
pub open spec fn preview_text(args: JsonView) -> Option<Seq<char>> {
    let repos = args.at("repos"@).items_or_none();
    if repos.len() > 0 {
        Some(join(texts_of(repos), ", "@))
    } else {
        match args.at("repo"@).text() {
            None => Some("..."@),
            Some(repo) => match args.at("path"@).text() {
                Some(path) => Some(repo + " "@ + path),
                None => match args.at("symbol"@).text() {
                    Some(symbol) => Some(repo + " `"@ + symbol + "`"@),
                    None => match args.at("commit_hash"@).text() {
                        Some(hash) => if has_short(hash) {
                            Some(repo + " @"@ + short(hash))
                        } else {
                            None
                        },
                        None => Some(repo),
                    },
                },
            },
        }
    }
}

/// A short status line for a tool call. None where it would hold a commit hash that cannot be cut
/// to its short form.
pub fn extract_preview(args: &Json) -> (r: Option<String>)
    ensures
        opt_view(r) == preview_text(args@),
{
    match args.at("repos").as_items() {
        Some(repos) => {
            assert(json_views(repos@).len() == repos@.len());
            if repos.len() > 0 {
                return Some(join_texts(&texts_in(repos), ", "));
            }
        },
        None => {},
    }
    match args.at("repo").as_text() {
        None => Some(text("...")),
        Some(repo) => {
            let mut out = text(repo);
            match args.at("path").as_text() {
                Some(path) => {
                    out.append(" ");
                    out.append(path);
                    return Some(out);
                },
                None => {},
            }
            match args.at("symbol").as_text() {
                Some(symbol) => {
                    out.append(" `");
                    out.append(symbol);
                    out.append("`");
                    return Some(out);
                },
                None => {},
            }
            match args.at("commit_hash").as_text() {
                Some(hash) => if can_shorten(hash) {
                    out.append(" @");
                    let cut = short_hash(hash);
                    out.append(cut.as_str());
                    Some(out)
                } else {
                    None
                },
                None => Some(out),
            }
        },
    }
}

// ─── The talk ───────────────────────────────────────────────────────────────

/// How far a talk has come. A completion is always asked for with one message as the prompt and
/// all before it as the history.
#[derive(Debug)]
pub struct Talk {
    pub history: Vec<ChatMessage>,
    pub prompt: ChatMessage,
    /// How many completions have been asked for with tools on offer.
    pub asked: usize,
    /// The tool calls of this turn that have no result yet.
    pub pending: Vec<AssistantPart>,
    /// Whether the answer without tools has been asked for.
    pub forced: bool,
}

/// What a talk holds.
#[verifier::ext_equal]
pub struct TalkView {
    pub history: Seq<ChatMessageView>,
    pub prompt: ChatMessageView,
    pub asked: nat,
    pub pending: Seq<AssistantPartView>,
    pub forced: bool,
}

impl View for Talk {
    type V = TalkView;

    open spec fn view(&self) -> TalkView {
        TalkView {
            history: message_views(self.history@),
            prompt: self.prompt@,
            asked: self.asked as nat,
            pending: assistant_views(self.pending@),
            forced: self.forced,
        }
    }
}

impl TalkView {
    /// Everything that the next completion is asked for with: the history, then the prompt.
    pub open spec fn transcript(self) -> Seq<ChatMessageView> {
        self.history.push(self.prompt)
    }
}

/// What to do next.
#[derive(Debug)]
pub enum Turn {
    /// Ask for a completion of the talk, with tools on offer or without.
    Complete { talk: Talk, tools: bool },
    /// Announce and make the first pending tool call, and hand back its result. There is no status
    /// line where its commit hash cannot be cut.
    Call { talk: Talk, status: Option<String> },
    /// The digest, or what went wrong.
    Done(Result<String, String>),
}

/// What a turn holds.
#[verifier::ext_equal]
pub enum TurnView {
    Complete { talk: TalkView, tools: bool },
    Call { talk: TalkView, status: Option<Seq<char>> },
    Done(Result<Seq<char>, Seq<char>>),
}

impl View for Turn {
    type V = TurnView;

    open spec fn view(&self) -> TurnView {
        match self {
            Turn::Complete { talk, tools } => TurnView::Complete { talk: talk@, tools: *tools },
            Turn::Call { talk, status } => TurnView::Call { talk: talk@, status: opt_view(*status) },
            Turn::Done(r) => TurnView::Done(outcome(*r)),
        }
    }
}

/// The digest where the model never gives one.
pub open spec fn no_digest() -> Seq<char> {
    "Reached the maximum number of steps without a final answer."@
}

/// The status line for a tool call.
pub open spec fn status_line(call: AssistantPartView) -> Option<Seq<char>> {
    match call {
        AssistantPartView::ToolCall { id: _, name, arguments } => match preview_text(arguments) {
            Some(preview) => Some(name + ": "@ + preview),
            None => None,
        },
        _ => None,
    }
}

/// The identifier under which the result of a tool call is expected.
pub open spec fn call_id(call: AssistantPartView) -> Seq<char> {
    match call {
        AssistantPartView::ToolCall { id, .. } => id,
        _ => Seq::empty(),
    }
}

/// The talk is over: `t` is the digest, unless it is empty.
pub open spec fn closed_with(t: Seq<char>) -> TurnView {
    TurnView::Done(
        Ok(
            if t.len() == 0 {
                no_digest()
            } else {
                t
            },
        ),
    )
}

/// The model is asked for an answer without tools.
pub open spec fn forced(talk: TalkView) -> TurnView {
    TurnView::Complete {
        talk: TalkView {
            history: talk.history.push(talk.prompt),
            prompt: user_text(nudge()),
            forced: true,
            ..talk
        },
        tools: false,
    }
}

/// How the talk goes on: the next tool call of this turn; else one more completion with tools on
/// offer; else the answer without tools.
pub open spec fn onward(talk: TalkView) -> TurnView {
    if talk.pending.len() > 0 {
        TurnView::Call { talk, status: status_line(talk.pending[0]) }
    } else if talk.asked < MAX_TOOL_TURNS {
        TurnView::Complete { talk: TalkView { asked: talk.asked + 1, ..talk }, tools: true }
    } else {
        forced(talk)
    }
}

/// How a talk begins.
pub open spec fn opened(prompt: Seq<char>) -> TurnView {
    onward(
        TalkView {
            history: Seq::empty(),
            prompt: user_text(prompt),
            asked: 0,
            pending: Seq::empty(),
            forced: false,
        },
    )
}

/// How the talk goes on after a completion was asked for. Where tools are called, the prompt and
/// the answer become history, and results follow.
pub open spec fn after_completion(
    talk: TalkView,
    reply: Result<Seq<AssistantPartView>, Seq<char>>,
) -> TurnView {
    match reply {
        Err(e) => TurnView::Done(Err("LLM API error: "@ + e)),
        Ok(choice) => {
            let t = without_markup(said_text(choice));
            if talk.forced {
                closed_with(t)
            } else {
                let calls = said_calls(choice);
                if calls.len() == 0 {
                    if t.len() == 0 {
                        forced(talk)
                    } else {
                        closed_with(t)
                    }
                } else {
                    onward(
                        TalkView {
                            history: talk.history.push(talk.prompt),
                            prompt: ChatMessageView::Assistant(choice),
                            pending: calls,
                            ..talk
                        },
                    )
                }
            }
        },
    }
}

/// How the talk goes on after a tool call was made: its result is the new prompt, what was the
/// prompt becomes history.
pub open spec fn after_call(talk: TalkView, result: Seq<char>) -> TurnView {
    onward(
        TalkView {
            history: talk.history.push(talk.prompt),
            prompt: result_message(call_id(talk.pending[0]), result),
            pending: talk.pending.drop_first(),
            ..talk
        },
    )
}

/// One message more.
fn with_message(history: Vec<ChatMessage>, m: ChatMessage) -> (r: Vec<ChatMessage>)
    ensures
        message_views(r@) == message_views(history@).push(m@),
{
    let ghost before = message_views(history@);
    let ghost added = m@;
    let mut out = history;
    out.push(m);
    assert(message_views(out@) =~= before.push(added));
    out
}

/// The status line for a tool call.
pub fn status(call: &AssistantPart) -> (r: Option<String>)
    ensures
        opt_view(r) == status_line(call@),
{
    match call {
        AssistantPart::ToolCall { id: _, name, arguments } => match extract_preview(arguments) {
            Some(preview) => {
                let mut out = text(name.as_str());
                out.append(": ");
                out.append(preview.as_str());
                Some(out)
            },
            None => None,
        },
        _ => None,
    }
}

/// The talk is over.
fn close(t: String) -> (r: Turn)
    ensures
        r@ == closed_with(t@),
{
    if t.as_str().is_empty() {
        Turn::Done(Ok(text("Reached the maximum number of steps without a final answer.")))
    } else {
        Turn::Done(Ok(t))
    }
}

/// Asks for an answer without tools.
fn force(talk: Talk) -> (r: Turn)
    ensures
        r@ == forced(talk@),
{
    Turn::Complete {
        talk: Talk {
            history: with_message(talk.history, talk.prompt),
            prompt: say_text(
                "Tool calls are no longer available. Answer the original question now, using only the information already gathered above. Respond with plain text only.",
            ),
            asked: talk.asked,
            pending: talk.pending,
            forced: true,
        },
        tools: false,
    }
}

/// Says how the talk goes on.
fn proceed(talk: Talk) -> (r: Turn)
    ensures
        r@ == onward(talk@),
{
    if talk.pending.len() > 0 {
        assert(assistant_views(talk.pending@)[0] == talk.pending@[0]@);
        let status = status(&talk.pending[0]);
        Turn::Call { talk, status }
    } else if talk.asked < MAX_TOOL_TURNS {
        Turn::Complete {
            talk: Talk {
                history: talk.history,
                prompt: talk.prompt,
                asked: talk.asked + 1,
                pending: talk.pending,
                forced: talk.forced,
            },
            tools: true,
        }
    } else {
        force(talk)
    }
}

/// Begins a talk.
pub fn begin(prompt_text: &str) -> (r: Turn)
    ensures
        r@ == opened(prompt_text@),
{
    let history: Vec<ChatMessage> = Vec::new();
    assert(message_views(history@) =~= Seq::empty());
    let pending: Vec<AssistantPart> = Vec::new();
    assert(assistant_views(pending@) =~= Seq::empty());
    proceed(Talk { history, prompt: say_text(prompt_text), asked: 0, pending, forced: false })
}

/// A copy of a part of what the model says.
fn copy_part(part: &AssistantPart) -> (r: AssistantPart)
    ensures
        r@ == part@,
{
    match part {
        AssistantPart::Text(t) => AssistantPart::Text(text(t.as_str())),
        AssistantPart::ToolCall { id, name, arguments } => AssistantPart::ToolCall {
            id: text(id.as_str()),
            name: text(name.as_str()),
            arguments: arguments.copy(),
        },
        AssistantPart::Other => AssistantPart::Other,
    }
}

/// The tool calls in what the model says.
pub fn calls_in(choice: &Vec<AssistantPart>) -> (r: Vec<AssistantPart>)
    ensures
        assistant_views(r@) == said_calls(assistant_views(choice@)),
{
    let ghost all = assistant_views(choice@);
    let mut out: Vec<AssistantPart> = Vec::new();
    let mut i: usize = 0;
    assert(assistant_views(out@) =~= said_calls(all.take(0)));
    while i < choice.len()
        invariant
            i <= choice@.len(),
            all == assistant_views(choice@),
            assistant_views(out@) == said_calls(all.take(i as int)),
        decreases choice@.len() - i,
    {
        let ghost before = assistant_views(out@);
        assert(all.take(i + 1).drop_last() =~= all.take(i as int));
        assert(all[i as int] == choice@[i as int]@);
        let is_call = match &choice[i] {
            AssistantPart::ToolCall { .. } => true,
            _ => false,
        };
        if is_call {
            out.push(copy_part(&choice[i]));
            assert(assistant_views(out@) =~= before.push(all[i as int]));
        }
        i += 1;
    }
    assert(all.take(i as int) =~= all);
    out
}

/// What the completion in a reply holds, or what went wrong.
pub open spec fn reply_view(reply: Result<Vec<AssistantPart>, String>) -> Result<
    Seq<AssistantPartView>,
    Seq<char>,
> {
    match reply {
        Ok(choice) => Ok(assistant_views(choice@)),
        Err(e) => Err(e@),
    }
}

/// Takes in what came of asking for a completion.
pub fn take_reply(talk: Talk, reply: Result<Vec<AssistantPart>, String>) -> (r: Turn)
    ensures
        r@ == after_completion(talk@, reply_view(reply)),
{
    match reply {
        Err(e) => Turn::Done(Err(prefixed("LLM API error: ", e.as_str()))),
        Ok(choice) => {
            let said = assistant_text(&choice);
            let t = strip_tool_markup(said.as_str());
            if talk.forced {
                return close(t);
            }
            let calls = calls_in(&choice);
            assert(assistant_views(calls@).len() == calls@.len());
            if calls.len() == 0 {
                if t.as_str().is_empty() {
                    force(talk)
                } else {
                    close(t)
                }
            } else {
                proceed(
                    Talk {
                        history: with_message(talk.history, talk.prompt),
                        prompt: ChatMessage::Assistant(choice),
                        asked: talk.asked,
                        pending: calls,
                        forced: talk.forced,
                    },
                )
            }
        },
    }
}

/// Whether a tool call of this turn waits for its result.
pub fn is_calling(talk: &Talk) -> (r: bool)
    ensures
        r == (talk@.pending.len() > 0),
{
    talk.pending.len() > 0
}

/// Takes in the result of the tool call that was made.
pub fn take_result(talk: Talk, result: &str) -> (r: Turn)
    requires
        talk@.pending.len() > 0,
    ensures
        r@ == after_call(talk@, result@),
{
    let mut pending = talk.pending;
    let ghost calls = assistant_views(pending@);
    assert(calls[0] == pending@[0]@);
    let call = pending.remove(0);
    assert(assistant_views(pending@) =~= calls.drop_first());
    let empty = String::new();
    let id = match &call {
        AssistantPart::ToolCall { id, .. } => id.as_str(),
        _ => empty.as_str(),
    };
    proceed(
        Talk {
            history: with_message(talk.history, talk.prompt),
            prompt: hand_result(id, result),
            asked: talk.asked,
            pending,
            forced: talk.forced,
        },
    )
}

// ─── Delivery ───────────────────────────────────────────────────────────────

/// Whether a request in lower case asks for the digest to go to Slack.
pub fn names_slack(lower_text: &str) -> (r: bool)
    ensures
        r == contains(lower_text@, "slack"@),
{
    contains_text(lower_text, "slack")
}

/// Whether the request asks for the digest to go to Slack. This is decided by the user's own
/// words, not by the model, which may end its turn without asking for anything.
pub fn mentions_slack(user_text: &str) -> (r: bool)
    ensures
        r == contains(lowercase(user_text@), "slack"@),
        all_ascii(user_text@) ==> r == contains(ascii_lowercase(user_text@), "slack"@),
{
    let low = lower(user_text);
    names_slack(low.as_str())
}

/// The reply to show once the digest was handed to Slack.
pub open spec fn delivery_reply(digest: Seq<char>, posted: Result<(), Seq<char>>) -> Seq<char> {
    match posted {
        Ok(_) => "✅ Posted the digest to Slack."@,
        Err(e) => digest + "\n\n⚠️ Could not post to Slack: "@ + e,
    }
}

/// The reply to show once the digest was handed to Slack: a short confirmation, or the digest
/// itself and the reason why it could not be posted, so that the work is not lost.
pub fn deliver_to_slack(digest: &str, posted: &Result<(), String>) -> (r: String)
    ensures
        r@ == delivery_reply(digest@, posting_view(*posted)),
{
    match posted {
        Ok(_) => text("✅ Posted the digest to Slack."),
        Err(e) => {
            let mut out = text(digest);
            out.append("\n\n⚠️ Could not post to Slack: ");
            out.append(e.as_str());
            out
        },
    }
}

/// The event that a task begins with.
pub fn greeting() -> (r: Event)
    ensures
        r@ == EventView::Working(None),
{
    Event::Working(None)
}

/// How a task goes on once its digest is made.
#[derive(Debug)]
pub enum Delivery {
    /// Report this event and post the digest to Slack; what came of it is then taken up.
    Post { event: Event, digest: String },
    /// Report these events: the task is over.
    Finish(Vec<Event>),
}

/// How a task goes on once its digest is made.
#[verifier::ext_equal]
pub enum DeliveryView {
    Post { event: EventView, digest: Seq<char> },
    Finish(Seq<EventView>),
}

impl View for Delivery {
    type V = DeliveryView;

    open spec fn view(&self) -> DeliveryView {
        match self {
            Delivery::Post { event, digest } => DeliveryView::Post {
                event: event@,
                digest: digest@,
            },
            Delivery::Finish(events) => DeliveryView::Finish(event_views(events@)),
        }
    }
}

/// How a task goes on with what came of its digest.
pub open spec fn delivered(
    wants_slack: bool,
    digest: Result<Seq<char>, Seq<char>>,
) -> DeliveryView {
    match digest {
        Err(e) => DeliveryView::Finish(failed(e)),
        Ok(t) => if wants_slack {
            DeliveryView::Post {
                event: EventView::Working(Some("posting digest to Slack"@)),
                digest: t,
            }
        } else {
            DeliveryView::Finish(answered(t))
        },
    }
}

/// The result of a posting, by its views.
pub open spec fn posting_view(posted: Result<(), String>) -> Result<(), Seq<char>> {
    match posted {
        Ok(_) => Ok(()),
        Err(e) => Err(e@),
    }
}

/// Takes up what came of the digest: a digest that was asked for in Slack is posted first.
pub fn take_digest(wants_slack: bool, digest: Result<String, String>) -> (r: Delivery)
    ensures
        r@ == delivered(wants_slack, outcome(digest)),
{
    match digest {
        Err(e) => Delivery::Finish(fail(e)),
        Ok(t) => if wants_slack {
            Delivery::Post {
                event: Event::Working(Some(text("posting digest to Slack"))),
                digest: t,
            }
        } else {
            Delivery::Finish(answer(t))
        },
    }
}

/// Takes up what came of the posting: the events that the task ends with.
pub fn take_posting(digest: &str, posted: &Result<(), String>) -> (r: Vec<Event>)
    ensures
        event_views(r@) == answered(delivery_reply(digest@, posting_view(*posted))),
{
    answer(deliver_to_slack(digest, posted))
}

/// A digest is posted exactly where the request asks for it and there is one.
pub proof fn posted_where_asked(wants_slack: bool, digest: Result<Seq<char>, Seq<char>>)
    ensures
        delivered(wants_slack, digest) is Post <==> wants_slack && digest is Ok,
        delivered(wants_slack, digest) matches DeliveryView::Post { digest: t, .. } ==> digest
            == Ok::<Seq<char>, Seq<char>>(t),
{
}

/// The digest stands in the reply where it could not be posted, and only there: once it is in
/// Slack, the reply is the same whatever the digest was.
pub proof fn digest_is_not_lost(digest: Seq<char>, other: Seq<char>, reason: Seq<char>)
    ensures
        delivery_reply(digest, Err(reason)).take(digest.len() as int) == digest,
        delivery_reply(digest, Ok(())) == delivery_reply(other, Ok(())),
{
    assert(delivery_reply(digest, Err(reason)).take(digest.len() as int) =~= digest);
}

// ─── Card ───────────────────────────────────────────────────────────────────

/// What the agent can do.
pub open spec fn skills_view() -> Seq<SkillView> {
    seq![
        skill_of(
            "repo-digest"@,
            "Repo Digest"@,
            "Summarize commits, file-level diffs, and PR activity for a GitHub repo since a given time, flagging risky changes"@,
            ("github"@, "monitoring"@, "digest"@),
            None,
        ),
    ]
}

/// What the agent says of itself.
pub open spec fn repo_watch_card(port: u16) -> CardView {
    streaming_card(
        "Repo Watch Agent"@,
        "Reports on GitHub repo activity — commits, file diffs, and PRs — since a given time, with risk flags"@,
        "0.1.0"@,
        skills_view(),
        port,
    )
}

/// What the agent says of itself.
pub fn agent_card(port: u16) -> (r: Card)
    ensures
        r@ == repo_watch_card(port),
{
    let mut skills: Vec<Skill> = Vec::new();
    skills.push(
        skill(
            "repo-digest",
            "Repo Digest",
            "Summarize commits, file-level diffs, and PR activity for a GitHub repo since a given time, flagging risky changes",
            ("github", "monitoring", "digest"),
            None,
        ),
    );
    assert(skill_views(skills@) =~= skills_view());
    make_card(
        "Repo Watch Agent",
        "Reports on GitHub repo activity — commits, file diffs, and PRs — since a given time, with risk flags",
        "0.1.0",
        skills,
        port,
    )
}

// ─── Laws ───────────────────────────────────────────────────────────────────

/// What can come back: the reply to a request for a completion, or the result of a tool call.
pub ghost enum Heard {
    Reply(Result<Seq<AssistantPartView>, Seq<char>>),
    Result(Seq<char>),
}

/// The turn after `heard`; what is not awaited changes nothing.
pub open spec fn next(turn: TurnView, heard: Heard) -> TurnView {
    match turn {
        TurnView::Complete { talk, .. } => match heard {
            Heard::Reply(reply) => after_completion(talk, reply),
            Heard::Result(_) => turn,
        },
        TurnView::Call { talk, .. } => match heard {
            Heard::Result(result) => after_call(talk, result),
            Heard::Reply(_) => turn,
        },
        TurnView::Done(_) => turn,
    }
}

/// The turn after everything in `heard`.
pub open spec fn run(turn: TurnView, heard: Seq<Heard>) -> TurnView
    decreases heard.len(),
{
    if heard.len() == 0 {
        turn
    } else {
        next(run(turn, heard.drop_last()), heard.last())
    }
}

/// How many completions are asked for on the way through `heard`, the first turn included.
pub open spec fn completions(turn: TurnView, heard: Seq<Heard>) -> nat
    decreases heard.len(),
{
    if heard.len() == 0 {
        if turn is Complete {
            1
        } else {
            0
        }
    } else {
        let before = run(turn, heard.drop_last());
        let awaited = before is Complete && heard.last() is Reply || before is Call
            && heard.last() is Result;
        completions(turn, heard.drop_last()) + if awaited && next(before, heard.last()) is Complete {
            1nat
        } else {
            0nat
        }
    }
}

/// Whether a text has neither white space around it nor tool-call markup in it.
spec fn is_plain(t: Seq<char>) -> bool {
    t == trim(t) && !contains(t, "<｜"@)
}

/// Whether `c` does not stand in `s` from position `from` on.
spec fn lacks(s: Seq<char>, c: char, from: nat) -> bool
    decreases s.len() - from,
{
    from >= s.len() || (s[from as int] != c && lacks(s, c, from + 1))
}

proof fn lacking_is_nowhere(s: Seq<char>, c: char, from: nat)
    requires
        lacks(s, c, from),
    ensures
        forall|i: int| from <= i < s.len() ==> s[i] != c,
    decreases s.len() - from,
{
    if from < s.len() {
        lacking_is_nowhere(s, c, from + 1);
    }
}

/// What stands in for a digest is plain.
proof fn stand_in_is_plain()
    ensures
        no_digest().len() > 0,
        is_plain(no_digest()),
{
    reveal_strlit("Reached the maximum number of steps without a final answer.");
    reveal_strlit("<｜");
    let t = no_digest();
    let mark = "<｜"@;
    assert(trim_start(t) == t);
    assert(trim_end(t) == t);
    assert(lacks(t, '<', 0)) by {
        reveal_with_fuel(lacks, 61);
    }
    lacking_is_nowhere(t, '<', 0);
    find_is_first(t, mark, 0);
    match find(t, mark) {
        Some(i) => {
            assert(t.subrange(i, i + mark.len())[0] == t[i]);
            assert(mark[0] == '<');
        },
        None => {},
    }
}

/// What a turn on the way from the opening looks like after `count` completions were asked for.
spec fn in_order(turn: TurnView, count: nat) -> bool {
    match turn {
        TurnView::Complete { talk, tools } => {
            &&& talk.pending.len() == 0
            &&& talk.asked <= MAX_TOOL_TURNS
            &&& tools == !talk.forced
            &&& count == talk.asked + if talk.forced {
                1nat
            } else {
                0nat
            }
        },
        TurnView::Call { talk, .. } => {
            &&& talk.pending.len() > 0
            &&& talk.asked <= MAX_TOOL_TURNS
            &&& !talk.forced
            &&& count == talk.asked
        },
        TurnView::Done(r) => {
            &&& count <= MAX_TOOL_TURNS + 1
            &&& r matches Ok(t) ==> t.len() > 0 && is_plain(t)
        },
    }
}

/// Every turn on the way from the opening is in order.
proof fn stays_in_order(prompt: Seq<char>, heard: Seq<Heard>)
    ensures
        in_order(run(opened(prompt), heard), completions(opened(prompt), heard)),
    decreases heard.len(),
{
    stand_in_is_plain();
    if heard.len() > 0 {
        stays_in_order(prompt, heard.drop_last());
        match heard.last() {
            Heard::Reply(Ok(choice)) => {
                markup_is_cut(said_text(choice));
                cut_markup_stays_cut(said_text(choice));
            },
            _ => {},
        }
    }
}

/// A digest asks for at most twenty-one completions, the last of them without tools.
pub proof fn digest_is_bounded(prompt: Seq<char>, heard: Seq<Heard>)
    ensures
        completions(opened(prompt), heard) <= 21,
{
    stays_in_order(prompt, heard);
}

/// A digest is never empty.
pub proof fn digest_is_never_empty(prompt: Seq<char>, heard: Seq<Heard>)
    ensures
        run(opened(prompt), heard) matches TurnView::Done(Ok(t)) ==> t.len() > 0,
{
    stays_in_order(prompt, heard);
}

/// A digest has no white space around it, and no tool-call markup in it.
pub proof fn digest_is_plain(prompt: Seq<char>, heard: Seq<Heard>)
    ensures
        run(opened(prompt), heard) matches TurnView::Done(Ok(t)) ==> t == trim(t) && !contains(
            t,
            "<｜"@,
        ),
{
    stays_in_order(prompt, heard);
}

/// What was said in the talk that a turn carries on.
pub open spec fn said(turn: TurnView) -> Option<Seq<ChatMessageView>> {
    match turn {
        TurnView::Complete { talk, .. } => Some(talk.transcript()),
        TurnView::Call { talk, .. } => Some(talk.transcript()),
        TurnView::Done(_) => None,
    }
}

/// What was said stays said: history and prompt together only grow.
pub proof fn transcript_grows(turn: TurnView, heard: Seq<Heard>)
    requires
        said(turn) is Some,
    ensures
        said(run(turn, heard)) matches Some(later) ==> said(turn)->Some_0.is_prefix_of(later),
    decreases heard.len(),
{
    if heard.len() > 0 {
        transcript_grows(turn, heard.drop_last());
        let before = run(turn, heard.drop_last());
        match said(before) {
            Some(earlier) => {
                match said(next(before, heard.last())) {
                    Some(later) => {
                        assert(earlier =~= later.take(earlier.len() as int));
                        let first = said(turn)->Some_0;
                        assert(first =~= later.take(first.len() as int));
                    },
                    None => {},
                }
            },
            None => {},
        }
    }
}

/// The results as messages that answer `calls` one by one.
pub open spec fn result_messages(
    calls: Seq<AssistantPartView>,
    results: Seq<Seq<char>>,
) -> Seq<ChatMessageView> {
    Seq::new(calls.len(), |i: int| result_message(call_id(calls[i]), results[i]))
}

/// The results as they come back.
pub open spec fn as_heard(results: Seq<Seq<char>>) -> Seq<Heard> {
    results.map_values(|result: Seq<char>| Heard::Result(result))
}

/// The talk with some messages more.
pub open spec fn talk_after(
    talk: TalkView,
    more: Seq<ChatMessageView>,
    pending: Seq<AssistantPartView>,
) -> TalkView {
    if more.len() == 0 {
        TalkView { pending, ..talk }
    } else {
        TalkView {
            history: talk.transcript() + more.drop_last(),
            prompt: more.last(),
            pending,
            ..talk
        }
    }
}

/// Each tool call of a turn is answered by one message, under its own identifier and in the order
/// of the calls, before the talk goes on; the last result is the next prompt.
pub proof fn calls_are_answered_in_order(talk: TalkView, results: Seq<Seq<char>>)
    requires
        results.len() == talk.pending.len(),
    ensures
        run(onward(talk), as_heard(results)) == onward(
            talk_after(talk, result_messages(talk.pending, results), Seq::empty()),
        ),
{
    answered_up_to(talk, results);
    assert(talk.pending.skip(results.len() as int) =~= Seq::empty());
    assert(talk.pending.take(results.len() as int) =~= talk.pending);
}

proof fn answered_up_to(talk: TalkView, results: Seq<Seq<char>>)
    requires
        results.len() <= talk.pending.len(),
    ensures
        run(onward(talk), as_heard(results)) == onward(
            talk_after(
                talk,
                result_messages(talk.pending.take(results.len() as int), results),
                talk.pending.skip(results.len() as int),
            ),
        ),
    decreases results.len(),
{
    let n = results.len() as int;
    let calls = talk.pending;
    if n == 0 {
        assert(calls.skip(0) =~= calls);
        assert(talk_after(talk, result_messages(calls.take(0), results), calls.skip(0)) == talk);
    } else {
        let earlier = results.drop_last();
        answered_up_to(talk, earlier);
        assert(as_heard(earlier) =~= as_heard(results).drop_last());
        assert(calls.skip(n - 1)[0] == calls[n - 1]);
        assert(calls.skip(n - 1).drop_first() =~= calls.skip(n));
        let before = result_messages(calls.take(n - 1), earlier);
        let after = result_messages(calls.take(n), results);
        assert(after.drop_last() =~= before);
        if n == 1 {
            assert(talk.transcript() + after.drop_last() =~= talk.history.push(talk.prompt));
        } else {
            assert((talk.transcript() + before.drop_last()).push(before.last())
                =~= talk.transcript() + before);
        }
    }
}

} // verus!
