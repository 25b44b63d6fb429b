//! Chat completions: settings, request bodies and answers.

use vstd::prelude::*;

use crate::http::{is_success, succeeds};
use crate::json::make::{list, object, string, with_member};
use crate::json::{copies, json_views, member_views, parsed_view, Json, JsonView};
use crate::text::lines::{is_white, trim, trim_end, trim_start, trim_text, trimmed_stays};
use crate::text::search::{contains, find, find_chars, find_is_first, occurs_at, starts_with};
use crate::text::{chars, opt_view, prefixed, slice, text};

verus! {

/// Where completions come from, and in whose name they are asked for.
#[derive(Debug)]
pub struct Settings {
    pub model: String,
    pub api_key: String,
    pub base_url: String,
}

/// `given`, or `otherwise` where nothing is given.
pub open spec fn or_else(given: Option<Seq<char>>, otherwise: Seq<char>) -> Seq<char> {
    match given {
        Some(s) => s,
        None => otherwise,
    }
}

fn either(given: Option<String>, otherwise: &str) -> (r: String)
    ensures
        r@ == or_else(opt_view(given), otherwise@),
{
    match given {
        Some(s) => s,
        None => text(otherwise),
    }
}

impl Settings {
    /// The settings from what the environment gives; what it leaves out has a default.
    pub fn new(
        base_url: Option<String>,
        api_key: Option<String>,
        model: Option<String>,
    ) -> (r: Settings)
        ensures
            r.base_url@ == or_else(opt_view(base_url), "https://api.openai.com/v1"@),
            r.api_key@ == or_else(opt_view(api_key), Seq::empty()),
            r.model@ == or_else(opt_view(model), "gpt-4o-mini"@),
    {
        let api_key = match api_key {
            Some(key) => key,
            None => String::new(),
        };
        Settings {
            base_url: either(base_url, "https://api.openai.com/v1"),
            api_key,
            model: either(model, "gpt-4o-mini"),
        }
    }

    /// The address that completions are asked for at.
    pub fn chat_url(&self) -> (r: String)
        ensures
            r@ == self.base_url@ + "/chat/completions"@,
    {
        let mut out = text(self.base_url.as_str());
        out.append("/chat/completions");
        out
    }
}

/// A message of the given role.
pub open spec fn message(role: Seq<char>, content: Seq<char>) -> JsonView {
    crate::json::make::obj2("role"@, JsonView::Text(role), "content"@, JsonView::Text(content))
}

/// The message that carries the result of a tool call.
pub open spec fn tool_message(call_id: Seq<char>, result: Seq<char>) -> JsonView {
    crate::json::make::obj3(
        "role"@,
        JsonView::Text("tool"@),
        "tool_call_id"@,
        JsonView::Text(call_id),
        "content"@,
        JsonView::Text(result),
    )
}

/// The body of a request for a completion. Tools are left out where there are none: services
/// reject an empty list.
pub open spec fn chat_body(
    model: Seq<char>,
    messages: Seq<JsonView>,
    tools: Seq<JsonView>,
) -> JsonView {
    let head = Seq::empty().push(("model"@, JsonView::Text(model))).push(
        ("messages"@, JsonView::List(messages)),
    );
    let offered = if tools.len() == 0 {
        head
    } else {
        head.push(("tools"@, JsonView::List(tools)))
    };
    JsonView::Object(offered.push(("temperature"@, JsonView::Decimal("0.1"@))))
}

/// The message of the first choice of a completion.
pub open spec fn chosen(response: JsonView) -> JsonView {
    response.at("choices"@).first().at("message"@)
}

/// The content of a message without tool-call markup: what stands before the first marker,
/// without the white space around it.
pub open spec fn without_markup(content: Seq<char>) -> Seq<char> {
    match find(content, "<｜"@) {
        Some(i) => trim(content.take(i)),
        None => trim(content),
    }
}

/// What trimming leaves stands in the text.
proof fn trimmed_is_part(s: Seq<char>)
    ensures
        exists|i: int, j: int|
            0 <= i <= j <= s.len() && trim(s) == #[trigger] s.subrange(i, j),
{
    let start = trim_start(s);
    start_is_skipped(s);
    end_is_dropped(start);
    let i = choose|i: int| 0 <= i <= s.len() && start == #[trigger] s.skip(i);
    let n = choose|n: int| 0 <= n <= start.len() && trim_end(start) == #[trigger] start.take(n);
    assert(s.skip(i).take(n) =~= s.subrange(i, i + n));
}

proof fn start_is_skipped(s: Seq<char>)
    ensures
        exists|i: int| 0 <= i <= s.len() && trim_start(s) == #[trigger] s.skip(i),
    decreases s.len(),
{
    if s.len() > 0 && is_white(s[0]) {
        let rest = s.drop_first();
        start_is_skipped(rest);
        let i = choose|i: int| 0 <= i <= rest.len() && trim_start(rest) == #[trigger] rest.skip(i);
        assert(rest.skip(i) =~= s.skip(i + 1));
    } else {
        assert(s.skip(0) =~= s);
    }
}

proof fn end_is_dropped(s: Seq<char>)
    ensures
        exists|n: int| 0 <= n <= s.len() && trim_end(s) == #[trigger] s.take(n),
    decreases s.len(),
{
    if s.len() > 0 && is_white(s.last()) {
        let rest = s.drop_last();
        end_is_dropped(rest);
        let n = choose|n: int| 0 <= n <= rest.len() && trim_end(rest) == #[trigger] rest.take(n);
        assert(rest.take(n) =~= s.take(n));
    } else {
        assert(s.take(s.len() as int) =~= s);
    }
}

/// Markup is never part of an answer, and a content that begins with markup leaves none.
pub proof fn markup_is_cut(content: Seq<char>)
    ensures
        !contains(without_markup(content), "<｜"@),
        starts_with(content, "<｜"@) ==> without_markup(content).len() == 0,
{
    reveal_strlit("<｜");
    let mark = "<｜"@;
    find_is_first(content, mark, 0);
    let kept = match find(content, mark) {
        Some(i) => content.take(i),
        None => content,
    };
    let left = without_markup(content);
    trimmed_is_part(kept);
    let (i, j) = choose|i: int, j: int|
        0 <= i <= j <= kept.len() && left == #[trigger] kept.subrange(i, j);
    find_is_first(left, mark, 0);
    if contains(left, mark) {
        let k = find(left, mark)->0;
        assert(content.subrange(i + k, i + k + mark.len()) =~= left.subrange(k, k + mark.len()));
        assert(occurs_at(content, mark, i + k));
    }
    if starts_with(content, mark) {
        assert(kept =~= Seq::empty());
    }
}

/// Cutting markup from what it was cut from already changes nothing: what is left is trimmed, and
/// there is no markup in it.
pub proof fn cut_markup_stays_cut(content: Seq<char>)
    ensures
        without_markup(without_markup(content)) == without_markup(content),
        trim(without_markup(content)) == without_markup(content),
{
    markup_is_cut(content);
    trimmed_stays(content);
    match find(content, "<｜"@) {
        Some(i) => trimmed_stays(content.take(i)),
        None => {},
    }
}

/// A message of the given role.
pub fn say(role: &str, content: &str) -> (r: Json)
    ensures
        r@ == message(role@, content@),
{
    crate::json::make::object2("role", string(role), "content", string(content))
}

/// The message that carries the result of a tool call.
pub fn say_result(call_id: &str, result: &str) -> (r: Json)
    ensures
        r@ == tool_message(call_id@, result@),
{
    crate::json::make::object3(
        "role",
        string("tool"),
        "tool_call_id",
        string(call_id),
        "content",
        string(result),
    )
}

/// The body of a request for a completion.
pub fn request_body(model: &str, messages: &Vec<Json>, tools: &Vec<Json>) -> (r: Json)
    ensures
        r@ == chat_body(model@, json_views(messages@), json_views(tools@)),
{
    let empty: Vec<(String, Json)> = Vec::new();
    assert(member_views(empty@) =~= Seq::empty());
    let members = with_member(empty, "model", string(model));
    let members = with_member(members, "messages", list(copies(messages)));
    let members = if tools.len() == 0 {
        members
    } else {
        with_member(members, "tools", list(copies(tools)))
    };
    object(with_member(members, "temperature", Json::Decimal(text("0.1"))))
}

/// The message of the first choice of a completion.
pub fn first_message(response: &Json) -> (r: &Json)
    ensures
        r@ == chosen(response@),
{
    response.at("choices").first().at("message")
}

/// Cuts tool-call markup (`<｜…`) that a model has written as plain content: from the first marker
/// on it is machinery, not an answer, so that an answer of nothing else reads as empty.
pub fn strip_tool_markup(content: &str) -> (r: String)
    ensures
        r@ == without_markup(content@),
{
    let c = chars(content);
    let marker = chars("<｜");
    match find_chars(&c, &marker, 0) {
        Some(i) => {
            let head = slice(&c, 0, i);
            assert(head@ =~= content@.take(i as int));
            trim_text(head.as_str())
        },
        None => trim_text(content),
    }
}

/// What came back for a request for a completion.
#[derive(Debug)]
pub enum ChatReply {
    /// The request could not be sent or answered; the reason.
    Failed(String),
    /// The status was no success: the status line and the body.
    Refused { status: String, body: String },
    /// The body could not be read as JSON; the reason.
    Unreadable(String),
    Answer(Json),
}

/// The reply to a request for a completion that was answered with a status that is no success.
pub fn refuse(code: u16, status: String, body: String) -> (r: Option<ChatReply>)
    ensures
        r == if is_success(code) {
            None
        } else {
            Some(ChatReply::Refused { status, body })
        },
{
    if succeeds(code) {
        None
    } else {
        Some(ChatReply::Refused { status, body })
    }
}

/// The completion in a reply, or what went wrong.
pub open spec fn completion(reply: ChatReply) -> Result<JsonView, Seq<char>> {
    match reply {
        ChatReply::Failed(e) => Err("HTTP error: "@ + e@),
        ChatReply::Refused { status, body } => Err("LLM API "@ + status@ + ": "@ + body@),
        ChatReply::Unreadable(e) => Err("JSON parse: "@ + e@),
        ChatReply::Answer(j) => Ok(j@),
    }
}

/// The completion in a reply, or what went wrong.
pub fn read_completion(reply: ChatReply) -> (r: Result<Json, String>)
    ensures
        parsed_view(r) == completion(reply),
{
    match reply {
        ChatReply::Failed(e) => Err(prefixed("HTTP error: ", e.as_str())),
        ChatReply::Refused { status, body } => {
            let mut out = text("LLM API ");
            out.append(status.as_str());
            out.append(": ");
            out.append(body.as_str());
            Err(out)
        },
        ChatReply::Unreadable(e) => Err(prefixed("JSON parse: ", e.as_str())),
        ChatReply::Answer(j) => Ok(j),
    }
}

/// The tokens that a completion reports as used: those of the request and those of the answer.
pub open spec fn usage_of(response: JsonView) -> (Option<u64>, Option<u64>) {
    match response.get("usage"@) {
        Some(usage) => (
            usage.at("prompt_tokens"@).natural(),
            usage.at("completion_tokens"@).natural(),
        ),
        None => (None, None),
    }
}

/// The tokens that a completion reports as used.
pub fn usage(response: &Json) -> (r: (Option<u64>, Option<u64>))
    ensures
        r == usage_of(response@),
{
    match response.get("usage") {
        Some(usage) => (
            usage.at("prompt_tokens").as_natural(),
            usage.at("completion_tokens").as_natural(),
        ),
        None => (None, None),
    }
}

} // verus!
