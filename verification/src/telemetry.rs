//! What is recorded of a conversation on trace spans, and which trace a request belongs to.

use std::collections::HashMap;

use opentelemetry::propagation::TextMapPropagator;
use opentelemetry::trace::TraceContextExt;
use vstd::arithmetic::power::{lemma_pow0, pow};
use vstd::prelude::*;

use crate::json::make::{
    list, no_items, no_members_yet, obj2, object, object2, string, with_item, with_member,
};
use crate::json::{json_views, Json, JsonView};
use crate::text::case::{ascii_upper, ascii_uppercase};
use crate::text::laws::trim_takes_white_ends;
use crate::text::lines::{trim, trim_text};
use crate::text::search::split;
use crate::text::{chars, opt_view, same};

verus! {

// ─── Content capture ────────────────────────────────────────────────────────

/// Whether a setting is an explicit opt-out.
pub open spec fn opts_out(setting: Seq<char>) -> bool {
    let s = ascii_uppercase(setting);
    s == "NO_CONTENT"@ || s == "FALSE"@ || s == "0"@ || s == ""@
}

/// Whether message content may be recorded on spans, from the setting in the environment: an enum
/// such as `NO_CONTENT` or `SPAN_ONLY`, or a truth value. Anything except an explicit opt-out
/// means that it may.
pub fn capture_content(setting: &Option<String>) -> (r: bool)
    ensures
        r == match opt_view(*setting) {
            Some(s) => !opts_out(s),
            None => true,
        },
{
    match setting {
        Some(s) => {
            let upper = ascii_upper(s.as_str());
            let u = upper.as_str();
            !(same(u, "NO_CONTENT") || same(u, "FALSE") || same(u, "0") || same(u, ""))
        },
        None => true,
    }
}

// ─── Messages ───────────────────────────────────────────────────────────────

/// A text as a part of a message.
pub open spec fn text_part(content: Seq<char>) -> JsonView {
    obj2("type"@, JsonView::Text("text"@), "content"@, JsonView::Text(content))
}

/// The result of a tool call as a part of a message.
pub open spec fn response_part(id: Seq<char>, response: Seq<char>) -> JsonView {
    JsonView::Object(
        Seq::empty().push(("type"@, JsonView::Text("tool_call_response"@))).push(
            ("id"@, JsonView::Text(id)),
        ).push(("response"@, JsonView::Text(response))),
    )
}

/// A tool call as a part of a message.
pub open spec fn call_part(call: JsonView) -> JsonView {
    JsonView::Object(
        Seq::empty().push(("type"@, JsonView::Text("tool_call"@))).push(
            ("id"@, call.at("id"@)),
        ).push(("name"@, call.at("function"@).at("name"@))).push(
            ("arguments"@, call.at("function"@).at("arguments"@)),
        ),
    )
}

/// Tool calls as parts of a message.
pub open spec fn call_parts(calls: Seq<JsonView>) -> Seq<JsonView> {
    calls.map_values(|call: JsonView| call_part(call))
}

/// The part that carries the content of a message, where there is any.
pub open spec fn content_parts(m: JsonView) -> Seq<JsonView> {
    let role = m.at("role"@).text_or("user"@);
    match m.at("content"@).text() {
        Some(t) => if t.len() == 0 {
            Seq::empty()
        } else if role == "tool"@ {
            Seq::empty().push(response_part(m.at("tool_call_id"@).text_or(""@), t))
        } else {
            Seq::empty().push(text_part(t))
        },
        None => Seq::empty(),
    }
}

/// A chat message in the form in which input is recorded.
pub open spec fn input_message(m: JsonView) -> JsonView {
    obj2(
        "role"@,
        JsonView::Text(m.at("role"@).text_or("user"@)),
        "parts"@,
        JsonView::List(content_parts(m) + call_parts(m.at("tool_calls"@).items_or_none())),
    )
}

/// Chat messages in the form in which input is recorded.
pub open spec fn input_messages(messages: Seq<JsonView>) -> JsonView {
    JsonView::List(messages.map_values(|m: JsonView| input_message(m)))
}

/// One text message in the form in which it is recorded.
pub open spec fn text_message(role: Seq<char>, content: Seq<char>) -> JsonView {
    JsonView::List(
        Seq::empty().push(
            obj2(
                "role"@,
                JsonView::Text(role),
                "parts"@,
                JsonView::List(Seq::empty().push(text_part(content))),
            ),
        ),
    )
}

/// The answer of a model in the form in which it is recorded.
pub open spec fn output_message(
    content: Seq<char>,
    calls: Seq<JsonView>,
    finish_reason: Seq<char>,
) -> JsonView {
    let head = if content.len() == 0 {
        Seq::empty()
    } else {
        Seq::empty().push(text_part(content))
    };
    JsonView::List(
        Seq::empty().push(
            JsonView::Object(
                Seq::empty().push(("role"@, JsonView::Text("assistant"@))).push(
                    ("parts"@, JsonView::List(head + call_parts(calls))),
                ).push(("finish_reason"@, JsonView::Text(finish_reason))),
            ),
        ),
    )
}

/// How the answer of a model has ended: with tool calls, or by itself.
pub open spec fn finish_of(calls: Seq<JsonView>) -> Seq<char> {
    if calls.len() == 0 {
        "stop"@
    } else {
        "tool_call"@
    }
}

/// A text as a part of a message.
fn make_text_part(content: &str) -> (r: Json)
    ensures
        r@ == text_part(content@),
{
    object2("type", string("text"), "content", string(content))
}

/// A tool call as a part of a message.
fn make_call_part(call: &Json) -> (r: Json)
    ensures
        r@ == call_part(call@),
{
    let members = with_member(no_members_yet(), "type", string("tool_call"));
    let members = with_member(members, "id", call.at("id").copy());
    let members = with_member(members, "name", call.at("function").at("name").copy());
    object(with_member(members, "arguments", call.at("function").at("arguments").copy()))
}

/// The parts, and after them the tool calls.
fn with_calls(parts: Vec<Json>, calls: &Vec<Json>) -> (r: Vec<Json>)
    ensures
        json_views(r@) == json_views(parts@) + call_parts(json_views(calls@)),
{
    let ghost head = json_views(parts@);
    let ghost all = call_parts(json_views(calls@));
    let mut out = parts;
    let mut i: usize = 0;
    assert(head + all.take(0) =~= head);
    while i < calls.len()
        invariant
            i <= calls@.len(),
            all == call_parts(json_views(calls@)),
            json_views(out@) == head + all.take(i as int),
        decreases calls@.len() - i,
    {
        out = with_item(out, make_call_part(&calls[i]));
        assert(all[i as int] == call_part(calls@[i as int]@));
        i += 1;
        assert(json_views(out@) =~= head + all.take(i as int));
    }
    assert(all.take(i as int) =~= all);
    out
}

/// A chat message in the form in which input is recorded.
fn make_input_message(m: &Json) -> (r: Json)
    ensures
        r@ == input_message(m@),
{
    let role = m.at("role").text_or("user");
    let parts = match m.at("content").as_text() {
        Some(t) => if t.is_empty() {
            no_items()
        } else if same(role, "tool") {
            let members = with_member(no_members_yet(), "type", string("tool_call_response"));
            let members = with_member(members, "id", string(m.at("tool_call_id").text_or("")));
            with_item(no_items(), object(with_member(members, "response", string(t))))
        } else {
            with_item(no_items(), make_text_part(t))
        },
        None => no_items(),
    };
    let parts = match m.at("tool_calls").as_items() {
        Some(calls) => with_calls(parts, calls),
        None => {
            assert(json_views(parts@) + call_parts(Seq::empty()) =~= json_views(parts@));
            parts
        },
    };
    object2("role", string(role), "parts", list(parts))
}

/// Converts chat messages into the form in which the input of a model is recorded: a list of
/// roles with their parts, each a text, a tool call or the response to one.
pub fn genai_input_messages(messages: &Vec<Json>) -> (r: Json)
    ensures
        r@ == input_messages(json_views(messages@)),
{
    let ghost all = json_views(messages@).map_values(|m: JsonView| input_message(m));
    let mut out: Vec<Json> = no_items();
    let mut i: usize = 0;
    while i < messages.len()
        invariant
            i <= messages@.len(),
            all == json_views(messages@).map_values(|m: JsonView| input_message(m)),
            json_views(out@) == all.take(i as int),
        decreases messages@.len() - i,
    {
        out = with_item(out, make_input_message(&messages[i]));
        assert(all[i as int] == input_message(messages@[i as int]@));
        i += 1;
        assert(json_views(out@) =~= all.take(i as int));
    }
    assert(all.take(i as int) =~= all);
    list(out)
}

/// Makes the record of a single text message.
pub fn genai_text_message(role: &str, content: &str) -> (r: Json)
    ensures
        r@ == text_message(role@, content@),
{
    let parts = with_item(no_items(), make_text_part(content));
    list(with_item(no_items(), object2("role", string(role), "parts", list(parts))))
}

/// The record of a text, where content may be recorded and there is any.
pub fn text_record(capture: bool, role: &str, content: &str) -> (r: Option<Json>)
    ensures
        r is Some <==> capture && content@.len() > 0,
        r matches Some(said) ==> said@ == text_message(role@, content@),
{
    if capture && !content.is_empty() {
        Some(genai_text_message(role, content))
    } else {
        None
    }
}

/// Makes the record of a model's answer: its text and its tool calls, with the reason why it has
/// ended.
pub fn genai_output_message(content: &str, tool_calls: &Vec<Json>, finish_reason: &str) -> (r:
    Json)
    ensures
        r@ == output_message(content@, json_views(tool_calls@), finish_reason@),
{
    let parts = if content.is_empty() {
        no_items()
    } else {
        with_item(no_items(), make_text_part(content))
    };
    let parts = with_calls(parts, tool_calls);
    let members = with_member(no_members_yet(), "role", string("assistant"));
    let members = with_member(members, "parts", list(parts));
    let members = with_member(members, "finish_reason", string(finish_reason));
    list(with_item(no_items(), object(members)))
}

/// The record of the answer in a completion.
pub open spec fn completion_record(response: JsonView) -> JsonView {
    let m = crate::agent::chat::chosen(response);
    let calls = m.at("tool_calls"@).items_or_none();
    output_message(m.at("content"@).text_or(""@), calls, finish_of(calls))
}

/// Makes the record of the answer in a completion.
pub fn record_completion(response: &Json) -> (r: Json)
    ensures
        r@ == completion_record(response@),
{
    let m = crate::agent::chat::first_message(response);
    let calls = match m.at("tool_calls").as_items() {
        Some(calls) => crate::json::copies(calls),
        None => no_items(),
    };
    assert(json_views(calls@).len() == calls@.len());
    let finish_reason = if calls.len() == 0 {
        "stop"
    } else {
        "tool_call"
    };
    genai_output_message(m.at("content").text_or(""), &calls, finish_reason)
}

// ─── Trace context ──────────────────────────────────────────────────────────

/// A span of another process: whoever is under it joins its trace.
#[derive(Debug, Clone, Copy, PartialEq, Eq, Structural)]
pub struct RemoteSpan {
    pub trace_id: u128,
    pub span_id: u64,
    pub sampled: bool,
}

/// What `TraceContextPropagator::extract_with_context` of opentelemetry_sdk takes from a
/// `traceparent` header: trace id, span id and whether the trace is sampled.
pub uninterp spec fn traceparent_parts(header: Seq<char>) -> (u128, u64, bool);

/// The value of a hexadecimal digit in lower case.
pub open spec fn hex_digit(c: char) -> Option<nat> {
    if '0' <= c && c <= '9' {
        Some((c as nat - '0' as nat) as nat)
    } else if 'a' <= c && c <= 'f' {
        Some((c as nat - 'a' as nat + 10) as nat)
    } else {
        None
    }
}

/// The number that hexadecimal digits in lower case write.
pub open spec fn hex_value(s: Seq<char>) -> Option<nat>
    decreases s.len(),
{
    if s.len() == 0 {
        Some(0)
    } else {
        match (hex_value(s.drop_last()), hex_digit(s.last())) {
            (Some(n), Some(d)) => Some(n * 16 + d),
            _ => None,
        }
    }
}

/// What a header of version zero says: two digits, thirty-two of the trace id, sixteen of the span
/// id and two of flags, with hyphens between them. None for any other text, and where an id is
/// zero or a flag is set that the version does not know.
pub open spec fn parent_written(header: Seq<char>) -> Option<(u128, u64, bool)> {
    if header.len() == 55 && header.take(3) == seq!['0', '0', '-'] && header[35] == '-'
        && header[52] == '-' {
        match (
            hex_value(header.subrange(3, 35)),
            hex_value(header.subrange(36, 52)),
            hex_value(header.skip(53)),
        ) {
            (Some(trace), Some(span), Some(flags)) => {
                let (trace_id, span_id) = (trace as u128, span as u64);
                if trace_id != 0 && span_id != 0 && flags <= 2 {
                    Some((trace_id, span_id, flags == 1))
                } else {
                    None
                }
            },
            _ => None,
        }
    } else {
        None
    }
}

/// Calls `TraceContextPropagator::extract_with_context` of opentelemetry_sdk on an empty context
/// and a carrier that holds the header and nothing else, and hands out the ids and the sampling
/// flag of the span in what it returns. They depend on the header alone. A header of version zero
/// gives the ids and the flag that it writes; where no span is found, both ids are zero and the
/// flag is not set. That is so of a header with fewer than four parts between hyphens. Which other
/// headers are taken is not said here.
#[verifier::external_body]
fn extract(header: &str) -> (r: (u128, u64, bool))
    ensures
        r == traceparent_parts(header@),
        parent_written(header@) matches Some(parts) ==> r == parts,
        split(trim(header@), "-"@).len() < 4 ==> r.0 == 0,
        r.0 == 0 <==> r.1 == 0,
        r.0 == 0 ==> !r.2,
{
    let carrier: HashMap<String, String> = HashMap::from([
        ("traceparent".to_string(), header.to_string()),
    ]);
    let cx = opentelemetry_sdk::propagation::TraceContextPropagator::new().extract_with_context(
        &opentelemetry::Context::new(),
        &carrier,
    );
    let span = cx.span();
    let found = span.span_context();
    (
        u128::from_be_bytes(found.trace_id().to_bytes()),
        u64::from_be_bytes(found.span_id().to_bytes()),
        found.is_sampled(),
    )
}

/// The span with these ids: an id of zero is none.
pub open spec fn span_of(parts: (u128, u64, bool)) -> Option<RemoteSpan> {
    if parts.0 != 0 && parts.1 != 0 {
        Some(RemoteSpan { trace_id: parts.0, span_id: parts.1, sampled: parts.2 })
    } else {
        None
    }
}

/// The span with these ids: an id of zero is none.
pub fn remote_span(trace_id: u128, span_id: u64, sampled: bool) -> (r: Option<RemoteSpan>)
    ensures
        r == span_of((trace_id, span_id, sampled)),
{
    if trace_id != 0 && span_id != 0 {
        Some(RemoteSpan { trace_id, span_id, sampled })
    } else {
        None
    }
}

/// Whether a text holds hexadecimal digits in lower case only.
pub open spec fn all_hex(s: Seq<char>) -> bool {
    forall|i: int| 0 <= i < s.len() ==> hex_digit(#[trigger] s[i]) is Some
}

/// Whether a text holds zeros only.
pub open spec fn all_zero(s: Seq<char>) -> bool {
    forall|i: int| 0 <= i < s.len() ==> #[trigger] s[i] == '0'
}

/// Whether a header, without the white space around it, is one: two digits of the version, which
/// is not `ff`, thirty-two of the trace id, sixteen of the span id and two of flags, with hyphens
/// between them; no id is zero. Version zero has no more than that, a later one may go on behind a
/// hyphen.
pub open spec fn well_formed(header: Seq<char>) -> bool {
    let h = trim(header);
    &&& h.len() >= 55
    &&& h[2] == '-' && h[35] == '-' && h[52] == '-'
    &&& all_hex(h.subrange(0, 2)) && !(h[0] == 'f' && h[1] == 'f')
    &&& all_hex(h.subrange(3, 35)) && !all_zero(h.subrange(3, 35))
    &&& all_hex(h.subrange(36, 52)) && !all_zero(h.subrange(36, 52))
    &&& all_hex(h.subrange(53, 55))
    &&& h.len() == 55 || h[55] == '-' && !(h[0] == '0' && h[1] == '0')
}

/// Whether the characters from `from` to `to` are hexadecimal digits in lower case.
fn is_hex(c: &Vec<char>, from: usize, to: usize) -> (r: bool)
    requires
        from <= to <= c@.len(),
    ensures
        r == all_hex(c@.subrange(from as int, to as int)),
{
    let ghost part = c@.subrange(from as int, to as int);
    let mut i: usize = from;
    while i < to
        invariant
            from <= i <= to <= c@.len(),
            part == c@.subrange(from as int, to as int),
            forall|k: int| 0 <= k < i - from ==> hex_digit(#[trigger] part[k]) is Some,
        decreases to - i,
    {
        let x: char = c[i];
        assert(part[i - from] == x);
        if !('0' <= x && x <= '9' || 'a' <= x && x <= 'f') {
            return false;
        }
        i += 1;
    }
    true
}

/// Whether the characters from `from` to `to` are zeros.
fn is_zero(c: &Vec<char>, from: usize, to: usize) -> (r: bool)
    requires
        from <= to <= c@.len(),
    ensures
        r == all_zero(c@.subrange(from as int, to as int)),
{
    let ghost part = c@.subrange(from as int, to as int);
    let mut i: usize = from;
    while i < to
        invariant
            from <= i <= to <= c@.len(),
            part == c@.subrange(from as int, to as int),
            forall|k: int| 0 <= k < i - from ==> #[trigger] part[k] == '0',
        decreases to - i,
    {
        assert(part[i - from] == c@[i as int]);
        if c[i] != '0' {
            return false;
        }
        i += 1;
    }
    true
}

/// Whether a header is well formed.
pub fn is_well_formed(header: &str) -> (r: bool)
    ensures
        r == well_formed(header@),
{
    let h = trim_text(header);
    let c = chars(h.as_str());
    if c.len() < 55 || c[2] != '-' || c[35] != '-' || c[52] != '-' {
        return false;
    }
    if !is_hex(&c, 0, 2) || !is_hex(&c, 3, 35) || !is_hex(&c, 36, 52) || !is_hex(&c, 53, 55) {
        return false;
    }
    if c[0] == 'f' && c[1] == 'f' || is_zero(&c, 3, 35) || is_zero(&c, 36, 52) {
        return false;
    }
    c.len() == 55 || c[55] == '-' && !(c[0] == '0' && c[1] == '0')
}

proof fn value_is_hex(s: Seq<char>)
    ensures
        hex_value(s) is Some ==> all_hex(s),
        hex_value(s) matches Some(n) ==> (all_zero(s) ==> n == 0),
    decreases s.len(),
{
    if s.len() > 0 {
        let head = s.drop_last();
        value_is_hex(head);
        if hex_value(s) is Some {
            assert forall|i: int| 0 <= i < s.len() implies hex_digit(#[trigger] s[i]) is Some by {
                if i < head.len() {
                    assert(head[i] == s[i]);
                }
            }
            if all_zero(s) {
                assert forall|i: int| 0 <= i < head.len() implies #[trigger] head[i] == '0' by {
                    assert(s[i] == '0');
                }
                assert(s[s.len() - 1] == '0');
            }
        }
    }
}

/// A header of version zero that says something is well formed.
proof fn written_is_well_formed(header: Seq<char>)
    requires
        parent_written(header) is Some,
    ensures
        well_formed(header),
{
    let trace = header.subrange(3, 35);
    let span = header.subrange(36, 52);
    let flags = header.skip(53);
    value_is_hex(trace);
    value_is_hex(span);
    value_is_hex(flags);
    assert(header.take(3)[0] == '0' && header.take(3)[1] == '0' && header.take(3)[2] == '-');
    assert(flags[1] == header[54]);
    assert(hex_digit(flags[1]) is Some);
    assert(trim(header) == header);
    assert(header.subrange(53, 55) =~= flags);
}

/// Reads a W3C `traceparent` header (`00-<trace id>-<span id>-<flags>`), so that spans can join
/// the caller's trace. None for anything malformed: the caller then starts a trace of its own.
pub fn remote_context_from_traceparent(tp: &str) -> (r: Option<RemoteSpan>)
    ensures
        r == if well_formed(tp@) {
            span_of(traceparent_parts(tp@))
        } else {
            None
        },
        parent_written(tp@) matches Some((trace_id, span_id, sampled)) ==> r == Some(
            RemoteSpan { trace_id, span_id, sampled },
        ),
{
    proof {
        if parent_written(tp@) is Some {
            written_is_well_formed(tp@);
        }
    }
    if !is_well_formed(tp) {
        return None;
    }
    let (trace_id, span_id, sampled) = extract(tp);
    remote_span(trace_id, span_id, sampled)
}

// ─── Laws ───────────────────────────────────────────────────────────────────

/// Whether a record has `part` among its parts.
pub open spec fn has_part(record: JsonView, part: JsonView) -> bool {
    exists|parts: Seq<JsonView>|
        #[trigger] record.holds("parts"@, JsonView::List(parts)) && parts.contains(part)
}

/// Whether a part records a tool call: its identifier, its name and its arguments.
pub open spec fn part_records(part: JsonView, call: JsonView) -> bool {
    &&& part.holds("type"@, JsonView::Text("tool_call"@))
    &&& part.holds("id"@, call.at("id"@))
    &&& part.holds("name"@, call.at("function"@).at("name"@))
    &&& part.holds("arguments"@, call.at("function"@).at("arguments"@))
}

proof fn call_part_records(call: JsonView)
    ensures
        part_records(call_part(call), call),
{
    let members = call_part(call)->Object_0;
    assert(members[0] == ("type"@, JsonView::Text("tool_call"@)));
    assert(members[1] == ("id"@, call.at("id"@)));
    assert(members[2] == ("name"@, call.at("function"@).at("name"@)));
    assert(members[3] == ("arguments"@, call.at("function"@).at("arguments"@)));
}

/// What goes to a model is recorded message by message, in order, each under its role and with its
/// content: text as text, the result of a tool call under the identifier of the call.
pub proof fn input_is_recorded(messages: Seq<JsonView>, i: int)
    requires
        0 <= i < messages.len(),
    ensures
        input_messages(messages) matches JsonView::List(records) && {
            let m = messages[i];
            let role = m.at("role"@).text_or("user"@);
            &&& records.len() == messages.len()
            &&& records[i].holds("role"@, JsonView::Text(role))
            &&& m.at("content"@) matches JsonView::Text(t) ==> (t.len() > 0 ==> exists|part: JsonView|
                {
                    &&& #[trigger] has_part(records[i], part)
                    &&& role == "tool"@ ==> part.holds("response"@, JsonView::Text(t)) && part.holds(
                        "id"@,
                        JsonView::Text(m.at("tool_call_id"@).text_or(""@)),
                    )
                    &&& role != "tool"@ ==> part.holds("content"@, JsonView::Text(t)) && part.holds(
                        "type"@,
                        JsonView::Text("text"@),
                    )
                })
        },
{
    let m = messages[i];
    let record = input_message(m);
    let records = messages.map_values(|m: JsonView| input_message(m));
    assert(records[i] == record);
    let calls = call_parts(m.at("tool_calls"@).items_or_none());
    let parts = content_parts(m) + calls;
    let members = record->Object_0;
    assert(members[0] == ("role"@, JsonView::Text(m.at("role"@).text_or("user"@))));
    assert(members[1] == ("parts"@, JsonView::List(parts)));
    assert(record.holds("parts"@, JsonView::List(parts)));
    match m.at("content"@) {
        JsonView::Text(t) => {
            if t.len() > 0 {
                let part = parts[0];
                assert(parts.contains(part));
                assert(has_part(record, part));
                let inside = part->Object_0;
                if m.at("role"@).text_or("user"@) == "tool"@ {
                    assert(inside[1] == ("id"@, JsonView::Text(m.at("tool_call_id"@).text_or(""@))));
                    assert(inside[2] == ("response"@, JsonView::Text(t)));
                } else {
                    assert(inside[0] == ("type"@, JsonView::Text("text"@)));
                    assert(inside[1] == ("content"@, JsonView::Text(t)));
                }
            }
        },
        _ => {},
    }
}

/// The tool calls in what goes to a model are recorded, each by its identifier, name and arguments.
pub proof fn input_calls_are_recorded(messages: Seq<JsonView>, i: int, calls: Seq<JsonView>, k: int)
    requires
        0 <= i < messages.len(),
        messages[i].at("tool_calls"@) == JsonView::List(calls),
        0 <= k < calls.len(),
    ensures
        input_messages(messages) matches JsonView::List(records) && {
            &&& records.len() == messages.len()
            &&& exists|part: JsonView|
                #[trigger] has_part(records[i], part) && part_records(part, calls[k])
        },
{
    let m = messages[i];
    let record = input_message(m);
    let records = messages.map_values(|m: JsonView| input_message(m));
    assert(records[i] == record);
    let parts = content_parts(m) + call_parts(calls);
    assert(record->Object_0[1] == ("parts"@, JsonView::List(parts)));
    assert(record.holds("parts"@, JsonView::List(parts)));
    let part = parts[content_parts(m).len() + k];
    call_part_records(calls[k]);
    assert(part == call_part(calls[k]));
    assert(parts.contains(part));
    assert(has_part(record, part));
    assert(has_part(records[i], part) && part_records(part, calls[k]));
    assert(input_messages(messages) == JsonView::List(records));
}

/// What a model answers is recorded as one message: its text, every tool call, and why it ended.
pub proof fn output_is_recorded(
    content: Seq<char>,
    calls: Seq<JsonView>,
    finish_reason: Seq<char>,
    k: int,
)
    ensures
        output_message(content, calls, finish_reason) matches JsonView::List(records) && {
            &&& records.len() == 1
            &&& records[0].holds("role"@, JsonView::Text("assistant"@))
            &&& records[0].holds("finish_reason"@, JsonView::Text(finish_reason))
            &&& content.len() > 0 ==> exists|part: JsonView|
                #[trigger] has_part(records[0], part) && part.holds(
                    "content"@,
                    JsonView::Text(content),
                )
            &&& 0 <= k < calls.len() ==> exists|part: JsonView|
                #[trigger] has_part(records[0], part) && part_records(part, calls[k])
        },
{
    let record = output_message(content, calls, finish_reason)->List_0[0];
    let head = if content.len() == 0 {
        Seq::empty()
    } else {
        Seq::empty().push(text_part(content))
    };
    let parts = head + call_parts(calls);
    let members = record->Object_0;
    assert(members[0] == ("role"@, JsonView::Text("assistant"@)));
    assert(members[1] == ("parts"@, JsonView::List(parts)));
    assert(members[2] == ("finish_reason"@, JsonView::Text(finish_reason)));
    assert(record.holds("parts"@, JsonView::List(parts)));
    if content.len() > 0 {
        let part = parts[0];
        assert(parts.contains(part));
        assert(has_part(record, part));
        assert(part->Object_0[1] == ("content"@, JsonView::Text(content)));
    }
    if 0 <= k < calls.len() {
        let part = parts[head.len() + k];
        call_part_records(calls[k]);
        assert(part == call_part(calls[k]));
        assert(parts.contains(part));
        assert(has_part(record, part));
    }
}

/// The record of a completion is that of its first choice: of the text and the calls in its
/// message. It ended with tool calls where there are any.
pub proof fn completion_is_recorded(response: JsonView)
    ensures
        ({
            let m = response.at("choices"@).first().at("message"@);
            let calls = match m.at("tool_calls"@) {
                JsonView::List(calls) => calls,
                _ => Seq::empty(),
            };
            completion_record(response) == output_message(
                m.at("content"@).text_or(""@),
                calls,
                if calls.len() > 0 {
                    "tool_call"@
                } else {
                    "stop"@
                },
            )
        }),
{
}

/// Whether content is kept does not depend on the case of the setting.
pub proof fn case_of_the_setting_is_no_matter(setting: Seq<char>)
    ensures
        opts_out(ascii_uppercase(setting)) == opts_out(setting),
        opts_out("NO_CONTENT"@) && opts_out("FALSE"@) && opts_out("0"@) && opts_out(""@),
        setting.len() > 10 ==> !opts_out(setting),
{
    reveal_strlit("NO_CONTENT");
    reveal_strlit("FALSE");
    reveal_strlit("0");
    reveal_strlit("");
    assert(ascii_uppercase(ascii_uppercase(setting)) =~= ascii_uppercase(setting));
    assert(ascii_uppercase("NO_CONTENT"@) =~= "NO_CONTENT"@);
    assert(ascii_uppercase("FALSE"@) =~= "FALSE"@);
    assert(ascii_uppercase("0"@) =~= "0"@);
    assert(ascii_uppercase(""@) =~= ""@);
}

/// What is said is recorded with its role and its content.
pub proof fn text_is_recorded(role: Seq<char>, content: Seq<char>)
    ensures
        text_message(role, content) matches JsonView::List(records) && {
            &&& records.len() == 1
            &&& records[0].holds("role"@, JsonView::Text(role))
            &&& exists|part: JsonView|
                {
                    &&& #[trigger] has_part(records[0], part)
                    &&& part.holds("type"@, JsonView::Text("text"@))
                    &&& part.holds("content"@, JsonView::Text(content))
                }
        },
{
    let records = text_message(role, content)->List_0;
    let part = text_part(content);
    let parts = Seq::empty().push(part);
    assert(part->Object_0[0] == ("type"@, JsonView::Text("text"@)));
    assert(part->Object_0[1] == ("content"@, JsonView::Text(content)));
    assert(records[0]->Object_0[0] == ("role"@, JsonView::Text(role)));
    assert(records[0]->Object_0[1] == ("parts"@, JsonView::List(parts)));
    assert(parts[0] == part);
    assert(records[0].holds("parts"@, JsonView::List(parts)));
    assert(has_part(records[0], part));
}

/// A header as it is written for a trace, a span and its flags.
pub open spec fn header_written(trace: Seq<char>, span: Seq<char>, flags: Seq<char>) -> Seq<char> {
    seq!['0', '0', '-'] + trace + seq!['-'] + span + seq!['-'] + flags
}

/// The trace and the span of a header are read each from its own place, as the numbers that are
/// written there; it is sampled where its flags are one. Neither may be zero.
pub proof fn header_is_read(
    trace: Seq<char>,
    span: Seq<char>,
    flags: Seq<char>,
    t: nat,
    s: nat,
    f: nat,
)
    requires
        trace.len() == 32,
        span.len() == 16,
        flags.len() == 2,
        hex_value(trace) == Some(t),
        hex_value(span) == Some(s),
        hex_value(flags) == Some(f),
        t <= u128::MAX,
        s <= u64::MAX,
    ensures
        0 < t && 0 < s && f <= 2 ==> parent_written(header_written(trace, span, flags)) == Some(
            (t as u128, s as u64, f == 1),
        ),
        t == 0 || s == 0 ==> parent_written(header_written(trace, span, flags)) is None,
{
    let h = header_written(trace, span, flags);
    assert(h.len() == 55);
    assert(h.take(3) =~= seq!['0', '0', '-']);
    assert(h.subrange(3, 35) =~= trace);
    assert(h.subrange(36, 52) =~= span);
    assert(h.skip(53) =~= flags);
}

/// A span is what was read, unless its trace or the span itself is zero.
pub proof fn span_is_what_was_read(trace_id: u128, span_id: u64, sampled: bool)
    ensures
        trace_id != 0 && span_id != 0 ==> (span_of((trace_id, span_id, sampled)) matches Some(span)
            && span.trace_id == trace_id && span.span_id == span_id && span.sampled == sampled),
        trace_id == 0 || span_id == 0 ==> span_of((trace_id, span_id, sampled)) is None,
{
}

/// The lower-case hexadecimal digit with value `d`.
pub open spec fn hex_digit_of(d: nat) -> char {
    if d < 10 {
        ('0' as u32 + d) as char
    } else {
        ('a' as u32 + d - 10) as char
    }
}

/// The `k` lowest hexadecimal digits of a number.
pub open spec fn hex_written(n: nat, k: nat) -> Seq<char>
    decreases k,
{
    if k == 0 {
        Seq::empty()
    } else {
        hex_written(n / 16, (k - 1) as nat).push(hex_digit_of(n % 16))
    }
}

/// A number that is written in hexadecimal digits is read back from them.
pub proof fn hex_is_read_back(n: nat, k: nat)
    requires
        n < pow(16, k),
    ensures
        hex_value(hex_written(n, k)) == Some(n),
        hex_written(n, k).len() == k,
    decreases k,
{
    if k == 0 {
        lemma_pow0(16);
    } else {
        let rest = (k - 1) as nat;
        assert(pow(16, k) == 16 * pow(16, rest)) by {
            reveal(pow);
        }
        assert(n / 16 < pow(16, rest)) by (nonlinear_arith)
            requires
                n < 16 * pow(16, rest),
        ;
        hex_is_read_back(n / 16, rest);
        let s = hex_written(n, k);
        assert(s.drop_last() =~= hex_written(n / 16, rest));
        assert(s.last() == hex_digit_of(n % 16));
        assert(hex_digit(s.last()) == Some(n % 16));
    }
}

/// A header of hexadecimal parts of the right lengths is well formed, unless it is of the version
/// that is ruled out, or its trace or its span is zero.
pub proof fn header_parts_make_it_well_formed(
    version: Seq<char>,
    trace: Seq<char>,
    span: Seq<char>,
    flags: Seq<char>,
)
    requires
        version.len() == 2 && all_hex(version),
        trace.len() == 32 && all_hex(trace),
        span.len() == 16 && all_hex(span),
        flags.len() == 2 && all_hex(flags),
    ensures
        well_formed(version + seq!['-'] + trace + seq!['-'] + span + seq!['-'] + flags) <==> {
            &&& version != seq!['f', 'f']
            &&& !all_zero(trace)
            &&& !all_zero(span)
        },
{
    let h = version + seq!['-'] + trace + seq!['-'] + span + seq!['-'] + flags;
    assert(h.len() == 55);
    assert(hex_digit(version[0]) is Some);
    assert(hex_digit(flags[1]) is Some);
    assert(h[0] == version[0]);
    assert(h.last() == flags[1]);
    trim_takes_white_ends(Seq::empty(), h, Seq::empty());
    assert(Seq::<char>::empty() + h + Seq::<char>::empty() =~= h);
    assert(h.subrange(0, 2) =~= version);
    assert(h.subrange(3, 35) =~= trace);
    assert(h.subrange(36, 52) =~= span);
    assert(h.subrange(53, 55) =~= flags);
    assert(h[1] == version[1]);
    if version[0] == 'f' && version[1] == 'f' {
        assert(version =~= seq!['f', 'f']);
    }
}

/// A header whose marks do not stand in their places, or that is too short, is not well formed.
pub proof fn other_header_is_not_well_formed(header: Seq<char>)
    requires
        trim(header).len() < 55 || trim(header)[2] != '-' || trim(header)[35] != '-' || trim(
            header,
        )[52] != '-',
    ensures
        !well_formed(header),
{
}

} // verus!
