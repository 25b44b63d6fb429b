//! Streamed completions: events come as lines of text, cut anywhere, and carry an answer piece by
//! piece.

use vstd::prelude::*;

use crate::json::make::{no_items, obj2, object2, string, with_item};
use crate::json::serde::{json_of_text, parse};
use crate::json::{json_views, Json, JsonView};
use crate::telemetry::{finish_of, genai_output_message, output_message};
use crate::text::lines::{trim, trim_text};
use crate::text::search::{
    pieces_of_concat, split, split_steps, split_text, starts_with, starts_with_text,
};
use crate::text::{bytes_text, chars, lossy_text, same, slice, text, views};

verus! {

/// A tool call as it is put together from pieces: the first piece for an index carries the name,
/// the arguments come in fragments.
#[derive(Debug)]
pub struct ToolCallBuilder {
    pub id: String,
    pub name: String,
    pub arguments: String,
}

/// What a tool call holds so far.
#[verifier::ext_equal]
pub struct BuilderView {
    pub id: Seq<char>,
    pub name: Seq<char>,
    pub arguments: Seq<char>,
}

impl View for ToolCallBuilder {
    type V = BuilderView;

    open spec fn view(&self) -> BuilderView {
        BuilderView { id: self.id@, name: self.name@, arguments: self.arguments@ }
    }
}

/// The views of a sequence of tool calls.
pub open spec fn builder_views(calls: Seq<ToolCallBuilder>) -> Seq<BuilderView> {
    calls.map_values(|call: ToolCallBuilder| call@)
}

/// A tool call of which nothing is known yet.
pub open spec fn unknown_call() -> BuilderView {
    BuilderView { id: Seq::empty(), name: Seq::empty(), arguments: Seq::empty() }
}

/// Something that a streamed completion tells while it goes on.
#[derive(Debug)]
pub enum Item {
    /// A piece of the answer.
    Content(String),
    /// The tokens used: by the request and by the answer.
    Usage { input: u64, output: u64 },
}

/// Something that a streamed completion tells while it goes on.
#[verifier::ext_equal]
pub enum ItemView {
    Content(Seq<char>),
    Usage { input: u64, output: u64 },
}

impl View for Item {
    type V = ItemView;

    open spec fn view(&self) -> ItemView {
        match self {
            Item::Content(t) => ItemView::Content(t@),
            Item::Usage { input, output } => ItemView::Usage { input: *input, output: *output },
        }
    }
}

/// The views of a sequence of items.
pub open spec fn item_views(items: Seq<Item>) -> Seq<ItemView> {
    items.map_values(|item: Item| item@)
}

/// How far a streamed completion has been read.
#[derive(Debug)]
pub struct Decoder {
    /// The line that is not complete yet.
    pub buf: String,
    /// The tool calls so far, by their index.
    pub calls: Vec<ToolCallBuilder>,
    /// The answer so far.
    pub content: String,
}

/// What a decoder holds.
#[verifier::ext_equal]
pub struct DecoderView {
    pub buf: Seq<char>,
    pub calls: Seq<BuilderView>,
    pub content: Seq<char>,
}

impl View for Decoder {
    type V = DecoderView;

    open spec fn view(&self) -> DecoderView {
        DecoderView {
            buf: self.buf@,
            calls: builder_views(self.calls@),
            content: self.content@,
        }
    }
}

// ─── Tool calls ─────────────────────────────────────────────────────────────

/// The index of the tool call that a piece belongs to.
pub open spec fn call_index(piece: JsonView) -> nat {
    piece.at("index"@).natural_or(0) as nat
}

/// Whether a list can be as long as the index asks for.
pub open spec fn index_fits(piece: JsonView) -> bool {
    call_index(piece) < usize::MAX
}

/// The calls, with unknown ones added so that there is one at `index`.
pub open spec fn reaching(calls: Seq<BuilderView>, index: nat) -> Seq<BuilderView> {
    if calls.len() <= index {
        calls + Seq::new((index + 1 - calls.len()) as nat, |i: int| unknown_call())
    } else {
        calls
    }
}

/// `head`, followed by a text where there is one.
pub open spec fn followed(head: Seq<char>, tail: Option<Seq<char>>) -> Seq<char> {
    match tail {
        Some(t) => head + t,
        None => head,
    }
}

/// A call with one more piece: an identifier replaces the one before, name and arguments grow.
pub open spec fn grown(call: BuilderView, piece: JsonView) -> BuilderView {
    BuilderView {
        id: match piece.at("id"@).text() {
            Some(id) => id,
            None => call.id,
        },
        name: followed(call.name, piece.at("function"@).at("name"@).text()),
        arguments: followed(call.arguments, piece.at("function"@).at("arguments"@).text()),
    }
}

/// The calls with one more piece.
pub open spec fn merged(calls: Seq<BuilderView>, piece: JsonView) -> Seq<BuilderView> {
    let index = call_index(piece);
    let all = reaching(calls, index);
    all.update(index as int, grown(all[index as int], piece))
}

/// The calls with more pieces, in their order.
pub open spec fn all_merged(calls: Seq<BuilderView>, pieces: Seq<JsonView>) -> Seq<BuilderView>
    decreases pieces.len(),
{
    if pieces.len() == 0 {
        calls
    } else {
        merged(all_merged(calls, pieces.drop_last()), pieces.last())
    }
}

/// A tool call of which nothing is known yet.
fn no_call() -> (r: ToolCallBuilder)
    ensures
        r@ == unknown_call(),
{
    let r = ToolCallBuilder { id: String::new(), name: String::new(), arguments: String::new() };
    assert(r@ =~= unknown_call());
    r
}

/// `head`, followed by a text where there is one.
fn follow(head: &str, tail: Option<&str>) -> (r: String)
    ensures
        r@ == followed(head@, crate::text::opt_str(tail)),
{
    let mut out = text(head);
    match tail {
        Some(t) => out.append(t),
        None => {},
    }
    out
}

/// The calls with one more piece.
fn merge(calls: Vec<ToolCallBuilder>, piece: &Json) -> (r: Vec<ToolCallBuilder>)
    requires
        index_fits(piece@),
    ensures
        builder_views(r@) == merged(builder_views(calls@), piece@),
{
    let index: usize = piece.at("index").natural_or(0) as usize;
    let ghost before = builder_views(calls@);
    let ghost all = reaching(before, index as nat);
    let mut out = calls;
    assert(before.len() == out@.len());
    assert(all.take(before.len() as int) =~= before);
    while out.len() <= index
        invariant
            index < usize::MAX,
            before.len() <= out@.len(),
            out@.len() <= all.len(),
            all == reaching(before, index as nat),
            builder_views(out@) == all.take(out@.len() as int),
        decreases index + 1 - out.len(),
    {
        let ghost had = builder_views(out@);
        out.push(no_call());
        assert(builder_views(out@) =~= had.push(unknown_call()));
        assert(builder_views(out@) =~= all.take(out@.len() as int));
    }
    assert(all.take(out@.len() as int) =~= all);
    assert(builder_views(out@)[index as int] == out@[index as int]@);
    let id = match piece.at("id").as_text() {
        Some(id) => text(id),
        None => text(out[index].id.as_str()),
    };
    let name = follow(out[index].name.as_str(), piece.at("function").at("name").as_text());
    let arguments = follow(
        out[index].arguments.as_str(),
        piece.at("function").at("arguments").as_text(),
    );
    let call = ToolCallBuilder { id, name, arguments };
    let ghost new_call = call@;
    assert(new_call =~= grown(all[index as int], piece@));
    out.set(index, call);
    assert(builder_views(out@) =~= all.update(index as int, new_call));
    out
}

/// The calls with more pieces, in their order.
fn merge_all(calls: Vec<ToolCallBuilder>, pieces: &Vec<Json>) -> (r: Vec<ToolCallBuilder>)
    requires
        forall|i: int| 0 <= i < pieces@.len() ==> index_fits(#[trigger] json_views(pieces@)[i]),
    ensures
        builder_views(r@) == all_merged(builder_views(calls@), json_views(pieces@)),
{
    let ghost before = builder_views(calls@);
    let ghost all = json_views(pieces@);
    let mut out = calls;
    let mut i: usize = 0;
    assert(all.take(0) =~= Seq::empty());
    while i < pieces.len()
        invariant
            i <= pieces@.len(),
            all == json_views(pieces@),
            forall|j: int| 0 <= j < pieces@.len() ==> index_fits(#[trigger] all[j]),
            builder_views(out@) == all_merged(before, all.take(i as int)),
        decreases pieces@.len() - i,
    {
        assert(all.take(i + 1).drop_last() =~= all.take(i as int));
        assert(all[i as int] == pieces@[i as int]@);
        out = merge(out, &pieces[i]);
        i += 1;
    }
    assert(all.take(i as int) =~= all);
    out
}

// ─── Events ─────────────────────────────────────────────────────────────────

/// What an event tells of the tokens used.
pub open spec fn usage_items(event: JsonView) -> Seq<ItemView> {
    match event.get("usage"@) {
        Some(usage) => if usage is Null {
            Seq::empty()
        } else {
            Seq::empty().push(
                ItemView::Usage {
                    input: usage.at("prompt_tokens"@).natural_or(0),
                    output: usage.at("completion_tokens"@).natural_or(0),
                },
            )
        },
        None => Seq::empty(),
    }
}

/// What the first choice of an event adds, where it has any choice.
pub open spec fn delta_of(event: JsonView) -> Option<JsonView> {
    match event.at("choices"@).items() {
        Some(choices) => if choices.len() > 0 {
            Some(choices[0].at("delta"@))
        } else {
            None
        },
        None => None,
    }
}

/// The piece of the answer that an event carries; empty where it carries none.
pub open spec fn content_of(event: JsonView) -> Seq<char> {
    match delta_of(event) {
        Some(delta) => match delta.at("content"@).text() {
            Some(t) => t,
            None => Seq::empty(),
        },
        None => Seq::empty(),
    }
}

/// The pieces of tool calls that an event carries.
pub open spec fn call_pieces(event: JsonView) -> Seq<JsonView> {
    match delta_of(event) {
        Some(delta) => delta.at("tool_calls"@).items_or_none(),
        None => Seq::empty(),
    }
}

/// Whether the tool calls that an event carries pieces of can be held.
pub open spec fn event_fits(event: JsonView) -> bool {
    forall|i: int| 0 <= i < call_pieces(event).len() ==> index_fits(#[trigger] call_pieces(event)[i])
}

/// What an event tells: of the tokens used, and of the answer.
pub open spec fn event_items(event: JsonView) -> Seq<ItemView> {
    if content_of(event).len() == 0 {
        usage_items(event)
    } else {
        usage_items(event).push(ItemView::Content(content_of(event)))
    }
}

/// The decoder after an event.
pub open spec fn after_event(d: DecoderView, event: JsonView) -> DecoderView {
    DecoderView {
        buf: d.buf,
        calls: all_merged(d.calls, call_pieces(event)),
        content: d.content + content_of(event),
    }
}

/// Whether the tool calls that an event carries pieces of can be held.
pub fn fits(event: &Json) -> (r: bool)
    ensures
        r == event_fits(event@),
{
    match event.at("choices").as_items() {
        None => true,
        Some(choices) => {
            if choices.len() == 0 {
                return true;
            }
            assert(json_views(choices@)[0] == choices@[0]@);
            match choices[0].at("delta").at("tool_calls").as_items() {
                None => true,
                Some(pieces) => {
                    let ghost all = json_views(pieces@);
                    assert(call_pieces(event@) == all);
                    let mut i: usize = 0;
                    while i < pieces.len()
                        invariant
                            i <= pieces@.len(),
                            all == json_views(pieces@),
                            call_pieces(event@) == all,
                            forall|j: int| 0 <= j < i ==> index_fits(#[trigger] all[j]),
                        decreases pieces@.len() - i,
                    {
                        assert(all[i as int] == pieces@[i as int]@);
                        if pieces[i].at("index").natural_or(0) >= usize::MAX as u64 {
                            assert(!index_fits(call_pieces(event@)[i as int]));
                            return false;
                        }
                        i += 1;
                    }
                    true
                },
            }
        },
    }
}

/// One item more.
fn with_told(items: Vec<Item>, item: Item) -> (r: Vec<Item>)
    ensures
        item_views(r@) == item_views(items@).push(item@),
{
    let ghost before = item_views(items@);
    let ghost added = item@;
    let mut out = items;
    out.push(item);
    assert(item_views(out@) =~= before.push(added));
    out
}

/// Takes in an event.
pub fn take_event(d: Decoder, event: &Json) -> (r: (Decoder, Vec<Item>))
    requires
        event_fits(event@),
    ensures
        r.0@ == after_event(d@, event@),
        item_views(r.1@) == event_items(event@),
{
    let mut items: Vec<Item> = Vec::new();
    assert(item_views(items@) =~= Seq::empty());
    match event.get("usage") {
        Some(usage) => match usage {
            Json::Null => {},
            _ => {
                items = with_told(
                    items,
                    Item::Usage {
                        input: usage.at("prompt_tokens").natural_or(0),
                        output: usage.at("completion_tokens").natural_or(0),
                    },
                );
            },
        },
        None => {},
    }
    assert(item_views(items@) == usage_items(event@));
    let mut d = d;
    match event.at("choices").as_items() {
        Some(choices) => if choices.len() > 0 {
            assert(json_views(choices@)[0] == choices@[0]@);
            let delta = choices[0].at("delta");
            match delta.at("content").as_text() {
                Some(t) => if !t.is_empty() {
                    d.content.append(t);
                    items = with_told(items, Item::Content(text(t)));
                } else {
                    assert(d.content@ + t@ =~= d.content@);
                },
                None => {
                    assert(d.content@ + Seq::<char>::empty() =~= d.content@);
                },
            }
            match delta.at("tool_calls").as_items() {
                Some(pieces) => {
                    assert(call_pieces(event@) == json_views(pieces@));
                    let calls = merge_all(d.calls, pieces);
                    d = Decoder { buf: d.buf, calls, content: d.content };
                },
                None => {},
            }
        } else {
            assert(d.content@ + Seq::<char>::empty() =~= d.content@);
        },
        None => {
            assert(d.content@ + Seq::<char>::empty() =~= d.content@);
        },
    }
    (d, items)
}

// ─── Lines ──────────────────────────────────────────────────────────────────

/// `line` without carriage returns at its end.
pub open spec fn without_returns(line: Seq<char>) -> Seq<char>
    decreases line.len(),
{
    if line.len() > 0 && line.last() == '\r' {
        without_returns(line.drop_last())
    } else {
        line
    }
}

/// The data in a line; none where there is none, or where it only says that the stream is done.
pub open spec fn data_of(line: Seq<char>) -> Option<Seq<char>> {
    let l = without_returns(line);
    if starts_with(l, "data:"@) {
        let data = trim(l.skip("data:"@.len() as int));
        if data.len() == 0 || data == "[DONE]"@ {
            None
        } else {
            Some(data)
        }
    } else {
        None
    }
}

/// The event in a line; data that is no JSON is passed over.
pub open spec fn event_in(line: Seq<char>) -> Option<JsonView> {
    match data_of(line) {
        Some(data) => match json_of_text(data) {
            Ok(j) => Some(j),
            Err(_) => None,
        },
        None => None,
    }
}

/// The decoder after a line, and what the line tells; none where its tool calls cannot be held.
pub open spec fn after_line(d: DecoderView, line: Seq<char>) -> Option<
    (DecoderView, Seq<ItemView>),
> {
    match event_in(line) {
        Some(event) => if event_fits(event) {
            Some((after_event(d, event), event_items(event)))
        } else {
            None
        },
        None => Some((d, Seq::empty())),
    }
}

/// The decoder after some lines, and what they tell.
pub open spec fn after_lines(d: DecoderView, lines: Seq<Seq<char>>) -> Option<
    (DecoderView, Seq<ItemView>),
>
    decreases lines.len(),
{
    if lines.len() == 0 {
        Some((d, Seq::empty()))
    } else {
        match after_lines(d, lines.drop_last()) {
            Some((before, told)) => match after_line(before, lines.last()) {
                Some((after, items)) => Some((after, told + items)),
                None => None,
            },
            None => None,
        }
    }
}

/// The decoder after some text, and what that tells: the lines that are complete are read, the
/// rest is kept.
pub open spec fn after_text(d: DecoderView, t: Seq<char>) -> Option<(DecoderView, Seq<ItemView>)> {
    let pieces = split(d.buf + t, "\n"@);
    after_lines(DecoderView { buf: pieces.last(), ..d }, pieces.drop_last())
}

/// `line` without carriage returns at its end.
fn cut_returns(line: &str) -> (r: String)
    ensures
        r@ == without_returns(line@),
{
    let c = chars(line);
    let mut end: usize = c.len();
    assert(c@.take(end as int) =~= line@);
    while end > 0 && c[end - 1] == '\r'
        invariant
            end <= c@.len(),
            without_returns(line@) == without_returns(c@.take(end as int)),
        decreases end,
    {
        assert(c@.take(end as int).drop_last() =~= c@.take(end - 1));
        end -= 1;
    }
    assert(c@.subrange(0, end as int) =~= c@.take(end as int));
    slice(&c, 0, end)
}

/// The data in a line.
pub fn line_data(line: &str) -> (r: Option<String>)
    ensures
        crate::text::opt_view(r) == data_of(line@),
{
    let l = cut_returns(line);
    if starts_with_text(l.as_str(), "data:") {
        let c = chars(l.as_str());
        let label = chars("data:");
        let rest = slice(&c, label.len(), c.len());
        assert(rest@ =~= l@.skip(label@.len() as int));
        let data = trim_text(rest.as_str());
        if data.as_str().is_empty() || same(data.as_str(), "[DONE]") {
            None
        } else {
            Some(data)
        }
    } else {
        None
    }
}

/// Takes in a line. None where its tool calls cannot be held.
fn take_line(d: Decoder, line: &str) -> (r: Option<(Decoder, Vec<Item>)>)
    ensures
        match r {
            Some((after, items)) => after_line(d@, line@) == Some((after@, item_views(items@))),
            None => after_line(d@, line@) is None,
        },
{
    let no_item: Vec<Item> = Vec::new();
    assert(item_views(no_item@) =~= Seq::empty());
    match line_data(line) {
        Some(data) => match parse(data.as_str()) {
            Ok(event) => if fits(&event) {
                Some(take_event(d, &event))
            } else {
                None
            },
            Err(_) => Some((d, no_item)),
        },
        None => Some((d, no_item)),
    }
}

/// A line that cannot be taken in ends the reading.
proof fn stays_stuck(d: DecoderView, lines: Seq<Seq<char>>, i: int)
    requires
        0 <= i <= lines.len(),
        after_lines(d, lines.take(i)) is None,
    ensures
        after_lines(d, lines) is None,
    decreases lines.len() - i,
{
    if i < lines.len() {
        assert(lines.take(i + 1).drop_last() =~= lines.take(i));
        stays_stuck(d, lines, i + 1);
    } else {
        assert(lines.take(i) =~= lines);
    }
}

impl Decoder {
    /// A decoder that has read nothing.
    pub fn new() -> (r: Decoder)
        ensures
            r@ == (DecoderView {
                buf: Seq::empty(),
                calls: Seq::empty(),
                content: Seq::empty(),
            }),
    {
        let r = Decoder { buf: String::new(), calls: Vec::new(), content: String::new() };
        assert(builder_views(r.calls@) =~= Seq::empty());
        r
    }

    /// Takes in some text of the stream. None where a tool call has an index that no list can
    /// reach.
    pub fn feed(self, t: &str) -> (r: Option<(Decoder, Vec<Item>)>)
        ensures
            match r {
                Some((after, items)) => after_text(self@, t@) == Some(
                    (after@, item_views(items@)),
                ),
                None => after_text(self@, t@) is None,
            },
    {
        let mut all = self.buf;
        all.append(t);
        proof {
            reveal_strlit("\n");
        }
        let ghost joined = all@;
        let mut lines = split_text(all.as_str(), "\n");
        let ghost pieces = views(lines@);
        assert(pieces == split(joined, "\n"@));
        let rest = match lines.pop() {
            Some(last) => last,
            None => String::new(),
        };
        assert(views(lines@) =~= pieces.drop_last());
        assert(rest@ == pieces.last());
        let ghost complete = views(lines@);
        let mut d = Decoder { buf: rest, calls: self.calls, content: self.content };
        let ghost start = d@;
        let mut told: Vec<Item> = Vec::new();
        assert(item_views(told@) =~= Seq::empty());
        assert(complete.take(0) =~= Seq::empty());
        let mut i: usize = 0;
        while i < lines.len()
            invariant
                i <= lines@.len(),
                complete == views(lines@),
                after_text(self@, t@) == after_lines(start, complete),
                after_lines(start, complete.take(i as int)) == Some((d@, item_views(told@))),
            decreases lines@.len() - i,
        {
            assert(complete.take(i + 1).drop_last() =~= complete.take(i as int));
            let ghost had = item_views(told@);
            match take_line(d, lines[i].as_str()) {
                Some((after, items)) => {
                    let ghost more = item_views(items@);
                    let mut items = items;
                    told.append(&mut items);
                    assert(item_views(told@) =~= had + more);
                    d = after;
                },
                None => {
                    proof {
                        stays_stuck(start, complete, i + 1);
                    }
                    return None;
                },
            }
            i += 1;
        }
        assert(complete.take(i as int) =~= complete);
        Some((d, told))
    }

    /// Takes in some bytes of the stream; what is not UTF-8 in them is replaced.
    pub fn feed_bytes(self, bytes: &Vec<u8>) -> (r: Option<(Decoder, Vec<Item>)>)
        ensures
            match r {
                Some((after, items)) => after_text(self@, bytes_text(bytes@)) == Some(
                    (after@, item_views(items@)),
                ),
                None => after_text(self@, bytes_text(bytes@)) is None,
            },
    {
        let t = lossy_text(bytes);
        self.feed(t.as_str())
    }
}

// ─── Laws ───────────────────────────────────────────────────────────────────

/// Reading lines in two goes is reading them in one.
proof fn lines_in_two_goes(d: DecoderView, a: Seq<Seq<char>>, b: Seq<Seq<char>>)
    ensures
        after_lines(d, a + b) == match after_lines(d, a) {
            Some((between, told)) => match after_lines(between, b) {
                Some((after, items)) => Some((after, told + items)),
                None => None,
            },
            None => None,
        },
    decreases b.len(),
{
    if b.len() == 0 {
        assert(a + b =~= a);
        match after_lines(d, a) {
            Some((between, told)) => {
                assert(told + Seq::<ItemView>::empty() =~= told);
            },
            None => {},
        }
    } else {
        lines_in_two_goes(d, a, b.drop_last());
        assert((a + b).drop_last() =~= a + b.drop_last());
        match after_lines(d, a) {
            Some((between, told)) => match after_lines(between, b.drop_last()) {
                Some((before, items)) => match after_line(before, b.last()) {
                    Some((after, more)) => {
                        assert((told + items) + more =~= told + (items + more));
                    },
                    None => {},
                },
                None => {},
            },
            None => {},
        }
    }
}

/// What is kept of an incomplete line does not bear on complete ones.
proof fn kept_line_is_apart(d: DecoderView, buf: Seq<char>, lines: Seq<Seq<char>>)
    ensures
        after_lines(DecoderView { buf, ..d }, lines) == match after_lines(d, lines) {
            Some((after, items)) => Some((DecoderView { buf, ..after }, items)),
            None => None,
        },
        after_lines(d, lines) matches Some((after, _)) ==> after.buf == d.buf,
    decreases lines.len(),
{
    if lines.len() > 0 {
        kept_line_is_apart(d, buf, lines.drop_last());
    }
}

/// Where the text of a stream is cut does not matter: what is read from two pieces one after the
/// other is what is read from them joined.
pub proof fn chunking_does_not_matter(d: DecoderView, a: Seq<char>, b: Seq<char>)
    ensures
        after_text(d, a + b) == match after_text(d, a) {
            Some((between, told)) => match after_text(between, b) {
                Some((after, items)) => Some((after, told + items)),
                None => None,
            },
            None => None,
        },
{
    reveal_strlit("\n");
    assert("\n"@ =~= seq!['\n']);
    let first = d.buf + a;
    let whole = d.buf + (a + b);
    assert(whole =~= first + b);
    let p = split(first, "\n"@);
    split_steps(first, '\n', 0);
    assert(first.skip(0) =~= first);
    split_steps(whole, '\n', 0);
    assert(whole.skip(0) =~= whole);
    pieces_of_concat(first, b, '\n');
    let rest = p.last() + b;
    split_steps(rest, '\n', 0);
    assert(rest.skip(0) =~= rest);
    let q = split(rest, "\n"@);
    let all = split(whole, "\n"@);
    assert(all == p.drop_last() + q);
    assert(all.last() == q.last());
    assert(all.drop_last() =~= p.drop_last() + q.drop_last());
    let start = DecoderView { buf: p.last(), ..d };
    let end = DecoderView { buf: q.last(), ..d };
    lines_in_two_goes(end, p.drop_last(), q.drop_last());
    kept_line_is_apart(d, p.last(), p.drop_last());
    kept_line_is_apart(d, q.last(), p.drop_last());
    match after_lines(d, p.drop_last()) {
        Some((between, _)) => {
            assert((DecoderView { buf: q.last(), ..between }) == (DecoderView {
                buf: q.last(),
                ..DecoderView { buf: p.last(), ..between }
            }));
        },
        None => {},
    }
}

/// The pieces of the answer among the items, one after the other.
pub open spec fn told_content(items: Seq<ItemView>) -> Seq<char>
    decreases items.len(),
{
    if items.len() == 0 {
        Seq::empty()
    } else {
        told_content(items.drop_last()) + match items.last() {
            ItemView::Content(t) => t,
            _ => Seq::empty(),
        }
    }
}

proof fn told_content_concat(a: Seq<ItemView>, b: Seq<ItemView>)
    ensures
        told_content(a + b) == told_content(a) + told_content(b),
    decreases b.len(),
{
    if b.len() == 0 {
        assert(a + b =~= a);
        assert(told_content(a) + told_content(b) =~= told_content(a));
    } else {
        told_content_concat(a, b.drop_last());
        assert((a + b).drop_last() =~= a + b.drop_last());
        assert(told_content(a + b) =~= told_content(a) + told_content(b));
    }
}

/// The answer that is kept is made of the pieces that were told, and of nothing else.
pub proof fn content_is_what_was_told(d: DecoderView, lines: Seq<Seq<char>>)
    ensures
        after_lines(d, lines) matches Some((after, items)) ==> after.content == d.content
            + told_content(items),
    decreases lines.len(),
{
    if lines.len() == 0 {
        assert(d.content + Seq::<char>::empty() =~= d.content);
    } else {
        content_is_what_was_told(d, lines.drop_last());
        match after_lines(d, lines.drop_last()) {
            Some((before, told)) => match after_line(before, lines.last()) {
                Some((after, items)) => {
                    told_content_concat(told, items);
                    match event_in(lines.last()) {
                        Some(event) => {
                            let usage = usage_items(event);
                            assert(told_content(usage) =~= Seq::empty()) by {
                                reveal_with_fuel(told_content, 2);
                                if usage.len() > 0 {
                                    assert(usage.drop_last() =~= Seq::empty());
                                }
                            }
                            if content_of(event).len() > 0 {
                                assert(items.drop_last() =~= usage);
                            }
                            assert(told_content(items) =~= content_of(event));
                        },
                        None => {
                            assert(told_content(items) =~= Seq::empty());
                        },
                    }
                    assert((d.content + told_content(told)) + told_content(items) =~= d.content + (
                    told_content(told) + told_content(items)));
                },
                None => {},
            },
            None => {},
        }
    }
}

/// No piece of an answer that is told is empty.
pub proof fn contents_are_not_empty(d: DecoderView, lines: Seq<Seq<char>>)
    ensures
        after_lines(d, lines) matches Some((_, items)) ==> forall|i: int|
            0 <= i < items.len() ==> (#[trigger] items[i] matches ItemView::Content(t) ==> t.len()
                > 0),
    decreases lines.len(),
{
    if lines.len() > 0 {
        contents_are_not_empty(d, lines.drop_last());
    }
}

/// A line that does not begin with `data:`, one that carries nothing or only says that the stream
/// is done, and one whose data is no JSON add nothing.
pub proof fn other_lines_add_nothing(d: DecoderView, line: Seq<char>)
    requires
        ({
            let l = without_returns(line);
            let data = trim(l.skip("data:"@.len() as int));
            !starts_with(l, "data:"@) || data.len() == 0 || data == "[DONE]"@ || json_of_text(data)
                is Err
        }),
    ensures
        after_line(d, line) == Some((d, Seq::<ItemView>::empty())),
{
}

// ─── Records ────────────────────────────────────────────────────────────────

/// A tool call in the form in which it is recorded.
pub open spec fn recorded_call(call: BuilderView) -> JsonView {
    obj2(
        "id"@,
        JsonView::Text(call.id),
        "function"@,
        obj2("name"@, JsonView::Text(call.name), "arguments"@, JsonView::Text(call.arguments)),
    )
}

/// The tool calls that have a name, in the form in which they are recorded.
pub open spec fn recorded_calls(calls: Seq<BuilderView>) -> Seq<JsonView>
    decreases calls.len(),
{
    if calls.len() == 0 {
        Seq::empty()
    } else if calls.last().name.len() == 0 {
        recorded_calls(calls.drop_last())
    } else {
        recorded_calls(calls.drop_last()).push(recorded_call(calls.last()))
    }
}

/// Makes the record of the answer that a decoder has read.
pub fn record_stream(d: &Decoder) -> (r: Json)
    ensures
        r@ == output_message(
            d@.content,
            recorded_calls(d@.calls),
            finish_of(recorded_calls(d@.calls)),
        ),
{
    let ghost all = builder_views(d.calls@);
    let mut calls: Vec<Json> = no_items();
    let mut i: usize = 0;
    assert(all.take(0) =~= Seq::empty());
    while i < d.calls.len()
        invariant
            i <= d.calls@.len(),
            all == builder_views(d.calls@),
            json_views(calls@) == recorded_calls(all.take(i as int)),
        decreases d.calls@.len() - i,
    {
        assert(all.take(i + 1).drop_last() =~= all.take(i as int));
        assert(all[i as int] == d.calls@[i as int]@);
        if !d.calls[i].name.as_str().is_empty() {
            let call = object2(
                "id",
                string(d.calls[i].id.as_str()),
                "function",
                object2(
                    "name",
                    string(d.calls[i].name.as_str()),
                    "arguments",
                    string(d.calls[i].arguments.as_str()),
                ),
            );
            calls = with_item(calls, call);
        }
        i += 1;
    }
    assert(all.take(i as int) =~= all);
    assert(json_views(calls@).len() == calls@.len());
    let finish_reason = if calls.len() == 0 {
        "stop"
    } else {
        "tool_call"
    };
    genai_output_message(d.content.as_str(), &calls, finish_reason)
}

// ─── What is streamed ───────────────────────────────────────────────────────

/// The fragments that pieces of tool calls carry for the call with the given index, one after the
/// other: of its name or of its arguments.
pub open spec fn fragments(pieces: Seq<JsonView>, index: nat, what: Seq<char>) -> Seq<char>
    decreases pieces.len(),
{
    if pieces.len() == 0 {
        Seq::empty()
    } else {
        let head = fragments(pieces.drop_last(), index, what);
        let piece = pieces.last();
        match piece.at("function"@).at(what) {
            JsonView::Text(t) => if piece.at("index"@).natural_or(0) == index {
                head + t
            } else {
                head
            },
            _ => head,
        }
    }
}

/// The identifier that pieces of tool calls give last to the call with the given index.
pub open spec fn last_id(pieces: Seq<JsonView>, index: nat) -> Option<Seq<char>>
    decreases pieces.len(),
{
    if pieces.len() == 0 {
        None
    } else {
        let piece = pieces.last();
        match piece.at("id"@) {
            JsonView::Text(id) => if piece.at("index"@).natural_or(0) == index {
                Some(id)
            } else {
                last_id(pieces.drop_last(), index)
            },
            _ => last_id(pieces.drop_last(), index),
        }
    }
}

/// A tool call is put together from what is streamed under its index: its name and its arguments
/// are the fragments of these one after the other, its identifier the last one given. There is a
/// call for every index that a piece names.
pub proof fn calls_are_put_together(pieces: Seq<JsonView>, i: int)
    ensures
        ({
            let calls = all_merged(Seq::empty(), pieces);
            &&& 0 <= i < calls.len() ==> {
                &&& calls[i].arguments == fragments(pieces, i as nat, "arguments"@)
                &&& calls[i].name == fragments(pieces, i as nat, "name"@)
                &&& calls[i].id == match last_id(pieces, i as nat) {
                    Some(id) => id,
                    None => Seq::empty(),
                }
            }
            &&& forall|k: int|
                0 <= k < pieces.len() ==> (#[trigger] pieces[k]).at("index"@).natural_or(0)
                    < calls.len()
        }),
    decreases pieces.len(),
{
    if pieces.len() > 0 {
        let head = pieces.drop_last();
        let piece = pieces.last();
        let before = all_merged(Seq::empty(), head);
        let after = all_merged(Seq::empty(), pieces);
        let index = call_index(piece) as int;
        calls_are_put_together(head, i);
        if before.len() <= i {
            nothing_streamed(head, i);
        }
        assert(pieces[pieces.len() - 1] == piece);
        assert forall|k: int| 0 <= k < pieces.len() implies (#[trigger] pieces[k]).at(
            "index"@,
        ).natural_or(0) < after.len() by {
            if k < head.len() {
                assert(pieces[k] == head[k]);
            }
        }
    }
}

/// Where the list of calls does not reach an index, nothing was streamed under it.
proof fn nothing_streamed(pieces: Seq<JsonView>, i: int)
    requires
        all_merged(Seq::empty(), pieces).len() <= i,
    ensures
        fragments(pieces, i as nat, "arguments"@) == Seq::<char>::empty(),
        fragments(pieces, i as nat, "name"@) == Seq::<char>::empty(),
        last_id(pieces, i as nat) is None,
    decreases pieces.len(),
{
    if pieces.len() > 0 {
        nothing_streamed(pieces.drop_last(), i);
    }
}

/// The pieces of tool calls in the events of some lines, in their order.
pub open spec fn streamed_pieces(lines: Seq<Seq<char>>) -> Seq<JsonView>
    decreases lines.len(),
{
    if lines.len() == 0 {
        Seq::empty()
    } else {
        streamed_pieces(lines.drop_last()) + match event_in(lines.last()) {
            Some(event) => event.at("choices"@).first().at("delta"@).at(
                "tool_calls"@,
            ).items_or_none(),
            None => Seq::empty(),
        }
    }
}

/// The pieces of an answer in the events of some lines, one after the other.
pub open spec fn streamed_content(lines: Seq<Seq<char>>) -> Seq<char>
    decreases lines.len(),
{
    if lines.len() == 0 {
        Seq::empty()
    } else {
        streamed_content(lines.drop_last()) + match event_in(lines.last()) {
            Some(event) => match event.at("choices"@).first().at("delta"@).at("content"@) {
                JsonView::Text(t) => t,
                _ => Seq::empty(),
            },
            None => Seq::empty(),
        }
    }
}

/// What a stream carries is what is read from it: the answer is made of the contents of its events
/// in their order, told and kept alike, and the tool calls of the pieces in its events.
pub proof fn stream_is_read(lines: Seq<Seq<char>>, buf: Seq<char>)
    ensures
        ({
            let d = DecoderView { buf, calls: Seq::empty(), content: Seq::empty() };
            after_lines(d, lines) matches Some((after, items)) ==> {
                &&& after.content == streamed_content(lines)
                &&& told_content(items) == streamed_content(lines)
                &&& after.calls == all_merged(Seq::empty(), streamed_pieces(lines))
            }
        }),
    decreases lines.len(),
{
    let d = DecoderView { buf, calls: Seq::empty(), content: Seq::empty() };
    content_is_what_was_told(d, lines);
    match after_lines(d, lines) {
        Some((_, items)) => {
            assert(d.content + told_content(items) =~= told_content(items));
        },
        None => {},
    }
    if lines.len() > 0 {
        stream_is_read(lines.drop_last(), buf);
        let head = streamed_pieces(lines.drop_last());
        match event_in(lines.last()) {
            Some(event) => {
                let more = call_pieces(event);
                assert(streamed_pieces(lines) =~= head + more);
                merged_in_two_goes(Seq::empty(), head, more);
            },
            None => {
                assert(streamed_pieces(lines) =~= head);
                assert(streamed_content(lines) =~= streamed_content(lines.drop_last()));
            },
        }
    }
}

proof fn merged_in_two_goes(calls: Seq<BuilderView>, a: Seq<JsonView>, b: Seq<JsonView>)
    ensures
        all_merged(calls, a + b) == all_merged(all_merged(calls, a), b),
    decreases b.len(),
{
    if b.len() == 0 {
        assert(a + b =~= a);
    } else {
        merged_in_two_goes(calls, a, b.drop_last());
        assert((a + b).drop_last() =~= a + b.drop_last());
    }
}

/// The tokens that an event says were used are told: those of the request and those of the answer,
/// each as such.
pub proof fn usage_is_told(d: DecoderView, line: Seq<char>, event: JsonView)
    requires
        event_in(line) == Some(event),
        event.at("usage"@) is Object,
    ensures
        after_line(d, line) matches Some((_, items)) ==> items.contains(
            ItemView::Usage {
                input: event.at("usage"@).at("prompt_tokens"@).natural_or(0),
                output: event.at("usage"@).at("completion_tokens"@).natural_or(0),
            },
        ),
{
    assert(event_items(event)[0] is Usage);
}

/// The calls that have a name are recorded in their order, each with its own identifier, name and
/// arguments; the others are passed over.
pub proof fn named_calls_are_recorded(calls: Seq<BuilderView>, call: BuilderView)
    ensures
        recorded_calls(Seq::empty()) == Seq::<JsonView>::empty(),
        call.name.len() == 0 ==> recorded_calls(calls.push(call)) == recorded_calls(calls),
        call.name.len() > 0 ==> {
            let records = recorded_calls(calls.push(call));
            &&& records.len() == recorded_calls(calls).len() + 1
            &&& records.drop_last() == recorded_calls(calls)
            &&& records.last().holds("id"@, JsonView::Text(call.id))
            &&& exists|function: JsonView|
                {
                    &&& #[trigger] records.last().holds("function"@, function)
                    &&& function.holds("name"@, JsonView::Text(call.name))
                    &&& function.holds("arguments"@, JsonView::Text(call.arguments))
                }
        },
{
    assert(calls.push(call).drop_last() =~= calls);
    if call.name.len() > 0 {
        let records = recorded_calls(calls.push(call));
        let record = records.last()->Object_0;
        let function = obj2(
            "name"@,
            JsonView::Text(call.name),
            "arguments"@,
            JsonView::Text(call.arguments),
        );
        assert(records.drop_last() =~= recorded_calls(calls));
        assert(record[0] == ("id"@, JsonView::Text(call.id)));
        assert(record[1] == ("function"@, function));
        assert(function->Object_0[0] == ("name"@, JsonView::Text(call.name)));
        assert(function->Object_0[1] == ("arguments"@, JsonView::Text(call.arguments)));
        assert(records.last().holds("function"@, function));
    }
}

/// An event that carries no piece of a tool call is always taken.
pub proof fn event_without_calls_is_taken(d: DecoderView, line: Seq<char>, event: JsonView)
    requires
        event_in(line) == Some(event),
        call_pieces(event).len() == 0,
    ensures
        after_line(d, line) matches Some((after, told)) && told == event_items(event),
{
}

/// A carriage return at the end of a line is no part of its data.
pub proof fn returns_are_no_data(line: Seq<char>)
    ensures
        data_of(line.push('\r')) == data_of(line),
{
    assert(line.push('\r').drop_last() =~= line);
}

} // verus!
