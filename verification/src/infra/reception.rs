//! One streamed completion from its request to its end: what is told on the way, and how it ends.

use vstd::prelude::*;

use super::stream::{
    after_text, builder_views, chunking_does_not_matter, contents_are_not_empty, item_views,
    record_stream, recorded_calls, BuilderView, Decoder, DecoderView, Item, ItemView,
    ToolCallBuilder,
};
use crate::http::{is_success, succeeds};
use crate::json::Json;
use crate::telemetry::{finish_of, output_message};
use crate::text::search::split;
use crate::text::{bytes_text, prefixed, text};

verus! {

/// What came of sending the request for a streamed completion.
#[derive(Debug)]
pub enum Sent {
    /// The request could not be sent or answered; the reason.
    Failed(String),
    /// The status, as a code and as a line; the body, read only where the status is no success.
    Answered { code: u16, status: String, body: String },
}

/// What came of sending the request for a streamed completion.
#[verifier::ext_equal]
pub enum SentView {
    Failed(Seq<char>),
    Answered { code: u16, status: Seq<char>, body: Seq<char> },
}

impl View for Sent {
    type V = SentView;

    open spec fn view(&self) -> SentView {
        match self {
            Sent::Failed(e) => SentView::Failed(e@),
            Sent::Answered { code, status, body } => SentView::Answered {
                code: *code,
                status: status@,
                body: body@,
            },
        }
    }
}

/// One event of a streamed completion.
#[derive(Debug)]
pub enum ChatEvent {
    /// A piece of the answer.
    Content(String),
    /// The tokens used: by the request and by the answer.
    Usage { input: u64, output: u64 },
    /// The completion has ended, with these tool calls.
    Done { tool_calls: Vec<ToolCallBuilder> },
    /// The completion has gone wrong; the reason.
    Error(String),
}

/// One event of a streamed completion.
#[verifier::ext_equal]
pub enum ChatEventView {
    Content(Seq<char>),
    Usage { input: u64, output: u64 },
    Done { tool_calls: Seq<BuilderView> },
    Error(Seq<char>),
}

impl View for ChatEvent {
    type V = ChatEventView;

    open spec fn view(&self) -> ChatEventView {
        match self {
            ChatEvent::Content(t) => ChatEventView::Content(t@),
            ChatEvent::Usage { input, output } => ChatEventView::Usage {
                input: *input,
                output: *output,
            },
            ChatEvent::Done { tool_calls } => ChatEventView::Done {
                tool_calls: builder_views(tool_calls@),
            },
            ChatEvent::Error(e) => ChatEventView::Error(e@),
        }
    }
}

impl ChatEventView {
    /// Whether the completion ends with this event.
    pub open spec fn ends(self) -> bool {
        self is Done || self is Error
    }
}

/// The views of a sequence of events.
pub open spec fn chat_event_views(events: Seq<ChatEvent>) -> Seq<ChatEventView> {
    events.map_values(|event: ChatEvent| event@)
}

/// What an item of the stream is as an event.
pub open spec fn item_event(item: ItemView) -> ChatEventView {
    match item {
        ItemView::Content(t) => ChatEventView::Content(t),
        ItemView::Usage { input, output } => ChatEventView::Usage { input, output },
    }
}

/// What items of the stream are as events.
pub open spec fn item_events(items: Seq<ItemView>) -> Seq<ChatEventView> {
    items.map_values(|item: ItemView| item_event(item))
}

/// How far a streamed completion has been received.
#[derive(Debug)]
pub struct Reception {
    pub decoder: Decoder,
    /// Whether it has gone wrong, so that nothing more is received.
    pub over: bool,
}

/// What a reception holds.
#[verifier::ext_equal]
pub struct ReceptionView {
    pub decoder: DecoderView,
    pub over: bool,
}

impl View for Reception {
    type V = ReceptionView;

    open spec fn view(&self) -> ReceptionView {
        ReceptionView { decoder: self.decoder@, over: self.over }
    }
}

// ─── The course of a completion ─────────────────────────────────────────────

/// What is wrong with the sending, where anything is.
pub open spec fn sending_fault(sent: SentView) -> Option<Seq<char>> {
    match sent {
        SentView::Failed(e) => Some("HTTP error: "@ + e),
        SentView::Answered { code, status, body } => if is_success(code) {
            None
        } else {
            Some("LLM API "@ + status + ": "@ + body)
        },
    }
}

/// A decoder that has read nothing.
pub open spec fn fresh() -> DecoderView {
    DecoderView { buf: Seq::empty(), calls: Seq::empty(), content: Seq::empty() }
}

/// The reception that begins, and what is told at once.
pub open spec fn opened(sent: SentView) -> (ReceptionView, Seq<ChatEventView>) {
    match sending_fault(sent) {
        Some(e) => (
            ReceptionView { decoder: fresh(), over: true },
            Seq::empty().push(ChatEventView::Error(e)),
        ),
        None => (ReceptionView { decoder: fresh(), over: false }, Seq::empty()),
    }
}

/// The reception after one more chunk, which is a text or could not be read, and what is told of
/// it. None where a tool call has an index that no list can reach.
pub open spec fn after_chunk(r: ReceptionView, chunk: Result<Seq<char>, Seq<char>>) -> Option<
    (ReceptionView, Seq<ChatEventView>),
> {
    if r.over {
        Some((r, Seq::empty()))
    } else {
        match chunk {
            Err(e) => Some(
                (
                    ReceptionView { over: true, ..r },
                    Seq::empty().push(ChatEventView::Error("stream error: "@ + e)),
                ),
            ),
            Ok(t) => match after_text(r.decoder, t) {
                Some((decoder, items)) => Some(
                    (ReceptionView { decoder, ..r }, item_events(items)),
                ),
                None => None,
            },
        }
    }
}

/// The reception after some chunks, and what is told up to there.
pub open spec fn told(sent: SentView, chunks: Seq<Result<Seq<char>, Seq<char>>>) -> Option<
    (ReceptionView, Seq<ChatEventView>),
>
    decreases chunks.len(),
{
    if chunks.len() == 0 {
        Some(opened(sent))
    } else {
        match told(sent, chunks.drop_last()) {
            Some((r, events)) => match after_chunk(r, chunks.last()) {
                Some((after, more)) => Some((after, events + more)),
                None => None,
            },
            None => None,
        }
    }
}

/// What is told at the end of the stream: that the completion is done, unless it has gone wrong.
pub open spec fn closing(r: ReceptionView) -> Seq<ChatEventView> {
    if r.over {
        Seq::empty()
    } else {
        Seq::empty().push(ChatEventView::Done { tool_calls: r.decoder.calls })
    }
}

/// The events of a streamed completion, given what came of sending its request and all chunks.
pub open spec fn chat_events(
    sent: SentView,
    chunks: Seq<Result<Seq<char>, Seq<char>>>,
) -> Option<Seq<ChatEventView>> {
    match told(sent, chunks) {
        Some((r, events)) => Some(events + closing(r)),
        None => None,
    }
}

/// What a chunk holds as text, or why it could not be read.
pub open spec fn chunk_text(chunk: Result<Vec<u8>, String>) -> Result<Seq<char>, Seq<char>> {
    match chunk {
        Ok(bytes) => Ok(bytes_text(bytes@)),
        Err(e) => Err(e@),
    }
}

/// What chunks hold as texts.
pub open spec fn chunk_texts(chunks: Seq<Result<Vec<u8>, String>>) -> Seq<
    Result<Seq<char>, Seq<char>>,
> {
    chunks.map_values(|chunk: Result<Vec<u8>, String>| chunk_text(chunk))
}

/// What items of the stream are as events.
fn as_events(items: Vec<Item>) -> (r: Vec<ChatEvent>)
    ensures
        chat_event_views(r@) == item_events(item_views(items@)),
{
    let ghost all = item_events(item_views(items@));
    let ghost every = items@;
    let mut out: Vec<ChatEvent> = Vec::new();
    for item in it: items
        invariant
            it.seq() == every,
            all == item_events(item_views(every)),
            chat_event_views(out@) == all.take(it.index()),
    {
        let ghost before = chat_event_views(out@);
        assert(all[it.index()] == item_event(item@));
        out.push(
            match item {
                Item::Content(t) => ChatEvent::Content(t),
                Item::Usage { input, output } => ChatEvent::Usage { input, output },
            },
        );
        assert(chat_event_views(out@) =~= before.push(all[it.index()]));
        assert(chat_event_views(out@) =~= all.take(it.index() + 1));
    }
    assert(chat_event_views(out@) =~= all);
    out
}

/// One event alone.
fn only(event: ChatEvent) -> (r: Vec<ChatEvent>)
    ensures
        chat_event_views(r@) == Seq::empty().push(event@),
{
    let ghost e = event@;
    let mut out: Vec<ChatEvent> = Vec::new();
    out.push(event);
    assert(chat_event_views(out@) =~= Seq::empty().push(e));
    out
}

/// No event.
fn none() -> (r: Vec<ChatEvent>)
    ensures
        chat_event_views(r@) == Seq::<ChatEventView>::empty(),
{
    let out: Vec<ChatEvent> = Vec::new();
    assert(chat_event_views(out@) =~= Seq::empty());
    out
}

impl Reception {
    /// Begins to receive, given what came of sending the request.
    pub fn open(sent: &Sent) -> (r: (Reception, Vec<ChatEvent>))
        ensures
            (r.0@, chat_event_views(r.1@)) == opened(sent@),
    {
        let fault = match sent {
            Sent::Failed(e) => Some(prefixed("HTTP error: ", e.as_str())),
            Sent::Answered { code, status, body } => if succeeds(*code) {
                None
            } else {
                let mut out = text("LLM API ");
                out.append(status.as_str());
                out.append(": ");
                out.append(body.as_str());
                Some(out)
            },
        };
        match fault {
            Some(e) => (
                Reception { decoder: Decoder::new(), over: true },
                only(ChatEvent::Error(e)),
            ),
            None => (Reception { decoder: Decoder::new(), over: false }, none()),
        }
    }

    /// Receives one more chunk, or hears that it could not be read. None where a tool call has an
    /// index that no list can reach.
    pub fn take_chunk(self, chunk: &Result<Vec<u8>, String>) -> (r: Option<
        (Reception, Vec<ChatEvent>),
    >)
        ensures
            match r {
                Some((after, events)) => after_chunk(self@, chunk_text(*chunk)) == Some(
                    (after@, chat_event_views(events@)),
                ),
                None => after_chunk(self@, chunk_text(*chunk)) is None,
            },
    {
        if self.over {
            return Some((self, none()));
        }
        match chunk {
            Err(e) => Some(
                (
                    Reception { decoder: self.decoder, over: true },
                    only(ChatEvent::Error(prefixed("stream error: ", e.as_str()))),
                ),
            ),
            Ok(bytes) => match self.decoder.feed_bytes(bytes) {
                Some((decoder, items)) => Some(
                    (Reception { decoder, over: false }, as_events(items)),
                ),
                None => None,
            },
        }
    }

    /// The record of the answer, where the completion has not gone wrong.
    pub fn record(&self) -> (r: Option<Json>)
        ensures
            r is Some <==> !self@.over,
            r matches Some(said) ==> said@ == output_message(
                self@.decoder.content,
                recorded_calls(self@.decoder.calls),
                finish_of(recorded_calls(self@.decoder.calls)),
            ),
    {
        if self.over {
            None
        } else {
            Some(record_stream(&self.decoder))
        }
    }

    /// The stream has ended: what is told at its end.
    pub fn close(self) -> (r: Vec<ChatEvent>)
        ensures
            chat_event_views(r@) == closing(self@),
    {
        if self.over {
            none()
        } else {
            only(ChatEvent::Done { tool_calls: self.decoder.calls })
        }
    }
}

/// Receives a streamed completion, given what came of sending its request and all chunks. None
/// where a tool call has an index that no list can reach.
pub fn chat_stream(sent: &Sent, chunks: &Vec<Result<Vec<u8>, String>>) -> (r: Option<
    Vec<ChatEvent>,
>)
    ensures
        match r {
            Some(events) => chat_events(sent@, chunk_texts(chunks@)) == Some(
                chat_event_views(events@),
            ),
            None => chat_events(sent@, chunk_texts(chunks@)) is None,
        },
{
    let ghost all = chunk_texts(chunks@);
    let (mut reception, mut events) = Reception::open(sent);
    let mut i: usize = 0;
    assert(all.take(0) =~= Seq::empty());
    while i < chunks.len()
        invariant
            i <= chunks@.len(),
            all == chunk_texts(chunks@),
            told(sent@, all.take(i as int)) == Some((reception@, chat_event_views(events@))),
        decreases chunks@.len() - i,
    {
        assert(all.take(i + 1).drop_last() =~= all.take(i as int));
        let ghost before = chat_event_views(events@);
        match reception.take_chunk(&chunks[i]) {
            Some((after, more)) => {
                let ghost added = chat_event_views(more@);
                let mut more = more;
                events.append(&mut more);
                assert(chat_event_views(events@) =~= before + added);
                reception = after;
            },
            None => {
                proof {
                    stays_stuck(sent@, all, i + 1);
                }
                return None;
            },
        }
        i += 1;
    }
    assert(all.take(i as int) =~= all);
    let ghost before = chat_event_views(events@);
    let mut last = reception.close();
    let ghost added = chat_event_views(last@);
    events.append(&mut last);
    assert(chat_event_views(events@) =~= before + added);
    Some(events)
}

proof fn stays_stuck(sent: SentView, chunks: Seq<Result<Seq<char>, Seq<char>>>, i: int)
    requires
        0 <= i <= chunks.len(),
        told(sent, chunks.take(i)) is None,
    ensures
        told(sent, chunks) is None,
    decreases chunks.len() - i,
{
    if i < chunks.len() {
        assert(chunks.take(i + 1).drop_last() =~= chunks.take(i));
        stays_stuck(sent, chunks, i + 1);
    } else {
        assert(chunks.take(i) =~= chunks);
    }
}

// ─── Laws ───────────────────────────────────────────────────────────────────

/// Whether a chunk could not be read.
pub open spec fn chunk_failed(chunks: Seq<Result<Seq<char>, Seq<char>>>) -> bool {
    exists|i: int| 0 <= i < chunks.len() && #[trigger] chunks[i] is Err
}

/// Whether no event among these ends the completion.
pub open spec fn none_ends(events: Seq<ChatEventView>) -> bool {
    forall|i: int| 0 <= i < events.len() ==> !(#[trigger] events[i]).ends()
}

/// Whether the last event ends the completion, and no other does.
pub open spec fn ends_once(events: Seq<ChatEventView>) -> bool {
    events.len() > 0 && events.last().ends() && none_ends(events.drop_last())
}

/// Whether no piece of the answer is empty.
pub open spec fn contents_told(events: Seq<ChatEventView>) -> bool {
    forall|i: int|
        0 <= i < events.len() ==> (#[trigger] events[i] matches ChatEventView::Content(t)
            ==> t.len() > 0)
}

proof fn course(sent: SentView, chunks: Seq<Result<Seq<char>, Seq<char>>>)
    ensures
        told(sent, chunks) matches Some((r, events)) ==> {
            &&& r.over == (sending_fault(sent) is Some || chunk_failed(chunks))
            &&& r.over ==> ends_once(events) && events.last() is Error
            &&& !r.over ==> none_ends(events)
            &&& contents_told(events)
        },
    decreases chunks.len(),
{
    if chunks.len() > 0 {
        let head = chunks.drop_last();
        course(sent, head);
        if chunk_failed(head) {
            let i = choose|i: int| 0 <= i < head.len() && #[trigger] head[i] is Err;
            assert(chunks[i] == head[i]);
        }
        if chunk_failed(chunks) && !(chunks.last() is Err) {
            let i = choose|i: int| 0 <= i < chunks.len() && #[trigger] chunks[i] is Err;
            assert(head[i] == chunks[i]);
        }
        match told(sent, head) {
            Some((r, events)) => match after_chunk(r, chunks.last()) {
                Some((after, more)) => {
                    if r.over {
                        assert(events + more =~= events);
                    } else if chunks.last() is Err {
                        assert(chunks[chunks.len() - 1] is Err);
                        assert((events + more).drop_last() =~= events);
                    } else {
                        let t = chunks.last()->Ok_0;
                        let pieces = split(r.decoder.buf + t, "\n"@);
                        contents_are_not_empty(
                            DecoderView { buf: pieces.last(), ..r.decoder },
                            pieces.drop_last(),
                        );
                        let items = after_text(r.decoder, t)->Some_0.1;
                        assert forall|i: int| 0 <= i < (events + more).len() implies !(
                        #[trigger] (events + more)[i]).ends() && ((events + more)[i] matches
                            ChatEventView::Content(c) ==> c.len() > 0) by {
                            if i < events.len() {
                                assert((events + more)[i] == events[i]);
                            } else {
                                assert((events + more)[i] == item_event(items[i - events.len()]));
                            }
                        }
                    }
                },
                None => {},
            },
            None => {},
        }
    }
}

/// A streamed completion has exactly one end, done or error, and it comes last.
pub proof fn one_end_comes_last(sent: SentView, chunks: Seq<Result<Seq<char>, Seq<char>>>)
    ensures
        chat_events(sent, chunks) matches Some(events) ==> ends_once(events),
{
    course(sent, chunks);
    match told(sent, chunks) {
        Some((r, events)) => {
            if r.over {
                assert(events + closing(r) =~= events);
            } else {
                assert((events + closing(r)).drop_last() =~= events);
            }
        },
        None => {},
    }
}

/// A streamed completion ends with an error exactly where its request could not be sent, where the
/// status was no success, or where a chunk could not be read.
pub proof fn error_means_a_fault(sent: SentView, chunks: Seq<Result<Seq<char>, Seq<char>>>)
    ensures
        chat_events(sent, chunks) matches Some(events) ==> (events.last() is Error <==> {
            ||| sent is Failed
            ||| sent matches SentView::Answered { code, .. } && !(200 <= code < 300)
            ||| chunk_failed(chunks)
        }),
{
    course(sent, chunks);
    match told(sent, chunks) {
        Some((r, events)) => {
            if r.over {
                assert(events + closing(r) =~= events);
            }
        },
        None => {},
    }
}

/// A streamed completion tells no empty piece of an answer.
pub proof fn no_content_is_empty(sent: SentView, chunks: Seq<Result<Seq<char>, Seq<char>>>)
    ensures
        chat_events(sent, chunks) matches Some(events) ==> contents_told(events),
{
    course(sent, chunks);
}

/// The pieces, one after the other.
pub open spec fn whole<A>(pieces: Seq<Seq<A>>) -> Seq<A>
    decreases pieces.len(),
{
    if pieces.len() == 0 {
        Seq::empty()
    } else {
        whole(pieces.drop_last()) + pieces.last()
    }
}

/// Texts as chunks that could be read.
pub open spec fn read_chunks(texts: Seq<Seq<char>>) -> Seq<Result<Seq<char>, Seq<char>>> {
    texts.map_values(|t: Seq<char>| Ok::<Seq<char>, Seq<char>>(t))
}

proof fn nothing_after_a_fault(sent: SentView, chunks: Seq<Result<Seq<char>, Seq<char>>>)
    requires
        sending_fault(sent) is Some,
    ensures
        told(sent, chunks) == Some(opened(sent)),
    decreases chunks.len(),
{
    if chunks.len() > 0 {
        nothing_after_a_fault(sent, chunks.drop_last());
        let events = opened(sent).1;
        assert(events + Seq::<ChatEventView>::empty() =~= events);
    }
}

proof fn told_as_a_whole(sent: SentView, texts: Seq<Seq<char>>)
    requires
        sending_fault(sent) is None,
    ensures
        told(sent, read_chunks(texts)) == match after_text(fresh(), whole(texts)) {
            Some((decoder, items)) => Some(
                (ReceptionView { decoder, over: false }, item_events(items)),
            ),
            None => None,
        },
    decreases texts.len(),
{
    if texts.len() == 0 {
        let none = Seq::<char>::empty();
        reveal_strlit("\n");
        assert(fresh().buf + none =~= none);
        assert(none.skip(0) =~= none);
        assert(split(none, "\n"@) =~= seq![none]);
        assert(split(none, "\n"@).drop_last() =~= Seq::empty());
        assert(item_events(Seq::empty()) =~= Seq::empty());
    } else {
        let head = texts.drop_last();
        told_as_a_whole(sent, head);
        assert(read_chunks(texts).drop_last() =~= read_chunks(head));
        chunking_does_not_matter(fresh(), whole(head), texts.last());
        match after_text(fresh(), whole(head)) {
            Some((between, items)) => match after_text(between, texts.last()) {
                Some((after, more)) => {
                    assert(item_events(items + more) =~= item_events(items) + item_events(more));
                },
                None => {},
            },
            None => {},
        }
    }
}

/// Where the body of a streamed completion is cut into chunks does not matter, as long as no
/// character is cut: the same bytes give the same events.
pub proof fn cuts_do_not_matter(sent: SentView, a: Seq<Seq<u8>>, b: Seq<Seq<u8>>)
    requires
        forall|i: int| 0 <= i < a.len() ==> vstd::utf8::valid_utf8(#[trigger] a[i]),
        forall|i: int| 0 <= i < b.len() ==> vstd::utf8::valid_utf8(#[trigger] b[i]),
        whole(a) == whole(b),
    ensures
        chat_events(sent, read_chunks(a.map_values(|p: Seq<u8>| bytes_text(p)))) == chat_events(
            sent,
            read_chunks(b.map_values(|p: Seq<u8>| bytes_text(p))),
        ),
{
    let ta = a.map_values(|p: Seq<u8>| bytes_text(p));
    let tb = b.map_values(|p: Seq<u8>| bytes_text(p));
    if sending_fault(sent) is Some {
        nothing_after_a_fault(sent, read_chunks(ta));
        nothing_after_a_fault(sent, read_chunks(tb));
    } else {
        decoded_as_a_whole(a);
        decoded_as_a_whole(b);
        told_as_a_whole(sent, ta);
        told_as_a_whole(sent, tb);
    }
}

proof fn decoded_as_a_whole(pieces: Seq<Seq<u8>>)
    requires
        forall|i: int| 0 <= i < pieces.len() ==> vstd::utf8::valid_utf8(#[trigger] pieces[i]),
    ensures
        vstd::utf8::valid_utf8(whole(pieces)),
        whole(pieces.map_values(|p: Seq<u8>| bytes_text(p))) == vstd::utf8::decode_utf8(
            whole(pieces),
        ),
    decreases pieces.len(),
{
    if pieces.len() > 0 {
        let head = pieces.drop_last();
        let last = pieces.last();
        assert forall|i: int| 0 <= i < head.len() implies vstd::utf8::valid_utf8(
            #[trigger] head[i],
        ) by {
            assert(head[i] == pieces[i]);
        }
        decoded_as_a_whole(head);
        assert(pieces.map_values(|p: Seq<u8>| bytes_text(p)).drop_last() =~= head.map_values(
            |p: Seq<u8>| bytes_text(p),
        ));
        assert(vstd::utf8::valid_utf8(pieces[pieces.len() - 1]));
        decoded_in_two(whole(head), last);
    }
}

proof fn decoded_in_two(a: Seq<u8>, b: Seq<u8>)
    requires
        vstd::utf8::valid_utf8(a),
        vstd::utf8::valid_utf8(b),
    ensures
        vstd::utf8::valid_utf8(a + b),
        vstd::utf8::decode_utf8(a + b) == vstd::utf8::decode_utf8(a) + vstd::utf8::decode_utf8(b),
{
    let both = a + b;
    let n = a.len() as int;
    vstd::utf8::valid_utf8_concat(a, b);
    if b.len() == 0 {
        vstd::utf8::is_char_boundary_start_end_of_seq(both);
    } else {
        assert(vstd::utf8::valid_first_scalar(b));
        vstd::utf8::utf8_byte_ranges_bitwise(b[0]);
        assert(both[n] == b[0]);
        vstd::utf8::is_char_boundary_iff_not_is_continuation_byte(both, n);
    }
    vstd::utf8::decode_utf8_split(both, n);
    assert(both.subrange(0, n) =~= a);
    assert(both.subrange(n, both.len() as int) =~= b);
}

/// A completion that is received without a fault tells what its stream carries, in its order, and
/// at its end the tool calls that were put together: nothing else, whatever the chunks.
pub proof fn completion_tells_its_stream(
    sent: SentView,
    texts: Seq<Seq<char>>,
    decoder: DecoderView,
    items: Seq<ItemView>,
)
    requires
        sent matches SentView::Answered { code, .. } && 200 <= code < 300,
        after_text(
            DecoderView { buf: Seq::empty(), calls: Seq::empty(), content: Seq::empty() },
            whole(texts),
        ) == Some((decoder, items)),
    ensures
        chat_events(sent, read_chunks(texts)) matches Some(events) && {
            &&& events.len() == items.len() + 1
            &&& events.last() == (ChatEventView::Done { tool_calls: decoder.calls })
            &&& forall|i: int|
                #![trigger items[i]]
                0 <= i < items.len() ==> match items[i] {
                    ItemView::Content(t) => events[i] == ChatEventView::Content(t),
                    ItemView::Usage { input, output } => events[i] == (ChatEventView::Usage {
                        input,
                        output,
                    }),
                }
        },
{
    told_as_a_whole(sent, texts);
    let r = ReceptionView { decoder, over: false };
    let events = item_events(items) + closing(r);
    assert forall|i: int| #![trigger items[i]] 0 <= i < items.len() implies events[i] == item_event(
        items[i],
    ) by {}
}

/// A fault is told with its reason: that the request failed, what the service said to it, or why a
/// chunk could not be read.
pub proof fn fault_is_explained(sent: SentView, e: Seq<char>)
    ensures
        sent == SentView::Failed(e) ==> opened(sent).1 == seq![
            ChatEventView::Error("HTTP error: "@ + e),
        ],
        sent matches SentView::Answered { code, status: s, body: b } ==> (!(200 <= code < 300)
            ==> opened(sent).1 == seq![ChatEventView::Error("LLM API "@ + s + ": "@ + b)]),
        forall|r: ReceptionView|
            !r.over ==> (#[trigger] after_chunk(r, Err(e)) matches Some((after, events))
                && after.over && events == seq![ChatEventView::Error("stream error: "@ + e)]),
{
    assert forall|r: ReceptionView| !r.over implies (#[trigger] after_chunk(r, Err(e)) matches Some(
        (after, events),
    ) && after.over && events == seq![ChatEventView::Error("stream error: "@ + e)]) by {
        assert(Seq::<ChatEventView>::empty().push(ChatEventView::Error("stream error: "@ + e))
            =~= seq![ChatEventView::Error("stream error: "@ + e)]);
    }
    match sending_fault(sent) {
        Some(f) => {
            assert(Seq::<ChatEventView>::empty().push(ChatEventView::Error(f)) =~= seq![
                ChatEventView::Error(f),
            ]);
        },
        None => {},
    }
}

} // verus!
