//! The events that an agent reports of a task, and the text it was given.

use vstd::prelude::*;

use crate::text::{join, join_texts, opt_view, text, views};

verus! {

/// One event of a task.
#[derive(Debug)]
pub enum Event {
    /// The task is in work; what is being done, where that is said.
    Working(Option<String>),
    /// A piece of the answer.
    Artifact { text: String, append: bool, last_chunk: bool },
    Completed,
    /// The task has failed; the reason.
    Failed(String),
}

/// What an event holds.
#[verifier::ext_equal]
pub enum EventView {
    Working(Option<Seq<char>>),
    Artifact { text: Seq<char>, append: bool, last_chunk: bool },
    Completed,
    Failed(Seq<char>),
}

impl View for Event {
    type V = EventView;

    open spec fn view(&self) -> EventView {
        match self {
            Event::Working(message) => EventView::Working(opt_view(*message)),
            Event::Artifact { text, append, last_chunk } => EventView::Artifact {
                text: text@,
                append: *append,
                last_chunk: *last_chunk,
            },
            Event::Completed => EventView::Completed,
            Event::Failed(reason) => EventView::Failed(reason@),
        }
    }
}

impl EventView {
    /// Whether the task ends with this event.
    pub open spec fn ends(self) -> bool {
        self is Completed || self is Failed
    }
}

/// The views of a sequence of events.
pub open spec fn event_views(events: Seq<Event>) -> Seq<EventView> {
    events.map_values(|event: Event| event@)
}

/// The events of a task that is answered with `text` in one piece.
pub open spec fn answered(text: Seq<char>) -> Seq<EventView> {
    seq![
        EventView::Artifact { text, append: false, last_chunk: true },
        EventView::Completed,
    ]
}

/// The events of a task that has failed.
pub open spec fn failed(reason: Seq<char>) -> Seq<EventView> {
    seq![EventView::Failed(reason)]
}

/// The events of a task that was called off.
pub open spec fn cancelled() -> Seq<EventView> {
    seq![EventView::Completed]
}

/// The events of a task that is answered with `text` in one piece.
pub fn answer(text: String) -> (r: Vec<Event>)
    ensures
        event_views(r@) == answered(text@),
{
    let ghost t = text@;
    let mut out: Vec<Event> = Vec::new();
    out.push(Event::Artifact { text, append: false, last_chunk: true });
    out.push(Event::Completed);
    assert(event_views(out@) =~= answered(t));
    out
}

/// The events of a task that has failed.
pub fn fail(reason: String) -> (r: Vec<Event>)
    ensures
        event_views(r@) == failed(reason@),
{
    let ghost e = reason@;
    let mut out: Vec<Event> = Vec::new();
    out.push(Event::Failed(reason));
    assert(event_views(out@) =~= failed(e));
    out
}

/// The events of a task that was called off: it counts as completed.
pub fn cancel() -> (r: Vec<Event>)
    ensures
        event_views(r@) == cancelled(),
{
    let mut out: Vec<Event> = Vec::new();
    out.push(Event::Completed);
    assert(event_views(out@) =~= cancelled());
    out
}

/// One part of an incoming message.
#[derive(Debug)]
pub enum Part {
    Text(String),
    /// Data, a file or a reference: nothing that the agents read.
    Other,
}

/// What a part holds as text.
pub open spec fn part_text(part: Part) -> Option<Seq<char>> {
    match part {
        Part::Text(t) => Some(t@),
        Part::Other => None,
    }
}

/// The texts among the parts, in their order.
pub open spec fn part_texts(parts: Seq<Part>) -> Seq<Seq<char>>
    decreases parts.len(),
{
    if parts.len() == 0 {
        Seq::empty()
    } else {
        match part_text(parts.last()) {
            Some(t) => part_texts(parts.drop_last()).push(t),
            None => part_texts(parts.drop_last()),
        }
    }
}

/// The text parts of the incoming message, one line break between each two; empty where there is
/// no message.
pub fn extract_user_text(message: &Option<Vec<Part>>) -> (r: String)
    ensures
        r@ == match message {
            Some(parts) => join(part_texts(parts@), "\n"@),
            None => Seq::empty(),
        },
{
    match message {
        None => String::new(),
        Some(parts) => {
            let mut texts: Vec<String> = Vec::new();
            let mut i: usize = 0;
            assert(views(texts@) =~= part_texts(parts@.take(0)));
            while i < parts.len()
                invariant
                    i <= parts@.len(),
                    views(texts@) == part_texts(parts@.take(i as int)),
                decreases parts@.len() - i,
            {
                let ghost before = views(texts@);
                assert(parts@.take(i + 1).drop_last() =~= parts@.take(i as int));
                match &parts[i] {
                    Part::Text(t) => {
                        texts.push(text(t.as_str()));
                        assert(views(texts@) =~= before.push(t@));
                    },
                    Part::Other => {},
                }
                i += 1;
            }
            assert(parts@.take(i as int) =~= parts@);
            join_texts(&texts, "\n")
        },
    }
}

} // verus!
