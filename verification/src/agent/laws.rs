//! What holds of the cards, previews, replies and messages that the agents share.

use vstd::prelude::*;

use super::card::{skill_of, streaming_card, SkillView};
use super::chat::{completion, message, or_else, tool_message, usage_of, ChatReply};
use super::events::{answered, cancelled, failed, part_texts, EventView, Part};
use super::preview::{first_text, preview_of, target, Style};
use crate::json::JsonView;
use crate::text::case::all_ascii;
use crate::text::decimal;
use crate::text::laws::text_can_be_cut;
use crate::text::search::{contains, group_contained};
use crate::text::width::{byte_len, prefix_within};

verus! {

// ─── Cards ──────────────────────────────────────────────────────────────────

/// A card tells what it is given of an agent, and that the agent listens on the given port and
/// streams plain text.
pub proof fn card_tells_of_the_agent(
    name: Seq<char>,
    description: Seq<char>,
    version: Seq<char>,
    skills: Seq<SkillView>,
    port: u16,
)
    ensures
        ({
            let card = streaming_card(name, description, version, skills, port);
            &&& card.name == name
            &&& card.description == description
            &&& card.version == version
            &&& card.skills == skills
            &&& card.url == "http://0.0.0.0:"@ + decimal(port as nat) + "/"@
            &&& card.streaming && !card.push_notifications
            &&& card.input_mode == "text/plain"@ && card.output_mode == "text/plain"@
        }),
{
}

/// A skill has the tags and the example that it is given.
pub proof fn skill_is_what_is_given(
    id: Seq<char>,
    name: Seq<char>,
    description: Seq<char>,
    tags: (Seq<char>, Seq<char>, Seq<char>),
    example: Option<Seq<char>>,
)
    ensures
        ({
            let skill = skill_of(id, name, description, tags, example);
            &&& skill.id == id
            &&& skill.name == name
            &&& skill.description == description
            &&& skill.tags.len() == 3
            &&& skill.tags[0] == tags.0 && skill.tags[1] == tags.1 && skill.tags[2] == tags.2
            &&& example matches Some(e) ==> skill.examples == Some(seq![e])
            &&& example is None ==> skill.examples is None
        }),
{
}

// ─── Completions ────────────────────────────────────────────────────────────

/// A completion is the answer as it came; anything else is told as an error, with the reason.
pub proof fn completion_is_the_answer(reply: ChatReply)
    ensures
        reply matches ChatReply::Answer(j) ==> completion(reply) == Ok::<JsonView, Seq<char>>(j@),
        reply matches ChatReply::Failed(e) ==> (completion(reply) matches Err(why) && contains(
            why,
            e@,
        )),
        reply matches ChatReply::Unreadable(e) ==> (completion(reply) matches Err(why) && contains(
            why,
            e@,
        )),
        reply matches ChatReply::Refused { status, body } ==> (completion(reply) matches Err(why)
            && contains(why, status@ + ": "@ + body@)),
{
    broadcast use group_contained;

    match reply {
        ChatReply::Refused { status, body } => {
            let told = status@ + ": "@ + body@;
            assert("LLM API "@ + status@ + ": "@ + body@ =~= "LLM API "@ + told);
            assert(contains("LLM API "@ + told, told));
        },
        _ => {},
    }
}

/// The tokens of the question and of the answer are each read under their own name.
pub proof fn usage_is_read(response: JsonView)
    ensures
        usage_of(response).0 == response.at("usage"@).at("prompt_tokens"@).natural(),
        usage_of(response).1 == response.at("usage"@).at("completion_tokens"@).natural(),
{
}

/// A message has its role and its content; the result of a tool has the call that it answers.
pub proof fn message_has_role_and_content(role: Seq<char>, content: Seq<char>, call_id: Seq<char>)
    ensures
        message(role, content).holds("role"@, JsonView::Text(role)),
        message(role, content).holds("content"@, JsonView::Text(content)),
        tool_message(call_id, content).holds("role"@, JsonView::Text("tool"@)),
        tool_message(call_id, content).holds("tool_call_id"@, JsonView::Text(call_id)),
        tool_message(call_id, content).holds("content"@, JsonView::Text(content)),
{
    let said = message(role, content)->Object_0;
    let result = tool_message(call_id, content)->Object_0;
    assert(said[0] == ("role"@, JsonView::Text(role)));
    assert(said[1] == ("content"@, JsonView::Text(content)));
    assert(result[0] == ("role"@, JsonView::Text("tool"@)));
    assert(result[1] == ("tool_call_id"@, JsonView::Text(call_id)));
    assert(result[2] == ("content"@, JsonView::Text(content)));
}

/// A setting that is given is taken; else the usual one stands.
pub proof fn given_setting_is_taken(given: Option<Seq<char>>, usual: Seq<char>)
    ensures
        given matches Some(s) ==> or_else(given, usual) == s,
        given is None ==> or_else(given, usual) == usual,
{
}

// ─── Previews ───────────────────────────────────────────────────────────────

/// A call is announced by its tool and, where it names a short one, by the path, else the command,
/// else the pattern that it is given.
pub proof fn target_is_announced(name: Seq<char>, args: JsonView, detail: Seq<char>)
    requires
        byte_len(detail) <= 60,
    ensures
        args.get("path"@) == Some(JsonView::Text(detail)) ==> preview_of(
            Style::Target,
            name,
            Ok(args),
        ) == Some(name + ": "@ + detail),
        args.get("path"@) is None && args.get("command"@) == Some(JsonView::Text(detail))
            ==> preview_of(Style::Target, name, Ok(args)) == Some(name + ": "@ + detail),
        args.get("path"@) is None && args.get("command"@) is None && args.get("pattern"@) == Some(
            JsonView::Text(detail),
        ) ==> preview_of(Style::Target, name, Ok(args)) == Some(name + ": "@ + detail),
        args.get("path"@) is None && args.get("command"@) is None && args.get("pattern"@) is None
            ==> preview_of(Style::Target, name, Ok(args)) == Some(name),
        target(args) matches Some(t) ==> args.at("path"@) == JsonView::Text(t) || args.at(
            "command"@,
        ) == JsonView::Text(t) || args.at("pattern"@) == JsonView::Text(t),
{
}

/// A call is announced by its tool and the first text among its arguments, where that is short.
pub proof fn first_text_is_announced(
    name: Seq<char>,
    members: Seq<(Seq<char>, JsonView)>,
    i: int,
    detail: Seq<char>,
)
    requires
        byte_len(detail) <= 60,
        0 <= i < members.len(),
        members[i].1 == JsonView::Text(detail),
        forall|j: int| 0 <= j < i ==> (#[trigger] members[j]).1 !is Text,
    ensures
        preview_of(Style::FirstText, name, Ok(JsonView::Object(members))) == Some(
            name + ": "@ + detail,
        ),
{
    text_is_first(members, i, detail);
}

proof fn text_is_first(members: Seq<(Seq<char>, JsonView)>, i: int, detail: Seq<char>)
    requires
        0 <= i < members.len(),
        members[i].1 == JsonView::Text(detail),
        forall|j: int| 0 <= j < i ==> (#[trigger] members[j]).1 !is Text,
    ensures
        first_text(JsonView::Object(members)) == Some(detail),
    decreases i,
{
    if i > 0 {
        assert(members[0].1 !is Text);
        let rest = members.drop_first();
        assert forall|j: int| 0 <= j < i - 1 implies (#[trigger] rest[j]).1 !is Text by {
            assert(rest[j] == members[j + 1]);
        }
        text_is_first(rest, i - 1, detail);
    }
}

// ─── Events and messages ────────────────────────────────────────────────────

/// An answer is one whole artifact and the end of the task; a failure tells its reason; a task that
/// is called off is at its end.
pub proof fn tasks_end_as_told(text: Seq<char>)
    ensures
        answered(text).len() == 2,
        answered(text)[0] == (EventView::Artifact { text, append: false, last_chunk: true }),
        answered(text)[1] == EventView::Completed,
        failed(text).len() == 1,
        failed(text)[0] == EventView::Failed(text),
        cancelled().len() == 1,
        cancelled()[0].ends() && cancelled()[0] !is Failed,
{
}

/// The texts of a message are read in their order, and its other parts are passed over.
pub proof fn texts_of_a_message_are_read(parts: Seq<Part>, part: Part)
    ensures
        part_texts(Seq::<Part>::empty()) == Seq::<Seq<char>>::empty(),
        part matches Part::Text(t) ==> part_texts(parts.push(part)) == part_texts(parts).push(t@),
        part is Other ==> part_texts(parts.push(part)) == part_texts(parts),
{
    assert(parts.push(part).drop_last() =~= parts);
}

/// There is no announcement only where what is shown of a call would be cut within a character.
pub proof fn plain_call_is_announced(style: Style, name: Seq<char>, args: JsonView)
    ensures
        style == Style::Target ==> (target(args) matches Some(t) ==> (all_ascii(t) ==> preview_of(
            style,
            name,
            Ok(args),
        ) is Some)),
        style == Style::FirstText ==> (first_text(args) matches Some(t) ==> (all_ascii(t)
            ==> preview_of(style, name, Ok(args)) is Some)),
        style == Style::Target ==> (target(args) matches Some(t) ==> (preview_of(
            style,
            name,
            Ok(args),
        ) is None <==> byte_len(t) > 60 && byte_len(prefix_within(t, 60)) != 60)),
{
    match target(args) {
        Some(t) => text_can_be_cut(t, 60),
        None => {},
    }
    match first_text(args) {
        Some(t) => text_can_be_cut(t, 60),
        None => {},
    }
}

} // verus!
