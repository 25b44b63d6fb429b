//! The coding agent's side of a task: its instructions, the rules of its talk, and how a task
//! begins.

use vstd::prelude::*;

use super::definitions::{definitions, definitions_view};
use crate::agent::card::{
    make_card, skill, skill_of, skill_views, streaming_card, Card, CardView, Skill, SkillView,
};
use crate::agent::events::{event_views, fail, failed, Event, EventView};
use crate::agent::preview::Style;
use crate::agent::talk::{open, opened, Rules, RulesView, Turn, TurnView};
use crate::agent::talk_laws::{chats, completions_are_bounded, finish_is_final, run, Heard};
use crate::text::{prefixed, text};

verus! {

/// Max completions with tools on offer: coding needs many rounds of reading, editing and testing.
pub const MAX_TURNS: usize = 12;

/// The instructions that the model works under.
pub const SYSTEM_PROMPT: &'static str = "\
You are a focused coding agent operating inside a sandboxed workspace. You can read, write, edit, \
search code, run shell commands, and run tests — all confined to the workspace directory.

Rules:
- Investigate before changing: use list_directory / read_file / search_code to understand the code first.
- Make minimal, targeted edits with edit_file (search/replace). The search block must be unique — \
include enough surrounding context. Use write_file only for new files or full rewrites.
- After changing code, run_tests (or run_command for a build/lint) to verify your work.
- If tests fail, read the output, fix, and re-run. Iterate until green or until you've clearly \
explained what's blocking.
- Stay within the workspace. Never assume tools or paths that you haven't verified exist.
- Be economical with tool calls — don't re-read a file you already have, and don't repeat an \
identical command.
- When done, respond with a concise summary of what you changed and the test/verification result \
(no tool call).";

/// The rules of the coding agent's talks.
pub open spec fn coding_rules(model: Seq<char>) -> RulesView {
    RulesView {
        model,
        tools: definitions_view(),
        turns: MAX_TURNS as nat,
        fallback: "Reached the maximum number of steps without a final answer."@,
        style: Style::Target,
    }
}

/// The rules of the coding agent's talks.
pub fn rules(model: &str) -> (r: Rules)
    ensures
        r@ == coding_rules(model@),
{
    Rules {
        model: text(model),
        tools: definitions(),
        turns: MAX_TURNS,
        fallback: text("Reached the maximum number of steps without a final answer."),
        style: Style::Target,
    }
}

/// The event that a task begins with.
pub fn greeting() -> (r: Event)
    ensures
        r@ == EventView::Working(Some("starting up sandbox"@)),
{
    Event::Working(Some(text("starting up sandbox")))
}

/// The events of a task for which there is no sandbox.
pub fn without_sandbox(reason: &str) -> (r: Vec<Event>)
    ensures
        event_views(r@) == failed("sandbox init failed: "@ + reason@),
{
    fail(prefixed("sandbox init failed: ", reason))
}

/// Begins the talk about what the user has asked for.
pub fn begin(rules: &Rules, user_text: &str) -> (r: Turn)
    ensures
        r@ == opened(rules@, SYSTEM_PROMPT@, user_text@),
{
    open(rules, SYSTEM_PROMPT, user_text)
}

/// A coding task asks for thirteen completions at most.
pub proof fn coding_task_is_bounded(model: Seq<char>, user_text: Seq<char>, heard: Seq<Heard>)
    ensures
        chats(
            coding_rules(model),
            opened(coding_rules(model), SYSTEM_PROMPT@, user_text),
            heard,
        ) <= 13,
{
    completions_are_bounded(coding_rules(model), SYSTEM_PROMPT@, user_text, heard);
}

/// An answer to a coding task is never empty.
pub proof fn coding_answer_is_never_empty(
    model: Seq<char>,
    user_text: Seq<char>,
    heard: Seq<Heard>,
)
    ensures
        run(
            coding_rules(model),
            opened(coding_rules(model), SYSTEM_PROMPT@, user_text),
            heard,
        ) matches TurnView::Finish(events) ==> forall|i: int|
            0 <= i < events.len() ==> (#[trigger] events[i] matches EventView::Artifact {
                text,
                ..
            } ==> text.len() > 0),
{
    reveal_strlit("Reached the maximum number of steps without a final answer.");
    finish_is_final(coding_rules(model), SYSTEM_PROMPT@, user_text, heard);
}

// ─── Card ───────────────────────────────────────────────────────────────────

/// What the agent can do.
pub open spec fn skills_view() -> Seq<SkillView> {
    seq![
        skill_of(
            "code-edit"@,
            "Code Editing"@,
            "Read, write, and make targeted search/replace edits to source files"@,
            ("coding"@, "edit"@, "refactor"@),
            None,
        ),
        skill_of(
            "code-test"@,
            "Build & Test"@,
            "Run builds, linters, and the project's test suite, then iterate on failures"@,
            ("coding"@, "test"@, "build"@),
            None,
        ),
        skill_of(
            "code-refactor"@,
            "Refactoring"@,
            "Search the codebase and apply structured multi-file refactors"@,
            ("coding"@, "refactor"@, "search"@),
            None,
        ),
    ]
}

/// What the agent says of itself.
pub open spec fn coding_card(port: u16) -> CardView {
    streaming_card(
        "Coding Agent"@,
        "Develops, tests, and refactors code in a sandboxed workspace"@,
        "1.0.0"@,
        skills_view(),
        port,
    )
}

/// What the agent says of itself.
pub fn agent_card(port: u16) -> (r: Card)
    ensures
        r@ == coding_card(port),
{
    let mut skills: Vec<Skill> = Vec::new();
    skills.push(
        skill(
            "code-edit",
            "Code Editing",
            "Read, write, and make targeted search/replace edits to source files",
            ("coding", "edit", "refactor"),
            None,
        ),
    );
    skills.push(
        skill(
            "code-test",
            "Build & Test",
            "Run builds, linters, and the project's test suite, then iterate on failures",
            ("coding", "test", "build"),
            None,
        ),
    );
    skills.push(
        skill(
            "code-refactor",
            "Refactoring",
            "Search the codebase and apply structured multi-file refactors",
            ("coding", "refactor", "search"),
            None,
        ),
    );
    assert(skill_views(skills@) =~= skills_view());
    make_card(
        "Coding Agent",
        "Develops, tests, and refactors code in a sandboxed workspace",
        "1.0.0",
        skills,
        port,
    )
}

} // verus!
