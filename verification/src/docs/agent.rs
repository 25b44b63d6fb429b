//! The documentation assistant's side of a task: its instructions, the rules of its talk, and how
//! a task begins.

use vstd::prelude::*;

use super::definitions::{definitions, definitions_view};
use crate::agent::card::{
    make_card, skill, skill_of, skill_views, streaming_card, Card, CardView, Skill, SkillView,
};
use crate::agent::events::{Event, EventView};
use crate::agent::preview::Style;
use crate::agent::talk::{open, opened, Rules, RulesView, Turn};
use crate::agent::talk_laws::{chats, completions_are_bounded, Heard};
use crate::text::{text, views};

verus! {

/// Max completions with tools on offer.
pub const MAX_TURNS: usize = 4;

/// The instructions that the model works under.
pub const SYSTEM_PROMPT: &'static str = "\
You are a documentation assistant. You MUST use your tools for every answer — never respond from \
memory alone. Every claim must be backed by tool output.\n\n\
Tools (use these as primary sources):\n\
- crates_io — search Rust crates (sorted by downloads by default). PRIMARY for Rust questions.\n\
- crate_info — detailed info on a specific crate (features, deps, versions)\n\
- npm_search / npm_package — JavaScript/TypeScript packages. PRIMARY for JS/TS questions.\n\
- pypi_package — Python packages. PRIMARY for Python questions.\n\
- github_readme — fetch README for usage examples and API docs\n\
- web_search — ONLY use when registry tools don't cover the question (comparisons, tutorials, \
  non-library questions). Prefer registry data over web results.\n\n\
Rules:\n\
- ALWAYS call at least one tool before answering\n\
- For Rust: use crates_io first, then crate_info for details, then github_readme for examples\n\
- For JS/Python: use npm_search/pypi_package first\n\
- Always include the exact version number from tool output\n\
- Include download counts when available — they indicate ecosystem trust\n\
- Never invent or guess API signatures — look them up with tools";

/// The rules of the documentation assistant's talks. An answer that never comes stays empty.
pub open spec fn docs_rules(model: Seq<char>) -> RulesView {
    RulesView {
        model,
        tools: definitions_view(),
        turns: MAX_TURNS as nat,
        fallback: Seq::empty(),
        style: Style::FirstText,
    }
}

/// The rules of the documentation assistant's talks.
pub fn rules(model: &str) -> (r: Rules)
    ensures
        r@ == docs_rules(model@),
{
    Rules {
        model: text(model),
        tools: definitions(),
        turns: MAX_TURNS,
        fallback: String::new(),
        style: Style::FirstText,
    }
}

/// The event that a task begins with.
pub fn greeting() -> (r: Event)
    ensures
        r@ == EventView::Working(None),
{
    Event::Working(None)
}

/// Begins the talk about what the user has asked for.
pub fn begin(rules: &Rules, user_text: &str) -> (r: Turn)
    ensures
        r@ == opened(rules@, SYSTEM_PROMPT@, user_text@),
{
    open(rules, SYSTEM_PROMPT, user_text)
}

/// A documentation task asks for five completions at most.
pub proof fn docs_task_is_bounded(model: Seq<char>, user_text: Seq<char>, heard: Seq<Heard>)
    ensures
        chats(
            docs_rules(model),
            opened(docs_rules(model), SYSTEM_PROMPT@, user_text),
            heard,
        ) <= 5,
{
    completions_are_bounded(docs_rules(model), SYSTEM_PROMPT@, user_text, heard);
}

// ─── Card ───────────────────────────────────────────────────────────────────

/// What the agent can do.
pub open spec fn skills_view() -> Seq<SkillView> {
    let lookup = skill_of(
        "docs-lookup"@,
        "Docs Lookup"@,
        "Look up documentation for any library across Rust, JS, and Python ecosystems"@,
        ("docs"@, "rust"@, "npm"@),
        None,
    );
    seq![SkillView { tags: lookup.tags.push("python"@), ..lookup }]
}

/// What the agent says of itself.
pub open spec fn docs_card(port: u16) -> CardView {
    streaming_card(
        "Documentation Assistant"@,
        "Version-accurate documentation lookup across crates.io, npm, PyPI, and GitHub"@,
        "1.0.0"@,
        skills_view(),
        port,
    )
}

/// What the agent says of itself.
pub fn agent_card(port: u16) -> (r: Card)
    ensures
        r@ == docs_card(port),
{
    let mut lookup = skill(
        "docs-lookup",
        "Docs Lookup",
        "Look up documentation for any library across Rust, JS, and Python ecosystems",
        ("docs", "rust", "npm"),
        None,
    );
    let ghost tags = views(lookup.tags@);
    lookup.tags.push(text("python"));
    assert(views(lookup.tags@) =~= tags.push("python"@));
    let mut skills: Vec<Skill> = Vec::new();
    skills.push(lookup);
    assert(skill_views(skills@) =~= skills_view());
    make_card(
        "Documentation Assistant",
        "Version-accurate documentation lookup across crates.io, npm, PyPI, and GitHub",
        "1.0.0",
        skills,
        port,
    )
}

} // verus!
