//! The instructions that steer a digest, and the times that stand in them.

use vstd::prelude::*;

use crate::text::laws::joined_parts_stand;
use crate::text::search::{contains, group_contained};
use crate::text::{join, join_texts, opt_view, prefixed, text, views};

verus! {

/// What the agent is for.
pub const PROMPT_OPENING: &'static str = "You are a repo-watch agent. You report on GitHub activity — commits, file-level \
diffs, and pull requests — since a point in time, and flag anything risky, across one or \
more repos in a single request. You MUST use your tools; never answer from memory.\n\n\
";

/// How the tools take repositories, up to the current time.
pub const PROMPT_TOOLS: &'static str = "\
The window-survey tools (list_commits, compare_diff, search_prs) take `repos` as a list of \
\"owner/name\" strings (e.g. [\"Nasiko-Labs/nasiko-cloud-rs\"]) — pass every repo the user \
asked about in one call. The per-commit tools (get_commit, read_file, find_references) take a \
single `repo` string.\n\n\
The current UTC time is ";

/// What the window is where none is given, up to its start.
pub const PROMPT_WINDOW: &'static str = ". If the user doesn't give an explicit time window, report \
on the last 12 hours — pass since=";

/// The steps of the work and the sections of the digest.
pub const PROMPT_STEPS: &'static str = " (ISO-8601) to time-windowed tool calls. Never \
guess the current time; use the values given here.\n\n\
Your job is a window digest with an automatic deep-dive on RISKY commits only. Follow these \
steps in order:\n\n\
STEP 1 — Survey the window. Call list_commits(repos, since) and search_prs(repos, since). \
Also call compare_diff(repos, since) for repos with commits, to see the changed files.\n\n\
STEP 2 — Identify RISKY commits. A commit is risky if it touches: auth/authorization code, \
secrets/credentials handling, database migrations (*.sql), dependency manifests \
(Cargo.toml/Cargo.lock, package.json, pyproject.toml), Dockerfiles, or CI workflows \
(.github/workflows/*). To attribute changed files to individual commits, call \
get_commit(repo, commit_hash) for each commit in the window (it returns that commit's file \
list + parent_hash cheaply). Commits touching none of those areas need NO deep-dive — the \
window summary is enough for them.\n\n\
STEP 3 — Deep-dive ONLY the risky commits. For each risky commit, for its SIGNIFICANT changed \
files (cap ~5 most-changed per commit — say when you rely on stats-only for the rest, never \
skip silently): call read_file(repo, path, git_ref) TWICE — at the commit hash (AFTER) and at \
parent_hash (BEFORE) — and read the real code, not just the patch. Then for each changed \
symbol call find_references(repo, symbol) to ground what else is impacted.\n\n\
Then respond with a markdown digest (note which repo each item belongs to when covering more \
than one). Sections:\n\
## New Commits\n\
One line per commit: short hash, message, author.\n\
## File-Level Changes\n\
Plain-English summary of the significant changes across the window.\n\
## PR Activity\n\
Classify each PR as opened, merged, or closed (not merged) within the window, from the \
created/merged/closed timestamps returned by search_prs.\n\
## Risk Flags & Deep-Dive\n\
For each risky commit, from the before/after you actually read: the exact symbol(s) changed, \
the change kind (signature / body / added / removed / type), the specific lines, and a precise \
summary — do not describe changes you didn't see in the code. Then an Impacted Files list: \
include a file ONLY if backed by evidence — a find_references hit for a changed symbol, OR a \
structural rule of this repo (an OSS `pub trait` under oss/*/src changing implies its EE \
implementor under ee/* must change; a new *.sql migration implies the models/queries reading \
those tables; an oss/server route change implies its oss/ui and oss/cli callers; a Cargo.toml \
dep bump implies dependent crates). Mark each \"must change\" (reference to a changed \
signature/removed symbol, or a structural rule) vs \"worth checking\". Never assert impact \
without a signal. If no commit is risky, say so plainly — don't invent risk.\n\n\
Just produce the digest as your reply — delivery (showing it in chat or posting it to Slack) \
is handled for you; do not worry about where it goes.\n\n\
If the user explicitly names a single commit, skip the window survey and deep-dive just that \
commit (get_commit → read_file at the commit hash and parent_hash → find_references).\n\n\
If there is no activity in the window at all, say so plainly instead of forcing the sections. \
You MUST use tools for every claim; never answer from memory.";

/// What `to_rfc3339` of chrono makes of a point in time, given in seconds since 1970 and
/// nanoseconds; none where the calendar does not reach that far.
pub uninterp spec fn rfc3339_text(secs: i64, nanos: u32) -> Option<Seq<char>>;

/// Calls `DateTime::from_timestamp` of chrono and `DateTime::to_rfc3339` on its result: the point
/// in time as RFC 3339 text, and none where there is no such point in the calendar. The text
/// depends on the point in time alone; how it is written is not said here.
#[verifier::external_body]
fn rfc3339(secs: i64, nanos: u32) -> (r: Option<String>)
    ensures
        opt_view(r) == rfc3339_text(secs, nanos),
{
    chrono::DateTime::from_timestamp(secs, nanos).map(|t| t.to_rfc3339())
}

/// A repository in quotation marks.
pub open spec fn quoted_repo(repo: Seq<char>) -> Seq<char> {
    "\""@ + repo + "\""@
}

/// The line on the repositories that are watched; empty where there are none.
pub open spec fn watch_line(repos: Seq<Seq<char>>) -> Seq<char> {
    if repos.len() == 0 {
        Seq::empty()
    } else {
        "If the user doesn't name any repos, use the configured watch list: ["@ + join(
            repos.map_values(|repo: Seq<char>| quoted_repo(repo)),
            ", "@,
        ) + "].\n"@
    }
}

/// The instructions, given the current time and the start of the window as texts.
pub open spec fn prompt_text(repos: Seq<Seq<char>>, now: Seq<char>, since: Seq<char>) -> Seq<char> {
    PROMPT_OPENING@ + watch_line(repos) + PROMPT_TOOLS@ + now + PROMPT_WINDOW@ + since
        + PROMPT_STEPS@
}

/// The line on the repositories that are watched.
fn default_line(repos: &Vec<String>) -> (r: String)
    ensures
        r@ == watch_line(views(repos@)),
{
    assert(views(repos@).len() == repos@.len());
    if repos.len() == 0 {
        return String::new();
    }
    let ghost all = views(repos@).map_values(|repo: Seq<char>| quoted_repo(repo));
    let mut marked: Vec<String> = Vec::new();
    let mut i: usize = 0;
    assert(views(marked@) =~= all.take(0));
    while i < repos.len()
        invariant
            i <= repos@.len(),
            all == views(repos@).map_values(|repo: Seq<char>| quoted_repo(repo)),
            views(marked@) == all.take(i as int),
        decreases repos@.len() - i,
    {
        let ghost before = views(marked@);
        let mut repo = text("\"");
        repo.append(repos[i].as_str());
        repo.append("\"");
        marked.push(repo);
        assert(views(marked@) =~= before.push(all[i as int]));
        i += 1;
        assert(views(marked@) =~= all.take(i as int));
    }
    assert(all.take(i as int) =~= all);
    let mut out = text("If the user doesn't name any repos, use the configured watch list: [");
    let joined = join_texts(&marked, ", ");
    out.append(joined.as_str());
    out.append("].\n");
    out
}

/// The instructions, given the current time and the start of the window as texts.
pub fn prompt_with(default_repos: &Vec<String>, now: &str, since: &str) -> (r: String)
    ensures
        r@ == prompt_text(views(default_repos@), now@, since@),
{
    let mut out = text(PROMPT_OPENING);
    let line = default_line(default_repos);
    out.append(line.as_str());
    out.append(PROMPT_TOOLS);
    out.append(now);
    out.append(PROMPT_WINDOW);
    out.append(since);
    out.append(PROMPT_STEPS);
    out
}

/// The instructions at a point in time: the window is that of the last twelve hours. None where
/// the calendar does not reach that far.
pub open spec fn prompt_at(repos: Seq<Seq<char>>, secs: i64, nanos: u32) -> Option<Seq<char>> {
    if secs - 43_200 < i64::MIN {
        None
    } else {
        match rfc3339_text(secs, nanos) {
            None => None,
            Some(now) => match rfc3339_text((secs - 43_200) as i64, nanos) {
                None => None,
                Some(since) => Some(prompt_text(repos, now, since)),
            },
        }
    }
}

/// The instructions that steer the digest, at the current time: the model never has to guess it.
pub fn system_prompt(default_repos: &Vec<String>, secs: i64, nanos: u32) -> (r: Option<String>)
    ensures
        opt_view(r) == prompt_at(views(default_repos@), secs, nanos),
{
    if secs < i64::MIN + 43_200 {
        return None;
    }
    match rfc3339(secs, nanos) {
        None => None,
        Some(now) => match rfc3339(secs - 43_200, nanos) {
            None => None,
            Some(since) => Some(prompt_with(default_repos, now.as_str(), since.as_str())),
        },
    }
}

/// The comment that a digest is posted with.
pub open spec fn comment_at(secs: i64, nanos: u32) -> Option<Seq<char>> {
    match rfc3339_text(secs, nanos) {
        None => None,
        Some(now) => Some("Repo digest — "@ + now),
    }
}

/// The comment that a digest is posted with. None where the calendar does not reach that far.
pub fn digest_comment(secs: i64, nanos: u32) -> (r: Option<String>)
    ensures
        opt_view(r) == comment_at(secs, nanos),
{
    match rfc3339(secs, nanos) {
        None => None,
        Some(now) => Some(prefixed("Repo digest — ", now.as_str())),
    }
}

/// The instructions name the current time as such, the time twelve hours before it as the start of
/// the window, and every repository of the watch list.
pub proof fn prompt_names_its_times(
    repos: Seq<Seq<char>>,
    secs: i64,
    nanos: u32,
    now: Seq<char>,
    since: Seq<char>,
    i: int,
)
    requires
        secs - 12 * 60 * 60 >= i64::MIN,
        rfc3339_text(secs, nanos) == Some(now),
        rfc3339_text((secs - 12 * 60 * 60) as i64, nanos) == Some(since),
    ensures
        prompt_at(repos, secs, nanos) matches Some(prompt) && {
            &&& contains(prompt, PROMPT_TOOLS@ + now)
            &&& contains(prompt, PROMPT_WINDOW@ + since)
            &&& 0 <= i < repos.len() ==> contains(prompt, "\""@ + repos[i] + "\""@)
        },
        comment_at(secs, nanos) matches Some(comment) && contains(comment, now),
{
    broadcast use group_contained;

    if 0 <= i < repos.len() {
        let parts = repos.map_values(|repo: Seq<char>| quoted_repo(repo));
        joined_parts_stand(parts, ", "@, i);
        assert(parts[i] == "\""@ + repos[i] + "\""@);
    }
}

} // verus!
