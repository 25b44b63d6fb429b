//! Surveys of a window of time: commits, changed files and pull requests, over several
//! repositories.

use vstd::prelude::*;

use super::files::{
    all_fit, by_churn, churns_fit, file_stats, list_stats, render_patches, rendered, sort_by_churn,
};
use super::github::{
    can_shorten, ensure_success, has_short, json_in, list_in, no_params, read_list, repo_parts,
    repo_url, reply_views, short, short_hash, split_repo, url_in, with_param, Expect, Progress,
    ProgressView, Reply, ReplyView, Request, RequestView,
};
use crate::http::{show, shown};
use crate::json::make::no_items;
use crate::json::{copies, json_views, Json, JsonView};
use crate::text::lines::{first_line, first_line_of};
use crate::text::{
    count_text, decimal, decimal_text, join, join_texts, outcome, prefixed, text, views,
};

verus! {

/// How many commits a page holds; a shorter page is the last one.
pub const COMMITS_PER_PAGE: usize = 100;

/// How many pages of commits are read at most.
pub const MAX_COMMIT_PAGES: u32 = 10;

// ─── Commits of a window ────────────────────────────────────────────────────

/// How the reading of commits goes on.
#[derive(Debug)]
pub enum Fetch {
    Ask(Request),
    /// The commits, how many of the replies were used, and whether there may be more commits than
    /// were read.
    Done { commits: Result<Vec<Json>, String>, used: usize, cut: bool },
}

/// How the reading of commits goes on.
#[verifier::ext_equal]
pub enum FetchView {
    Ask(RequestView),
    Done { commits: Result<Seq<JsonView>, Seq<char>>, used: nat, cut: bool },
}

impl View for Fetch {
    type V = FetchView;

    open spec fn view(&self) -> FetchView {
        match self {
            Fetch::Ask(request) => FetchView::Ask(request@),
            Fetch::Done { commits, used, cut } => FetchView::Done {
                commits: match commits {
                    Ok(items) => Ok(json_views(items@)),
                    Err(e) => Err(e@),
                },
                used: *used as nat,
                cut: *cut,
            },
        }
    }
}

/// The request for a page of commits.
pub open spec fn page_request(
    owner: Seq<char>,
    repo: Seq<char>,
    since: Seq<char>,
    page: nat,
) -> RequestView {
    RequestView {
        url: repo_url(owner, repo, "/commits"@),
        query: Seq::empty().push(("since"@, since)).push(("per_page"@, "100"@)).push(
            ("page"@, decimal(page)),
        ),
        expect: Expect::List,
    }
}

/// Whether a page may leave commits unread: it is the last one that may be read, and it is full.
pub open spec fn cuts_history(page: nat, commits: nat) -> bool {
    page >= MAX_COMMIT_PAGES && commits >= COMMITS_PER_PAGE
}

/// Whether page `page` with `commits` commits may leave commits unread.
pub fn is_cut(page: u32, commits: usize) -> (r: bool)
    ensures
        r == cuts_history(page as nat, commits as nat),
{
    page >= MAX_COMMIT_PAGES && commits >= COMMITS_PER_PAGE
}

/// How the reading of commits goes on from page `page` with the replies from there on: page after
/// page, until one is not full or the last page that may be read.
pub open spec fn fetched(
    owner: Seq<char>,
    repo: Seq<char>,
    since: Seq<char>,
    replies: Seq<ReplyView>,
    page: nat,
) -> FetchView
    decreases MAX_COMMIT_PAGES - page,
{
    if replies.len() == 0 {
        FetchView::Ask(page_request(owner, repo, since, page))
    } else {
        match list_in(replies[0], "GitHub commits API"@) {
            Err(e) => FetchView::Done { commits: Err(e), used: 1, cut: false },
            Ok(items) => if items.len() < COMMITS_PER_PAGE || page >= MAX_COMMIT_PAGES {
                FetchView::Done {
                    commits: Ok(items),
                    used: 1,
                    cut: cuts_history(page, items.len()),
                }
            } else {
                match fetched(owner, repo, since, replies.drop_first(), page + 1) {
                    FetchView::Ask(request) => FetchView::Ask(request),
                    FetchView::Done { commits, used, cut } => FetchView::Done {
                        commits: match commits {
                            Ok(rest) => Ok(items + rest),
                            Err(e) => Err(e),
                        },
                        used: used + 1,
                        cut,
                    },
                }
            },
        }
    }
}

/// At most ten pages are read, one reply each.
pub proof fn pages_are_bounded(
    owner: Seq<char>,
    repo: Seq<char>,
    since: Seq<char>,
    replies: Seq<ReplyView>,
    page: nat,
)
    requires
        1 <= page <= MAX_COMMIT_PAGES,
    ensures
        fetched(owner, repo, since, replies, page) matches FetchView::Done { used, .. } ==> 1
            <= used && used <= MAX_COMMIT_PAGES + 1 - page && used <= replies.len(),
    decreases MAX_COMMIT_PAGES - page,
{
    if replies.len() > 0 && page < MAX_COMMIT_PAGES {
        pages_are_bounded(owner, repo, since, replies.drop_first(), page + 1);
    }
}

/// No history is dropped unnoticed: where the commits are told, the page that was read last was
/// not full, so that there are no more, or they are told to be cut.
pub proof fn dropped_history_is_told(
    owner: Seq<char>,
    repo: Seq<char>,
    since: Seq<char>,
    replies: Seq<ReplyView>,
    page: nat,
)
    requires
        1 <= page <= MAX_COMMIT_PAGES,
    ensures
        fetched(owner, repo, since, replies, page) matches FetchView::Done {
            commits: Ok(_),
            used,
            cut,
        } ==> {
            &&& list_in(replies[used - 1], "GitHub commits API"@) matches Ok(last)
            &&& cut == (last.len() >= COMMITS_PER_PAGE)
            &&& cut == cuts_history((page + used - 1) as nat, last.len())
        },
    decreases MAX_COMMIT_PAGES - page,
{
    if replies.len() > 0 && page < MAX_COMMIT_PAGES {
        let rest = replies.drop_first();
        dropped_history_is_told(owner, repo, since, rest, page + 1);
        match fetched(owner, repo, since, rest, page + 1) {
            FetchView::Done { used, .. } => {
                pages_are_bounded(owner, repo, since, rest, page + 1);
                assert(rest[used - 1] == replies[used as int]);
            },
            FetchView::Ask(_) => {},
        }
    }
}

/// `head`, followed by `rest`.
fn joined(head: &Vec<Json>, rest: Vec<Json>) -> (r: Vec<Json>)
    ensures
        json_views(r@) == json_views(head@) + json_views(rest@),
{
    let ghost a = json_views(head@);
    let ghost b = json_views(rest@);
    let mut out = copies(head);
    let mut rest = rest;
    out.append(&mut rest);
    assert(json_views(out@) =~= a + b);
    out
}

/// Reads every commit on the default branch since `since`, page by page, so that a busy window is
/// not cut off after one page. There is a last page that may be read; where it is full, the commits
/// are told to be cut.
pub fn fetch_commits(
    owner: &str,
    repo: &str,
    since: &str,
    replies: &Vec<Reply>,
    from: usize,
    page: u32,
) -> (r: Fetch)
    requires
        from <= replies@.len(),
        1 <= page <= MAX_COMMIT_PAGES,
    ensures
        r@ == fetched(
            owner@,
            repo@,
            since@,
            reply_views(replies@).skip(from as int),
            page as nat,
        ),
        r matches Fetch::Done { used, .. } ==> from + used <= replies.len(),
    decreases MAX_COMMIT_PAGES - page,
{
    let ghost rest = reply_views(replies@).skip(from as int);
    if from == replies.len() {
        let query = with_param(no_params(), "since", since);
        let query = with_param(query, "per_page", "100");
        let number = decimal_text(page as u64);
        let query = with_param(query, "page", number.as_str());
        return Fetch::Ask(
            Request { url: url_in(owner, repo, "/commits"), query, expect: Expect::List },
        );
    }
    assert(rest[0] == replies@[from as int]@);
    assert(rest.drop_first() =~= reply_views(replies@).skip(from + 1));
    match read_list(&replies[from], "GitHub commits API") {
        Err(e) => Fetch::Done { commits: Err(e), used: 1, cut: false },
        Ok(items) => {
            assert(json_views(items@).len() == items@.len());
            if items.len() < COMMITS_PER_PAGE || page >= MAX_COMMIT_PAGES {
                let cut = is_cut(page, items.len());
                return Fetch::Done { commits: Ok(copies(items)), used: 1, cut };
            }
            match fetch_commits(owner, repo, since, replies, from + 1, page + 1) {
                Fetch::Ask(request) => Fetch::Ask(request),
                Fetch::Done { commits, used, cut } => Fetch::Done {
                    commits: match commits {
                        Ok(more) => Ok(joined(items, more)),
                        Err(e) => Err(e),
                    },
                    used: used + 1,
                    cut,
                },
            }
        },
    }
}

// ─── list_commits ───────────────────────────────────────────────────────────

/// The subject of a commit: the first line of its message.
pub open spec fn subject_of(commit: JsonView) -> Seq<char> {
    first_line(commit.at("commit"@).at("message"@).text_or(""@))
}

/// One line on a commit.
pub open spec fn commit_line(commit: JsonView) -> Seq<char> {
    "- "@ + short(commit.at("sha"@).text_or(""@)) + " "@ + subject_of(commit) + " ("@ + commit.at(
        "commit"@,
    ).at("author"@).at("name"@).text_or("unknown"@) + ", "@ + commit.at("commit"@).at(
        "author"@,
    ).at("date"@).text_or(""@) + ") "@ + commit.at("html_url"@).text_or(""@)
}

/// Whether each hash can be cut to its short form.
pub open spec fn hashes_cut(commits: Seq<JsonView>) -> bool {
    forall|i: int| 0 <= i < commits.len() ==> has_short((#[trigger] commits[i]).at("sha"@).text_or(""@))
}

/// What is reported of the commits of a repository.
pub open spec fn commits_report(
    owner: Seq<char>,
    repo: Seq<char>,
    since: Seq<char>,
    commits: Seq<JsonView>,
) -> Seq<char> {
    if commits.len() == 0 {
        "No commits to "@ + owner + "/"@ + repo + " since "@ + since + "."@
    } else {
        decimal(commits.len()) + " commit(s) to "@ + owner + "/"@ + repo + " since "@ + since
            + ":\n"@ + join(commits.map_values(|commit: JsonView| commit_line(commit)), "\n"@)
    }
}

/// How `list_commits` goes on for one repository.
pub open spec fn list_commits_progress(
    owner: Seq<char>,
    repo: Seq<char>,
    since: Seq<char>,
    replies: Seq<ReplyView>,
) -> ProgressView {
    match fetched(owner, repo, since, replies, 1) {
        FetchView::Ask(request) => ProgressView::Ask(request),
        FetchView::Done { commits, used, .. } => match commits {
            Err(e) => ProgressView::Done { outcome: Err(e), used },
            Ok(items) => if hashes_cut(items) {
                ProgressView::Done {
                    outcome: Ok(commits_report(owner, repo, since, items)),
                    used,
                }
            } else {
                ProgressView::Stuck
            },
        },
    }
}

/// The subject of a commit.
pub fn commit_subject(commit: &Json) -> (r: String)
    ensures
        r@ == subject_of(commit@),
{
    first_line_of(commit.at("commit").at("message").text_or(""))
}

/// One line on a commit.
fn show_commit(commit: &Json) -> (r: String)
    requires
        has_short(commit@.at("sha"@).text_or(""@)),
    ensures
        r@ == commit_line(commit@),
{
    let mut out = text("- ");
    let hash = short_hash(commit.at("sha").text_or(""));
    out.append(hash.as_str());
    out.append(" ");
    let subject = commit_subject(commit);
    out.append(subject.as_str());
    out.append(" (");
    out.append(commit.at("commit").at("author").at("name").text_or("unknown"));
    out.append(", ");
    out.append(commit.at("commit").at("author").at("date").text_or(""));
    out.append(") ");
    out.append(commit.at("html_url").text_or(""));
    out
}

/// Whether each hash can be cut to its short form.
fn can_shorten_all(commits: &Vec<Json>) -> (r: bool)
    ensures
        r == hashes_cut(json_views(commits@)),
{
    let ghost all = json_views(commits@);
    let mut i: usize = 0;
    while i < commits.len()
        invariant
            i <= commits@.len(),
            all == json_views(commits@),
            forall|j: int|
                0 <= j < i ==> has_short((#[trigger] all[j]).at("sha"@).text_or(""@)),
        decreases commits@.len() - i,
    {
        assert(all[i as int] == commits@[i as int]@);
        if !can_shorten(commits[i].at("sha").text_or("")) {
            return false;
        }
        i += 1;
    }
    true
}

/// What is reported of the commits of a repository.
pub fn report_commits(owner: &str, repo: &str, since: &str, commits: &Vec<Json>) -> (r: String)
    requires
        hashes_cut(json_views(commits@)),
    ensures
        r@ == commits_report(owner@, repo@, since@, json_views(commits@)),
{
    let ghost all = json_views(commits@);
    assert(all.len() == commits@.len());
    if commits.len() == 0 {
        let mut out = text("No commits to ");
        out.append(owner);
        out.append("/");
        out.append(repo);
        out.append(" since ");
        out.append(since);
        out.append(".");
        return out;
    }
    let ghost wanted = all.map_values(|commit: JsonView| commit_line(commit));
    let mut lines: Vec<String> = Vec::new();
    let mut i: usize = 0;
    assert(views(lines@) =~= wanted.take(0));
    while i < commits.len()
        invariant
            i <= commits@.len(),
            all == json_views(commits@),
            hashes_cut(all),
            wanted == all.map_values(|commit: JsonView| commit_line(commit)),
            views(lines@) == wanted.take(i as int),
        decreases commits@.len() - i,
    {
        let ghost before = views(lines@);
        assert(all[i as int] == commits@[i as int]@);
        lines.push(show_commit(&commits[i]));
        assert(views(lines@) =~= before.push(wanted[i as int]));
        i += 1;
        assert(views(lines@) =~= wanted.take(i as int));
    }
    assert(wanted.take(i as int) =~= wanted);
    let mut out = count_text(commits.len());
    out.append(" commit(s) to ");
    out.append(owner);
    out.append("/");
    out.append(repo);
    out.append(" since ");
    out.append(since);
    out.append(":\n");
    let joined_lines = join_texts(&lines, "\n");
    out.append(joined_lines.as_str());
    out
}

/// How `list_commits` goes on for one repository.
pub fn list_commits_for(
    owner: &str,
    repo: &str,
    since: &str,
    replies: &Vec<Reply>,
    from: usize,
) -> (r: Progress)
    requires
        from <= replies@.len(),
    ensures
        r@ == list_commits_progress(
            owner@,
            repo@,
            since@,
            reply_views(replies@).skip(from as int),
        ),
        r matches Progress::Done { used, .. } ==> from + used <= replies.len(),
{
    match fetch_commits(owner, repo, since, replies, from, 1) {
        Fetch::Ask(request) => Progress::Ask(request),
        Fetch::Done { commits, used, .. } => match commits {
            Err(e) => Progress::Done { outcome: Err(e), used },
            Ok(items) => if can_shorten_all(&items) {
                Progress::Done { outcome: Ok(report_commits(owner, repo, since, &items)), used }
            } else {
                Progress::Stuck
            },
        },
    }
}

// ─── compare_diff ───────────────────────────────────────────────────────────

/// The request for one commit.
pub open spec fn commit_request(owner: Seq<char>, repo: Seq<char>, hash: Seq<char>) -> RequestView {
    RequestView {
        url: repo_url(owner, repo, "/commits/"@ + hash),
        query: Seq::empty(),
        expect: Expect::Json,
    }
}

/// The request for what lies between two commits.
pub open spec fn compare_request(
    owner: Seq<char>,
    repo: Seq<char>,
    base: Seq<char>,
    head: Seq<char>,
) -> RequestView {
    RequestView {
        url: repo_url(owner, repo, "/compare/"@ + base + "..."@ + head),
        query: Seq::empty(),
        expect: Expect::Json,
    }
}

/// The request for one commit.
pub fn ask_commit(owner: &str, repo: &str, hash: &str) -> (r: Request)
    ensures
        r@ == commit_request(owner@, repo@, hash@),
{
    let rest = prefixed("/commits/", hash);
    Request { url: url_in(owner, repo, rest.as_str()), query: no_params(), expect: Expect::Json }
}

/// The hash of the first parent of a commit; a first commit has none.
pub open spec fn parent_of(commit: JsonView) -> Option<Seq<char>> {
    commit.at("parents"@).first().at("sha"@).text()
}

/// The newest and the earliest of the commits, which come newest first.
pub open spec fn ends_of(commits: Seq<JsonView>) -> Result<(Seq<char>, Seq<char>), Seq<char>> {
    match commits[0].at("sha"@).text() {
        None => Err("missing head hash"@),
        Some(head) => match commits.last().at("sha"@).text() {
            None => Err("missing earliest hash"@),
            Some(earliest) => Ok((head, earliest)),
        },
    }
}

/// What is reported of the changes between two commits.
pub open spec fn diff_report(
    since: Seq<char>,
    base: Seq<char>,
    head: Seq<char>,
    count: nat,
    files: Seq<JsonView>,
) -> Seq<char> {
    if files.len() == 0 {
        decimal(count) + " commit(s) since "@ + since + ", but no file changes reported."@
    } else {
        let sorted = by_churn(files);
        let patches = join(rendered(sorted).pieces, "\n\n"@);
        let stats = decimal(sorted.len()) + " file(s) changed since "@ + since + " (compare "@
            + short(base) + "..."@ + short(head) + ", "@ + decimal(count) + " commit(s)):\n"@
            + file_stats(sorted);
        let shown = if patches.len() == 0 {
            stats
        } else {
            stats + "\n\nPatches (largest changes first, may be truncated):\n\n"@ + patches
        };
        if rendered(sorted).omitted == 0 {
            shown
        } else {
            shown + "\n\n("@ + decimal(rendered(sorted).omitted)
                + " more file(s) changed, patch not shown due to size budget)"@
        }
    }
}

/// Whether the changes can be reported: hashes can be cut, and changed lines counted.
pub open spec fn diff_reportable(base: Seq<char>, head: Seq<char>, files: Seq<JsonView>) -> bool {
    files.len() > 0 ==> all_fit(files) && has_short(base) && has_short(head)
}

/// How `compare_diff` goes on for one repository once its commits are known: the parent of the
/// earliest commit is looked up, so that the changes of that commit are seen too; then the
/// changes between that and the newest commit. A first commit stands in for its own parent.
pub open spec fn diff_progress(
    owner: Seq<char>,
    repo: Seq<char>,
    since: Seq<char>,
    commits: Seq<JsonView>,
    replies: Seq<ReplyView>,
    used: nat,
) -> ProgressView {
    match ends_of(commits) {
        Err(e) => ProgressView::Done { outcome: Err(e), used },
        Ok((head, earliest)) => if replies.len() == 0 {
            ProgressView::Ask(commit_request(owner, repo, earliest))
        } else {
            match json_in(replies[0], "GitHub commit API"@) {
                Err(e) => ProgressView::Done { outcome: Err(e), used: used + 1 },
                Ok(commit) => {
                    let base = match parent_of(commit) {
                        Some(hash) => hash,
                        None => earliest,
                    };
                    if replies.len() == 1 {
                        ProgressView::Ask(compare_request(owner, repo, base, head))
                    } else {
                        match json_in(replies[1], "GitHub compare API"@) {
                            Err(e) => ProgressView::Done { outcome: Err(e), used: used + 2 },
                            Ok(comparison) => {
                                let files = comparison.at("files"@).items_or_none();
                                if diff_reportable(base, head, files) {
                                    ProgressView::Done {
                                        outcome: Ok(
                                            diff_report(since, base, head, commits.len(), files),
                                        ),
                                        used: used + 2,
                                    }
                                } else {
                                    ProgressView::Stuck
                                }
                            },
                        }
                    }
                },
            }
        },
    }
}

/// How `compare_diff` goes on for one repository.
pub open spec fn compare_diff_progress(
    owner: Seq<char>,
    repo: Seq<char>,
    since: Seq<char>,
    replies: Seq<ReplyView>,
) -> ProgressView {
    match fetched(owner, repo, since, replies, 1) {
        FetchView::Ask(request) => ProgressView::Ask(request),
        FetchView::Done { commits, used, .. } => match commits {
            Err(e) => ProgressView::Done { outcome: Err(e), used },
            Ok(items) => if items.len() == 0 {
                ProgressView::Done {
                    outcome: Ok("No commits since "@ + since + ", nothing to diff."@),
                    used,
                }
            } else {
                diff_progress(owner, repo, since, items, replies.skip(used as int), used)
            },
        },
    }
}

/// What is reported of the changes between two commits.
pub fn report_diff(
    since: &str,
    base: &str,
    head: &str,
    count: usize,
    files: &Vec<Json>,
) -> (r: String)
    requires
        diff_reportable(base@, head@, json_views(files@)),
    ensures
        r@ == diff_report(since@, base@, head@, count as nat, json_views(files@)),
{
    assert(json_views(files@).len() == files@.len());
    if files.len() == 0 {
        let mut out = count_text(count);
        out.append(" commit(s) since ");
        out.append(since);
        out.append(", but no file changes reported.");
        return out;
    }
    let sorted = sort_by_churn(files);
    assert(json_views(sorted@).len() == sorted@.len());
    let (patches, omitted) = render_patches(&sorted);
    let mut out = count_text(sorted.len());
    out.append(" file(s) changed since ");
    out.append(since);
    out.append(" (compare ");
    let short_base = short_hash(base);
    out.append(short_base.as_str());
    out.append("...");
    let short_head = short_hash(head);
    out.append(short_head.as_str());
    out.append(", ");
    let number = count_text(count);
    out.append(number.as_str());
    out.append(" commit(s)):\n");
    let stats = list_stats(&sorted);
    out.append(stats.as_str());
    if !patches.as_str().is_empty() {
        out.append("\n\nPatches (largest changes first, may be truncated):\n\n");
        out.append(patches.as_str());
    }
    if omitted > 0 {
        out.append("\n\n(");
        let left_out = count_text(omitted);
        out.append(left_out.as_str());
        out.append(" more file(s) changed, patch not shown due to size budget)");
    }
    out
}

/// How `compare_diff` goes on for one repository once its commits are known.
fn diff_step(
    owner: &str,
    repo: &str,
    since: &str,
    commits: &Vec<Json>,
    replies: &Vec<Reply>,
    from: usize,
    used: usize,
) -> (r: Progress)
    requires
        from + used <= replies.len(),
        commits@.len() > 0,
    ensures
        r@ == diff_progress(
            owner@,
            repo@,
            since@,
            json_views(commits@),
            reply_views(replies@).skip(from + used),
            used as nat,
        ),
        r matches Progress::Done { used, .. } ==> from + used <= replies.len(),
{
    let ghost rest = reply_views(replies@).skip(from + used);
    let ghost all = json_views(commits@);
    assert(all[0] == commits@[0]@);
    assert(all.last() == commits@[commits@.len() - 1]@);
    let head = match commits[0].at("sha").as_text() {
        None => {
            return Progress::Done { outcome: Err(text("missing head hash")), used };
        },
        Some(hash) => hash,
    };
    let earliest = match commits[commits.len() - 1].at("sha").as_text() {
        None => {
            return Progress::Done { outcome: Err(text("missing earliest hash")), used };
        },
        Some(hash) => hash,
    };
    let at: usize = from + used;
    if at == replies.len() {
        return Progress::Ask(ask_commit(owner, repo, earliest));
    }
    assert(rest[0] == replies@[at as int]@);
    let commit = match ensure_success(&replies[at], "GitHub commit API") {
        Err(e) => {
            return Progress::Done { outcome: Err(e), used: used + 1 };
        },
        Ok(j) => j,
    };
    let base = match commit.at("parents").first().at("sha").as_text() {
        Some(hash) => hash,
        None => earliest,
    };
    if at + 1 == replies.len() {
        let mut range = text("/compare/");
        range.append(base);
        range.append("...");
        range.append(head);
        return Progress::Ask(
            Request {
                url: url_in(owner, repo, range.as_str()),
                query: no_params(),
                expect: Expect::Json,
            },
        );
    }
    assert(rest[1] == replies@[at + 1]@);
    let comparison = match ensure_success(&replies[at + 1], "GitHub compare API") {
        Err(e) => {
            return Progress::Done { outcome: Err(e), used: used + 2 };
        },
        Ok(j) => j,
    };
    let none = no_items();
    let files = match comparison.at("files").as_items() {
        Some(files) => files,
        None => &none,
    };
    assert(json_views(files@) == comparison@.at("files"@).items_or_none());
    assert(json_views(files@).len() == files@.len());
    if files.len() == 0 || churns_fit(files) && can_shorten(base) && can_shorten(head) {
        Progress::Done {
            outcome: Ok(report_diff(since, base, head, commits.len(), files)),
            used: used + 2,
        }
    } else {
        Progress::Stuck
    }
}

/// How `compare_diff` goes on for one repository.
pub fn compare_diff_for(
    owner: &str,
    repo: &str,
    since: &str,
    replies: &Vec<Reply>,
    from: usize,
) -> (r: Progress)
    requires
        from <= replies@.len(),
    ensures
        r@ == compare_diff_progress(
            owner@,
            repo@,
            since@,
            reply_views(replies@).skip(from as int),
        ),
        r matches Progress::Done { used, .. } ==> from + used <= replies.len(),
{
    match fetch_commits(owner, repo, since, replies, from, 1) {
        Fetch::Ask(request) => Progress::Ask(request),
        Fetch::Done { commits, used, .. } => match commits {
            Err(e) => Progress::Done { outcome: Err(e), used },
            Ok(items) => {
                assert(json_views(items@).len() == items@.len());
                if items.len() == 0 {
                    let mut out = text("No commits since ");
                    out.append(since);
                    out.append(", nothing to diff.");
                    return Progress::Done { outcome: Ok(out), used };
                }
                assert(reply_views(replies@).skip(from as int).skip(used as int) =~= reply_views(
                    replies@,
                ).skip(from + used));
                diff_step(owner, repo, since, &items, replies, from, used)
            },
        },
    }
}

// ─── search_prs ─────────────────────────────────────────────────────────────

/// The request for the pull requests of a window.
pub open spec fn prs_request(owner: Seq<char>, repo: Seq<char>, since: Seq<char>) -> RequestView {
    RequestView {
        url: "https://api.github.com/search/issues"@,
        query: Seq::empty().push(
            ("q"@, "repo:"@ + owner + "/"@ + repo + " is:pr updated:>="@ + since),
        ).push(("sort"@, "updated"@)).push(("order"@, "desc"@)).push(("per_page"@, "50"@)),
        expect: Expect::Json,
    }
}

/// What has become of a pull request: when it was opened, and when merged or else closed.
pub open spec fn lifecycle(pr: JsonView) -> Seq<Seq<char>> {
    let opened = Seq::empty().push("state="@ + pr.at("state"@).text_or(""@)).push(
        "created="@ + pr.at("created_at"@).text_or(""@),
    );
    match pr.at("pull_request"@).at("merged_at"@).text() {
        Some(merged) => opened.push("merged="@ + merged),
        None => match pr.at("closed_at"@).text() {
            Some(closed) => opened.push("closed="@ + closed + " (not merged)"@),
            None => opened,
        },
    }
}

/// One line on a pull request.
pub open spec fn pr_line(pr: JsonView) -> Seq<char> {
    "- #"@ + decimal(pr.at("number"@).natural_or(0) as nat) + " "@ + pr.at("title"@).text_or(""@)
        + " ["@ + join(lifecycle(pr), ", "@) + "] "@ + pr.at("html_url"@).text_or(""@)
}

/// What is reported of the pull requests of a repository.
pub open spec fn prs_report(
    owner: Seq<char>,
    repo: Seq<char>,
    since: Seq<char>,
    prs: Seq<JsonView>,
) -> Seq<char> {
    if prs.len() == 0 {
        "No PR activity on "@ + owner + "/"@ + repo + " since "@ + since + "."@
    } else {
        decimal(prs.len()) + " PR(s) with activity since "@ + since + ":\n"@ + join(
            prs.map_values(|pr: JsonView| pr_line(pr)),
            "\n"@,
        )
    }
}

/// How `search_prs` goes on for one repository.
pub open spec fn search_prs_progress(
    owner: Seq<char>,
    repo: Seq<char>,
    since: Seq<char>,
    replies: Seq<ReplyView>,
) -> ProgressView {
    if replies.len() == 0 {
        ProgressView::Ask(prs_request(owner, repo, since))
    } else {
        ProgressView::Done {
            outcome: match json_in(replies[0], "GitHub PR search API"@) {
                Err(e) => Err(e),
                Ok(results) => Ok(
                    prs_report(owner, repo, since, results.at("items"@).items_or_none()),
                ),
            },
            used: 1,
        }
    }
}

/// One line on a pull request: its state and its timestamps. Whether it was opened, merged or
/// closed within a window is left to the reader.
pub fn format_pr_activity(pr: &Json) -> (r: String)
    ensures
        r@ == pr_line(pr@),
{
    let mut stages: Vec<String> = Vec::new();
    stages.push(prefixed("state=", pr.at("state").text_or("")));
    stages.push(prefixed("created=", pr.at("created_at").text_or("")));
    match pr.at("pull_request").at("merged_at").as_text() {
        Some(merged) => {
            stages.push(prefixed("merged=", merged));
        },
        None => match pr.at("closed_at").as_text() {
            Some(closed) => {
                let mut stage = text("closed=");
                stage.append(closed);
                stage.append(" (not merged)");
                stages.push(stage);
            },
            None => {},
        },
    }
    assert(views(stages@) =~= lifecycle(pr@));
    let mut out = text("- #");
    let number = decimal_text(pr.at("number").natural_or(0));
    out.append(number.as_str());
    out.append(" ");
    out.append(pr.at("title").text_or(""));
    out.append(" [");
    let joined_stages = join_texts(&stages, ", ");
    out.append(joined_stages.as_str());
    out.append("] ");
    out.append(pr.at("html_url").text_or(""));
    out
}

/// What is reported of the pull requests of a repository.
pub fn report_prs(owner: &str, repo: &str, since: &str, prs: &Vec<Json>) -> (r: String)
    ensures
        r@ == prs_report(owner@, repo@, since@, json_views(prs@)),
{
    let ghost all = json_views(prs@);
    assert(all.len() == prs@.len());
    if prs.len() == 0 {
        let mut out = text("No PR activity on ");
        out.append(owner);
        out.append("/");
        out.append(repo);
        out.append(" since ");
        out.append(since);
        out.append(".");
        return out;
    }
    let ghost wanted = all.map_values(|pr: JsonView| pr_line(pr));
    let mut lines: Vec<String> = Vec::new();
    let mut i: usize = 0;
    assert(views(lines@) =~= wanted.take(0));
    while i < prs.len()
        invariant
            i <= prs@.len(),
            all == json_views(prs@),
            wanted == all.map_values(|pr: JsonView| pr_line(pr)),
            views(lines@) == wanted.take(i as int),
        decreases prs@.len() - i,
    {
        let ghost before = views(lines@);
        lines.push(format_pr_activity(&prs[i]));
        assert(wanted[i as int] == pr_line(prs@[i as int]@));
        assert(views(lines@) =~= before.push(wanted[i as int]));
        i += 1;
        assert(views(lines@) =~= wanted.take(i as int));
    }
    assert(wanted.take(i as int) =~= wanted);
    let mut out = count_text(prs.len());
    out.append(" PR(s) with activity since ");
    out.append(since);
    out.append(":\n");
    let joined_lines = join_texts(&lines, "\n");
    out.append(joined_lines.as_str());
    out
}

/// How `search_prs` goes on for one repository.
pub fn search_prs_for(
    owner: &str,
    repo: &str,
    since: &str,
    replies: &Vec<Reply>,
    from: usize,
) -> (r: Progress)
    requires
        from <= replies@.len(),
    ensures
        r@ == search_prs_progress(
            owner@,
            repo@,
            since@,
            reply_views(replies@).skip(from as int),
        ),
        r matches Progress::Done { used, .. } ==> from + used <= replies.len(),
{
    if from == replies.len() {
        let mut q = text("repo:");
        q.append(owner);
        q.append("/");
        q.append(repo);
        q.append(" is:pr updated:>=");
        q.append(since);
        let query = with_param(no_params(), "q", q.as_str());
        let query = with_param(query, "sort", "updated");
        let query = with_param(query, "order", "desc");
        let query = with_param(query, "per_page", "50");
        return Progress::Ask(
            Request {
                url: text("https://api.github.com/search/issues"),
                query,
                expect: Expect::Json,
            },
        );
    }
    assert(reply_views(replies@).skip(from as int)[0] == replies@[from as int]@);
    match ensure_success(&replies[from], "GitHub PR search API") {
        Err(e) => Progress::Done { outcome: Err(e), used: 1 },
        Ok(results) => {
            let none = no_items();
            let prs = match results.at("items").as_items() {
                Some(items) => items,
                None => &none,
            };
            assert(json_views(prs@) == results@.at("items"@).items_or_none());
            Progress::Done { outcome: Ok(report_prs(owner, repo, since, prs)), used: 1 }
        },
    }
}

// ─── Several repositories ───────────────────────────────────────────────────

/// What is asked about each repository.
#[derive(Debug, Clone, Copy, PartialEq, Eq, Structural)]
pub enum Survey {
    Commits,
    Diff,
    PullRequests,
}

/// How a survey goes on for one repository.
pub open spec fn survey_progress(
    survey: Survey,
    owner: Seq<char>,
    repo: Seq<char>,
    since: Seq<char>,
    replies: Seq<ReplyView>,
) -> ProgressView {
    match survey {
        Survey::Commits => list_commits_progress(owner, repo, since, replies),
        Survey::Diff => compare_diff_progress(owner, repo, since, replies),
        Survey::PullRequests => search_prs_progress(owner, repo, since, replies),
    }
}

/// How a survey goes on for one reference to a repository; a reference that is none is an error
/// of its own.
pub open spec fn reference_progress(
    survey: Survey,
    repo_ref: Seq<char>,
    since: Seq<char>,
    replies: Seq<ReplyView>,
) -> ProgressView {
    match repo_parts(repo_ref) {
        Err(e) => ProgressView::Done { outcome: Err(e), used: 0 },
        Ok((owner, name)) => survey_progress(survey, owner, name, since, replies),
    }
}

/// The section of a report on one repository.
pub open spec fn section(repo_ref: Seq<char>, outcome: Result<Seq<char>, Seq<char>>) -> Seq<char> {
    "### "@ + repo_ref + "\n"@ + shown(outcome)
}

/// How a survey of several repositories goes on.
#[verifier::ext_equal]
pub enum Sections {
    Ask(RequestView),
    Done(Seq<Seq<char>>),
    Stuck,
}

/// The sections in front of others.
pub open spec fn preceded(head: Seq<Seq<char>>, rest: Sections) -> Sections {
    match rest {
        Sections::Done(tail) => Sections::Done(head + tail),
        _ => rest,
    }
}

/// How a survey of several repositories goes on: one after the other, whatever became of those
/// before.
pub open spec fn sections(
    survey: Survey,
    repos: Seq<Seq<char>>,
    since: Seq<char>,
    replies: Seq<ReplyView>,
) -> Sections
    decreases repos.len(),
{
    if repos.len() == 0 {
        Sections::Done(Seq::empty())
    } else {
        match reference_progress(survey, repos[0], since, replies) {
            ProgressView::Ask(request) => Sections::Ask(request),
            ProgressView::Stuck => Sections::Stuck,
            ProgressView::Done { outcome, used } => preceded(
                seq![section(repos[0], outcome)],
                sections(survey, repos.drop_first(), since, replies.skip(used as int)),
            ),
        }
    }
}

/// How an operation goes on that ends in a text.
#[derive(Debug)]
pub enum Step {
    Ask(Request),
    Done(String),
    Stuck,
}

/// How an operation goes on that ends in a text.
#[verifier::ext_equal]
pub enum StepView {
    Ask(RequestView),
    Done(Seq<char>),
    Stuck,
}

impl View for Step {
    type V = StepView;

    open spec fn view(&self) -> StepView {
        match self {
            Step::Ask(request) => StepView::Ask(request@),
            Step::Done(s) => StepView::Done(s@),
            Step::Stuck => StepView::Stuck,
        }
    }
}

/// How a survey of several repositories goes on.
pub open spec fn survey_step(
    survey: Survey,
    repos: Seq<Seq<char>>,
    since: Seq<char>,
    replies: Seq<ReplyView>,
) -> StepView {
    match sections(survey, repos, since, replies) {
        Sections::Ask(request) => StepView::Ask(request),
        Sections::Stuck => StepView::Stuck,
        Sections::Done(all) => StepView::Done(join(all, "\n\n"@)),
    }
}

/// How a survey goes on for one reference to a repository.
fn one_repo(
    survey: Survey,
    repo_ref: &str,
    since: &str,
    replies: &Vec<Reply>,
    from: usize,
) -> (r: Progress)
    requires
        from <= replies@.len(),
    ensures
        r@ == reference_progress(
            survey,
            repo_ref@,
            since@,
            reply_views(replies@).skip(from as int),
        ),
        r matches Progress::Done { used, .. } ==> from + used <= replies.len(),
{
    match split_repo(repo_ref) {
        Err(e) => Progress::Done { outcome: Err(e), used: 0 },
        Ok((owner, name)) => match survey {
            Survey::Commits => list_commits_for(
                owner.as_str(),
                name.as_str(),
                since,
                replies,
                from,
            ),
            Survey::Diff => compare_diff_for(owner.as_str(), name.as_str(), since, replies, from),
            Survey::PullRequests => search_prs_for(
                owner.as_str(),
                name.as_str(),
                since,
                replies,
                from,
            ),
        },
    }
}

/// Surveys every repository and puts the sections on them together. What goes wrong with one
/// repository stands in its section and does not end the survey.
pub fn per_repo(survey: Survey, repos: &Vec<String>, since: &str, replies: &Vec<Reply>) -> (r: Step)
    ensures
        r@ == survey_step(survey, views(repos@), since@, reply_views(replies@)),
{
    let ghost refs = views(repos@);
    let ghost all = reply_views(replies@);
    let ghost whole = sections(survey, refs, since@, all);
    let mut parts: Vec<String> = Vec::new();
    let mut from: usize = 0;
    let mut i: usize = 0;
    assert(refs.skip(0) =~= refs);
    assert(all.skip(0) =~= all);
    assert(views(parts@) =~= Seq::empty());
    proof {
        match whole {
            Sections::Done(tail) => {
                assert(Seq::<Seq<char>>::empty() + tail =~= tail);
            },
            _ => {},
        }
    }
    while i < repos.len()
        invariant
            i <= repos@.len(),
            from <= replies@.len(),
            refs == views(repos@),
            all == reply_views(replies@),
            whole == sections(survey, refs, since@, all),
            preceded(
                views(parts@),
                sections(survey, refs.skip(i as int), since@, all.skip(from as int)),
            ) == whole,
        decreases repos@.len() - i,
    {
        let ghost before = views(parts@);
        let ghost here = refs.skip(i as int);
        assert(here[0] == repos@[i as int]@);
        assert(here.drop_first() =~= refs.skip(i + 1));
        match one_repo(survey, repos[i].as_str(), since, replies, from) {
            Progress::Ask(request) => {
                return Step::Ask(request);
            },
            Progress::Stuck => {
                return Step::Stuck;
            },
            Progress::Done { outcome: result, used } => {
                let mut part = text("### ");
                part.append(repos[i].as_str());
                part.append("\n");
                let body = show(result);
                part.append(body.as_str());
                let ghost added = part@;
                parts.push(part);
                assert(views(parts@) =~= before.push(added));
                assert(all.skip(from as int).skip(used as int) =~= all.skip(from + used));
                proof {
                    let rest = sections(survey, refs.skip(i + 1), since@, all.skip(from + used));
                    match rest {
                        Sections::Done(tail) => {
                            assert(before + (seq![added] + tail) =~= before.push(added) + tail);
                        },
                        _ => {},
                    }
                }
                from = from + used;
            },
        }
        i += 1;
    }
    assert(refs.skip(i as int) =~= Seq::empty());
    assert(views(parts@) + Seq::<Seq<char>>::empty() =~= views(parts@));
    Step::Done(join_texts(&parts, "\n\n"))
}

/// Commits since `since` on the default branch of each repository, one section each.
pub fn list_commits(repos: &Vec<String>, since: &str, replies: &Vec<Reply>) -> (r: Step)
    ensures
        r@ == survey_step(Survey::Commits, views(repos@), since@, reply_views(replies@)),
{
    per_repo(Survey::Commits, repos, since, replies)
}

/// The changes of all commits since `since`, file by file, one section per repository.
pub fn compare_diff(repos: &Vec<String>, since: &str, replies: &Vec<Reply>) -> (r: Step)
    ensures
        r@ == survey_step(Survey::Diff, views(repos@), since@, reply_views(replies@)),
{
    per_repo(Survey::Diff, repos, since, replies)
}

/// Pull requests with activity since `since`, one section per repository.
pub fn search_prs(repos: &Vec<String>, since: &str, replies: &Vec<Reply>) -> (r: Step)
    ensures
        r@ == survey_step(Survey::PullRequests, views(repos@), since@, reply_views(replies@)),
{
    per_repo(Survey::PullRequests, repos, since, replies)
}

/// Whether `t` is a section on the repository, whatever became of it.
pub open spec fn is_section(t: Seq<char>, repo_ref: Seq<char>) -> bool {
    exists|outcome: Result<Seq<char>, Seq<char>>| t == #[trigger] section(repo_ref, outcome)
}

/// A survey that is done has a section for each repository, in order, under its reference; what
/// went wrong with one leaves the others their sections.
pub proof fn every_repo_has_a_section(
    survey: Survey,
    repos: Seq<Seq<char>>,
    since: Seq<char>,
    replies: Seq<ReplyView>,
)
    ensures
        sections(survey, repos, since, replies) matches Sections::Done(all) ==> {
            &&& all.len() == repos.len()
            &&& forall|i: int| 0 <= i < repos.len() ==> is_section(#[trigger] all[i], repos[i])
        },
    decreases repos.len(),
{
    if repos.len() > 0 {
        match reference_progress(survey, repos[0], since, replies) {
            ProgressView::Done { outcome, used } => {
                let later = replies.skip(used as int);
                every_repo_has_a_section(survey, repos.drop_first(), since, later);
                match sections(survey, repos.drop_first(), since, later) {
                    Sections::Done(rest) => {
                        let all = seq![section(repos[0], outcome)] + rest;
                        assert forall|i: int| 0 <= i < repos.len() implies is_section(
                            #[trigger] all[i],
                            repos[i],
                        ) by {
                            if i > 0 {
                                assert(all[i] == rest[i - 1]);
                                assert(repos.drop_first()[i - 1] == repos[i]);
                            }
                        }
                    },
                    _ => {},
                }
            },
            _ => {},
        }
    }
}

} // verus!
