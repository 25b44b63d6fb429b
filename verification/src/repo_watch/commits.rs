//! A closer look at one repository: a commit, a file at a commit, and who refers to a symbol.

use vstd::prelude::*;

use super::files::{all_fit, by_churn, churns_fit, file_stats, list_stats, sort_by_churn};
use super::github::{
    ensure_success, explain_refusal, json_in, list_in, no_params, read_list, refusal, repo_parts,
    repo_url, reply_views, split_repo, url_in, with_param, Expect, Progress, ProgressView, Reply,
    ReplyView, Request, RequestView,
};
use super::surveys::{ask_commit, commit_request, commit_subject, subject_of};
use crate::json::make::no_items;
use crate::json::{json_views, Json, JsonView};
use crate::text::lines::{blank, is_blank};
use crate::text::width::{byte_count, byte_len, longer_than, prefix_within, safe_truncate};
use crate::text::{count_text, decimal, join, join_texts, opt_str, prefixed, text, utf8_text, views};

verus! {

/// The most bytes of a file that are shown.
pub const FILE_READ_BUDGET: usize = 60000;

// ─── get_commit ─────────────────────────────────────────────────────────────

/// The hash that is given, unless it is blank.
pub open spec fn given_hash(commit_hash: Option<Seq<char>>) -> Option<Seq<char>> {
    match commit_hash {
        Some(hash) => if is_blank(hash) {
            None
        } else {
            Some(hash)
        },
        None => None,
    }
}

/// The request for the newest commit.
pub open spec fn newest_request(owner: Seq<char>, repo: Seq<char>) -> RequestView {
    RequestView {
        url: repo_url(owner, repo, "/commits"@),
        query: Seq::empty().push(("per_page"@, "1"@)),
        expect: Expect::List,
    }
}

/// The hash of the newest commit, or what went wrong.
pub open spec fn newest_hash(reply: ReplyView) -> Result<Seq<char>, Seq<char>> {
    match list_in(reply, "GitHub commits API"@) {
        Err(e) => Err(e),
        Ok(commits) => match JsonView::List(commits).first().at("sha"@).text() {
            Some(hash) => Ok(hash),
            None => Err("repo has no commits"@),
        },
    }
}

/// What is said of the parent of a commit.
pub open spec fn parent_line(parent: Seq<char>) -> Seq<char> {
    if parent.len() == 0 {
        "parent_hash: (none — this is the repo's first commit)"@
    } else {
        "parent_hash: "@ + parent + "  (use as `git_ref` in read_file for the BEFORE version)"@
    }
}

/// What is reported of a commit.
pub open spec fn commit_report(asked: Seq<char>, commit: JsonView) -> Seq<char> {
    let hash = commit.at("sha"@).text_or(asked);
    let parent = commit.at("parents"@).first().at("sha"@).text_or(""@);
    let files = by_churn(commit.at("files"@).items_or_none());
    "Commit "@ + hash + "\nmessage: "@ + subject_of(commit) + "\nauthor: "@ + commit.at(
        "commit"@,
    ).at("author"@).at("name"@).text_or("unknown"@) + "\ndate: "@ + commit.at("commit"@).at(
        "author"@,
    ).at("date"@).text_or(""@) + "\n"@ + parent_line(parent) + "\n\n"@ + decimal(files.len())
        + " file(s) changed (most-changed first):\n"@ + file_stats(files)
        + "\n\nTo read a file's exact before/after, call read_file with git_ref="@ + hash
        + " (after) and git_ref="@ + parent + " (before)."@
}

/// How `get_commit` goes on once the hash is known.
pub open spec fn known_commit_progress(
    owner: Seq<char>,
    repo: Seq<char>,
    hash: Seq<char>,
    replies: Seq<ReplyView>,
    used: nat,
) -> ProgressView {
    if replies.len() == 0 {
        ProgressView::Ask(commit_request(owner, repo, hash))
    } else {
        match json_in(replies[0], "GitHub commit API"@) {
            Err(e) => ProgressView::Done { outcome: Err(e), used: used + 1 },
            Ok(commit) => if all_fit(commit.at("files"@).items_or_none()) {
                ProgressView::Done { outcome: Ok(commit_report(hash, commit)), used: used + 1 }
            } else {
                ProgressView::Stuck
            },
        }
    }
}

/// How `get_commit` goes on: without a hash, the newest commit is looked up first.
pub open spec fn get_commit_progress(
    repo_ref: Seq<char>,
    commit_hash: Option<Seq<char>>,
    replies: Seq<ReplyView>,
) -> ProgressView {
    match repo_parts(repo_ref) {
        Err(e) => ProgressView::Done { outcome: Err(e), used: 0 },
        Ok((owner, repo)) => match given_hash(commit_hash) {
            Some(hash) => known_commit_progress(owner, repo, hash, replies, 0),
            None => if replies.len() == 0 {
                ProgressView::Ask(newest_request(owner, repo))
            } else {
                match newest_hash(replies[0]) {
                    Err(e) => ProgressView::Done { outcome: Err(e), used: 1 },
                    Ok(hash) => known_commit_progress(owner, repo, hash, replies.drop_first(), 1),
                }
            },
        },
    }
}

/// What is reported of a commit.
pub fn report_commit(asked: &str, commit: &Json) -> (r: String)
    requires
        all_fit(commit@.at("files"@).items_or_none()),
    ensures
        r@ == commit_report(asked@, commit@),
{
    let hash = commit.at("sha").text_or(asked);
    let parent = commit.at("parents").first().at("sha").text_or("");
    let none = no_items();
    let files = match commit.at("files").as_items() {
        Some(files) => files,
        None => &none,
    };
    assert(json_views(files@) == commit@.at("files"@).items_or_none());
    let sorted = sort_by_churn(files);
    assert(json_views(sorted@).len() == sorted@.len());
    let mut out = text("Commit ");
    out.append(hash);
    out.append("\nmessage: ");
    let subject = commit_subject(commit);
    out.append(subject.as_str());
    out.append("\nauthor: ");
    out.append(commit.at("commit").at("author").at("name").text_or("unknown"));
    out.append("\ndate: ");
    out.append(commit.at("commit").at("author").at("date").text_or(""));
    out.append("\n");
    let line = if parent.is_empty() {
        text("parent_hash: (none — this is the repo's first commit)")
    } else {
        let mut line = text("parent_hash: ");
        line.append(parent);
        line.append("  (use as `git_ref` in read_file for the BEFORE version)");
        line
    };
    out.append(line.as_str());
    out.append("\n\n");
    let count = count_text(sorted.len());
    out.append(count.as_str());
    out.append(" file(s) changed (most-changed first):\n");
    let stats = list_stats(&sorted);
    out.append(stats.as_str());
    out.append("\n\nTo read a file's exact before/after, call read_file with git_ref=");
    out.append(hash);
    out.append(" (after) and git_ref=");
    out.append(parent);
    out.append(" (before).");
    out
}

/// How `get_commit` goes on once the hash is known.
fn known_commit(
    owner: &str,
    repo: &str,
    hash: &str,
    replies: &Vec<Reply>,
    used: usize,
) -> (r: Progress)
    requires
        used <= replies.len(),
    ensures
        r@ == known_commit_progress(
            owner@,
            repo@,
            hash@,
            reply_views(replies@).skip(used as int),
            used as nat,
        ),
{
    if used == replies.len() {
        return Progress::Ask(ask_commit(owner, repo, hash));
    }
    assert(reply_views(replies@).skip(used as int)[0] == replies@[used as int]@);
    match ensure_success(&replies[used], "GitHub commit API") {
        Err(e) => Progress::Done { outcome: Err(e), used: used + 1 },
        Ok(commit) => {
            let none = no_items();
            let files = match commit.at("files").as_items() {
                Some(files) => files,
                None => &none,
            };
            assert(json_views(files@) == commit@.at("files"@).items_or_none());
            if churns_fit(files) {
                Progress::Done { outcome: Ok(report_commit(hash, commit)), used: used + 1 }
            } else {
                Progress::Stuck
            }
        },
    }
}

/// The hash of the newest commit, or what went wrong.
fn read_newest(reply: &Reply) -> (r: Result<String, String>)
    ensures
        crate::text::outcome(r) == newest_hash(reply@),
{
    match read_list(reply, "GitHub commits API") {
        Err(e) => Err(e),
        Ok(commits) => {
            if commits.len() > 0 {
                assert(json_views(commits@)[0] == commits@[0]@);
                match commits[0].at("sha").as_text() {
                    Some(hash) => {
                        return Ok(text(hash));
                    },
                    None => {},
                }
            }
            Err(text("repo has no commits"))
        },
    }
}

/// One commit: its message, its author, its parent and the files it has changed. Without a hash,
/// the newest commit on the default branch.
pub fn get_commit(repo_ref: &str, commit_hash: Option<&str>, replies: &Vec<Reply>) -> (r: Progress)
    ensures
        r@ == get_commit_progress(repo_ref@, opt_str(commit_hash), reply_views(replies@)),
{
    let ghost all = reply_views(replies@);
    match split_repo(repo_ref) {
        Err(e) => Progress::Done { outcome: Err(e), used: 0 },
        Ok((owner, repo)) => {
            match commit_hash {
                Some(hash) => if !blank(hash) {
                    assert(all.skip(0) =~= all);
                    return known_commit(owner.as_str(), repo.as_str(), hash, replies, 0);
                },
                None => {},
            }
            if replies.len() == 0 {
                return Progress::Ask(
                    Request {
                        url: url_in(owner.as_str(), repo.as_str(), "/commits"),
                        query: with_param(no_params(), "per_page", "1"),
                        expect: Expect::List,
                    },
                );
            }
            assert(all[0] == replies@[0]@);
            match read_newest(&replies[0]) {
                Err(e) => Progress::Done { outcome: Err(e), used: 1 },
                Ok(hash) => {
                    assert(all.skip(1) =~= all.drop_first());
                    known_commit(owner.as_str(), repo.as_str(), hash.as_str(), replies, 1)
                },
            }
        },
    }
}

// ─── read_file ──────────────────────────────────────────────────────────────

/// The request for a file at a commit.
pub open spec fn file_request(
    owner: Seq<char>,
    repo: Seq<char>,
    path: Seq<char>,
    git_ref: Seq<char>,
) -> RequestView {
    RequestView {
        url: repo_url(owner, repo, "/contents/"@ + path),
        query: Seq::empty().push(("ref"@, git_ref)),
        expect: Expect::Bytes,
    }
}

/// What is shown of the text of a file.
pub open spec fn file_block(path: Seq<char>, git_ref: Seq<char>, content: Seq<char>) -> Seq<char> {
    path + " @ "@ + git_ref + ":\n```\n"@ + content + "\n```"@
}

/// What is shown of a file.
pub open spec fn contents_shown(path: Seq<char>, git_ref: Seq<char>, bytes: Seq<u8>) -> Seq<char> {
    if vstd::utf8::valid_utf8(bytes) {
        let content = vstd::utf8::decode_utf8(bytes);
        if byte_len(content) <= FILE_READ_BUDGET {
            file_block(path, git_ref, content)
        } else {
            file_block(path, git_ref, prefix_within(content, FILE_READ_BUDGET as nat))
                + "\n\n(truncated — file is "@ + decimal(byte_len(content)) + " bytes)"@
        }
    } else {
        "'"@ + path + "' at "@ + git_ref + " is binary/non-UTF-8 ("@ + decimal(bytes.len())
            + " bytes) — not shown."@
    }
}

/// What is reported of a file. That there is none is no error: a file that was added has no
/// contents before, one that was deleted none after.
pub open spec fn file_report(path: Seq<char>, git_ref: Seq<char>, reply: ReplyView) -> Result<
    Seq<char>,
    Seq<char>,
> {
    match reply {
        ReplyView::Failed(e) => Err("request failed: "@ + e),
        ReplyView::Refused { code, status, body } => if code == 404 {
            Ok(
                "'"@ + path + "' does not exist at "@ + git_ref
                    + " (added or deleted at this ref — no content)."@,
            )
        } else {
            Err(refusal("GitHub contents API"@, code, status, body))
        },
        ReplyView::Unreadable(e) => Err("read failed: "@ + e),
        ReplyView::Json(_) => Err("read failed: the body is not a file"@),
        ReplyView::Bytes(bytes) => Ok(contents_shown(path, git_ref, bytes)),
    }
}

/// How `read_file` goes on.
pub open spec fn read_file_progress(
    repo_ref: Seq<char>,
    path: Seq<char>,
    git_ref: Seq<char>,
    replies: Seq<ReplyView>,
) -> ProgressView {
    match repo_parts(repo_ref) {
        Err(e) => ProgressView::Done { outcome: Err(e), used: 0 },
        Ok((owner, repo)) => if replies.len() == 0 {
            ProgressView::Ask(file_request(owner, repo, path, git_ref))
        } else {
            ProgressView::Done { outcome: file_report(path, git_ref, replies[0]), used: 1 }
        },
    }
}

/// What is shown of the text of a file.
fn show_block(path: &str, git_ref: &str, content: &str) -> (r: String)
    ensures
        r@ == file_block(path@, git_ref@, content@),
{
    let mut out = text(path);
    out.append(" @ ");
    out.append(git_ref);
    out.append(":\n```\n");
    out.append(content);
    out.append("\n```");
    out
}

/// What is shown of a file.
pub fn show_contents(path: &str, git_ref: &str, bytes: &Vec<u8>) -> (r: String)
    ensures
        r@ == contents_shown(path@, git_ref@, bytes@),
{
    match utf8_text(bytes) {
        Some(content) => if !longer_than(content.as_str(), FILE_READ_BUDGET) {
            show_block(path, git_ref, content.as_str())
        } else {
            let kept = safe_truncate(content.as_str(), FILE_READ_BUDGET);
            let mut out = show_block(path, git_ref, kept.as_str());
            out.append("\n\n(truncated — file is ");
            let size = count_text(byte_count(content.as_str()));
            out.append(size.as_str());
            out.append(" bytes)");
            out
        },
        None => {
            let mut out = text("'");
            out.append(path);
            out.append("' at ");
            out.append(git_ref);
            out.append(" is binary/non-UTF-8 (");
            let size = count_text(bytes.len());
            out.append(size.as_str());
            out.append(" bytes) — not shown.");
            out
        },
    }
}

/// The contents of one file at a commit, a branch or a tag.
pub fn read_file(repo_ref: &str, path: &str, git_ref: &str, replies: &Vec<Reply>) -> (r: Progress)
    ensures
        r@ == read_file_progress(repo_ref@, path@, git_ref@, reply_views(replies@)),
{
    match split_repo(repo_ref) {
        Err(e) => Progress::Done { outcome: Err(e), used: 0 },
        Ok((owner, repo)) => {
            if replies.len() == 0 {
                let rest = prefixed("/contents/", path);
                return Progress::Ask(
                    Request {
                        url: url_in(owner.as_str(), repo.as_str(), rest.as_str()),
                        query: with_param(no_params(), "ref", git_ref),
                        expect: Expect::Bytes,
                    },
                );
            }
            assert(reply_views(replies@)[0] == replies@[0]@);
            let result = match &replies[0] {
                Reply::Failed(e) => Err(prefixed("request failed: ", e.as_str())),
                Reply::Refused { code, status, body } => if *code == 404 {
                    let mut out = text("'");
                    out.append(path);
                    out.append("' does not exist at ");
                    out.append(git_ref);
                    out.append(" (added or deleted at this ref — no content).");
                    Ok(out)
                } else {
                    Err(
                        explain_refusal(
                            "GitHub contents API",
                            *code,
                            status.as_str(),
                            body.as_str(),
                        ),
                    )
                },
                Reply::Unreadable(e) => Err(prefixed("read failed: ", e.as_str())),
                Reply::Json(_) => Err(text("read failed: the body is not a file")),
                Reply::Bytes(bytes) => Ok(show_contents(path, git_ref, bytes)),
            };
            Progress::Done { outcome: result, used: 1 }
        },
    }
}

// ─── find_references ────────────────────────────────────────────────────────

/// The request for the files that hold a symbol.
pub open spec fn references_request(
    owner: Seq<char>,
    repo: Seq<char>,
    symbol: Seq<char>,
) -> RequestView {
    RequestView {
        url: "https://api.github.com/search/code"@,
        query: Seq::empty().push(("q"@, symbol + " repo:"@ + owner + "/"@ + repo)).push(
            ("per_page"@, "50"@),
        ),
        expect: Expect::Json,
    }
}

/// The lines on the files that were found; what has no path is passed over.
pub open spec fn reference_lines(items: Seq<JsonView>) -> Seq<Seq<char>>
    decreases items.len(),
{
    if items.len() == 0 {
        Seq::empty()
    } else {
        match items.last().at("path"@).text() {
            Some(path) => reference_lines(items.drop_last()).push("- "@ + path),
            None => reference_lines(items.drop_last()),
        }
    }
}

/// What is reported of the files that hold a symbol. A refusal that comes of too many searches is
/// told apart from one that comes of a missing token.
pub open spec fn references_report(
    owner: Seq<char>,
    repo: Seq<char>,
    symbol: Seq<char>,
    reply: ReplyView,
) -> Result<Seq<char>, Seq<char>> {
    match reply {
        ReplyView::Refused { code: 403, status: _, body } => Err(
            "GitHub code search 403 (rate limit or auth): "@ + body,
        ),
        _ => match json_in(reply, "GitHub code search API"@) {
            Err(e) => Err(e),
            Ok(results) => {
                let items = results.at("items"@).items_or_none();
                let lines = reference_lines(items);
                if items.len() == 0 {
                    Ok(
                        "No files in "@ + owner + "/"@ + repo + " reference `"@ + symbol
                            + "` (per code search)."@,
                    )
                } else {
                    Ok(
                        decimal(lines.len()) + " file(s) reference `"@ + symbol + "` in "@ + owner
                            + "/"@ + repo
                            + " (textual match on the default branch — verify each is a real dependency, not a name collision):\n"@
                            + join(lines, "\n"@),
                    )
                }
            },
        },
    }
}

/// How `find_references` goes on.
pub open spec fn find_references_progress(
    repo_ref: Seq<char>,
    symbol: Seq<char>,
    replies: Seq<ReplyView>,
) -> ProgressView {
    match repo_parts(repo_ref) {
        Err(e) => ProgressView::Done { outcome: Err(e), used: 0 },
        Ok((owner, repo)) => if replies.len() == 0 {
            ProgressView::Ask(references_request(owner, repo, symbol))
        } else {
            ProgressView::Done {
                outcome: references_report(owner, repo, symbol, replies[0]),
                used: 1,
            }
        },
    }
}

/// The lines on the files that were found.
fn list_references(items: &Vec<Json>) -> (r: Vec<String>)
    ensures
        views(r@) == reference_lines(json_views(items@)),
{
    let ghost all = json_views(items@);
    let mut out: Vec<String> = Vec::new();
    let mut i: usize = 0;
    assert(views(out@) =~= reference_lines(all.take(0)));
    while i < items.len()
        invariant
            i <= items@.len(),
            all == json_views(items@),
            views(out@) == reference_lines(all.take(i as int)),
        decreases items@.len() - i,
    {
        let ghost before = views(out@);
        assert(all.take(i + 1).drop_last() =~= all.take(i as int));
        match items[i].at("path").as_text() {
            Some(path) => {
                let line = prefixed("- ", path);
                let ghost added = line@;
                out.push(line);
                assert(views(out@) =~= before.push(added));
            },
            None => {},
        }
        i += 1;
    }
    assert(all.take(i as int) =~= all);
    out
}

/// What is reported of the files that hold a symbol.
pub fn report_references(owner: &str, repo: &str, symbol: &str, reply: &Reply) -> (r: Result<
    String,
    String,
>)
    ensures
        crate::text::outcome(r) == references_report(owner@, repo@, symbol@, reply@),
{
    match reply {
        Reply::Refused { code, status: _, body } => if *code == 403 {
            return Err(
                prefixed("GitHub code search 403 (rate limit or auth): ", body.as_str()),
            );
        },
        _ => {},
    }
    match ensure_success(reply, "GitHub code search API") {
        Err(e) => Err(e),
        Ok(results) => {
            let none = no_items();
            let items = match results.at("items").as_items() {
                Some(items) => items,
                None => &none,
            };
            assert(json_views(items@) == results@.at("items"@).items_or_none());
            assert(json_views(items@).len() == items@.len());
            if items.len() == 0 {
                let mut out = text("No files in ");
                out.append(owner);
                out.append("/");
                out.append(repo);
                out.append(" reference `");
                out.append(symbol);
                out.append("` (per code search).");
                return Ok(out);
            }
            let lines = list_references(items);
            assert(views(lines@).len() == lines@.len());
            let mut out = count_text(lines.len());
            out.append(" file(s) reference `");
            out.append(symbol);
            out.append("` in ");
            out.append(owner);
            out.append("/");
            out.append(repo);
            out.append(
                " (textual match on the default branch — verify each is a real dependency, not a name collision):\n",
            );
            let joined = join_texts(&lines, "\n");
            out.append(joined.as_str());
            Ok(out)
        },
    }
}

/// Files that refer to a symbol, by code search on the default branch.
pub fn find_references(repo_ref: &str, symbol: &str, replies: &Vec<Reply>) -> (r: Progress)
    ensures
        r@ == find_references_progress(repo_ref@, symbol@, reply_views(replies@)),
{
    match split_repo(repo_ref) {
        Err(e) => Progress::Done { outcome: Err(e), used: 0 },
        Ok((owner, repo)) => {
            if replies.len() == 0 {
                let mut q = text(symbol);
                q.append(" repo:");
                q.append(owner.as_str());
                q.append("/");
                q.append(repo.as_str());
                let query = with_param(
                    with_param(no_params(), "q", q.as_str()),
                    "per_page",
                    "50",
                );
                return Progress::Ask(
                    Request {
                        url: text("https://api.github.com/search/code"),
                        query,
                        expect: Expect::Json,
                    },
                );
            }
            assert(reply_views(replies@)[0] == replies@[0]@);
            Progress::Done {
                outcome: report_references(owner.as_str(), repo.as_str(), symbol, &replies[0]),
                used: 1,
            }
        },
    }
}

} // verus!
