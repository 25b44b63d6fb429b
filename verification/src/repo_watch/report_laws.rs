//! What is asked of GitHub and Slack, and what is reported, from the members of an answer on.

use vstd::prelude::*;

use super::commits::{
    commit_report, file_report, find_references_progress, get_commit_progress, newest_hash,
    read_file_progress, reference_lines, references_report, FILE_READ_BUDGET,
};
use super::files::{by_churn, file_stat, file_stats, order_keeps_the_files, rendered, PATCH_BUDGET};
use super::github::{
    has_short, json_in, list_in, repo_parts, short, ProgressView, ReplyView, RequestView,
};
use super::slack;
use super::surveys::{
    compare_diff_progress, commit_line, commits_report, diff_report, fetched, hashes_cut, lifecycle,
    list_commits_progress, pr_line, prs_report, reference_progress, sections, survey_step,
    FetchView, Sections, StepView, Survey,
};
use crate::http::shown;
use crate::json::JsonView;
use crate::text::case::all_ascii;
use crate::text::laws::{ascii_is_one_byte, joined_parts_stand};
use crate::text::lines::{first_line, is_blank};
use crate::text::search::{contains, group_contained};
use crate::text::width::{byte_len, prefix_within, prefix_within_is_longest};
use crate::text::{decimal, join};

verus! {

/// Whether `report` ends with the lines, one under the other, behind `head`.
pub open spec fn ends_with_lines(
    report: Seq<char>,
    head: Seq<char>,
    lines: Seq<Seq<char>>,
) -> bool {
    report == head + join(lines, "\n"@)
}

/// Whether the query of a request has the parameter `key` with the value `value`.
pub open spec fn queries(request: RequestView, key: Seq<char>, value: Seq<char>) -> bool {
    request.query.contains((key, value))
}

// ─── Several repositories ───────────────────────────────────────────────────

/// Repositories are surveyed one after the other, each with the replies to its own requests: the
/// report on the first is its section, under its name, and the sections of the others follow as if
/// they were surveyed alone.
pub proof fn repos_are_surveyed_in_turn(
    survey: Survey,
    repo_ref: Seq<char>,
    rest: Seq<Seq<char>>,
    since: Seq<char>,
    replies: Seq<ReplyView>,
    outcome: Result<Seq<char>, Seq<char>>,
    used: nat,
    tail: Seq<Seq<char>>,
)
    requires
        reference_progress(survey, repo_ref, since, replies) == (ProgressView::Done {
            outcome,
            used,
        }),
        sections(survey, rest, since, replies.skip(used as int)) == Sections::Done(tail),
    ensures
        survey_step(survey, seq![repo_ref] + rest, since, replies) == StepView::Done(
            join(seq!["### "@ + repo_ref + "\n"@ + shown(outcome)] + tail, "\n\n"@),
        ),
{
    let repos = seq![repo_ref] + rest;
    assert(repos.drop_first() =~= rest);
    assert(repos[0] == repo_ref);
}

/// The report on one repository: its section and nothing else.
pub proof fn one_repo_is_surveyed(
    survey: Survey,
    repo_ref: Seq<char>,
    since: Seq<char>,
    replies: Seq<ReplyView>,
    outcome: Result<Seq<char>, Seq<char>>,
    used: nat,
)
    requires
        reference_progress(survey, repo_ref, since, replies) == (ProgressView::Done {
            outcome,
            used,
        }),
    ensures
        survey_step(survey, seq![repo_ref], since, replies) == StepView::Done(
            "### "@ + repo_ref + "\n"@ + shown(outcome),
        ),
{
    let none = Seq::<Seq<char>>::empty();
    repos_are_surveyed_in_turn(survey, repo_ref, none, since, replies, outcome, used, none);
    assert(seq![repo_ref] + none =~= seq![repo_ref]);
    let only = "### "@ + repo_ref + "\n"@ + shown(outcome);
    assert(seq![only] + none =~= seq![only]);
    assert(join(seq![only], "\n\n"@) == only);
}

// ─── Pull requests ──────────────────────────────────────────────────────────

/// Whether a line tells of a pull request: its number and title, its state and its dates, and its
/// address.
pub open spec fn tells_of_pr(line: Seq<char>, pr: JsonView) -> bool {
    &&& contains(
        line,
        "- #"@ + decimal(pr.at("number"@).natural_or(0) as nat) + " "@ + pr.at("title"@).text_or(
            ""@,
        ),
    )
    &&& contains(line, "state="@ + pr.at("state"@).text_or(""@))
    &&& contains(line, "created="@ + pr.at("created_at"@).text_or(""@))
    &&& pr.at("pull_request"@).at("merged_at"@) matches JsonView::Text(merged) ==> contains(
        line,
        "merged="@ + merged,
    )
    &&& !(pr.at("pull_request"@).at("merged_at"@) is Text) ==> (pr.at("closed_at"@) matches
        JsonView::Text(closed) ==> contains(line, "closed="@ + closed + " (not merged)"@))
    &&& contains(line, "] "@ + pr.at("html_url"@).text_or(""@))
}

proof fn pr_is_told(pr: JsonView)
    ensures
        tells_of_pr(pr_line(pr), pr),
{
    broadcast use group_contained;

    let parts = lifecycle(pr);
    assert(parts[0] == "state="@ + pr.at("state"@).text_or(""@));
    assert(parts[1] == "created="@ + pr.at("created_at"@).text_or(""@));
    joined_parts_stand(parts, ", "@, 0);
    joined_parts_stand(parts, ", "@, 1);
    if parts.len() > 2 {
        joined_parts_stand(parts, ", "@, 2);
    }
    let head = "- #"@ + decimal(pr.at("number"@).natural_or(0) as nat) + " "@ + pr.at(
        "title"@,
    ).text_or(""@);
    assert(contains(head, head));
}

/// The pull requests with activity are reported one per line, every one of them and in the order
/// of the answer, each with its own number, title, dates and address; and how many there are.
pub proof fn prs_are_listed(
    repo_ref: Seq<char>,
    since: Seq<char>,
    results: JsonView,
    prs: Seq<JsonView>,
)
    requires
        repo_parts(repo_ref) is Ok,
        results.at("items"@) == JsonView::List(prs),
        prs.len() > 0,
    ensures
        survey_step(
            Survey::PullRequests,
            seq![repo_ref],
            since,
            seq![ReplyView::Json(results)],
        ) matches StepView::Done(report) && {
            &&& contains(report, "### "@ + repo_ref)
            &&& contains(report, decimal(prs.len()) + " PR(s) with activity since "@ + since)
            &&& exists|head: Seq<char>, lines: Seq<Seq<char>>|
                {
                    &&& #[trigger] ends_with_lines(report, head, lines)
                    &&& lines.len() == prs.len()
                    &&& forall|i: int|
                        0 <= i < prs.len() ==> tells_of_pr(#[trigger] lines[i], prs[i])
                }
        },
{
    broadcast use group_contained;

    let (owner, name) = repo_parts(repo_ref)->Ok_0;
    let replies = seq![ReplyView::Json(results)];
    let told = prs_report(owner, name, since, prs);
    one_repo_is_surveyed(
        Survey::PullRequests,
        repo_ref,
        since,
        replies,
        Ok(told),
        1,
    );
    let lines = prs.map_values(|pr: JsonView| pr_line(pr));
    let count = decimal(prs.len()) + " PR(s) with activity since "@ + since;
    let title = "### "@ + repo_ref;
    let report = title + "\n"@ + told;
    let head = title + "\n"@ + (count + ":\n"@);
    assert(contains(title, title));
    assert(contains(count, count));
    assert(told == count + ":\n"@ + join(lines, "\n"@));
    assert(report =~= head + join(lines, "\n"@));
    assert(ends_with_lines(report, head, lines));
    assert forall|i: int| 0 <= i < prs.len() implies tells_of_pr(#[trigger] lines[i], prs[i]) by {
        pr_is_told(prs[i]);
    }
}

/// Pull requests are searched for in the repository that is named, from the time that is named on.
pub proof fn prs_are_searched_for(repo_ref: Seq<char>, since: Seq<char>)
    requires
        repo_parts(repo_ref) is Ok,
    ensures
        reference_progress(Survey::PullRequests, repo_ref, since, Seq::empty()) matches
            ProgressView::Ask(request) && {
            let (owner, name) = repo_parts(repo_ref)->Ok_0;
            queries(request, "q"@, "repo:"@ + owner + "/"@ + name + " is:pr updated:>="@ + since)
        },
{
    let (owner, name) = repo_parts(repo_ref)->Ok_0;
    let request = super::surveys::prs_request(owner, name, since);
    assert(request.query[0].0 == "q"@);
}

// ─── Commits ────────────────────────────────────────────────────────────────

/// Whether a line tells of a commit: the short form of its hash, the first line of its message,
/// its author and date, and its address.
pub open spec fn tells_of_commit(line: Seq<char>, commit: JsonView) -> bool {
    let about = commit.at("commit"@);
    &&& contains(
        line,
        "- "@ + short(commit.at("sha"@).text_or(""@)) + " "@ + first_line(
            about.at("message"@).text_or(""@),
        ),
    )
    &&& contains(line, " ("@ + about.at("author"@).at("name"@).text_or("unknown"@))
    &&& contains(line, ", "@ + about.at("author"@).at("date"@).text_or(""@))
    &&& contains(line, ") "@ + commit.at("html_url"@).text_or(""@))
}

proof fn commit_is_told(commit: JsonView)
    ensures
        tells_of_commit(commit_line(commit), commit),
{
    broadcast use group_contained;

    let head = "- "@ + short(commit.at("sha"@).text_or(""@)) + " "@ + first_line(
        commit.at("commit"@).at("message"@).text_or(""@),
    );
    assert(contains(head, head));
}

/// The commits on some pages, one page after the other.
pub open spec fn on_pages(replies: Seq<ReplyView>) -> Seq<JsonView>
    decreases replies.len(),
{
    if replies.len() == 0 {
        Seq::empty()
    } else {
        match replies[0] {
            ReplyView::Json(JsonView::List(items)) => items + on_pages(replies.drop_first()),
            _ => on_pages(replies.drop_first()),
        }
    }
}

/// The commits that are read are those of all pages that were read, in their order, none left out
/// and none twice.
pub proof fn pages_are_read_in_order(
    owner: Seq<char>,
    repo: Seq<char>,
    since: Seq<char>,
    replies: Seq<ReplyView>,
    page: nat,
)
    requires
        1 <= page <= 10,
    ensures
        fetched(owner, repo, since, replies, page) matches FetchView::Done {
            commits: Ok(commits),
            used,
            ..
        } ==> used <= replies.len() && commits == on_pages(replies.take(used as int)),
    decreases 10 - page,
{
    if replies.len() > 0 {
        let rest = replies.drop_first();
        if page < 10 {
            pages_are_read_in_order(owner, repo, since, rest, page + 1);
        }
        match fetched(owner, repo, since, replies, page) {
            FetchView::Done { commits: Ok(commits), used, .. } => {
                let read = replies.take(used as int);
                if used >= 1 && used <= replies.len() {
                    assert(read[0] == replies[0]);
                    assert(read.drop_first() =~= rest.take(used - 1));
                    if used == 1 {
                        assert(on_pages(read.drop_first()) =~= Seq::empty());
                    }
                    assert(commits =~= on_pages(read));
                }
            },
            _ => {},
        }
    }
}

/// Commits are asked for in the repository that is named, from the time that is named on, a page
/// at a time: behind `n` full pages, the next one.
pub proof fn next_page_is_asked_for(
    owner: Seq<char>,
    repo: Seq<char>,
    since: Seq<char>,
    replies: Seq<ReplyView>,
    page: nat,
)
    requires
        1 <= page,
        page + replies.len() <= 10,
        forall|i: int|
            0 <= i < replies.len() ==> (#[trigger] replies[i] matches ReplyView::Json(
                JsonView::List(items),
            ) && items.len() >= 100),
    ensures
        fetched(owner, repo, since, replies, page) matches FetchView::Ask(request) && {
            &&& request.url == "https://api.github.com/repos/"@ + owner + "/"@ + repo + "/commits"@
            &&& queries(request, "since"@, since)
            &&& queries(request, "page"@, decimal((page + replies.len()) as nat))
            &&& queries(request, "per_page"@, "100"@)
        },
    decreases replies.len(),
{
    if replies.len() == 0 {
        let request = super::surveys::page_request(owner, repo, since, page);
        assert(request.query[0] == ("since"@, since));
        assert(request.query[1] == ("per_page"@, "100"@));
        assert(request.query[2] == ("page"@, decimal(page)));
    } else {
        let rest = replies.drop_first();
        assert(replies[0] is Json);
        assert forall|i: int| 0 <= i < rest.len() implies (#[trigger] rest[i] matches ReplyView::Json(
            JsonView::List(items),
        ) && items.len() >= 100) by {
            assert(rest[i] == replies[i + 1]);
        }
        next_page_is_asked_for(owner, repo, since, rest, page + 1);
    }
}

/// The commits of a window are reported one per line, every one of them and in their order, each
/// with its own hash, message, author, date and address; and how many there are.
pub proof fn commits_are_listed(
    owner: Seq<char>,
    repo: Seq<char>,
    since: Seq<char>,
    replies: Seq<ReplyView>,
    commits: Seq<JsonView>,
    used: nat,
    cut: bool,
)
    requires
        fetched(owner, repo, since, replies, 1) == (FetchView::Done {
            commits: Ok(commits),
            used,
            cut,
        }),
        commits.len() > 0,
        hashes_cut(commits),
    ensures
        list_commits_progress(owner, repo, since, replies) matches ProgressView::Done {
            outcome: Ok(report),
            ..
        } && {
            &&& contains(
                report,
                decimal(commits.len()) + " commit(s) to "@ + owner + "/"@ + repo + " since "@
                    + since,
            )
            &&& exists|head: Seq<char>, lines: Seq<Seq<char>>|
                {
                    &&& #[trigger] ends_with_lines(report, head, lines)
                    &&& lines.len() == commits.len()
                    &&& forall|i: int|
                        0 <= i < commits.len() ==> tells_of_commit(#[trigger] lines[i], commits[i])
                }
        },
{
    broadcast use group_contained;

    let report = commits_report(owner, repo, since, commits);
    let lines = commits.map_values(|commit: JsonView| commit_line(commit));
    let count = decimal(commits.len()) + " commit(s) to "@ + owner + "/"@ + repo + " since "@
        + since;
    assert(contains(count, count));
    assert(contains(count + ":\n"@, count));
    assert(report == count + ":\n"@ + join(lines, "\n"@));
    assert(contains(report, count));
    assert(ends_with_lines(report, count + ":\n"@, lines));
    assert(list_commits_progress(owner, repo, since, replies) == (ProgressView::Done {
        outcome: Ok(report),
        used,
    }));
    assert forall|i: int| 0 <= i < commits.len() implies tells_of_commit(
        #[trigger] lines[i],
        commits[i],
    ) by {
        commit_is_told(commits[i]);
    }
}

// ─── Changed files ──────────────────────────────────────────────────────────

/// The changes of a window are those from before its earliest commit to its newest one: the
/// earliest commit, which comes last, is looked up, and its parent is compared with the newest
/// one; where it has no parent, the earliest commit itself is.
pub proof fn window_is_compared(
    owner: Seq<char>,
    repo: Seq<char>,
    since: Seq<char>,
    commits: Seq<JsonView>,
    newest: Seq<char>,
    earliest: Seq<char>,
    looked_up: JsonView,
)
    requires
        0 < commits.len() < 100,
        commits[0].at("sha"@) == JsonView::Text(newest),
        commits.last().at("sha"@) == JsonView::Text(earliest),
    ensures
        compare_diff_progress(
            owner,
            repo,
            since,
            seq![ReplyView::Json(JsonView::List(commits))],
        ) matches ProgressView::Ask(request) && request.url == "https://api.github.com/repos/"@
            + owner + "/"@ + repo + ("/commits/"@ + earliest),
        compare_diff_progress(
            owner,
            repo,
            since,
            seq![ReplyView::Json(JsonView::List(commits)), ReplyView::Json(looked_up)],
        ) matches ProgressView::Ask(request) && request.url == "https://api.github.com/repos/"@
            + owner + "/"@ + repo + ("/compare/"@ + match looked_up.at("parents"@).first().at(
            "sha"@,
        ) {
            JsonView::Text(parent) => parent,
            _ => earliest,
        } + "..."@ + newest),
{
    let one = seq![ReplyView::Json(JsonView::List(commits))];
    let two = seq![ReplyView::Json(JsonView::List(commits)), ReplyView::Json(looked_up)];
    assert(one.skip(1) =~= Seq::empty());
    assert(two.skip(1) =~= seq![ReplyView::Json(looked_up)]);
}

/// Whether a line tells of a changed file: its name, what became of it, and how many lines were
/// added and deleted.
pub open spec fn tells_of_file(line: Seq<char>, file: JsonView) -> bool {
    line == "- "@ + file.at("filename"@).text_or(""@) + " ("@ + file.at("status"@).text_or(""@)
        + ", +"@ + decimal(file.at("additions"@).natural_or(0) as nat) + "/-"@ + decimal(
        file.at("deletions"@).natural_or(0) as nat,
    ) + ")"@
}

/// A list of changed files has a line for each, and no other: as many lines as files, each of the
/// file at its place.
pub proof fn files_are_listed(files: Seq<JsonView>)
    ensures
        exists|lines: Seq<Seq<char>>|
            {
                &&& file_stats(files) == #[trigger] join(lines, "\n"@)
                &&& lines.len() == files.len()
                &&& forall|i: int| 0 <= i < files.len() ==> tells_of_file(#[trigger] lines[i], files[i])
            },
{
    let lines = files.map_values(|file: JsonView| file_stat(file));
    assert(file_stats(files) == join(lines, "\n"@));
}

/// The report on a window tells from where to where was compared, how many commits and files there
/// are, and of every changed file.
pub proof fn window_is_reported(
    since: Seq<char>,
    base: Seq<char>,
    head: Seq<char>,
    count: nat,
    files: Seq<JsonView>,
    k: int,
)
    requires
        0 <= k < files.len(),
    ensures
        ({
            let report = diff_report(since, base, head, count, files);
            let file = files[k];
            &&& contains(report, decimal(files.len()) + " file(s) changed since "@ + since)
            &&& contains(report, " (compare "@ + short(base) + "..."@ + short(head))
            &&& contains(report, ", "@ + decimal(count))
            &&& contains(
                report,
                "- "@ + file.at("filename"@).text_or(""@) + " ("@ + file.at("status"@).text_or(""@)
                    + ", +"@ + decimal(file.at("additions"@).natural_or(0) as nat) + "/-"@
                    + decimal(file.at("deletions"@).natural_or(0) as nat) + ")"@,
            )
        }),
{
    broadcast use group_contained;

    let sorted = by_churn(files);
    super::files::order_is_descending(files);
    assert(sorted.len() == files.len());
    super::laws::every_changed_file_is_listed(since, base, head, count, files, k);
    let report = diff_report(since, base, head, count, files);
    let line = file_stat(files[k]);
    let at = choose|i: int| #[trigger] crate::text::search::occurs_at(report, line, i);
    crate::text::search::find_is_first(report, line, 0);
    let opening = decimal(files.len()) + " file(s) changed since "@ + since;
    assert(contains(opening, opening));
    let ends = " (compare "@ + short(base) + "..."@ + short(head);
    let upto = opening + " (compare "@ + short(base) + "..."@ + short(head);
    assert(upto =~= opening + ends);
    assert(contains(upto, ends));
}

/// What the patches among the files take, in bytes.
pub open spec fn patches_take(files: Seq<JsonView>) -> nat
    decreases files.len(),
{
    if files.len() == 0 {
        0
    } else {
        patches_take(files.drop_last()) + match files.last().at("patch"@) {
            JsonView::Text(patch) => byte_len(patch),
            _ => 0,
        }
    }
}

/// While the patches stay below the budget, each is shown whole, under the name of its file, and
/// none is said to be left out.
pub proof fn small_patches_are_shown(files: Seq<JsonView>)
    requires
        patches_take(files) < PATCH_BUDGET,
    ensures
        rendered(files).omitted == 0,
        rendered(files).remaining == PATCH_BUDGET - patches_take(files),
        forall|k: int|
            #![trigger files[k]]
            0 <= k < files.len() ==> (files[k].at("patch"@) matches JsonView::Text(patch)
                ==> rendered(files).pieces.contains(
                "### "@ + files[k].at("filename"@).text_or(""@) + "\n```diff\n"@ + patch + "\n```"@,
            )),
    decreases files.len(),
{
    if files.len() > 0 {
        let front = files.drop_last();
        small_patches_are_shown(front);
        let before = rendered(front);
        let after = rendered(files);
        assert forall|k: int| #![trigger files[k]] 0 <= k < files.len() implies (files[k].at(
            "patch"@,
        ) matches JsonView::Text(patch) ==> after.pieces.contains(
            "### "@ + files[k].at("filename"@).text_or(""@) + "\n```diff\n"@ + patch + "\n```"@,
        )) by {
            match files[k].at("patch"@) {
                JsonView::Text(patch) => {
                    let block = "### "@ + files[k].at("filename"@).text_or(""@) + "\n```diff\n"@
                        + patch + "\n```"@;
                    if k < front.len() {
                        assert(front[k] == files[k]);
                        let j = choose|j: int|
                            0 <= j < before.pieces.len() && before.pieces[j] == block;
                        assert(after.pieces[j] == block);
                    } else {
                        assert(prefix_within(patch, before.remaining) == patch);
                        assert(after.pieces[before.pieces.len() as int] == block);
                    }
                },
                _ => {},
            }
        }
    }
}

/// Patches that are rendered stand in the report on a window, and how many were left out is told.
pub proof fn patches_are_reported(
    since: Seq<char>,
    base: Seq<char>,
    head: Seq<char>,
    count: nat,
    files: Seq<JsonView>,
    k: int,
)
    requires
        files.len() > 0,
        0 <= k < rendered(by_churn(files)).pieces.len(),
        rendered(by_churn(files)).pieces[k].len() > 0,
    ensures
        contains(
            diff_report(since, base, head, count, files),
            rendered(by_churn(files)).pieces[k],
        ),
        rendered(by_churn(files)).omitted > 0 ==> contains(
            diff_report(since, base, head, count, files),
            "\n\n("@ + decimal(rendered(by_churn(files)).omitted),
        ),
{
    broadcast use group_contained;

    let pieces = rendered(by_churn(files)).pieces;
    joined_parts_stand(pieces, "\n\n"@, k);
    let patches = join(pieces, "\n\n"@);
    crate::text::search::find_is_first(patches, pieces[k], 0);
    assert(patches.len() > 0);
}

// ─── One commit ─────────────────────────────────────────────────────────────

/// A commit that is named is looked up by its hash; where none is named, the newest one is found
/// out first and then looked up.
pub proof fn named_commit_is_looked_up(
    repo_ref: Seq<char>,
    hash: Seq<char>,
    commits: Seq<JsonView>,
)
    requires
        repo_parts(repo_ref) is Ok,
    ensures
        ({
            let (owner, name) = repo_parts(repo_ref)->Ok_0;
            let place = "https://api.github.com/repos/"@ + owner + "/"@ + name;
            &&& !is_blank(hash) ==> (get_commit_progress(repo_ref, Some(hash), Seq::empty()) matches
                ProgressView::Ask(request) && request.url == place + ("/commits/"@ + hash))
            &&& get_commit_progress(repo_ref, None, Seq::empty()) matches ProgressView::Ask(request)
                && request.url == place + "/commits"@ && queries(request, "per_page"@, "1"@)
            &&& commits.len() > 0 && commits[0].at("sha"@) == JsonView::Text(hash) ==> (
            get_commit_progress(
                repo_ref,
                None,
                seq![ReplyView::Json(JsonView::List(commits))],
            ) matches ProgressView::Ask(request) && request.url == place + ("/commits/"@ + hash))
        }),
{
    let (owner, name) = repo_parts(repo_ref)->Ok_0;
    let first = super::commits::newest_request(owner, name);
    assert(first.query[0] == ("per_page"@, "1"@));
    let replies = seq![ReplyView::Json(JsonView::List(commits))];
    assert(replies.drop_first() =~= Seq::empty());
}

/// The report on a commit tells its hash, the first line of its message, its author, its date, its
/// parent, and of every changed file.
pub proof fn commit_is_reported(asked: Seq<char>, commit: JsonView, k: int)
    requires
        0 <= k < commit.at("files"@).items_or_none().len(),
    ensures
        ({
            let report = commit_report(asked, commit);
            let about = commit.at("commit"@);
            let file = commit.at("files"@).items_or_none()[k];
            &&& contains(report, "Commit "@ + commit.at("sha"@).text_or(asked))
            &&& contains(
                report,
                "\nmessage: "@ + first_line(about.at("message"@).text_or(""@)),
            )
            &&& contains(report, "\nauthor: "@ + about.at("author"@).at("name"@).text_or("unknown"@))
            &&& contains(report, "\ndate: "@ + about.at("author"@).at("date"@).text_or(""@))
            &&& commit.at("parents"@).first().at("sha"@) matches JsonView::Text(parent)
                ==> parent.len() > 0 ==> contains(report, "parent_hash: "@ + parent) && contains(
                report,
                " (after) and git_ref="@ + parent,
            )
            &&& contains(
                report,
                "\n\nTo read a file's exact before/after, call read_file with git_ref="@ + commit.at(
                    "sha"@,
                ).text_or(asked),
            )
            &&& contains(
                report,
                "- "@ + file.at("filename"@).text_or(""@) + " ("@ + file.at("status"@).text_or(""@)
                    + ", +"@ + decimal(file.at("additions"@).natural_or(0) as nat) + "/-"@
                    + decimal(file.at("deletions"@).natural_or(0) as nat) + ")"@,
            )
        }),
{
    broadcast use group_contained;
    broadcast use vstd::seq_lib::group_to_multiset_ensures;

    let files = commit.at("files"@).items_or_none();
    let sorted = by_churn(files);
    order_keeps_the_files(files);
    assert(files.to_multiset().contains(files[k]));
    assert(sorted.contains(files[k]));
    let j = choose|j: int| 0 <= j < sorted.len() && sorted[j] == files[k];
    let lines = sorted.map_values(|file: JsonView| file_stat(file));
    joined_parts_stand(lines, "\n"@, j);
    assert(lines[j] == file_stat(files[k]));
    assert(contains(file_stats(sorted), file_stat(files[k])));
    let head = "Commit "@ + commit.at("sha"@).text_or(asked);
    assert(contains(head, head));
}

// ─── Files and references ───────────────────────────────────────────────────

/// A file is read at the path and at the commit, branch or tag that are named, and shown whole
/// under these while it is within the budget; one that is not there is said not to be there.
pub proof fn named_file_is_read(
    repo_ref: Seq<char>,
    path: Seq<char>,
    git_ref: Seq<char>,
    bytes: Seq<u8>,
    status: Seq<char>,
    body: Seq<char>,
)
    requires
        repo_parts(repo_ref) is Ok,
    ensures
        read_file_progress(repo_ref, path, git_ref, Seq::empty()) matches ProgressView::Ask(request)
            && {
            let (owner, name) = repo_parts(repo_ref)->Ok_0;
            &&& request.url == "https://api.github.com/repos/"@ + owner + "/"@ + name + (
            "/contents/"@ + path)
            &&& queries(request, "ref"@, git_ref)
        },
        vstd::utf8::valid_utf8(bytes) && byte_len(vstd::utf8::decode_utf8(bytes))
            <= FILE_READ_BUDGET ==> (read_file_progress(
            repo_ref,
            path,
            git_ref,
            seq![ReplyView::Bytes(bytes)],
        ) matches ProgressView::Done { outcome: Ok(told), .. } && contains(
            told,
            path + " @ "@ + git_ref,
        ) && contains(told, ":\n```\n"@ + vstd::utf8::decode_utf8(bytes))),
        read_file_progress(
            repo_ref,
            path,
            git_ref,
            seq![ReplyView::Refused { code: 404, status, body }],
        ) matches ProgressView::Done { outcome: Ok(told), .. } && contains(told, "'"@ + path)
            && contains(told, "' does not exist at "@ + git_ref),
{
    broadcast use group_contained;

    let (owner, name) = repo_parts(repo_ref)->Ok_0;
    let request = super::commits::file_request(owner, name, path, git_ref);
    assert(request.query[0] == ("ref"@, git_ref));
    let head = path + " @ "@ + git_ref;
    assert(contains(head, head));
    let missing = "'"@ + path;
    assert(contains(missing, missing));
}

/// References are searched for by the symbol and in the repository that are named, and every file
/// of the answer is reported by its path, in the order of the answer.
pub proof fn references_are_listed(
    repo_ref: Seq<char>,
    symbol: Seq<char>,
    results: JsonView,
    items: Seq<JsonView>,
    i: int,
    path: Seq<char>,
)
    requires
        repo_parts(repo_ref) is Ok,
        results.at("items"@) == JsonView::List(items),
        0 <= i < items.len(),
        items[i].at("path"@) == JsonView::Text(path),
    ensures
        find_references_progress(repo_ref, symbol, Seq::empty()) matches ProgressView::Ask(request)
            && {
            let (owner, name) = repo_parts(repo_ref)->Ok_0;
            queries(request, "q"@, symbol + " repo:"@ + owner + "/"@ + name)
        },
        find_references_progress(repo_ref, symbol, seq![ReplyView::Json(results)]) matches
            ProgressView::Done { outcome: Ok(told), .. } && contains(told, "- "@ + path) && contains(
            told,
            " file(s) reference `"@ + symbol,
        ),
{
    broadcast use group_contained;

    let (owner, name) = repo_parts(repo_ref)->Ok_0;
    let request = super::commits::references_request(owner, name, symbol);
    assert(request.query[0] == ("q"@, symbol + " repo:"@ + owner + "/"@ + name));
    let lines = reference_lines(items);
    let k = reference_place(items, i);
    joined_parts_stand(lines, "\n"@, k);
}

proof fn reference_place(items: Seq<JsonView>, i: int) -> (k: int)
    requires
        0 <= i < items.len(),
        items[i].at("path"@) is Text,
    ensures
        0 <= k < reference_lines(items).len(),
        reference_lines(items)[k] == "- "@ + items[i].at("path"@)->Text_0,
    decreases items.len(),
{
    if i < items.len() - 1 {
        let k = reference_place(items.drop_last(), i);
        assert(items.drop_last()[i] == items[i]);
        k
    } else {
        reference_lines(items).len() - 1
    }
}

/// References are reported in their order.
pub proof fn references_keep_the_order(a: Seq<JsonView>, b: Seq<JsonView>)
    ensures
        reference_lines(a + b) == reference_lines(a) + reference_lines(b),
    decreases b.len(),
{
    if b.len() == 0 {
        assert(a + b =~= a);
        assert(reference_lines(a) + reference_lines(b) =~= reference_lines(a));
    } else {
        references_keep_the_order(a, b.drop_last());
        assert((a + b).drop_last() =~= a + b.drop_last());
        assert(reference_lines(a + b) =~= reference_lines(a) + reference_lines(b));
    }
}

// ─── Slack ──────────────────────────────────────────────────────────────────

/// What is posted is the file that is given: its name and length are announced, its content goes
/// to the address that Slack gives, and the upload is completed under the identifier that Slack
/// gives, in the channel that is named, with the title and the comment that are given.
pub proof fn given_file_is_posted(
    token: Seq<char>,
    channel: Seq<char>,
    markdown: Seq<char>,
    filename: Seq<char>,
    comment: Seq<char>,
    place: JsonView,
    url: Seq<char>,
    id: Seq<char>,
)
    requires
        place.at("ok"@) == JsonView::Bool(true),
        place.at("upload_url"@) == JsonView::Text(url),
        place.at("file_id"@) == JsonView::Text(id),
    ensures
        slack::posting(
            Some(token),
            Some(channel),
            markdown,
            filename,
            comment,
            Seq::empty(),
        ) matches slack::StepView::Send(
            slack::RequestView::GetUploadUrl { token: t, filename: f, length, .. },
        ) && t == token && f == filename && length == decimal(byte_len(markdown)),
        slack::posting(
            Some(token),
            Some(channel),
            markdown,
            filename,
            comment,
            seq![slack::ReplyView::Json(place)],
        ) == slack::StepView::Send(slack::RequestView::Upload { url, content: markdown }),
        slack::posting(
            Some(token),
            Some(channel),
            markdown,
            filename,
            comment,
            seq![slack::ReplyView::Json(place), slack::ReplyView::Taken],
        ) matches slack::StepView::Send(slack::RequestView::Complete { token: t, body, .. }) && {
            &&& t == token
            &&& body.holds("channel_id"@, JsonView::Text(channel))
            &&& body.holds("initial_comment"@, JsonView::Text(comment))
            &&& exists|file: JsonView|
                {
                    &&& #[trigger] body.holds("files"@, JsonView::List(seq![file]))
                    &&& file.holds("id"@, JsonView::Text(id))
                    &&& file.holds("title"@, JsonView::Text(filename))
                }
        },
{
    let body = slack::completion_body(channel, id, filename, comment);
    let members = body->Object_0;
    let files = members[0].1->List_0;
    let file = files[0];
    assert(files =~= seq![file]);
    assert(members[0] == ("files"@, JsonView::List(seq![file])));
    assert(members[1] == ("channel_id"@, JsonView::Text(channel)));
    assert(members[2] == ("initial_comment"@, JsonView::Text(comment)));
    assert(file->Object_0[0] == ("id"@, JsonView::Text(id)));
    assert(file->Object_0[1] == ("title"@, JsonView::Text(filename)));
    assert(body.holds("files"@, JsonView::List(seq![file])));
}

// ─── Empty and unusable answers ─────────────────────────────────────────────

/// An answer that is refused is told of with what was asked, its status and its body; where access
/// may be missing, that a token is needed is told too.
pub proof fn refusal_is_explained(
    endpoint: Seq<char>,
    code: u16,
    status: Seq<char>,
    body: Seq<char>,
)
    ensures
        json_in(ReplyView::Refused { code, status, body }, endpoint) matches Err(e) && {
            &&& contains(e, endpoint + " "@ + status + ": "@ + body)
            &&& code == 401 || code == 403 || code == 404 ==> contains(
                e,
                " (a private repo needs a GITHUB_TOKEN with read access)"@,
            )
            &&& !(code == 401 || code == 403 || code == 404) ==> e == endpoint + " "@ + status
                + ": "@ + body
        },
{
    broadcast use group_contained;

    let told = endpoint + " "@ + status + ": "@ + body;
    reveal_strlit("");
    assert(contains(told, told));
    assert(told + ""@ =~= told);
}

/// A body of the kind that is read is taken as it is, and no other one is; what went wrong instead
/// is told, with the reason.
pub proof fn body_is_given_or_explained(reply: ReplyView, endpoint: Seq<char>, e: Seq<char>)
    ensures
        forall|j: JsonView| json_in(reply, endpoint) == Ok::<JsonView, Seq<char>>(j) <==> reply
            == ReplyView::Json(j),
        forall|items: Seq<JsonView>|
            list_in(reply, endpoint) == Ok::<Seq<JsonView>, Seq<char>>(items) <==> reply
                == ReplyView::Json(JsonView::List(items)),
        reply == ReplyView::Failed(e) || reply == ReplyView::Unreadable(e) ==> {
            &&& json_in(reply, endpoint) matches Err(why) && contains(why, e)
            &&& list_in(reply, endpoint) matches Err(why) && contains(why, e)
        },
{
    broadcast use group_contained;

}

/// A repository in which nothing has happened is named, with the time.
pub proof fn quiet_repo_is_told(owner: Seq<char>, repo: Seq<char>, since: Seq<char>)
    ensures
        commits_report(owner, repo, since, Seq::empty()) == "No commits to "@ + owner + "/"@ + repo
            + " since "@ + since + "."@,
        prs_report(owner, repo, since, Seq::empty()) == "No PR activity on "@ + owner + "/"@ + repo
            + " since "@ + since + "."@,
{
    assert(Seq::<JsonView>::empty().len() == 0);
}

/// The newest commit is the first one that is listed; a repository may have none.
pub proof fn newest_commit_is_the_first(commits: Seq<JsonView>)
    ensures
        commits.len() > 0 ==> (commits[0].at("sha"@) matches JsonView::Text(hash) ==> newest_hash(
            ReplyView::Json(JsonView::List(commits)),
        ) == Ok::<Seq<char>, Seq<char>>(hash)),
        commits.len() == 0 ==> newest_hash(ReplyView::Json(JsonView::List(commits))) == Err::<
            Seq<char>,
            Seq<char>,
        >("repo has no commits"@),
{
}

/// A symbol without references is named, with the repository; a search that is refused for its rate
/// is told of with its body.
pub proof fn unused_symbol_is_told(
    owner: Seq<char>,
    repo: Seq<char>,
    symbol: Seq<char>,
    results: JsonView,
    status: Seq<char>,
    body: Seq<char>,
)
    ensures
        results.at("items"@) == JsonView::List(Seq::empty()) ==> (references_report(
            owner,
            repo,
            symbol,
            ReplyView::Json(results),
        ) == Ok::<Seq<char>, Seq<char>>(
            "No files in "@ + owner + "/"@ + repo + " reference `"@ + symbol
                + "` (per code search)."@,
        )),
        references_report(
            owner,
            repo,
            symbol,
            ReplyView::Refused { code: 403, status, body },
        ) matches Err(e) && contains(e, body),
{
    broadcast use group_contained;

    assert(Seq::<JsonView>::empty().len() == 0);
}

/// A file that is not there is told of with its path and where it was looked for.
pub proof fn missing_file_is_told(
    path: Seq<char>,
    git_ref: Seq<char>,
    status: Seq<char>,
    body: Seq<char>,
    e: Seq<char>,
)
    ensures
        file_report(path, git_ref, ReplyView::Refused { code: 404, status, body }) matches Ok(report)
            && contains(report, "'"@ + path + "' does not exist at "@ + git_ref),
        file_report(path, git_ref, ReplyView::Failed(e)) matches Err(why) && contains(why, e),
        file_report(path, git_ref, ReplyView::Unreadable(e)) matches Err(why) && contains(why, e),
        file_report(path, git_ref, ReplyView::Refused { code: 500, status, body }) matches Err(why)
            && contains(why, status),
{
    broadcast use group_contained;

    let told = "'"@ + path + "' does not exist at "@ + git_ref;
    assert(contains(told, told));
    reveal_strlit("");
}

/// Each step of posting that fails ends it with its reason.
pub proof fn failed_posting_is_explained(
    token: Seq<char>,
    channel: Seq<char>,
    markdown: Seq<char>,
    filename: Seq<char>,
    comment: Seq<char>,
    place: JsonView,
    e: Seq<char>,
    status: Seq<char>,
    body: Seq<char>,
    refused: JsonView,
)
    requires
        place.at("ok"@) == JsonView::Bool(true),
        place.at("upload_url"@) is Text,
        place.at("file_id"@) is Text,
        refused.at("ok"@) != JsonView::Bool(true),
    ensures
        slack::posting(None, Some(channel), markdown, filename, comment, Seq::empty())
            == slack::StepView::Done(Err("SLACK_BOT_TOKEN is not set"@)),
        slack::posting(Some(token), None, markdown, filename, comment, Seq::empty())
            == slack::StepView::Done(Err("SLACK_CHANNEL_ID is not set"@)),
        slack::posting(
            Some(token),
            Some(channel),
            markdown,
            filename,
            comment,
            seq![slack::ReplyView::Json(refused)],
        ) matches slack::StepView::Done(Err(why)) && contains(
            why,
            "failed: "@ + refused.at("error"@).text_or("unknown"@),
        ),
        slack::posting(
            Some(token),
            Some(channel),
            markdown,
            filename,
            comment,
            seq![slack::ReplyView::Failed(e)],
        ) matches slack::StepView::Done(Err(why)) && contains(why, e),
        slack::posting(
            Some(token),
            Some(channel),
            markdown,
            filename,
            comment,
            seq![slack::ReplyView::Json(place), slack::ReplyView::Refused { status, body }],
        ) matches slack::StepView::Done(Err(why)) && contains(
            why,
            "file upload "@ + status + ": "@ + body,
        ),
        slack::posting(
            Some(token),
            Some(channel),
            markdown,
            filename,
            comment,
            seq![slack::ReplyView::Json(place), slack::ReplyView::Failed(e)],
        ) matches slack::StepView::Done(Err(why)) && contains(why, e),
        slack::posting(
            Some(token),
            Some(channel),
            markdown,
            filename,
            comment,
            seq![
                slack::ReplyView::Json(place),
                slack::ReplyView::Taken,
                slack::ReplyView::Json(refused),
            ],
        ) matches slack::StepView::Done(Err(why)) && contains(
            why,
            "failed: "@ + refused.at("error"@).text_or("unknown"@),
        ),
{
    broadcast use group_contained;

    reveal_strlit(" failed: ");
    reveal_strlit("failed: ");
    reveal_strlit(" ");
    let error = refused.at("error"@).text_or("unknown"@);
    let told = "failed: "@ + error;
    let first = "Slack "@ + "files.getUploadURLExternal"@;
    let last = "Slack "@ + "files.completeUploadExternal"@;
    assert(first + " failed: "@ + error =~= first + " "@ + told);
    assert(last + " failed: "@ + error =~= last + " "@ + told);
    assert(contains(first + " "@ + told, told));
    assert(contains(last + " "@ + told, told));
    let upload = "file upload "@ + status + ": "@ + body;
    assert(contains(upload, upload));
}

/// A hash is short by its first seven bytes; it has no short form only where these end within a
/// character, which those of letters and digits never do.
pub proof fn hash_is_shortened(hash: Seq<char>)
    ensures
        byte_len(hash) <= 7 ==> has_short(hash) && short(hash) == hash,
        byte_len(hash) > 7 ==> (has_short(hash) <==> byte_len(short(hash)) == 7),
        all_ascii(hash) && hash.len() >= 7 ==> has_short(hash) && short(hash) == hash.take(7),
{
    prefix_within_is_longest(hash, 7);
    if all_ascii(hash) && hash.len() >= 7 {
        let cut = prefix_within(hash, 7);
        let n = cut.len() as int;
        ascii_is_one_byte(hash.take(n));
        ascii_is_one_byte(hash.take(7));
        ascii_is_one_byte(hash);
        if n < 7 {
            assert(byte_len(hash.take(7)) > 7);
        }
        assert(n == 7);
    }
}

/// A search for references is made in the repository that is named and uses one answer; what is no
/// reference to a repository is refused, and uses none.
pub proof fn references_use_one_answer(
    repo_ref: Seq<char>,
    symbol: Seq<char>,
    reply: ReplyView,
)
    ensures
        find_references_progress(repo_ref, symbol, seq![reply]) matches ProgressView::Done {
            outcome,
            used,
        } && {
            &&& repo_parts(repo_ref) matches Ok((owner, repo)) ==> used == 1 && outcome
                == references_report(owner, repo, symbol, reply)
            &&& repo_parts(repo_ref) matches Err(e) ==> used == 0 && outcome == Err::<
                Seq<char>,
                Seq<char>,
            >(e)
        },
{
}

/// A commit that is named uses one answer, and the newest one uses two: its own and that of the
/// list before it.
pub proof fn commit_uses_its_answers(
    repo_ref: Seq<char>,
    hash: Seq<char>,
    commits: Seq<JsonView>,
    reply: ReplyView,
)
    requires
        repo_parts(repo_ref) is Ok,
        !is_blank(hash),
        commits.len() > 0,
        commits[0].at("sha"@) == JsonView::Text(hash),
    ensures
        get_commit_progress(repo_ref, Some(hash), seq![reply]) matches ProgressView::Done {
            used,
            ..
        } ==> used == 1,
        get_commit_progress(
            repo_ref,
            None,
            seq![ReplyView::Json(JsonView::List(commits)), reply],
        ) matches ProgressView::Done { used, .. } ==> used == 2,
        get_commit_progress(repo_ref, Some(hash), seq![reply]) !is Ask,
{
    let replies = seq![ReplyView::Json(JsonView::List(commits)), reply];
    assert(replies.skip(1) =~= seq![reply]);
    assert(replies[0] == ReplyView::Json(JsonView::List(commits)));
}

} // verus!
