//! What holds of everything that is asked of GitHub, and of what is reported of it.

use vstd::prelude::*;

use super::commits::{find_references_progress, get_commit_progress, read_file_progress};
use super::files::{by_churn, file_stat, file_stats, order_keeps_the_files};
use super::github::{repo_parts, repo_url, ProgressView, ReplyView};
use super::surveys::{
    diff_report, fetched, reference_progress, sections, survey_step, FetchView, Sections, StepView,
    Survey,
};
use crate::json::JsonView;
use crate::text::join;
use crate::text::search::occurs_at;

verus! {

/// Whether an address is one of GitHub's interface.
pub open spec fn at_github(url: Seq<char>) -> bool {
    "https://api.github.com/"@.is_prefix_of(url)
}

proof fn repo_urls_are_at_github(owner: Seq<char>, repo: Seq<char>, rest: Seq<char>)
    ensures
        at_github(repo_url(owner, repo, rest)),
{
    reveal_strlit("https://api.github.com/");
    reveal_strlit("https://api.github.com/repos/");
    let base = "https://api.github.com/"@;
    let url = repo_url(owner, repo, rest);
    assert(url.take(29) =~= "https://api.github.com/repos/"@);
    assert(base =~= url.take(29).take(23));
    assert(base =~= url.subrange(0, base.len() as int));
}

proof fn searches_are_at_github()
    ensures
        at_github("https://api.github.com/search/issues"@),
        at_github("https://api.github.com/search/code"@),
{
    reveal_strlit("https://api.github.com/");
    reveal_strlit("https://api.github.com/search/issues");
    reveal_strlit("https://api.github.com/search/code");
    let base = "https://api.github.com/"@;
    assert(base =~= "https://api.github.com/search/issues"@.subrange(0, base.len() as int));
    assert(base =~= "https://api.github.com/search/code"@.subrange(0, base.len() as int));
}

proof fn pages_are_at_github(
    owner: Seq<char>,
    repo: Seq<char>,
    since: Seq<char>,
    replies: Seq<ReplyView>,
    page: nat,
)
    ensures
        fetched(owner, repo, since, replies, page) matches FetchView::Ask(request) ==> at_github(
            request.url,
        ),
    decreases 10 - page,
{
    repo_urls_are_at_github(owner, repo, "/commits"@);
    if replies.len() > 0 && page < 10 {
        pages_are_at_github(owner, repo, since, replies.drop_first(), page + 1);
    }
}

proof fn one_survey_stays_at_github(
    survey: Survey,
    repo_ref: Seq<char>,
    since: Seq<char>,
    replies: Seq<ReplyView>,
)
    ensures
        reference_progress(survey, repo_ref, since, replies) matches ProgressView::Ask(request)
            ==> at_github(request.url),
{
    searches_are_at_github();
    match repo_parts(repo_ref) {
        Ok((owner, repo)) => {
            pages_are_at_github(owner, repo, since, replies, 1);
            assert forall|rest: Seq<char>| at_github(#[trigger] repo_url(owner, repo, rest)) by {
                repo_urls_are_at_github(owner, repo, rest);
            }
        },
        Err(_) => {},
    }
}

/// Whatever a survey asks for is asked of GitHub, whatever has come back so far.
pub proof fn surveys_stay_at_github(
    survey: Survey,
    repos: Seq<Seq<char>>,
    since: Seq<char>,
    replies: Seq<ReplyView>,
)
    ensures
        survey_step(survey, repos, since, replies) matches StepView::Ask(request) ==> at_github(
            request.url,
        ),
        sections(survey, repos, since, replies) matches Sections::Ask(request) ==> at_github(
            request.url,
        ),
    decreases repos.len(),
{
    if repos.len() > 0 {
        one_survey_stays_at_github(survey, repos[0], since, replies);
        match reference_progress(survey, repos[0], since, replies) {
            ProgressView::Done { outcome: _, used } => surveys_stay_at_github(
                survey,
                repos.drop_first(),
                since,
                replies.skip(used as int),
            ),
            _ => {},
        }
    }
}

/// Whatever is asked for about one commit, one file or one symbol is asked of GitHub.
pub proof fn lookups_stay_at_github(
    repo_ref: Seq<char>,
    commit_hash: Option<Seq<char>>,
    path: Seq<char>,
    git_ref: Seq<char>,
    symbol: Seq<char>,
    replies: Seq<ReplyView>,
)
    ensures
        get_commit_progress(repo_ref, commit_hash, replies) matches ProgressView::Ask(request)
            ==> at_github(request.url),
        read_file_progress(repo_ref, path, git_ref, replies) matches ProgressView::Ask(request)
            ==> at_github(request.url),
        find_references_progress(repo_ref, symbol, replies) matches ProgressView::Ask(request)
            ==> at_github(request.url),
{
    searches_are_at_github();
    match repo_parts(repo_ref) {
        Ok((owner, repo)) => {
            assert forall|rest: Seq<char>| at_github(#[trigger] repo_url(owner, repo, rest)) by {
                repo_urls_are_at_github(owner, repo, rest);
            }
        },
        Err(_) => {},
    }
}

/// Whether `part` stands somewhere in `whole`.
pub open spec fn stands_in(whole: Seq<char>, part: Seq<char>) -> bool {
    exists|i: int| #[trigger] occurs_at(whole, part, i)
}

proof fn stands_in_longer(head: Seq<char>, whole: Seq<char>, tail: Seq<char>, part: Seq<char>)
    requires
        stands_in(whole, part),
    ensures
        stands_in(head + whole + tail, part),
{
    let i = choose|i: int| #[trigger] occurs_at(whole, part, i);
    let longer = head + whole + tail;
    let j = head.len() + i;
    assert(longer.subrange(j, j + part.len()) =~= whole.subrange(i, i + part.len()));
    assert(occurs_at(longer, part, j));
}

proof fn parts_stand_in_join(parts: Seq<Seq<char>>, sep: Seq<char>, k: int)
    requires
        0 <= k < parts.len(),
    ensures
        stands_in(join(parts, sep), parts[k]),
    decreases parts.len(),
{
    let none = Seq::<char>::empty();
    let part = parts[k];
    assert(part.subrange(0, 0int + part.len()) =~= part);
    assert(occurs_at(part, part, 0));
    if parts.len() > 1 {
        let head = join(parts.drop_last(), sep);
        let whole = join(parts, sep);
        if k == parts.len() - 1 {
            stands_in_longer(head + sep, part, none, part);
            assert(head + sep + part + none =~= whole);
        } else {
            parts_stand_in_join(parts.drop_last(), sep, k);
            stands_in_longer(none, head, sep + parts.last(), part);
            assert(none + head + (sep + parts.last()) =~= whole);
        }
    }
}

/// The line on each changed file stands in the report on a window, however many patches were left
/// out for their size.
pub proof fn every_changed_file_is_listed(
    since: Seq<char>,
    base: Seq<char>,
    head: Seq<char>,
    count: nat,
    files: Seq<JsonView>,
    k: int,
)
    requires
        0 <= k < files.len(),
    ensures
        stands_in(diff_report(since, base, head, count, files), file_stat(files[k])),
{
    broadcast use vstd::seq_lib::group_to_multiset_ensures;

    let sorted = by_churn(files);
    order_keeps_the_files(files);
    assert(files.to_multiset().contains(files[k]));
    assert(sorted.contains(files[k]));
    let j = choose|j: int| 0 <= j < sorted.len() && sorted[j] == files[k];
    let lines = sorted.map_values(|file: JsonView| file_stat(file));
    parts_stand_in_join(lines, "\n"@, j);
    assert(lines[j] == file_stat(files[k]));
    let report = diff_report(since, base, head, count, files);
    let stats = file_stats(sorted);
    let opening = crate::text::decimal(sorted.len()) + " file(s) changed since "@ + since
        + " (compare "@ + super::github::short(base) + "..."@ + super::github::short(head) + ", "@
        + crate::text::decimal(count) + " commit(s)):\n"@;
    assert((opening + stats).is_prefix_of(report));
    let tail = report.skip((opening + stats).len() as int);
    assert(opening + stats + tail =~= report);
    stands_in_longer(opening, stats, tail, file_stat(files[k]));
}

} // verus!
