//! What the operations tools read and report, from the members of an answer to a report.

use vstd::prelude::*;

use super::tools::{
    dispatched, hit_entry, image_entry, report_of, request_for, run_entry, shown_hits, Tool,
};
use crate::http::{Expect, ReplyView, StepView};
use crate::json::JsonView;
use crate::text::laws::lists_behind;
use crate::text::search::{contains, group_contained};
use crate::text::url::urlencoded;
use crate::text::{decimal, join};
use crate::web::{browser, hits, HitView};

verus! {

// ─── Addresses ──────────────────────────────────────────────────────────────

/// A repository is read by its owner and its name, in this order; the runs of its workflows are
/// read below it.
pub proof fn named_repo_is_read(args: JsonView, owner: Seq<char>, repo: Seq<char>)
    requires
        args.at("owner"@) == JsonView::Text(owner),
        args.at("repo"@) == JsonView::Text(repo),
    ensures
        ({
            let repo_url = "https://api.github.com/repos/"@ + urlencoded(owner) + "/"@ + urlencoded(
                repo,
            );
            &&& request_for(Tool::GithubRepoInfo, args) matches Ok(r) && r.url == repo_url
            &&& request_for(Tool::GithubActionsRuns, args) matches Ok(r) && r.url == repo_url
                + "/actions/runs?per_page=5"@
        }),
{
    reveal_strlit("");
    let repo_url = "https://api.github.com/repos/"@ + urlencoded(owner) + "/"@ + urlencoded(repo);
    assert(repo_url + ""@ =~= repo_url);
}

/// A search carries its query encoded; an endpoint is probed at the very address that is given.
pub proof fn named_things_are_read(args: JsonView, query: Seq<char>, url: Seq<char>)
    requires
        args.at("query"@) == JsonView::Text(query),
        args.at("url"@) == JsonView::Text(url),
    ensures
        request_for(Tool::DockerHubSearch, args) matches Ok(r) && r.url
            == "https://hub.docker.com/v2/search/repositories/?query="@ + urlencoded(query)
            + "&page_size=5"@,
        request_for(Tool::WebSearch, args) matches Ok(r) && contains(
            r.url,
            "q="@ + urlencoded(query),
        ),
        request_for(Tool::CheckEndpoint, args) matches Ok(r) && r.url == url && r.expect
            == Expect::Probe,
{
    broadcast use group_contained;

    reveal_strlit("https://html.duckduckgo.com/html/?q=");
    reveal_strlit("https://html.duckduckgo.com/html/?");
    reveal_strlit("q=");
    assert("https://html.duckduckgo.com/html/?q="@ =~= "https://html.duckduckgo.com/html/?"@
        + "q="@);
    assert("https://html.duckduckgo.com/html/?q="@ + urlencoded(query)
        =~= "https://html.duckduckgo.com/html/?"@ + ("q="@ + urlencoded(query)));
}

/// The services that ask for it are told who is calling, and each answer is read as what its tool
/// makes use of.
pub proof fn services_are_asked_properly(tool: Tool, args: JsonView)
    requires
        request_for(tool, args) is Ok,
    ensures
        tool == Tool::GithubRepoInfo || tool == Tool::GithubActionsRuns || tool
            == Tool::CheckEndpoint
            ==> request_for(tool, args)->Ok_0.user_agent == Some("nasiko-devops-agent/1.0"@),
        tool == Tool::GithubRepoInfo || tool == Tool::GithubActionsRuns || tool
            == Tool::DockerHubSearch ==> request_for(tool, args)->Ok_0.expect == Expect::Json,
        tool == Tool::DockerHubSearch
            ==> request_for(tool, args)->Ok_0.user_agent == None::<Seq<char>>,
        tool == Tool::CheckEndpoint ==> request_for(tool, args)->Ok_0.expect == Expect::Probe,
        tool == Tool::WebSearch ==> request_for(tool, args)->Ok_0.user_agent == Some(browser()),
        tool == Tool::WebSearch ==> request_for(tool, args)->Ok_0.expect == Expect::SuccessText,
{
}

// ─── Repositories ───────────────────────────────────────────────────────────

/// The report on a repository tells each of its figures under its own label.
pub proof fn repo_is_reported(args: JsonView, resp: JsonView)
    requires
        args.at("owner"@) is Text,
        args.at("repo"@) is Text,
        resp.at("message"@) is Null,
    ensures
        report_of(Tool::GithubRepoInfo, args, ReplyView::Json(resp)) matches Ok(report) && {
            &&& contains(report, "**"@ + resp.at("full_name"@).text_or("unknown"@))
            &&& contains(
                report,
                "\nDescription: "@ + resp.at("description"@).text_or("No description"@),
            )
            &&& contains(report, "\nLanguage: "@ + resp.at("language"@).text_or("Not specified"@))
            &&& contains(
                report,
                "\nStars: "@ + decimal(resp.at("stargazers_count"@).natural_or(0) as nat),
            )
            &&& contains(
                report,
                "\nForks: "@ + decimal(resp.at("forks_count"@).natural_or(0) as nat),
            )
            &&& contains(
                report,
                "\nOpen Issues: "@ + decimal(resp.at("open_issues_count"@).natural_or(0) as nat),
            )
            &&& contains(
                report,
                "\nLicense: "@ + resp.at("license"@).at("spdx_id"@).text_or("None"@),
            )
            &&& contains(report, "\nLast Push: "@ + resp.at("pushed_at"@).text_or("unknown"@))
        },
{
    broadcast use group_contained;

    let head = "**"@ + resp.at("full_name"@).text_or("unknown"@);
    assert(contains(head, head));
    reveal_strlit("**\nDescription: ");
    reveal_strlit("**");
    reveal_strlit("\nDescription: ");
    let told = "\nDescription: "@ + resp.at("description"@).text_or("No description"@);
    assert("**\nDescription: "@ =~= "**"@ + "\nDescription: "@);
    assert(head + "**\nDescription: "@ + resp.at("description"@).text_or("No description"@) =~= head
        + "**"@ + told);
    assert(contains(head + "**"@ + told, told));
}

/// Whether an entry tells of a run: its workflow, where it stands, how it ended, its branch, its
/// event and its time.
pub open spec fn tells_of_run(entry: Seq<char>, run: JsonView) -> bool {
    &&& contains(entry, "- **"@ + run.at("name"@).text_or("unnamed"@))
    &&& contains(
        entry,
        "** ["@ + run.at("status"@).text_or("unknown"@) + "/"@ + run.at("conclusion"@).text_or(
            "pending"@,
        ),
    )
    &&& contains(entry, "]\n  Branch: "@ + run.at("head_branch"@).text_or("unknown"@))
    &&& contains(entry, " | Event: "@ + run.at("event"@).text_or("unknown"@))
    &&& contains(entry, " | Created: "@ + run.at("created_at"@).text_or("unknown"@))
}

proof fn run_is_told(run: JsonView)
    ensures
        tells_of_run(run_entry(run), run),
{
    broadcast use group_contained;

    let head = "- **"@ + run.at("name"@).text_or("unnamed"@);
    assert(contains(head, head));
    let status = run.at("status"@).text_or("unknown"@);
    let conclusion = run.at("conclusion"@).text_or("pending"@);
    let state = "** ["@ + status + "/"@ + conclusion;
    assert(head + "** ["@ + status + "/"@ + conclusion =~= head + state);
    assert(contains(head + state, state));
}

/// Every run of a repository's workflows is reported, in the order of the answer, behind the name
/// of the repository.
pub proof fn runs_are_reported(
    args: JsonView,
    owner: Seq<char>,
    repo: Seq<char>,
    resp: JsonView,
    runs: Seq<JsonView>,
)
    requires
        args.at("owner"@) == JsonView::Text(owner),
        args.at("repo"@) == JsonView::Text(repo),
        resp.at("message"@) is Null,
        resp.at("workflow_runs"@) == JsonView::List(runs),
        runs.len() > 0,
    ensures
        ({
            let told = report_of(Tool::GithubActionsRuns, args, ReplyView::Json(resp));
            &&& told is Ok
            &&& exists|head: Seq<char>, entries: Seq<Seq<char>>|
                {
                    &&& #[trigger] lists_behind(told->Ok_0, head, entries, "\n"@)
                    &&& contains(head, owner + "/"@ + repo)
                    &&& entries.len() == runs.len()
                    &&& forall|i: int|
                        0 <= i < runs.len() ==> tells_of_run(#[trigger] entries[i], runs[i])
                }
        }),
{
    broadcast use group_contained;

    let told = report_of(Tool::GithubActionsRuns, args, ReplyView::Json(resp));
    let entries = Seq::new(runs.len(), |i: int| run_entry(runs[i]));
    let name = owner + "/"@ + repo;
    let lead = "Recent workflow runs for "@ + owner + "/"@ + repo;
    let head = lead + ":\n\n"@;
    assert(lead =~= "Recent workflow runs for "@ + name);
    assert(contains("Recent workflow runs for "@ + name, name));
    assert(contains(head, name));
    assert(told->Ok_0 == head + join(entries, "\n"@));
    assert(lists_behind(told->Ok_0, head, entries, "\n"@));
    assert forall|i: int| 0 <= i < runs.len() implies tells_of_run(
        #[trigger] entries[i],
        runs[i],
    ) by {
        run_is_told(runs[i]);
    }
}

// ─── Images ─────────────────────────────────────────────────────────────────

/// Whether an entry tells of an image: its name, what it is, its stars and its pulls, and whether
/// it is an official one.
pub open spec fn tells_of_image(entry: Seq<char>, image: JsonView) -> bool {
    &&& contains(entry, "- **"@ + image.at("repo_name"@).text_or("unknown"@) + "**"@)
    &&& contains(entry, "\n  "@ + image.at("short_description"@).text_or("No description"@))
    &&& contains(entry, "\n  Stars: "@ + decimal(image.at("star_count"@).natural_or(0) as nat))
    &&& contains(entry, " | Pulls: "@ + decimal(image.at("pull_count"@).natural_or(0) as nat))
    &&& image.at("is_official"@) == JsonView::Bool(true) ==> contains(
        entry,
        "** [OFFICIAL]\n"@,
    )
    &&& image.at("is_official"@) != JsonView::Bool(true) ==> contains(entry, "**\n"@)
}

proof fn image_is_told(image: JsonView)
    ensures
        tells_of_image(image_entry(image), image),
{
    broadcast use group_contained;

    let name = "- **"@ + image.at("repo_name"@).text_or("unknown"@);
    let head = name + "**"@;
    let mark = if image.at("is_official"@).truth() == Some(true) {
        " [OFFICIAL]"@
    } else {
        ""@
    };
    assert(contains(head, head));
    reveal_strlit("");
    reveal_strlit("**");
    reveal_strlit(" [OFFICIAL]");
    reveal_strlit("\n  ");
    reveal_strlit("** [OFFICIAL]\n");
    reveal_strlit("**\n");
    reveal_strlit("  ");
    let turn = "**"@ + mark + "\n  "@;
    let lead = head + mark + "\n  "@;
    assert(lead =~= name + turn);
    assert(contains(name + turn, turn));
    if image.at("is_official"@) == JsonView::Bool(true) {
        assert(turn =~= "** [OFFICIAL]\n"@ + "  "@);
        assert(contains("** [OFFICIAL]\n"@, "** [OFFICIAL]\n"@));
        assert(contains(turn, "** [OFFICIAL]\n"@));
        assert(contains(name + turn, "** [OFFICIAL]\n"@));
        assert(contains(lead, "** [OFFICIAL]\n"@));
    } else {
        assert(turn =~= "**\n"@ + "  "@);
        assert(contains("**\n"@, "**\n"@));
        assert(contains(turn, "**\n"@));
        assert(contains(name + turn, "**\n"@));
        assert(contains(lead, "**\n"@));
    }
}

/// Every image that a search has found is reported, in the order of the answer, behind the query.
pub proof fn images_are_reported(
    args: JsonView,
    query: Seq<char>,
    resp: JsonView,
    images: Seq<JsonView>,
)
    requires
        args.at("query"@) == JsonView::Text(query),
        resp.at("results"@) == JsonView::List(images),
        images.len() > 0,
    ensures
        ({
            let told = report_of(Tool::DockerHubSearch, args, ReplyView::Json(resp));
            &&& told is Ok
            &&& exists|head: Seq<char>, entries: Seq<Seq<char>>|
                {
                    &&& #[trigger] lists_behind(told->Ok_0, head, entries, "\n"@)
                    &&& contains(head, "Docker Hub results for '"@ + query)
                    &&& entries.len() == images.len()
                    &&& forall|i: int|
                        0 <= i < images.len() ==> tells_of_image(#[trigger] entries[i], images[i])
                }
        }),
{
    broadcast use group_contained;

    let told = report_of(Tool::DockerHubSearch, args, ReplyView::Json(resp));
    let entries = Seq::new(images.len(), |i: int| image_entry(images[i]));
    let lead = "Docker Hub results for '"@ + query;
    let head = lead + "':\n\n"@;
    assert(contains(lead, lead));
    assert(contains(head, lead));
    assert(told->Ok_0 == head + join(entries, "\n"@));
    assert(lists_behind(told->Ok_0, head, entries, "\n"@));
    assert forall|i: int| 0 <= i < images.len() implies tells_of_image(
        #[trigger] entries[i],
        images[i],
    ) by {
        image_is_told(images[i]);
    }
}

// ─── Endpoints ──────────────────────────────────────────────────────────────

/// An endpoint that answers is reported with its address, its status, the time it took and what
/// it sent; it is healthy if and only if its code is one of success.
pub proof fn answer_is_reported(
    args: JsonView,
    url: Seq<char>,
    code: u16,
    status: Seq<char>,
    content_type: Option<Seq<char>>,
    elapsed_ms: u64,
)
    requires
        args.at("url"@) == JsonView::Text(url),
    ensures
        report_of(
            Tool::CheckEndpoint,
            args,
            ReplyView::Answered { code, status, content_type, elapsed_ms },
        ) matches Ok(report) && {
            &&& contains(report, "Endpoint: "@ + url)
            &&& 200 <= code < 300 ==> contains(report, "\nStatus: "@ + status + " [HEALTHY]"@)
            &&& !(200 <= code < 300) ==> contains(
                report,
                "\nStatus: "@ + status + " [UNHEALTHY]"@,
            )
            &&& contains(report, "\nResponse Time: "@ + decimal(elapsed_ms as nat) + "ms"@)
            &&& content_type matches Some(t) ==> contains(report, "\nContent-Type: "@ + t)
        },
{
    broadcast use group_contained;

    let head = "Endpoint: "@ + url;
    let health = if 200 <= code < 300 {
        "HEALTHY"@
    } else {
        "UNHEALTHY"@
    };
    let time = decimal(elapsed_ms as nat);
    let kind = match content_type {
        Some(t) => t,
        None => "not specified"@,
    };
    reveal_strlit(" [");
    reveal_strlit("HEALTHY");
    reveal_strlit("UNHEALTHY");
    reveal_strlit(" [HEALTHY]");
    reveal_strlit(" [UNHEALTHY]");
    reveal_strlit("]\nResponse Time: ");
    reveal_strlit("\nResponse Time: ");
    reveal_strlit("]");
    reveal_strlit("ms\nContent-Type: ");
    reveal_strlit("\nContent-Type: ");
    reveal_strlit("ms");
    let report = head + "\nStatus: "@ + status + " ["@ + health + "]\nResponse Time: "@ + time
        + "ms\nContent-Type: "@ + kind;
    let state = "\nStatus: "@ + status + if 200 <= code < 300 {
        " [HEALTHY]"@
    } else {
        " [UNHEALTHY]"@
    };
    let took = "\nResponse Time: "@ + time + "ms"@;
    let sent = "\nContent-Type: "@ + kind;
    assert(report =~= head + state + took + sent);
    assert(contains(head, head));
    assert(contains(head + state, state));
    assert(contains(head + state + took, took));
    assert(contains(head + state + took + sent, sent));
    assert(report_of(
        Tool::CheckEndpoint,
        args,
        ReplyView::Answered { code, status, content_type, elapsed_ms },
    ) == Ok::<Seq<char>, Seq<char>>(report));
}

/// An endpoint that cannot be reached is reported as unhealthy, with the time it took and the
/// reason; one that does not answer in time is too.
pub proof fn failure_is_reported(args: JsonView, url: Seq<char>, elapsed_ms: u64, error: Seq<char>)
    requires
        args.at("url"@) == JsonView::Text(url),
    ensures
        report_of(Tool::CheckEndpoint, args, ReplyView::Unreachable { elapsed_ms, error }) matches Ok(
            report,
        ) && {
            &&& contains(report, "Endpoint: "@ + url)
            &&& contains(report, "\nStatus: CONNECTION FAILED [UNHEALTHY]\nResponse Time: "@
                + decimal(elapsed_ms as nat))
            &&& contains(report, "ms\nError: "@ + error)
        },
        report_of(Tool::CheckEndpoint, args, ReplyView::TimedOut) matches Ok(report) && contains(
            report,
            "Endpoint: "@ + url,
        ),
        report_of(Tool::CheckEndpoint, args, ReplyView::NoClient(error)) matches Err(e) && contains(
            e,
            error,
        ),
{
    broadcast use group_contained;

    let head = "Endpoint: "@ + url;
    assert(contains(head, head));
}

// ─── Web hits ───────────────────────────────────────────────────────────────

/// Whether an entry tells of a hit: its title, its address and its snippet.
pub open spec fn tells_of_hit(entry: Seq<char>, hit: HitView) -> bool {
    &&& contains(entry, "**"@ + hit.title + "**\n  URL: "@ + hit.href)
    &&& hit.snippet.len() > 0 ==> contains(entry, "\n  "@ + hit.snippet)
}

proof fn hit_is_told(hit: HitView)
    ensures
        tells_of_hit(hit_entry(hit), hit),
{
    broadcast use group_contained;

    let line = "**"@ + hit.title + "**\n  URL: "@ + hit.href;
    assert(contains(line, line));
}

/// The first five hits of a page that have a title are reported, in the order of the page, each by
/// its own title, address and snippet.
pub proof fn titled_hits_are_reported(
    args: JsonView,
    query: Seq<char>,
    page: Seq<char>,
    found: Seq<HitView>,
)
    requires
        args.at("query"@) == JsonView::Text(query),
        hits(page) == found,
        found.len() > 0,
        forall|i: int| 0 <= i < found.len() ==> (#[trigger] found[i]).title.len() > 0,
    ensures
        ({
            let told = report_of(Tool::WebSearch, args, ReplyView::Text(page));
            &&& told is Ok
            &&& exists|head: Seq<char>, entries: Seq<Seq<char>>|
                {
                    &&& #[trigger] lists_behind(told->Ok_0, head, entries, "\n\n"@)
                    &&& contains(head, "Web results for '"@ + query)
                    &&& entries.len() == if found.len() < 5 {
                        found.len()
                    } else {
                        5
                    }
                    &&& forall|i: int|
                        0 <= i < entries.len() ==> tells_of_hit(#[trigger] entries[i], found[i])
                }
        }),
{
    broadcast use group_contained;

    let told = report_of(Tool::WebSearch, args, ReplyView::Text(page));
    let entries = shown_hits(found);
    let lead = "Web results for '"@ + query;
    let head = lead + "':\n\n"@;
    titled_hits_stay(found);
    assert(contains(lead, lead));
    assert(contains(head, lead));
    assert(told->Ok_0 == head + join(entries, "\n\n"@));
    assert(lists_behind(told->Ok_0, head, entries, "\n\n"@));
    assert forall|i: int| 0 <= i < entries.len() implies tells_of_hit(
        #[trigger] entries[i],
        found[i],
    ) by {
        hit_is_told(found[i]);
    }
}

proof fn titled_hits_stay(found: Seq<HitView>)
    requires
        forall|i: int| 0 <= i < found.len() ==> (#[trigger] found[i]).title.len() > 0,
    ensures
        shown_hits(found).len() == if found.len() < 5 {
            found.len()
        } else {
            5
        },
        forall|i: int|
            0 <= i < shown_hits(found).len() ==> #[trigger] shown_hits(found)[i] == hit_entry(
                found[i],
            ),
    decreases found.len(),
{
    if found.len() > 0 {
        let before = found.drop_last();
        assert(forall|i: int| 0 <= i < before.len() ==> before[i] == found[i]);
        titled_hits_stay(before);
    }
}

/// A hit without a title is passed over, wherever it stands.
pub proof fn untitled_hit_is_passed_over(found: Seq<HitView>, hit: HitView)
    requires
        hit.title.len() == 0,
    ensures
        shown_hits(found.push(hit)) == shown_hits(found),
{
    assert(found.push(hit).drop_last() =~= found);
}

// ─── Calls ──────────────────────────────────────────────────────────────────

/// Whether a call by `name` does the work of `tool`: it fetches what the tool reads, and tells what
/// the tool reports of the first reply, or what went wrong.
pub open spec fn does_the_work_of(
    name: Seq<char>,
    tool: Tool,
    args: JsonView,
    reply: ReplyView,
) -> bool {
    let asked = dispatched(name, Ok(args), Seq::empty());
    let told = dispatched(name, Ok(args), seq![reply]);
    match request_for(tool, args) {
        Err(e) => asked == StepView::Done("Error: "@ + e) && told == asked,
        Ok(r) => {
            &&& asked == StepView::Fetch(r)
            &&& match report_of(tool, args, reply) {
                Ok(report) => told == StepView::Done(report),
                Err(e) => told == StepView::Done("Error: "@ + e),
            }
        },
    }
}

proof fn names_differ()
    ensures
        "github_actions_runs"@ != "github_repo_info"@,
        "docker_hub_search"@ != "github_repo_info"@,
        "docker_hub_search"@ != "github_actions_runs"@,
        "check_endpoint"@ != "github_repo_info"@,
        "check_endpoint"@ != "github_actions_runs"@,
        "check_endpoint"@ != "docker_hub_search"@,
        "web_search"@ != "github_repo_info"@,
        "web_search"@ != "github_actions_runs"@,
        "web_search"@ != "docker_hub_search"@,
        "web_search"@ != "check_endpoint"@,
{
    reveal_strlit("github_repo_info");
    reveal_strlit("github_actions_runs");
    reveal_strlit("docker_hub_search");
    reveal_strlit("check_endpoint");
    reveal_strlit("web_search");
    assert("github_actions_runs"@.len() != "github_repo_info"@.len());
    assert("docker_hub_search"@.len() != "github_repo_info"@.len());
    assert("docker_hub_search"@.len() != "github_actions_runs"@.len());
    assert("check_endpoint"@.len() != "github_repo_info"@.len());
    assert("check_endpoint"@.len() != "github_actions_runs"@.len());
    assert("check_endpoint"@.len() != "docker_hub_search"@.len());
    assert("web_search"@.len() != "github_repo_info"@.len());
    assert("web_search"@.len() != "github_actions_runs"@.len());
    assert("web_search"@.len() != "docker_hub_search"@.len());
    assert("web_search"@.len() != "check_endpoint"@.len());
}

/// Each tool does its own work where it is called by its name.
pub proof fn tools_are_called_by_name(args: JsonView, reply: ReplyView)
    ensures
        does_the_work_of("github_repo_info"@, Tool::GithubRepoInfo, args, reply),
        does_the_work_of("github_actions_runs"@, Tool::GithubActionsRuns, args, reply),
        does_the_work_of("docker_hub_search"@, Tool::DockerHubSearch, args, reply),
        does_the_work_of("check_endpoint"@, Tool::CheckEndpoint, args, reply),
        does_the_work_of("web_search"@, Tool::WebSearch, args, reply),
{
    names_differ();
    assert(seq![reply][0] == reply);
}

/// Arguments that cannot be read are told of, and so is a tool that is not known.
pub proof fn unusable_call_is_explained(name: Seq<char>, e: Seq<char>, replies: Seq<ReplyView>)
    requires
        name != "github_repo_info"@,
        name != "github_actions_runs"@,
        name != "docker_hub_search"@,
        name != "check_endpoint"@,
        name != "web_search"@,
    ensures
        forall|args: Result<JsonView, Seq<char>>| #[trigger]
            dispatched(name, args, replies) == StepView::Done("Error: "@ + ("Unknown tool: "@ + name)),
        dispatched("github_repo_info"@, Err(e), replies) == StepView::Done("Error: "@ + e),
        dispatched("github_actions_runs"@, Err(e), replies) == StepView::Done("Error: "@ + e),
        dispatched("docker_hub_search"@, Err(e), replies) == StepView::Done("Error: "@ + e),
        dispatched("check_endpoint"@, Err(e), replies) == StepView::Done("Error: "@ + e),
        dispatched("web_search"@, Err(e), replies) == StepView::Done("Error: "@ + e),
{
    assert(forall|args: Result<JsonView, Seq<char>>| #[trigger]
        dispatched(name, args, replies) == StepView::Done("Error: "@ + ("Unknown tool: "@ + name)));
}

// ─── Empty and unusable answers ─────────────────────────────────────────────

/// Where nothing is found, what was looked for is named.
pub proof fn nothing_found_is_told(
    args: JsonView,
    owner: Seq<char>,
    repo: Seq<char>,
    query: Seq<char>,
    resp: JsonView,
)
    requires
        args.at("owner"@) == JsonView::Text(owner),
        args.at("repo"@) == JsonView::Text(repo),
        args.at("query"@) == JsonView::Text(query),
    ensures
        resp.at("message"@) == JsonView::Text("Not Found"@) ==> {
            &&& report_of(Tool::GithubRepoInfo, args, ReplyView::Json(resp)) matches Ok(report)
                && contains(report, "Repository '"@ + owner + "/"@ + repo + "' not found"@)
            &&& report_of(Tool::GithubActionsRuns, args, ReplyView::Json(resp)) matches Ok(report)
                && contains(report, "Repository '"@ + owner + "/"@ + repo + "' not found"@)
        },
        resp.at("message"@) is Null && resp.at("workflow_runs"@) == JsonView::List(Seq::empty())
            ==> report_of(Tool::GithubActionsRuns, args, ReplyView::Json(resp)) == Ok::<
            Seq<char>,
            Seq<char>,
        >("No workflow runs found for '"@ + owner + "/"@ + repo + "'."@),
        resp.at("message"@) is Null && resp.at("workflow_runs"@) !is List ==> report_of(
            Tool::GithubActionsRuns,
            args,
            ReplyView::Json(resp),
        ) is Err,
        resp.at("results"@) == JsonView::List(Seq::empty()) ==> report_of(
            Tool::DockerHubSearch,
            args,
            ReplyView::Json(resp),
        ) == Ok::<Seq<char>, Seq<char>>("No Docker Hub images found for '"@ + query + "'."@),
        resp.at("results"@) !is List ==> report_of(
            Tool::DockerHubSearch,
            args,
            ReplyView::Json(resp),
        ) is Err,
{
    broadcast use group_contained;

    assert(Seq::<JsonView>::empty().len() == 0);
    reveal_strlit("' not found.");
    reveal_strlit("' not found");
    reveal_strlit(".");
    reveal_strlit(" or Actions not enabled.");
    reveal_strlit("' not found or Actions not enabled.");
    let name = "Repository '"@ + owner + "/"@ + repo;
    let told = name + "' not found"@;
    assert(contains(told, told));
    assert(name + "' not found."@ =~= told + "."@);
    assert(name + "' not found or Actions not enabled."@ =~= told + " or Actions not enabled."@);
    assert(contains(told + "."@, told));
    assert(contains(told + " or Actions not enabled."@, told));
}

/// A page without hits is told of, with the query; a search that is refused, with its status.
pub proof fn empty_page_is_told(args: JsonView, query: Seq<char>, page: Seq<char>, line: Seq<char>)
    requires
        args.at("query"@) == JsonView::Text(query),
        hits(page).len() == 0,
    ensures
        report_of(Tool::WebSearch, args, ReplyView::Text(page)) == Ok::<Seq<char>, Seq<char>>(
            "No web results found for '"@ + query + "'."@,
        ),
        report_of(Tool::WebSearch, args, ReplyView::Refused(line)) == Err::<Seq<char>, Seq<char>>(
            "search failed (HTTP "@ + line + ")"@,
        ),
{
}

} // verus!
