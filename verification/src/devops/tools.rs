//! The operations tools: which address a call reads, and what it reports of the answer.

use vstd::prelude::*;

use super::definitions::{definitions_are_named, definitions_view};
use crate::http::{
    ask, asked, body_json, body_text, get, is_success, json_body, need, needed, reply_views,
    request_view, show, shown, single_fetch, succeeds, text_body, Expect, Reply, ReplyView, Request,
    RequestView, Step, StepView,
};
use crate::json::serde::{json_of_text, parse};
use crate::json::{json_views, parsed_view, Json, JsonView};
use crate::schema::{advertises, schema_name};
use crate::text::url::{urlencode, urlencoded};
use crate::text::{
    decimal, decimal_text, is_text, join, join_texts, outcome, prefixed, same, text, views,
};
use crate::web::{
    address, browser, browser_name, hit_views, hits, read_hits, search_url, Hit, HitView,
};

pub use super::definitions::definitions;

verus! {

/// The operations tools.
#[derive(Debug, Clone, Copy, PartialEq, Eq, Structural)]
pub enum Tool {
    GithubRepoInfo,
    GithubActionsRuns,
    DockerHubSearch,
    CheckEndpoint,
    WebSearch,
}

/// The tool that is called by `name`.
pub open spec fn tool_of(name: Seq<char>) -> Option<Tool> {
    if name == "github_repo_info"@ {
        Some(Tool::GithubRepoInfo)
    } else if name == "github_actions_runs"@ {
        Some(Tool::GithubActionsRuns)
    } else if name == "docker_hub_search"@ {
        Some(Tool::DockerHubSearch)
    } else if name == "check_endpoint"@ {
        Some(Tool::CheckEndpoint)
    } else if name == "web_search"@ {
        Some(Tool::WebSearch)
    } else {
        None
    }
}

/// The tool that is called by `name`.
pub fn tool_named(name: &str) -> (r: Option<Tool>)
    ensures
        r == tool_of(name@),
{
    if same(name, "github_repo_info") {
        Some(Tool::GithubRepoInfo)
    } else if same(name, "github_actions_runs") {
        Some(Tool::GithubActionsRuns)
    } else if same(name, "docker_hub_search") {
        Some(Tool::DockerHubSearch)
    } else if same(name, "check_endpoint") {
        Some(Tool::CheckEndpoint)
    } else if same(name, "web_search") {
        Some(Tool::WebSearch)
    } else {
        None
    }
}

// ─── Requests ───────────────────────────────────────────────────────────────

/// The agent's name, sent to GitHub and to endpoints.
pub open spec fn devops_agent() -> Option<Seq<char>> {
    Some("nasiko-devops-agent/1.0"@)
}

/// The repository that a call asks about: its owner and its name, or what is missing.
pub open spec fn repo_asked(args: JsonView) -> Result<(Seq<char>, Seq<char>), Seq<char>> {
    match needed(args, "owner"@) {
        Err(e) => Err(e),
        Ok(owner) => match needed(args, "repo"@) {
            Err(e) => Err(e),
            Ok(repo) => Ok((owner, repo)),
        },
    }
}

/// The repository that a call asks about.
fn need_repo<'a>(args: &'a Json) -> (r: Result<(&'a str, &'a str), String>)
    ensures
        match r {
            Ok((owner, repo)) => repo_asked(args@) == Ok::<(Seq<char>, Seq<char>), Seq<char>>(
                (owner@, repo@),
            ),
            Err(e) => repo_asked(args@) == Err::<(Seq<char>, Seq<char>), Seq<char>>(e@),
        },
{
    match need(args, "owner") {
        Err(e) => Err(e),
        Ok(owner) => match need(args, "repo") {
            Err(e) => Err(e),
            Ok(repo) => Ok((owner, repo)),
        },
    }
}

/// The address of a repository, or of something in it.
pub open spec fn github_url(owner: Seq<char>, repo: Seq<char>, rest: Seq<char>) -> Seq<char> {
    "https://api.github.com/repos/"@ + urlencoded(owner) + "/"@ + urlencoded(repo) + rest
}

/// The address of a repository, or of something in it.
fn github_address(owner: &str, repo: &str, rest: &str) -> (r: String)
    ensures
        r@ == github_url(owner@, repo@, rest@),
{
    let mut url = text("https://api.github.com/repos/");
    let o = urlencode(owner);
    url.append(o.as_str());
    url.append("/");
    let n = urlencode(repo);
    url.append(n.as_str());
    url.append(rest);
    url
}

/// The request that a call of `tool` sends, or why it sends none.
pub open spec fn request_for(tool: Tool, args: JsonView) -> Result<RequestView, Seq<char>> {
    match tool {
        Tool::GithubRepoInfo => match repo_asked(args) {
            Err(e) => Err(e),
            Ok((owner, repo)) => Ok(
                RequestView {
                    url: github_url(owner, repo, ""@),
                    user_agent: devops_agent(),
                    expect: Expect::Json,
                },
            ),
        },
        Tool::GithubActionsRuns => match repo_asked(args) {
            Err(e) => Err(e),
            Ok((owner, repo)) => Ok(
                RequestView {
                    url: github_url(owner, repo, "/actions/runs?per_page=5"@),
                    user_agent: devops_agent(),
                    expect: Expect::Json,
                },
            ),
        },
        Tool::DockerHubSearch => match needed(args, "query"@) {
            Err(e) => Err(e),
            Ok(query) => Ok(
                RequestView {
                    url: "https://hub.docker.com/v2/search/repositories/?query="@ + urlencoded(
                        query,
                    ) + "&page_size=5"@,
                    user_agent: None,
                    expect: Expect::Json,
                },
            ),
        },
        Tool::CheckEndpoint => match needed(args, "url"@) {
            Err(e) => Err(e),
            Ok(url) => Ok(
                RequestView { url, user_agent: devops_agent(), expect: Expect::Probe },
            ),
        },
        Tool::WebSearch => match needed(args, "query"@) {
            Err(e) => Err(e),
            Ok(query) => Ok(
                RequestView {
                    url: search_url(query),
                    user_agent: Some(browser()),
                    expect: Expect::SuccessText,
                },
            ),
        },
    }
}

/// The request that a call of `tool` sends, or why it sends none.
pub fn request(tool: Tool, args: &Json) -> (r: Result<Request, String>)
    ensures
        request_view(r) == request_for(tool, args@),
{
    match tool {
        Tool::GithubRepoInfo => match need_repo(args) {
            Err(e) => Err(e),
            Ok((owner, repo)) => Ok(
                get(
                    github_address(owner, repo, ""),
                    Some("nasiko-devops-agent/1.0"),
                    Expect::Json,
                ),
            ),
        },
        Tool::GithubActionsRuns => match need_repo(args) {
            Err(e) => Err(e),
            Ok((owner, repo)) => Ok(
                get(
                    github_address(owner, repo, "/actions/runs?per_page=5"),
                    Some("nasiko-devops-agent/1.0"),
                    Expect::Json,
                ),
            ),
        },
        Tool::DockerHubSearch => match need(args, "query") {
            Err(e) => Err(e),
            Ok(query) => {
                let mut url = text("https://hub.docker.com/v2/search/repositories/?query=");
                let q = urlencode(query);
                url.append(q.as_str());
                url.append("&page_size=5");
                Ok(get(url, None, Expect::Json))
            },
        },
        Tool::CheckEndpoint => match need(args, "url") {
            Err(e) => Err(e),
            Ok(url) => Ok(get(text(url), Some("nasiko-devops-agent/1.0"), Expect::Probe)),
        },
        Tool::WebSearch => match need(args, "query") {
            Err(e) => Err(e),
            Ok(query) => Ok(get(address(query), Some(browser_name()), Expect::SuccessText)),
        },
    }
}

// ─── github_repo_info ───────────────────────────────────────────────────────

/// Whether GitHub says that there is no such thing.
pub open spec fn is_missing(resp: JsonView) -> bool {
    resp.at("message"@).text() == Some("Not Found"@)
}

/// The report of `github_repo_info`.
pub open spec fn repo_info_report(args: JsonView, reply: ReplyView) -> Result<
    Seq<char>,
    Seq<char>,
> {
    match repo_asked(args) {
        Err(e) => Err(e),
        Ok((owner, repo)) => match json_body(reply) {
            Err(e) => Err(e),
            Ok(resp) => if is_missing(resp) {
                Ok("Repository '"@ + owner + "/"@ + repo + "' not found."@)
            } else {
                Ok(
                    "**"@ + resp.at("full_name"@).text_or("unknown"@) + "**\nDescription: "@
                        + resp.at("description"@).text_or("No description"@) + "\nLanguage: "@
                        + resp.at("language"@).text_or("Not specified"@) + "\nStars: "@ + decimal(
                        resp.at("stargazers_count"@).natural_or(0) as nat,
                    ) + "\nForks: "@ + decimal(resp.at("forks_count"@).natural_or(0) as nat)
                        + "\nOpen Issues: "@ + decimal(
                        resp.at("open_issues_count"@).natural_or(0) as nat,
                    ) + "\nLicense: "@ + resp.at("license"@).at("spdx_id"@).text_or("None"@)
                        + "\nLast Push: "@ + resp.at("pushed_at"@).text_or("unknown"@),
                )
            },
        },
    }
}

/// The report of `github_repo_info`.
pub fn github_repo_info(args: &Json, reply: &Reply) -> (r: Result<String, String>)
    ensures
        outcome(r) == repo_info_report(args@, reply@),
{
    match need_repo(args) {
        Err(e) => Err(e),
        Ok((owner, repo)) => match body_json(reply) {
            Err(e) => Err(e),
            Ok(resp) => if is_text(resp.at("message").as_text(), "Not Found") {
                let mut out = text("Repository '");
                out.append(owner);
                out.append("/");
                out.append(repo);
                out.append("' not found.");
                Ok(out)
            } else {
                let mut out = text("**");
                out.append(resp.at("full_name").text_or("unknown"));
                out.append("**\nDescription: ");
                out.append(resp.at("description").text_or("No description"));
                out.append("\nLanguage: ");
                out.append(resp.at("language").text_or("Not specified"));
                out.append("\nStars: ");
                let stars = decimal_text(resp.at("stargazers_count").natural_or(0));
                out.append(stars.as_str());
                out.append("\nForks: ");
                let forks = decimal_text(resp.at("forks_count").natural_or(0));
                out.append(forks.as_str());
                out.append("\nOpen Issues: ");
                let issues = decimal_text(resp.at("open_issues_count").natural_or(0));
                out.append(issues.as_str());
                out.append("\nLicense: ");
                out.append(resp.at("license").at("spdx_id").text_or("None"));
                out.append("\nLast Push: ");
                out.append(resp.at("pushed_at").text_or("unknown"));
                Ok(out)
            },
        },
    }
}

// ─── github_actions_runs ────────────────────────────────────────────────────

/// One run of a workflow.
pub open spec fn run_entry(run: JsonView) -> Seq<char> {
    "- **"@ + run.at("name"@).text_or("unnamed"@) + "** ["@ + run.at("status"@).text_or("unknown"@)
        + "/"@ + run.at("conclusion"@).text_or("pending"@) + "]\n  Branch: "@ + run.at(
        "head_branch"@,
    ).text_or("unknown"@) + " | Event: "@ + run.at("event"@).text_or("unknown"@) + " | Created: "@
        + run.at("created_at"@).text_or("unknown"@)
}

/// The report of `github_actions_runs`.
pub open spec fn actions_report(args: JsonView, reply: ReplyView) -> Result<Seq<char>, Seq<char>> {
    match repo_asked(args) {
        Err(e) => Err(e),
        Ok((owner, repo)) => match json_body(reply) {
            Err(e) => Err(e),
            Ok(resp) => if is_missing(resp) {
                Ok("Repository '"@ + owner + "/"@ + repo + "' not found or Actions not enabled."@)
            } else {
                match resp.at("workflow_runs"@).items() {
                    None => Err("no workflow_runs field in response"@),
                    Some(runs) => if runs.len() == 0 {
                        Ok("No workflow runs found for '"@ + owner + "/"@ + repo + "'."@)
                    } else {
                        Ok(
                            "Recent workflow runs for "@ + owner + "/"@ + repo + ":\n\n"@ + join(
                                Seq::new(runs.len(), |i: int| run_entry(runs[i])),
                                "\n"@,
                            ),
                        )
                    },
                }
            },
        },
    }
}

/// One run of a workflow.
fn show_run(run: &Json) -> (r: String)
    ensures
        r@ == run_entry(run@),
{
    let mut out = text("- **");
    out.append(run.at("name").text_or("unnamed"));
    out.append("** [");
    out.append(run.at("status").text_or("unknown"));
    out.append("/");
    out.append(run.at("conclusion").text_or("pending"));
    out.append("]\n  Branch: ");
    out.append(run.at("head_branch").text_or("unknown"));
    out.append(" | Event: ");
    out.append(run.at("event").text_or("unknown"));
    out.append(" | Created: ");
    out.append(run.at("created_at").text_or("unknown"));
    out
}

/// The report of `github_actions_runs`.
pub fn github_actions_runs(args: &Json, reply: &Reply) -> (r: Result<String, String>)
    ensures
        outcome(r) == actions_report(args@, reply@),
{
    match need_repo(args) {
        Err(e) => Err(e),
        Ok((owner, repo)) => match body_json(reply) {
            Err(e) => Err(e),
            Ok(resp) => {
                if is_text(resp.at("message").as_text(), "Not Found") {
                    let mut out = text("Repository '");
                    out.append(owner);
                    out.append("/");
                    out.append(repo);
                    out.append("' not found or Actions not enabled.");
                    return Ok(out);
                }
                match resp.at("workflow_runs").as_items() {
                    None => Err(text("no workflow_runs field in response")),
                    Some(runs) => {
                        let ghost all = json_views(runs@);
                        if runs.len() == 0 {
                            let mut out = text("No workflow runs found for '");
                            out.append(owner);
                            out.append("/");
                            out.append(repo);
                            out.append("'.");
                            return Ok(out);
                        }
                        let mut entries: Vec<String> = Vec::new();
                        let mut i: usize = 0;
                        while i < runs.len()
                            invariant
                                i <= runs@.len(),
                                all == json_views(runs@),
                                views(entries@) == Seq::new(i as nat, |j: int| run_entry(all[j])),
                            decreases runs@.len() - i,
                        {
                            let ghost before = views(entries@);
                            entries.push(show_run(&runs[i]));
                            assert(views(entries@) =~= before.push(run_entry(all[i as int])));
                            i += 1;
                            assert(views(entries@) =~= Seq::new(
                                i as nat,
                                |j: int| run_entry(all[j]),
                            ));
                        }
                        let mut out = text("Recent workflow runs for ");
                        out.append(owner);
                        out.append("/");
                        out.append(repo);
                        out.append(":\n\n");
                        let joined = join_texts(&entries, "\n");
                        out.append(joined.as_str());
                        Ok(out)
                    },
                }
            },
        },
    }
}

// ─── docker_hub_search ──────────────────────────────────────────────────────

/// One image.
pub open spec fn image_entry(image: JsonView) -> Seq<char> {
    "- **"@ + image.at("repo_name"@).text_or("unknown"@) + "**"@ + (if image.at(
        "is_official"@,
    ).truth() == Some(true) {
        " [OFFICIAL]"@
    } else {
        ""@
    }) + "\n  "@ + image.at("short_description"@).text_or("No description"@) + "\n  Stars: "@
        + decimal(image.at("star_count"@).natural_or(0) as nat) + " | Pulls: "@ + decimal(
        image.at("pull_count"@).natural_or(0) as nat,
    )
}

/// The report of `docker_hub_search`.
pub open spec fn docker_report(args: JsonView, reply: ReplyView) -> Result<Seq<char>, Seq<char>> {
    match asked(args, "query"@, reply) {
        Err(e) => Err(e),
        Ok((query, resp)) => match resp.at("results"@).items() {
            None => Err("no results field in response"@),
            Some(images) => if images.len() == 0 {
                Ok("No Docker Hub images found for '"@ + query + "'."@)
            } else {
                Ok(
                    "Docker Hub results for '"@ + query + "':\n\n"@ + join(
                        Seq::new(images.len(), |i: int| image_entry(images[i])),
                        "\n"@,
                    ),
                )
            },
        },
    }
}

/// One image.
fn show_image(image: &Json) -> (r: String)
    ensures
        r@ == image_entry(image@),
{
    let official = match image.at("is_official").as_truth() {
        Some(b) => b,
        None => false,
    };
    let mut out = text("- **");
    out.append(image.at("repo_name").text_or("unknown"));
    out.append("**");
    if official {
        out.append(" [OFFICIAL]");
    } else {
        out.append("");
    }
    out.append("\n  ");
    out.append(image.at("short_description").text_or("No description"));
    out.append("\n  Stars: ");
    let stars = decimal_text(image.at("star_count").natural_or(0));
    out.append(stars.as_str());
    out.append(" | Pulls: ");
    let pulls = decimal_text(image.at("pull_count").natural_or(0));
    out.append(pulls.as_str());
    out
}

/// The report of `docker_hub_search`.
pub fn docker_hub_search(args: &Json, reply: &Reply) -> (r: Result<String, String>)
    ensures
        outcome(r) == docker_report(args@, reply@),
{
    match ask(args, "query", reply) {
        Err(e) => Err(e),
        Ok((query, resp)) => match resp.at("results").as_items() {
            None => Err(text("no results field in response")),
            Some(images) => {
                let ghost all = json_views(images@);
                if images.len() == 0 {
                    let mut out = text("No Docker Hub images found for '");
                    out.append(query);
                    out.append("'.");
                    return Ok(out);
                }
                let mut entries: Vec<String> = Vec::new();
                let mut i: usize = 0;
                while i < images.len()
                    invariant
                        i <= images@.len(),
                        all == json_views(images@),
                        views(entries@) == Seq::new(i as nat, |j: int| image_entry(all[j])),
                    decreases images@.len() - i,
                {
                    let ghost before = views(entries@);
                    entries.push(show_image(&images[i]));
                    assert(views(entries@) =~= before.push(image_entry(all[i as int])));
                    i += 1;
                    assert(views(entries@) =~= Seq::new(i as nat, |j: int| image_entry(all[j])));
                }
                let mut out = text("Docker Hub results for '");
                out.append(query);
                out.append("':\n\n");
                let joined = join_texts(&entries, "\n");
                out.append(joined.as_str());
                Ok(out)
            },
        },
    }
}

// ─── check_endpoint ─────────────────────────────────────────────────────────

/// The report of `check_endpoint`: an endpoint is healthy where it answers with a success.
pub open spec fn endpoint_report(args: JsonView, reply: ReplyView) -> Result<Seq<char>, Seq<char>> {
    match needed(args, "url"@) {
        Err(e) => Err(e),
        Ok(url) => match reply {
            ReplyView::NoClient(e) => Err("failed to build client: "@ + e),
            ReplyView::Answered { code, status, content_type, elapsed_ms } => Ok(
                "Endpoint: "@ + url + "\nStatus: "@ + status + " ["@ + (if is_success(code) {
                    "HEALTHY"@
                } else {
                    "UNHEALTHY"@
                }) + "]\nResponse Time: "@ + decimal(elapsed_ms as nat) + "ms\nContent-Type: "@
                    + match content_type {
                    Some(t) => t,
                    None => "not specified"@,
                },
            ),
            ReplyView::TimedOut => Ok(
                "Endpoint: "@ + url
                    + "\nStatus: TIMEOUT [UNHEALTHY]\nResponse Time: >10000ms\nError: Request timed out after 10 seconds"@,
            ),
            ReplyView::Unreachable { elapsed_ms, error } => Ok(
                "Endpoint: "@ + url
                    + "\nStatus: CONNECTION FAILED [UNHEALTHY]\nResponse Time: "@ + decimal(
                    elapsed_ms as nat,
                ) + "ms\nError: "@ + error,
            ),
            _ => Err("the endpoint was not probed"@),
        },
    }
}

/// The report of `check_endpoint`.
pub fn check_endpoint(args: &Json, reply: &Reply) -> (r: Result<String, String>)
    ensures
        outcome(r) == endpoint_report(args@, reply@),
{
    match need(args, "url") {
        Err(e) => Err(e),
        Ok(url) => {
            let mut out = text("Endpoint: ");
            out.append(url);
            match reply {
                Reply::NoClient(e) => Err(prefixed("failed to build client: ", e.as_str())),
                Reply::Answered { code, status, content_type, elapsed_ms } => {
                    out.append("\nStatus: ");
                    out.append(status.as_str());
                    out.append(" [");
                    if succeeds(*code) {
                        out.append("HEALTHY");
                    } else {
                        out.append("UNHEALTHY");
                    }
                    out.append("]\nResponse Time: ");
                    let elapsed = decimal_text(*elapsed_ms);
                    out.append(elapsed.as_str());
                    out.append("ms\nContent-Type: ");
                    match content_type {
                        Some(t) => out.append(t.as_str()),
                        None => out.append("not specified"),
                    }
                    Ok(out)
                },
                Reply::TimedOut => {
                    out.append(
                        "\nStatus: TIMEOUT [UNHEALTHY]\nResponse Time: >10000ms\nError: Request timed out after 10 seconds",
                    );
                    Ok(out)
                },
                Reply::Unreachable { elapsed_ms, error } => {
                    out.append("\nStatus: CONNECTION FAILED [UNHEALTHY]\nResponse Time: ");
                    let elapsed = decimal_text(*elapsed_ms);
                    out.append(elapsed.as_str());
                    out.append("ms\nError: ");
                    out.append(error.as_str());
                    Ok(out)
                },
                _ => Err(text("the endpoint was not probed")),
            }
        },
    }
}

// ─── web_search ─────────────────────────────────────────────────────────────

/// One result of a web search; it is shown where it has a title.
pub open spec fn hit_entry(hit: HitView) -> Seq<char> {
    let line = "**"@ + hit.title + "**\n  URL: "@ + hit.href;
    if hit.snippet.len() == 0 {
        line
    } else {
        line + "\n  "@ + hit.snippet
    }
}

/// The first five results that are shown.
pub open spec fn shown_hits(all: Seq<HitView>) -> Seq<Seq<char>>
    decreases all.len(),
{
    if all.len() == 0 {
        Seq::empty()
    } else {
        let head = shown_hits(all.drop_last());
        if head.len() < 5 && all.last().title.len() > 0 {
            head.push(hit_entry(all.last()))
        } else {
            head
        }
    }
}

/// The report of `web_search`.
pub open spec fn web_search_report(args: JsonView, reply: ReplyView) -> Result<
    Seq<char>,
    Seq<char>,
> {
    match needed(args, "query"@) {
        Err(e) => Err(e),
        Ok(query) => match text_body(reply, "search failed (HTTP "@) {
            Err(e) => Err(e),
            Ok(page) => if shown_hits(hits(page)).len() == 0 {
                Ok("No web results found for '"@ + query + "'."@)
            } else {
                Ok("Web results for '"@ + query + "':\n\n"@ + join(shown_hits(hits(page)), "\n\n"@))
            },
        },
    }
}

/// One result of a web search.
fn show_hit(hit: &Hit) -> (r: String)
    ensures
        r@ == hit_entry(hit@),
{
    let mut out = text("**");
    out.append(hit.title.as_str());
    out.append("**\n  URL: ");
    out.append(hit.href.as_str());
    if !hit.snippet.as_str().is_empty() {
        out.append("\n  ");
        out.append(hit.snippet.as_str());
    }
    out
}

/// The report of `web_search`.
pub fn web_search(args: &Json, reply: &Reply) -> (r: Result<String, String>)
    ensures
        outcome(r) == web_search_report(args@, reply@),
{
    match need(args, "query") {
        Err(e) => Err(e),
        Ok(query) => match body_text(reply, "search failed (HTTP ") {
            Err(e) => Err(e),
            Ok(page) => {
                let found = read_hits(page.as_str());
                let ghost all = hits(page@);
                let mut entries: Vec<String> = Vec::new();
                let mut i: usize = 0;
                assert(views(entries@) =~= shown_hits(all.take(0)));
                while i < found.len()
                    invariant
                        i <= found@.len(),
                        hit_views(found@) == all,
                        views(entries@) == shown_hits(all.take(i as int)),
                    decreases found@.len() - i,
                {
                    let ghost before = views(entries@);
                    assert(before.len() == entries@.len());
                    assert(all[i as int] == found@[i as int]@);
                    assert(all.take(i + 1).drop_last() =~= all.take(i as int));
                    if entries.len() < 5 && !found[i].title.as_str().is_empty() {
                        entries.push(show_hit(&found[i]));
                        assert(views(entries@) =~= before.push(hit_entry(all[i as int])));
                    }
                    i += 1;
                }
                assert(all.take(i as int) =~= all);
                assert(views(entries@).len() == entries@.len());
                if entries.len() == 0 {
                    let mut out = text("No web results found for '");
                    out.append(query);
                    out.append("'.");
                    Ok(out)
                } else {
                    let mut out = text("Web results for '");
                    out.append(query);
                    out.append("':\n\n");
                    let joined = join_texts(&entries, "\n\n");
                    out.append(joined.as_str());
                    Ok(out)
                }
            },
        },
    }
}

// ─── Tool calls ─────────────────────────────────────────────────────────────

/// The report of a tool on a reply.
pub open spec fn report_of(tool: Tool, args: JsonView, reply: ReplyView) -> Result<
    Seq<char>,
    Seq<char>,
> {
    match tool {
        Tool::GithubRepoInfo => repo_info_report(args, reply),
        Tool::GithubActionsRuns => actions_report(args, reply),
        Tool::DockerHubSearch => docker_report(args, reply),
        Tool::CheckEndpoint => endpoint_report(args, reply),
        Tool::WebSearch => web_search_report(args, reply),
    }
}

/// How the call of the tool `name` goes on, given what its arguments were read as.
pub open spec fn dispatched(
    name: Seq<char>,
    args: Result<JsonView, Seq<char>>,
    replies: Seq<ReplyView>,
) -> StepView {
    match tool_of(name) {
        None => StepView::Done(shown(Err("Unknown tool: "@ + name))),
        Some(tool) => match args {
            Err(e) => StepView::Done(shown(Err(e))),
            Ok(j) => single_fetch(request_for(tool, j), replies, report_of(tool, j, replies[0])),
        },
    }
}

/// How the call of the tool `name` goes on, given what its arguments were read as.
pub fn dispatch(name: &str, args: &Result<Json, String>, replies: &Vec<Reply>) -> (r: Step)
    ensures
        r@ == dispatched(name@, parsed_view(*args), reply_views(replies@)),
{
    match tool_named(name) {
        None => Step::Done(show(Err(prefixed("Unknown tool: ", name)))),
        Some(tool) => match args {
            Err(e) => Step::Done(show(Err(text(e.as_str())))),
            Ok(j) => match request(tool, j) {
                Err(e) => Step::Done(show(Err(e))),
                Ok(first) => {
                    if replies.len() == 0 {
                        return Step::Fetch(first);
                    }
                    let reply = &replies[0];
                    assert(reply_views(replies@)[0] == reply@);
                    let report = match tool {
                        Tool::GithubRepoInfo => github_repo_info(j, reply),
                        Tool::GithubActionsRuns => github_actions_runs(j, reply),
                        Tool::DockerHubSearch => docker_hub_search(j, reply),
                        Tool::CheckEndpoint => check_endpoint(j, reply),
                        Tool::WebSearch => web_search(j, reply),
                    };
                    Step::Done(show(report))
                },
            },
        },
    }
}

/// Carries a tool call on: `arguments` is the JSON text from the model, `replies` what came back
/// for the requests so far. Ends in a text for the model; an error is formatted, not raised.
pub fn execute(name: &str, arguments: &str, replies: &Vec<Reply>) -> (r: Step)
    ensures
        r@ == dispatched(name@, json_of_text(arguments@), reply_views(replies@)),
{
    let args = parse(arguments);
    dispatch(name, &args, replies)
}

/// The tools that are advertised to the model are the ones that it can call.
pub proof fn advertised_tools_can_be_called(name: Seq<char>)
    ensures
        advertises(definitions_view(), name) <==> tool_of(name) is Some,
{
    let all = definitions_view();
    definitions_are_named();
    assert(schema_name(all[0]) == Some("github_repo_info"@));
    assert(schema_name(all[1]) == Some("github_actions_runs"@));
    assert(schema_name(all[2]) == Some("docker_hub_search"@));
    assert(schema_name(all[3]) == Some("check_endpoint"@));
    assert(schema_name(all[4]) == Some("web_search"@));
}

/// A web search shows five results at most.
pub proof fn few_hits_are_shown(all: Seq<HitView>)
    ensures
        shown_hits(all).len() <= 5,
        shown_hits(all).len() <= all.len(),
    decreases all.len(),
{
    if all.len() > 0 {
        few_hits_are_shown(all.drop_last());
    }
}

} // verus!
