//! The operations tools advertised to the model.

use vstd::prelude::*;

use crate::json::make::{no_items, with_item, with_member};
use crate::json::{json_views, Json, JsonView};
use crate::schema::{
    describe, name_list1, name_list2, names1, names2, no_params, nothing, param,
    schema_carries_name, schema_name, tool, tool_schema,
};

verus! {

/// What is advertised of `github_repo_info`.
pub open spec fn github_repo_info_schema() -> JsonView {
    tool_schema(
        "github_repo_info"@,
        "Get info about a GitHub repository including stars, forks, open issues, language, and description."@,
        no_params()
            .push(("owner"@, param("string"@, "Repository owner (user or organization)"@)))
            .push(("repo"@, param("string"@, "Repository name"@))),
        Some(names2("owner"@, "repo"@)),
    )
}

/// What is advertised of `github_actions_runs`.
pub open spec fn github_actions_runs_schema() -> JsonView {
    tool_schema(
        "github_actions_runs"@,
        "List recent CI/CD workflow runs for a GitHub repository. Shows workflow name, status, conclusion, branch, and trigger event."@,
        no_params()
            .push(("owner"@, param("string"@, "Repository owner (user or organization)"@)))
            .push(("repo"@, param("string"@, "Repository name"@))),
        Some(names2("owner"@, "repo"@)),
    )
}

/// What is advertised of `docker_hub_search`.
pub open spec fn docker_hub_search_schema() -> JsonView {
    tool_schema(
        "docker_hub_search"@,
        "Search Docker Hub for container images. Returns image name, description, star count, pull count, and whether it's an official image."@,
        no_params()
            .push(("query"@, param("string"@, "Search query for Docker Hub images"@))),
        Some(names1("query"@)),
    )
}

/// What is advertised of `check_endpoint`.
pub open spec fn check_endpoint_schema() -> JsonView {
    tool_schema(
        "check_endpoint"@,
        "Check if an HTTP endpoint is responding and measure its latency. Reports status code, response time, content-type, and health status."@,
        no_params()
            .push(("url"@, param("string"@, "The URL to check (must include scheme, e.g. https://example.com)"@))),
        Some(names1("url"@)),
    )
}

/// What is advertised of `web_search`.
pub open spec fn web_search_schema() -> JsonView {
    tool_schema(
        "web_search"@,
        "Search the web for DevOps documentation, tutorials, best practices, or troubleshooting guides. Use when existing tools don't cover the question."@,
        no_params()
            .push(("query"@, param("string"@, "Search query for web results"@))),
        Some(names1("query"@)),
    )
}

/// The tools advertised to the model.
pub open spec fn definitions_view() -> Seq<JsonView> {
    Seq::empty()
        .push(github_repo_info_schema())
        .push(github_actions_runs_schema())
        .push(docker_hub_search_schema())
        .push(check_endpoint_schema())
        .push(web_search_schema())
}

fn github_repo_info_tool() -> (r: Json)
    ensures
        r@ == github_repo_info_schema(),
{
    let params = nothing();
    let params = with_member(params, "owner", describe("string", "Repository owner (user or organization)"));
    let params = with_member(params, "repo", describe("string", "Repository name"));
    tool(
        "github_repo_info",
        "Get info about a GitHub repository including stars, forks, open issues, language, and description.",
        params,
        Some(name_list2("owner", "repo")),
    )
}

fn github_actions_runs_tool() -> (r: Json)
    ensures
        r@ == github_actions_runs_schema(),
{
    let params = nothing();
    let params = with_member(params, "owner", describe("string", "Repository owner (user or organization)"));
    let params = with_member(params, "repo", describe("string", "Repository name"));
    tool(
        "github_actions_runs",
        "List recent CI/CD workflow runs for a GitHub repository. Shows workflow name, status, conclusion, branch, and trigger event.",
        params,
        Some(name_list2("owner", "repo")),
    )
}

fn docker_hub_search_tool() -> (r: Json)
    ensures
        r@ == docker_hub_search_schema(),
{
    let params = nothing();
    let params = with_member(params, "query", describe("string", "Search query for Docker Hub images"));
    tool(
        "docker_hub_search",
        "Search Docker Hub for container images. Returns image name, description, star count, pull count, and whether it's an official image.",
        params,
        Some(name_list1("query")),
    )
}

fn check_endpoint_tool() -> (r: Json)
    ensures
        r@ == check_endpoint_schema(),
{
    let params = nothing();
    let params = with_member(params, "url", describe("string", "The URL to check (must include scheme, e.g. https://example.com)"));
    tool(
        "check_endpoint",
        "Check if an HTTP endpoint is responding and measure its latency. Reports status code, response time, content-type, and health status.",
        params,
        Some(name_list1("url")),
    )
}

fn web_search_tool() -> (r: Json)
    ensures
        r@ == web_search_schema(),
{
    let params = nothing();
    let params = with_member(params, "query", describe("string", "Search query for web results"));
    tool(
        "web_search",
        "Search the web for DevOps documentation, tutorials, best practices, or troubleshooting guides. Use when existing tools don't cover the question.",
        params,
        Some(name_list1("query")),
    )
}

/// The tools advertised to the model.
pub fn definitions() -> (r: Vec<Json>)
    ensures
        json_views(r@) == definitions_view(),
{
    let tools = no_items();
    let tools = with_item(tools, github_repo_info_tool());
    let tools = with_item(tools, github_actions_runs_tool());
    let tools = with_item(tools, docker_hub_search_tool());
    let tools = with_item(tools, check_endpoint_tool());
    let tools = with_item(tools, web_search_tool());
    tools
}

/// Each tool is advertised under its own name.
pub proof fn definitions_are_named()
    ensures
        definitions_view().len() == 5,
        schema_name(definitions_view()[0]) == Some("github_repo_info"@),
        schema_name(definitions_view()[1]) == Some("github_actions_runs"@),
        schema_name(definitions_view()[2]) == Some("docker_hub_search"@),
        schema_name(definitions_view()[3]) == Some("check_endpoint"@),
        schema_name(definitions_view()[4]) == Some("web_search"@),
{
    broadcast use schema_carries_name;

    let all = definitions_view();
    assert(all[0] == github_repo_info_schema());
    assert(all[1] == github_actions_runs_schema());
    assert(all[2] == docker_hub_search_schema());
    assert(all[3] == check_endpoint_schema());
    assert(all[4] == web_search_schema());
}

} // verus!
