//! The documentation tools advertised to the model.

use vstd::prelude::*;

use crate::json::make::{no_items, object, string, with_item, with_member};
use crate::json::{json_views, Json, JsonView};
use crate::schema::{
    describe, name_list1, name_list3, names1, names3, no_params, nothing, param,
    schema_carries_name, schema_name, tool, tool_schema,
};

verus! {

/// What is advertised of `crates_io`.
pub open spec fn crates_io_schema() -> JsonView {
    tool_schema(
        "crates_io"@,
        "Search crates.io for Rust crates. Returns name, version, description, and documentation links. Use when the user asks about Rust libraries."@,
        no_params()
            .push(("query"@, param("string"@, "Crate name or search query"@)))
            .push(("sort"@, JsonView::Object(no_params().push(("type"@, JsonView::Text("string"@))).push(("enum"@, names3("downloads"@, "relevance"@, "recent-downloads"@))).push(("description"@, JsonView::Text("Sort order for results (default: downloads)"@)))))),
        Some(names1("query"@)),
    )
}

/// What is advertised of `crate_info`.
pub open spec fn crate_info_schema() -> JsonView {
    tool_schema(
        "crate_info"@,
        "Get detailed info about a specific Rust crate: version history, features, dependencies, and docs.rs link."@,
        no_params()
            .push(("name"@, param("string"@, "Exact crate name"@)))
            .push(("version"@, param("string"@, "Specific version (optional, defaults to latest)"@))),
        Some(names1("name"@)),
    )
}

/// What is advertised of `npm_search`.
pub open spec fn npm_search_schema() -> JsonView {
    tool_schema(
        "npm_search"@,
        "Search npm for JavaScript/TypeScript packages. Returns name, version, description. Use for Node.js/frontend library questions."@,
        no_params()
            .push(("query"@, param("string"@, "Package name or search query"@))),
        Some(names1("query"@)),
    )
}

/// What is advertised of `npm_package`.
pub open spec fn npm_package_schema() -> JsonView {
    tool_schema(
        "npm_package"@,
        "Get detailed info about a specific npm package: versions, dependencies, repository, and README excerpt."@,
        no_params()
            .push(("name"@, param("string"@, "Exact package name (e.g. 'zod', '@tanstack/react-query')"@)))
            .push(("version"@, param("string"@, "Specific version (optional, defaults to latest)"@))),
        Some(names1("name"@)),
    )
}

/// What is advertised of `pypi_package`.
pub open spec fn pypi_package_schema() -> JsonView {
    tool_schema(
        "pypi_package"@,
        "Get info about a Python package from PyPI: version, description, dependencies, and project links."@,
        no_params()
            .push(("name"@, param("string"@, "Package name (e.g. 'fastapi', 'pydantic')"@))),
        Some(names1("name"@)),
    )
}

/// What is advertised of `github_readme`.
pub open spec fn github_readme_schema() -> JsonView {
    tool_schema(
        "github_readme"@,
        "Fetch the README of a GitHub repository. Use for understanding how to use a library when registry docs aren't enough."@,
        no_params()
            .push(("repo"@, param("string"@, "Repository in 'owner/repo' format (e.g. 'tokio-rs/tokio')"@))),
        Some(names1("repo"@)),
    )
}

/// What is advertised of `web_search`.
pub open spec fn web_search_schema() -> JsonView {
    tool_schema(
        "web_search"@,
        "Search the web for information. Use when you need to find documentation, blog posts, comparisons, or any information not available through package registries. Good for 'latest', 'best', 'comparison' queries."@,
        no_params()
            .push(("query"@, param("string"@, "Search query"@))),
        Some(names1("query"@)),
    )
}

/// The tools advertised to the model.
pub open spec fn definitions_view() -> Seq<JsonView> {
    Seq::empty()
        .push(crates_io_schema())
        .push(crate_info_schema())
        .push(npm_search_schema())
        .push(npm_package_schema())
        .push(pypi_package_schema())
        .push(github_readme_schema())
        .push(web_search_schema())
}

fn crates_io_tool() -> (r: Json)
    ensures
        r@ == crates_io_schema(),
{
    let params = nothing();
    let params = with_member(params, "query", describe("string", "Crate name or search query"));
    let params = with_member(params, "sort", object(with_member(with_member(with_member(nothing(), "type", string("string")), "enum", name_list3("downloads", "relevance", "recent-downloads")), "description", string("Sort order for results (default: downloads)"))));
    tool(
        "crates_io",
        "Search crates.io for Rust crates. Returns name, version, description, and documentation links. Use when the user asks about Rust libraries.",
        params,
        Some(name_list1("query")),
    )
}

fn crate_info_tool() -> (r: Json)
    ensures
        r@ == crate_info_schema(),
{
    let params = nothing();
    let params = with_member(params, "name", describe("string", "Exact crate name"));
    let params = with_member(params, "version", describe("string", "Specific version (optional, defaults to latest)"));
    tool(
        "crate_info",
        "Get detailed info about a specific Rust crate: version history, features, dependencies, and docs.rs link.",
        params,
        Some(name_list1("name")),
    )
}

fn npm_search_tool() -> (r: Json)
    ensures
        r@ == npm_search_schema(),
{
    let params = nothing();
    let params = with_member(params, "query", describe("string", "Package name or search query"));
    tool(
        "npm_search",
        "Search npm for JavaScript/TypeScript packages. Returns name, version, description. Use for Node.js/frontend library questions.",
        params,
        Some(name_list1("query")),
    )
}

fn npm_package_tool() -> (r: Json)
    ensures
        r@ == npm_package_schema(),
{
    let params = nothing();
    let params = with_member(params, "name", describe("string", "Exact package name (e.g. 'zod', '@tanstack/react-query')"));
    let params = with_member(params, "version", describe("string", "Specific version (optional, defaults to latest)"));
    tool(
        "npm_package",
        "Get detailed info about a specific npm package: versions, dependencies, repository, and README excerpt.",
        params,
        Some(name_list1("name")),
    )
}

fn pypi_package_tool() -> (r: Json)
    ensures
        r@ == pypi_package_schema(),
{
    let params = nothing();
    let params = with_member(params, "name", describe("string", "Package name (e.g. 'fastapi', 'pydantic')"));
    tool(
        "pypi_package",
        "Get info about a Python package from PyPI: version, description, dependencies, and project links.",
        params,
        Some(name_list1("name")),
    )
}

fn github_readme_tool() -> (r: Json)
    ensures
        r@ == github_readme_schema(),
{
    let params = nothing();
    let params = with_member(params, "repo", describe("string", "Repository in 'owner/repo' format (e.g. 'tokio-rs/tokio')"));
    tool(
        "github_readme",
        "Fetch the README of a GitHub repository. Use for understanding how to use a library when registry docs aren't enough.",
        params,
        Some(name_list1("repo")),
    )
}

fn web_search_tool() -> (r: Json)
    ensures
        r@ == web_search_schema(),
{
    let params = nothing();
    let params = with_member(params, "query", describe("string", "Search query"));
    tool(
        "web_search",
        "Search the web for information. Use when you need to find documentation, blog posts, comparisons, or any information not available through package registries. Good for 'latest', 'best', 'comparison' queries.",
        params,
        Some(name_list1("query")),
    )
}

/// The tools advertised to the model.
pub fn definitions() -> (r: Vec<Json>)
    ensures
        json_views(r@) == definitions_view(),
{
    let tools = no_items();
    let tools = with_item(tools, crates_io_tool());
    let tools = with_item(tools, crate_info_tool());
    let tools = with_item(tools, npm_search_tool());
    let tools = with_item(tools, npm_package_tool());
    let tools = with_item(tools, pypi_package_tool());
    let tools = with_item(tools, github_readme_tool());
    let tools = with_item(tools, web_search_tool());
    tools
}

/// Each tool is advertised under its own name.
pub proof fn definitions_are_named()
    ensures
        definitions_view().len() == 7,
        schema_name(definitions_view()[0]) == Some("crates_io"@),
        schema_name(definitions_view()[1]) == Some("crate_info"@),
        schema_name(definitions_view()[2]) == Some("npm_search"@),
        schema_name(definitions_view()[3]) == Some("npm_package"@),
        schema_name(definitions_view()[4]) == Some("pypi_package"@),
        schema_name(definitions_view()[5]) == Some("github_readme"@),
        schema_name(definitions_view()[6]) == Some("web_search"@),
{
    broadcast use schema_carries_name;

    let all = definitions_view();
    assert(all[0] == crates_io_schema());
    assert(all[1] == crate_info_schema());
    assert(all[2] == npm_search_schema());
    assert(all[3] == npm_package_schema());
    assert(all[4] == pypi_package_schema());
    assert(all[5] == github_readme_schema());
    assert(all[6] == web_search_schema());
}

} // verus!
