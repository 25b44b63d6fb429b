//! The paper research tools advertised to the model.

use vstd::prelude::*;

use crate::json::make::{no_items, object, string, with_item, with_member};
use crate::json::{json_views, Json, JsonView};
use crate::schema::{
    describe, name_list1, name_list3, names1, names3, no_params, nothing, param,
    schema_carries_name, schema_name, tool, tool_schema,
};

verus! {

/// What is advertised of `arxiv_search`.
pub open spec fn arxiv_search_schema() -> JsonView {
    tool_schema(
        "arxiv_search"@,
        "Search arXiv for academic papers. Returns titles, authors, abstracts, and links. Use for finding research papers on any scientific or technical topic."@,
        no_params()
            .push(("query"@, param("string"@, "Search query (supports arXiv query syntax: ti:, au:, abs:, cat:)"@)))
            .push(("max_results"@, JsonView::Object(no_params().push(("type"@, JsonView::Text("integer"@))).push(("description"@, JsonView::Text("Number of results to return (1-10)"@))).push(("default"@, JsonView::Natural(5))))))
            .push(("sort_by"@, JsonView::Object(no_params().push(("type"@, JsonView::Text("string"@))).push(("enum"@, names3("relevance"@, "lastUpdatedDate"@, "submittedDate"@))).push(("default"@, JsonView::Text("relevance"@)))))),
        Some(names1("query"@)),
    )
}

/// What is advertised of `semantic_scholar`.
pub open spec fn semantic_scholar_schema() -> JsonView {
    tool_schema(
        "semantic_scholar"@,
        "Search Semantic Scholar for papers with citation counts, influential citations, and related work. Better for finding highly-cited or influential papers."@,
        no_params()
            .push(("query"@, param("string"@, "Search query for papers"@)))
            .push(("year"@, param("string"@, "Filter by year or range (e.g. '2024' or '2022-2024')"@)))
            .push(("limit"@, JsonView::Object(no_params().push(("type"@, JsonView::Text("integer"@))).push(("description"@, JsonView::Text("Number of results (1-10)"@))).push(("default"@, JsonView::Natural(5)))))),
        Some(names1("query"@)),
    )
}

/// What is advertised of `semantic_scholar_paper`.
pub open spec fn semantic_scholar_paper_schema() -> JsonView {
    tool_schema(
        "semantic_scholar_paper"@,
        "Get detailed info about a specific paper by its Semantic Scholar ID, arXiv ID, or DOI. Returns abstract, citations, references, and TL;DR."@,
        no_params()
            .push(("paper_id"@, param("string"@, "Paper identifier: Semantic Scholar ID, 'arXiv:2301.00001', or 'DOI:10.xxx/yyy'"@))),
        Some(names1("paper_id"@)),
    )
}

/// What is advertised of `wikipedia_summary`.
pub open spec fn wikipedia_summary_schema() -> JsonView {
    tool_schema(
        "wikipedia_summary"@,
        "Get a Wikipedia summary for a topic. Useful for providing context, definitions, or background on concepts mentioned in papers."@,
        no_params()
            .push(("topic"@, param("string"@, "Topic to look up"@))),
        Some(names1("topic"@)),
    )
}

/// The tools advertised to the model.
pub open spec fn definitions_view() -> Seq<JsonView> {
    Seq::empty()
        .push(arxiv_search_schema())
        .push(semantic_scholar_schema())
        .push(semantic_scholar_paper_schema())
        .push(wikipedia_summary_schema())
}

fn arxiv_search_tool() -> (r: Json)
    ensures
        r@ == arxiv_search_schema(),
{
    let params = nothing();
    let params = with_member(params, "query", describe("string", "Search query (supports arXiv query syntax: ti:, au:, abs:, cat:)"));
    let params = with_member(params, "max_results", object(with_member(with_member(with_member(nothing(), "type", string("integer")), "description", string("Number of results to return (1-10)")), "default", Json::Natural(5))));
    let params = with_member(params, "sort_by", object(with_member(with_member(with_member(nothing(), "type", string("string")), "enum", name_list3("relevance", "lastUpdatedDate", "submittedDate")), "default", string("relevance"))));
    tool(
        "arxiv_search",
        "Search arXiv for academic papers. Returns titles, authors, abstracts, and links. Use for finding research papers on any scientific or technical topic.",
        params,
        Some(name_list1("query")),
    )
}

fn semantic_scholar_tool() -> (r: Json)
    ensures
        r@ == semantic_scholar_schema(),
{
    let params = nothing();
    let params = with_member(params, "query", describe("string", "Search query for papers"));
    let params = with_member(params, "year", describe("string", "Filter by year or range (e.g. '2024' or '2022-2024')"));
    let params = with_member(params, "limit", object(with_member(with_member(with_member(nothing(), "type", string("integer")), "description", string("Number of results (1-10)")), "default", Json::Natural(5))));
    tool(
        "semantic_scholar",
        "Search Semantic Scholar for papers with citation counts, influential citations, and related work. Better for finding highly-cited or influential papers.",
        params,
        Some(name_list1("query")),
    )
}

fn semantic_scholar_paper_tool() -> (r: Json)
    ensures
        r@ == semantic_scholar_paper_schema(),
{
    let params = nothing();
    let params = with_member(params, "paper_id", describe("string", "Paper identifier: Semantic Scholar ID, 'arXiv:2301.00001', or 'DOI:10.xxx/yyy'"));
    tool(
        "semantic_scholar_paper",
        "Get detailed info about a specific paper by its Semantic Scholar ID, arXiv ID, or DOI. Returns abstract, citations, references, and TL;DR.",
        params,
        Some(name_list1("paper_id")),
    )
}

fn wikipedia_summary_tool() -> (r: Json)
    ensures
        r@ == wikipedia_summary_schema(),
{
    let params = nothing();
    let params = with_member(params, "topic", describe("string", "Topic to look up"));
    tool(
        "wikipedia_summary",
        "Get a Wikipedia summary for a topic. Useful for providing context, definitions, or background on concepts mentioned in papers.",
        params,
        Some(name_list1("topic")),
    )
}

/// The tools advertised to the model.
pub fn definitions() -> (r: Vec<Json>)
    ensures
        json_views(r@) == definitions_view(),
{
    let tools = no_items();
    let tools = with_item(tools, arxiv_search_tool());
    let tools = with_item(tools, semantic_scholar_tool());
    let tools = with_item(tools, semantic_scholar_paper_tool());
    let tools = with_item(tools, wikipedia_summary_tool());
    tools
}

/// Each tool is advertised under its own name.
pub proof fn definitions_are_named()
    ensures
        definitions_view().len() == 4,
        schema_name(definitions_view()[0]) == Some("arxiv_search"@),
        schema_name(definitions_view()[1]) == Some("semantic_scholar"@),
        schema_name(definitions_view()[2]) == Some("semantic_scholar_paper"@),
        schema_name(definitions_view()[3]) == Some("wikipedia_summary"@),
{
    broadcast use schema_carries_name;

    let all = definitions_view();
    assert(all[0] == arxiv_search_schema());
    assert(all[1] == semantic_scholar_schema());
    assert(all[2] == semantic_scholar_paper_schema());
    assert(all[3] == wikipedia_summary_schema());
}

} // verus!
