//! The legal research tools advertised to the model.

use vstd::prelude::*;

use crate::json::make::{no_items, object, string, with_item, with_member};
use crate::json::{json_views, Json, JsonView};
use crate::schema::{
    describe, name_list1, name_list4, names1, names4, no_params, nothing, param,
    schema_carries_name, schema_name, tool, tool_schema,
};

verus! {

/// What is advertised of `sec_filing_search`.
pub open spec fn sec_filing_search_schema() -> JsonView {
    tool_schema(
        "sec_filing_search"@,
        "Full-text search of SEC EDGAR filings. Search for keywords across all SEC filings including 10-K, 10-Q, 8-K, and more. Useful for finding disclosures, risk factors, financial statements, and regulatory filings."@,
        no_params()
            .push(("query"@, param("string"@, "Search query for full-text search across SEC filings"@)))
            .push(("form_type"@, param("string"@, "Filter by form type (e.g. '10-K', '10-Q', '8-K', 'S-1', 'DEF 14A')"@)))
            .push(("start_date"@, param("string"@, "Start date filter in YYYY-MM-DD format"@)))
            .push(("end_date"@, param("string"@, "End date filter in YYYY-MM-DD format"@))),
        Some(names1("query"@)),
    )
}

/// What is advertised of `sec_company_filings`.
pub open spec fn sec_company_filings_schema() -> JsonView {
    tool_schema(
        "sec_company_filings"@,
        "Get recent SEC filings for a specific company by CIK number. Returns the company's most recent filings including form type, date, and description. CIK numbers can be found on the SEC EDGAR website."@,
        no_params()
            .push(("cik"@, param("string"@, "Company CIK number (will be zero-padded to 10 digits automatically)"@))),
        Some(names1("cik"@)),
    )
}

/// What is advertised of `sec_company_search`.
pub open spec fn sec_company_search_schema() -> JsonView {
    tool_schema(
        "sec_company_search"@,
        "Look up a public company's SEC CIK number by name or ticker. Use this before sec_company_filings, which requires a CIK rather than a company name."@,
        no_params()
            .push(("name"@, param("string"@, "Company name or ticker symbol to search for (e.g. 'Apple', 'AAPL')"@))),
        Some(names1("name"@)),
    )
}

/// What is advertised of `federal_register`.
pub open spec fn federal_register_schema() -> JsonView {
    tool_schema(
        "federal_register"@,
        "Search the U.S. Federal Register for regulations, proposed rules, notices, and presidential documents. The Federal Register is the official daily publication for rules, proposed rules, and notices of federal agencies."@,
        no_params()
            .push(("query"@, param("string"@, "Search query for Federal Register documents"@)))
            .push(("document_type"@, JsonView::Object(no_params().push(("type"@, JsonView::Text("string"@))).push(("enum"@, names4("RULE"@, "PRRULE"@, "NOTICE"@, "PRESDOCU"@))).push(("description"@, JsonView::Text("Filter by document type: RULE (final rules), PRRULE (proposed rules), NOTICE (notices), PRESDOCU (presidential documents)"@)))))),
        Some(names1("query"@)),
    )
}

/// What is advertised of `case_law_search`.
pub open spec fn case_law_search_schema() -> JsonView {
    tool_schema(
        "case_law_search"@,
        "Search for court opinions and case law via CourtListener. Find judicial opinions from federal and state courts including the Supreme Court, Circuit Courts, and District Courts."@,
        no_params()
            .push(("query"@, param("string"@, "Search query for case law (supports natural language and legal citations)"@)))
            .push(("court"@, param("string"@, "Filter by court identifier (e.g. 'scotus' for Supreme Court, 'ca1'-'ca11' for Circuit Courts)"@))),
        Some(names1("query"@)),
    )
}

/// The tools advertised to the model.
pub open spec fn definitions_view() -> Seq<JsonView> {
    Seq::empty()
        .push(sec_filing_search_schema())
        .push(sec_company_filings_schema())
        .push(sec_company_search_schema())
        .push(federal_register_schema())
        .push(case_law_search_schema())
}

fn sec_filing_search_tool() -> (r: Json)
    ensures
        r@ == sec_filing_search_schema(),
{
    let params = nothing();
    let params = with_member(params, "query", describe("string", "Search query for full-text search across SEC filings"));
    let params = with_member(params, "form_type", describe("string", "Filter by form type (e.g. '10-K', '10-Q', '8-K', 'S-1', 'DEF 14A')"));
    let params = with_member(params, "start_date", describe("string", "Start date filter in YYYY-MM-DD format"));
    let params = with_member(params, "end_date", describe("string", "End date filter in YYYY-MM-DD format"));
    tool(
        "sec_filing_search",
        "Full-text search of SEC EDGAR filings. Search for keywords across all SEC filings including 10-K, 10-Q, 8-K, and more. Useful for finding disclosures, risk factors, financial statements, and regulatory filings.",
        params,
        Some(name_list1("query")),
    )
}

fn sec_company_filings_tool() -> (r: Json)
    ensures
        r@ == sec_company_filings_schema(),
{
    let params = nothing();
    let params = with_member(params, "cik", describe("string", "Company CIK number (will be zero-padded to 10 digits automatically)"));
    tool(
        "sec_company_filings",
        "Get recent SEC filings for a specific company by CIK number. Returns the company's most recent filings including form type, date, and description. CIK numbers can be found on the SEC EDGAR website.",
        params,
        Some(name_list1("cik")),
    )
}

fn sec_company_search_tool() -> (r: Json)
    ensures
        r@ == sec_company_search_schema(),
{
    let params = nothing();
    let params = with_member(params, "name", describe("string", "Company name or ticker symbol to search for (e.g. 'Apple', 'AAPL')"));
    tool(
        "sec_company_search",
        "Look up a public company's SEC CIK number by name or ticker. Use this before sec_company_filings, which requires a CIK rather than a company name.",
        params,
        Some(name_list1("name")),
    )
}

fn federal_register_tool() -> (r: Json)
    ensures
        r@ == federal_register_schema(),
{
    let params = nothing();
    let params = with_member(params, "query", describe("string", "Search query for Federal Register documents"));
    let params = with_member(params, "document_type", object(with_member(with_member(with_member(nothing(), "type", string("string")), "enum", name_list4("RULE", "PRRULE", "NOTICE", "PRESDOCU")), "description", string("Filter by document type: RULE (final rules), PRRULE (proposed rules), NOTICE (notices), PRESDOCU (presidential documents)"))));
    tool(
        "federal_register",
        "Search the U.S. Federal Register for regulations, proposed rules, notices, and presidential documents. The Federal Register is the official daily publication for rules, proposed rules, and notices of federal agencies.",
        params,
        Some(name_list1("query")),
    )
}

fn case_law_search_tool() -> (r: Json)
    ensures
        r@ == case_law_search_schema(),
{
    let params = nothing();
    let params = with_member(params, "query", describe("string", "Search query for case law (supports natural language and legal citations)"));
    let params = with_member(params, "court", describe("string", "Filter by court identifier (e.g. 'scotus' for Supreme Court, 'ca1'-'ca11' for Circuit Courts)"));
    tool(
        "case_law_search",
        "Search for court opinions and case law via CourtListener. Find judicial opinions from federal and state courts including the Supreme Court, Circuit Courts, and District Courts.",
        params,
        Some(name_list1("query")),
    )
}

/// The tools advertised to the model.
pub fn definitions() -> (r: Vec<Json>)
    ensures
        json_views(r@) == definitions_view(),
{
    let tools = no_items();
    let tools = with_item(tools, sec_filing_search_tool());
    let tools = with_item(tools, sec_company_filings_tool());
    let tools = with_item(tools, sec_company_search_tool());
    let tools = with_item(tools, federal_register_tool());
    let tools = with_item(tools, case_law_search_tool());
    tools
}

/// Each tool is advertised under its own name.
pub proof fn definitions_are_named()
    ensures
        definitions_view().len() == 5,
        schema_name(definitions_view()[0]) == Some("sec_filing_search"@),
        schema_name(definitions_view()[1]) == Some("sec_company_filings"@),
        schema_name(definitions_view()[2]) == Some("sec_company_search"@),
        schema_name(definitions_view()[3]) == Some("federal_register"@),
        schema_name(definitions_view()[4]) == Some("case_law_search"@),
{
    broadcast use schema_carries_name;

    let all = definitions_view();
    assert(all[0] == sec_filing_search_schema());
    assert(all[1] == sec_company_filings_schema());
    assert(all[2] == sec_company_search_schema());
    assert(all[3] == federal_register_schema());
    assert(all[4] == case_law_search_schema());
}

} // verus!
