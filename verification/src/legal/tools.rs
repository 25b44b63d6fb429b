//! The legal research tools: which address a call reads, and what it reports of the answer.

use vstd::prelude::*;

use super::definitions::{definitions_are_named, definitions_view};
use crate::http::{
    ask, asked, get, json_body, need, needed, reply_views, request_view, show, shown, single_fetch,
    Expect, Reply, ReplyView, Request, RequestView, Step, StepView,
};
use crate::json::serde::{json_of_text, parse};
use crate::json::{
    json_views, member_views, parsed_view, texts_at, texts_in, texts_of, texts_with, Json, JsonView,
};
use crate::schema::{advertises, schema_name};
use crate::text::case::{lower, lowercase};
use crate::text::lines::{trim, trim_text};
use crate::text::number::{decimal_is_read_back, digits_value, is_digit, natural_of, parse_natural};
use crate::text::search::{contains, contains_text, replace, replace_text, split, split_text};
use crate::text::url::{urlencode, urlencoded};
use crate::text::width::{can_cut, cuts_cleanly, shorten, shortened};
use crate::text::{
    count_text, decimal, decimal_text, join, join_texts, opt_str, opt_view, outcome, pad_zeros,
    prefixed, same, text, views, zero_padded,
};

pub use super::definitions::definitions;

verus! {

/// The legal research tools.
#[derive(Debug, Clone, Copy, PartialEq, Eq, Structural)]
pub enum Tool {
    SecFilingSearch,
    SecCompanyFilings,
    SecCompanySearch,
    FederalRegister,
    CaseLawSearch,
}

/// The tool that is called by `name`.
pub open spec fn tool_of(name: Seq<char>) -> Option<Tool> {
    if name == "sec_filing_search"@ {
        Some(Tool::SecFilingSearch)
    } else if name == "sec_company_filings"@ {
        Some(Tool::SecCompanyFilings)
    } else if name == "sec_company_search"@ {
        Some(Tool::SecCompanySearch)
    } else if name == "federal_register"@ {
        Some(Tool::FederalRegister)
    } else if name == "case_law_search"@ {
        Some(Tool::CaseLawSearch)
    } else {
        None
    }
}

/// The tool that is called by `name`.
pub fn tool_named(name: &str) -> (r: Option<Tool>)
    ensures
        r == tool_of(name@),
{
    if same(name, "sec_filing_search") {
        Some(Tool::SecFilingSearch)
    } else if same(name, "sec_company_filings") {
        Some(Tool::SecCompanyFilings)
    } else if same(name, "sec_company_search") {
        Some(Tool::SecCompanySearch)
    } else if same(name, "federal_register") {
        Some(Tool::FederalRegister)
    } else if same(name, "case_law_search") {
        Some(Tool::CaseLawSearch)
    } else {
        None
    }
}

// ─── Requests ───────────────────────────────────────────────────────────────

/// The name under which the SEC is asked.
pub open spec fn legal_agent() -> Option<Seq<char>> {
    Some("nasiko-legal-agent/1.0 (research@nasiko.io)"@)
}

/// `url` with one more parameter, where there is a value for it.
pub open spec fn with_param(url: Seq<char>, key: Seq<char>, value: Option<Seq<char>>) -> Seq<char> {
    match value {
        Some(v) => url + key + urlencoded(v),
        None => url,
    }
}

/// `url` with one more parameter, where there is a value for it.
fn add_param(url: String, key: &str, value: Option<&str>) -> (r: String)
    ensures
        r@ == with_param(url@, key@, opt_str(value)),
{
    match value {
        Some(v) => {
            let mut out = url;
            out.append(key);
            let encoded = urlencode(v);
            out.append(encoded.as_str());
            out
        },
        None => url,
    }
}

/// The address that `sec_filing_search` reads.
pub open spec fn filing_search_url(query: Seq<char>, args: JsonView) -> Seq<char> {
    let start = args.at("start_date"@).text();
    let end = args.at("end_date"@).text();
    let url = with_param(
        "https://efts.sec.gov/LATEST/search-index?q="@ + urlencoded(query),
        "&forms="@,
        args.at("form_type"@).text(),
    );
    if start is Some || end is Some {
        with_param(with_param(url + "&dateRange=custom"@, "&startdt="@, start), "&enddt="@, end)
    } else {
        url
    }
}

/// The number of a company as the SEC writes it in addresses: ten digits.
pub open spec fn padded_cik(n: u64) -> Seq<char> {
    zero_padded(decimal(n as nat), 10)
}

/// The number of the company that is asked about, or what is wrong with it.
pub open spec fn cik_of(args: JsonView) -> Result<u64, Seq<char>> {
    match needed(args, "cik"@) {
        Err(e) => Err(e),
        Ok(cik) => match natural_of(trim(cik)) {
            Some(n) => Ok(n),
            None => Err("invalid CIK number: '"@ + cik + "'"@),
        },
    }
}

/// The request that a call of `tool` sends, or why it sends none.
pub open spec fn request_for(tool: Tool, args: JsonView) -> Result<RequestView, Seq<char>> {
    match tool {
        Tool::SecFilingSearch => match needed(args, "query"@) {
            Err(e) => Err(e),
            Ok(query) => Ok(
                RequestView {
                    url: filing_search_url(query, args),
                    user_agent: legal_agent(),
                    expect: Expect::Json,
                },
            ),
        },
        Tool::SecCompanyFilings => match cik_of(args) {
            Err(e) => Err(e),
            Ok(cik) => Ok(
                RequestView {
                    url: "https://data.sec.gov/submissions/CIK"@ + padded_cik(cik) + ".json"@,
                    user_agent: legal_agent(),
                    expect: Expect::Json,
                },
            ),
        },
        Tool::SecCompanySearch => match needed(args, "name"@) {
            Err(e) => Err(e),
            Ok(_) => Ok(
                RequestView {
                    url: "https://www.sec.gov/files/company_tickers.json"@,
                    user_agent: legal_agent(),
                    expect: Expect::Json,
                },
            ),
        },
        Tool::FederalRegister => match needed(args, "query"@) {
            Err(e) => Err(e),
            Ok(query) => Ok(
                RequestView {
                    url: with_param(
                        "https://www.federalregister.gov/api/v1/documents.json?conditions[term]="@
                            + urlencoded(query) + "&per_page=5&order=newest"@,
                        "&conditions[type][]="@,
                        args.at("document_type"@).text(),
                    ),
                    user_agent: None,
                    expect: Expect::Json,
                },
            ),
        },
        Tool::CaseLawSearch => match needed(args, "query"@) {
            Err(e) => Err(e),
            Ok(query) => Ok(
                RequestView {
                    url: with_param(
                        "https://www.courtlistener.com/api/rest/v3/search/?q="@ + urlencoded(query)
                            + "&type=o&order_by=score+desc"@,
                        "&court="@,
                        args.at("court"@).text(),
                    ),
                    user_agent: None,
                    expect: Expect::Json,
                },
            ),
        },
    }
}

/// The number of the company that is asked about, or what is wrong with it.
fn read_cik(args: &Json) -> (r: Result<u64, String>)
    ensures
        match r {
            Ok(n) => cik_of(args@) == Ok::<u64, Seq<char>>(n),
            Err(e) => cik_of(args@) == Err::<u64, Seq<char>>(e@),
        },
{
    match need(args, "cik") {
        Err(e) => Err(e),
        Ok(cik) => {
            let trimmed = trim_text(cik);
            match parse_natural(trimmed.as_str()) {
                Some(n) => Ok(n),
                None => {
                    let mut out = text("invalid CIK number: '");
                    out.append(cik);
                    out.append("'");
                    Err(out)
                },
            }
        },
    }
}

/// The number of a company in ten digits.
fn pad_cik(n: u64) -> (r: String)
    ensures
        r@ == padded_cik(n),
{
    let digits = decimal_text(n);
    pad_zeros(digits.as_str(), 10)
}

/// The request that a call of `tool` sends, or why it sends none.
pub fn request(tool: Tool, args: &Json) -> (r: Result<Request, String>)
    ensures
        request_view(r) == request_for(tool, args@),
{
    match tool {
        Tool::SecFilingSearch => match need(args, "query") {
            Err(e) => Err(e),
            Ok(query) => {
                let start = args.at("start_date").as_text();
                let end = args.at("end_date").as_text();
                let mut url = text("https://efts.sec.gov/LATEST/search-index?q=");
                let q = urlencode(query);
                url.append(q.as_str());
                let mut url = add_param(url, "&forms=", args.at("form_type").as_text());
                if start.is_some() || end.is_some() {
                    url.append("&dateRange=custom");
                    url = add_param(url, "&startdt=", start);
                    url = add_param(url, "&enddt=", end);
                }
                Ok(get(url, Some("nasiko-legal-agent/1.0 (research@nasiko.io)"), Expect::Json))
            },
        },
        Tool::SecCompanyFilings => match read_cik(args) {
            Err(e) => Err(e),
            Ok(cik) => {
                let mut url = text("https://data.sec.gov/submissions/CIK");
                let padded = pad_cik(cik);
                url.append(padded.as_str());
                url.append(".json");
                Ok(get(url, Some("nasiko-legal-agent/1.0 (research@nasiko.io)"), Expect::Json))
            },
        },
        Tool::SecCompanySearch => match need(args, "name") {
            Err(e) => Err(e),
            Ok(_) => Ok(
                get(
                    text("https://www.sec.gov/files/company_tickers.json"),
                    Some("nasiko-legal-agent/1.0 (research@nasiko.io)"),
                    Expect::Json,
                ),
            ),
        },
        Tool::FederalRegister => match need(args, "query") {
            Err(e) => Err(e),
            Ok(query) => {
                let mut url = text(
                    "https://www.federalregister.gov/api/v1/documents.json?conditions[term]=",
                );
                let q = urlencode(query);
                url.append(q.as_str());
                url.append("&per_page=5&order=newest");
                let url = add_param(
                    url,
                    "&conditions[type][]=",
                    args.at("document_type").as_text(),
                );
                Ok(get(url, None, Expect::Json))
            },
        },
        Tool::CaseLawSearch => match need(args, "query") {
            Err(e) => Err(e),
            Ok(query) => {
                let mut url = text("https://www.courtlistener.com/api/rest/v3/search/?q=");
                let q = urlencode(query);
                url.append(q.as_str());
                url.append("&type=o&order_by=score+desc");
                let url = add_param(url, "&court=", args.at("court").as_text());
                Ok(get(url, None, Expect::Json))
            },
        },
    }
}

// ─── Putting reports together ───────────────────────────────────────────────

/// `head` with a labelled line after it, unless there is nothing to say.
pub open spec fn with_line(head: Seq<char>, label: Seq<char>, value: Seq<char>) -> Seq<char> {
    if value.len() == 0 {
        head
    } else {
        head + label + value
    }
}

/// `head` with a labelled line after it, unless there is nothing to say.
fn add_line(head: String, label: &str, value: &str) -> (r: String)
    ensures
        r@ == with_line(head@, label@, value@),
{
    if value.is_empty() {
        head
    } else {
        let mut out = head;
        out.append(label);
        out.append(value);
        out
    }
}

/// How many of `n` things are shown where at most `most` are.
pub open spec fn at_most(n: nat, most: nat) -> nat {
    if n < most {
        n
    } else {
        most
    }
}

/// The entries under a heading that counts them.
pub open spec fn counted(
    before: Seq<char>,
    entries: Seq<Seq<char>>,
    after: Seq<char>,
    sep: Seq<char>,
) -> Seq<char> {
    before + decimal(entries.len()) + after + join(entries, sep)
}

/// The entries under a heading that counts them.
fn count_entries(before: &str, entries: &Vec<String>, after: &str, sep: &str) -> (r: String)
    ensures
        r@ == counted(before@, views(entries@), after@, sep@),
{
    assert(views(entries@).len() == entries@.len());
    let mut out = text(before);
    let count = count_text(entries.len());
    out.append(count.as_str());
    out.append(after);
    let joined = join_texts(entries, sep);
    out.append(joined.as_str());
    out
}

/// The first of two members that is a text, else `other`.
pub open spec fn either_text(
    j: JsonView,
    key: Seq<char>,
    second: Seq<char>,
    other: Seq<char>,
) -> Seq<char> {
    match j.at(key).text() {
        Some(t) => t,
        None => j.at(second).text_or(other),
    }
}

/// The first of two members that is a text, else `other`.
fn pick_text<'a>(j: &'a Json, key: &str, second: &str, other: &'a str) -> (r: &'a str)
    ensures
        r@ == either_text(j@, key@, second@, other@),
{
    match j.at(key).as_text() {
        Some(t) => t,
        None => j.at(second).text_or(other),
    }
}

// ─── sec_filing_search ──────────────────────────────────────────────────────

/// Where a filing can be read; empty where that is not known.
pub open spec fn filing_link(file_num: Seq<char>, accession: Seq<char>) -> Seq<char> {
    if accession.len() == 0 {
        Seq::empty()
    } else {
        "https://www.sec.gov/Archives/edgar/data/"@ + split(file_num, "-"@)[0] + "/"@ + replace(
            accession,
            "-"@,
            ""@,
        )
    }
}

/// One filing.
pub open spec fn filing_entry(hit: JsonView) -> Seq<char> {
    let source = hit.at("_source"@);
    let description = match source.at("file_description"@).text() {
        Some(d) => d,
        None => source.at("display_names"@).first().text_or(""@),
    };
    let head = "**"@ + source.at("entity_name"@).text_or("Unknown Company"@) + "** - Form "@
        + source.at("form_type"@).text_or("unknown"@) + "\nFiled: "@ + source.at(
        "file_date"@,
    ).text_or("unknown date"@);
    with_line(
        with_line(head, "\nDescription: "@, description),
        "\nLink: "@,
        filing_link(source.at("file_num"@).text_or(""@), hit.at("_id"@).text_or(""@)),
    )
}

/// The entries of the first ten filings.
pub open spec fn filing_entries(hits: Seq<JsonView>) -> Seq<Seq<char>> {
    Seq::new(at_most(hits.len(), 10), |i: int| filing_entry(hits[i]))
}

/// The report of `sec_filing_search`.
pub open spec fn filing_search_report(args: JsonView, reply: ReplyView) -> Result<
    Seq<char>,
    Seq<char>,
> {
    match asked(args, "query"@, reply) {
        Err(e) => Err(e),
        Ok((query, resp)) => match resp.at("hits"@).at("hits"@).items() {
            None => Err("no results in response"@),
            Some(hits) => if hits.len() == 0 {
                Ok("No SEC filings found for '"@ + query + "'."@)
            } else {
                Ok(counted("Found "@, filing_entries(hits), " SEC filings:\n\n"@, "\n\n---\n\n"@))
            },
        },
    }
}

/// Where a filing can be read.
fn link_to_filing(file_num: &str, accession: &str) -> (r: String)
    ensures
        r@ == filing_link(file_num@, accession@),
{
    if accession.is_empty() {
        return String::new();
    }
    proof {
        reveal_strlit("-");
    }
    let mut out = text("https://www.sec.gov/Archives/edgar/data/");
    let pieces = split_text(file_num, "-");
    assert(views(pieces@)[0] == pieces@[0]@);
    out.append(pieces[0].as_str());
    out.append("/");
    let clean = replace_text(accession, "-", "");
    out.append(clean.as_str());
    out
}

/// One filing.
fn show_filing(hit: &Json) -> (r: String)
    ensures
        r@ == filing_entry(hit@),
{
    let source = hit.at("_source");
    let description = match source.at("file_description").as_text() {
        Some(d) => d,
        None => source.at("display_names").first().text_or(""),
    };
    let mut head = text("**");
    head.append(source.at("entity_name").text_or("Unknown Company"));
    head.append("** - Form ");
    head.append(source.at("form_type").text_or("unknown"));
    head.append("\nFiled: ");
    head.append(source.at("file_date").text_or("unknown date"));
    let link = link_to_filing(source.at("file_num").text_or(""), hit.at("_id").text_or(""));
    add_line(add_line(head, "\nDescription: ", description), "\nLink: ", link.as_str())
}

/// The report of `sec_filing_search`.
pub fn sec_filing_search(args: &Json, reply: &Reply) -> (r: Result<String, String>)
    ensures
        outcome(r) == filing_search_report(args@, reply@),
{
    match ask(args, "query", reply) {
        Err(e) => Err(e),
        Ok((query, resp)) => match resp.at("hits").at("hits").as_items() {
            None => Err(text("no results in response")),
            Some(hits) => {
                let ghost all = json_views(hits@);
                if hits.len() == 0 {
                    let mut out = text("No SEC filings found for '");
                    out.append(query);
                    out.append("'.");
                    return Ok(out);
                }
                let count: usize = if hits.len() < 10 {
                    hits.len()
                } else {
                    10
                };
                let mut entries: Vec<String> = Vec::new();
                let mut i: usize = 0;
                while i < count
                    invariant
                        i <= count <= hits@.len(),
                        all == json_views(hits@),
                        views(entries@) == Seq::new(i as nat, |j: int| filing_entry(all[j])),
                    decreases count - i,
                {
                    let ghost before = views(entries@);
                    entries.push(show_filing(&hits[i]));
                    assert(views(entries@) =~= before.push(filing_entry(all[i as int])));
                    i += 1;
                    assert(views(entries@) =~= Seq::new(i as nat, |j: int| filing_entry(all[j])));
                }
                assert(views(entries@) =~= filing_entries(all));
                Ok(count_entries("Found ", &entries, " SEC filings:\n\n", "\n\n---\n\n"))
            },
        },
    }
}

// ─── sec_company_filings ────────────────────────────────────────────────────

/// The text at position `i` of a list, else `other`.
pub open spec fn nth_text(j: JsonView, i: int, other: Seq<char>) -> Seq<char> {
    match j.items() {
        Some(items) => if i < items.len() {
            items[i].text_or(other)
        } else {
            other
        },
        None => other,
    }
}

/// Recent filings come as columns; the filing in row `i`.
pub open spec fn recent_entry(recent: JsonView, cik: Seq<char>, i: int) -> Seq<char> {
    let form = nth_text(recent.at("form"@), i, "?"@);
    let link = if nth_text(recent.at("accessionNumber"@), i, ""@).len() == 0 {
        Seq::empty()
    } else {
        "https://www.sec.gov/cgi-bin/browse-edgar?action=getcompany&CIK="@ + cik + "&type="@
            + urlencoded(form) + "&dateb=&owner=include&count=1"@
    };
    with_line(
        with_line(
            "  "@ + form + " | "@ + nth_text(recent.at("filingDate"@), i, "?"@),
            " | "@,
            nth_text(recent.at("primaryDocDescription"@), i, ""@),
        ),
        "\n    "@,
        link,
    )
}

/// The entries of the first ten recent filings.
pub open spec fn recent_entries(recent: JsonView, cik: Seq<char>) -> Seq<Seq<char>> {
    match recent.at("form"@).items() {
        Some(forms) => match recent.at("filingDate"@).items() {
            Some(_) => Seq::new(at_most(forms.len(), 10), |i: int| recent_entry(recent, cik, i)),
            None => Seq::empty(),
        },
        None => Seq::empty(),
    }
}

/// Whether there is a date for each filing that is shown.
pub open spec fn dates_suffice(recent: JsonView) -> bool {
    match recent.at("form"@).items() {
        Some(forms) => match recent.at("filingDate"@).items() {
            Some(dates) => at_most(forms.len(), 10) <= dates.len(),
            None => true,
        },
        None => true,
    }
}

/// Whether the report of `sec_company_filings` on this reply has a date for each filing.
pub open spec fn company_filings_dated(reply: ReplyView) -> bool {
    match reply {
        ReplyView::Json(resp) => dates_suffice(resp.at("filings"@).at("recent"@)),
        _ => true,
    }
}

/// The report of `sec_company_filings`.
pub open spec fn company_filings_report(args: JsonView, reply: ReplyView) -> Result<
    Seq<char>,
    Seq<char>,
> {
    match cik_of(args) {
        Err(e) => Err(e),
        Ok(n) => match json_body(reply) {
            Err(e) => Err(e),
            Ok(resp) => {
                let cik = resp.at("cik"@).text_or(padded_cik(n));
                let tickers = join(texts_of(resp.at("tickers"@).items_or_none()), ", "@);
                let head = with_line(
                    "**"@ + resp.at("name"@).text_or("Unknown Company"@) + "**\nCIK: "@ + cik,
                    "\nTickers: "@,
                    tickers,
                );
                let entries = recent_entries(resp.at("filings"@).at("recent"@), cik);
                Ok(
                    if entries.len() == 0 {
                        head + "\n\nNo recent filings found."@
                    } else {
                        head + counted("\n\nRecent Filings ("@, entries, "):\n"@, "\n"@)
                    },
                )
            },
        },
    }
}

/// The text at position `i` of a list, else `other`.
fn text_at<'a>(j: &'a Json, i: usize, other: &'a str) -> (r: &'a str)
    ensures
        r@ == nth_text(j@, i as int, other@),
{
    match j.as_items() {
        Some(items) => if i < items.len() {
            assert(json_views(items@)[i as int] == items@[i as int]@);
            items[i].text_or(other)
        } else {
            other
        },
        None => other,
    }
}

/// The filing in row `i`.
fn show_recent(recent: &Json, cik: &str, i: usize) -> (r: String)
    ensures
        r@ == recent_entry(recent@, cik@, i as int),
{
    let form = text_at(recent.at("form"), i, "?");
    let accession = text_at(recent.at("accessionNumber"), i, "");
    let link = if accession.is_empty() {
        String::new()
    } else {
        let mut out = text("https://www.sec.gov/cgi-bin/browse-edgar?action=getcompany&CIK=");
        out.append(cik);
        out.append("&type=");
        let encoded = urlencode(form);
        out.append(encoded.as_str());
        out.append("&dateb=&owner=include&count=1");
        out
    };
    let mut head = text("  ");
    head.append(form);
    head.append(" | ");
    head.append(text_at(recent.at("filingDate"), i, "?"));
    let described = add_line(head, " | ", text_at(recent.at("primaryDocDescription"), i, ""));
    add_line(described, "\n    ", link.as_str())
}

/// The entries of the first ten recent filings.
fn show_recents(recent: &Json, cik: &str) -> (r: Vec<String>)
    ensures
        views(r@) == recent_entries(recent@, cik@),
{
    let mut entries: Vec<String> = Vec::new();
    match recent.at("form").as_items() {
        Some(forms) => match recent.at("filingDate").as_items() {
            Some(_) => {
                let count: usize = if forms.len() < 10 {
                    forms.len()
                } else {
                    10
                };
                let mut i: usize = 0;
                while i < count
                    invariant
                        i <= count,
                        views(entries@) == Seq::new(
                            i as nat,
                            |j: int| recent_entry(recent@, cik@, j),
                        ),
                    decreases count - i,
                {
                    let ghost before = views(entries@);
                    entries.push(show_recent(recent, cik, i));
                    assert(views(entries@) =~= before.push(recent_entry(recent@, cik@, i as int)));
                    i += 1;
                    assert(views(entries@) =~= Seq::new(
                        i as nat,
                        |j: int| recent_entry(recent@, cik@, j),
                    ));
                }
                assert(views(entries@) =~= recent_entries(recent@, cik@));
            },
            None => {
                assert(views(entries@) =~= recent_entries(recent@, cik@));
            },
        },
        None => {
            assert(views(entries@) =~= recent_entries(recent@, cik@));
        },
    }
    entries
}

/// The report of `sec_company_filings`.
pub fn sec_company_filings(args: &Json, reply: &Reply) -> (r: Result<String, String>)
    requires
        company_filings_dated(reply@),
    ensures
        outcome(r) == company_filings_report(args@, reply@),
{
    match read_cik(args) {
        Err(e) => Err(e),
        Ok(n) => match crate::http::body_json(reply) {
            Err(e) => Err(e),
            Ok(resp) => {
                let padded = pad_cik(n);
                let cik = resp.at("cik").text_or(padded.as_str());
                let tickers = match resp.at("tickers").as_items() {
                    Some(items) => join_texts(&texts_in(items), ", "),
                    None => {
                        let none: Vec<String> = Vec::new();
                        assert(views(none@) =~= texts_of(Seq::empty()));
                        join_texts(&none, ", ")
                    },
                };
                let mut head = text("**");
                head.append(resp.at("name").text_or("Unknown Company"));
                head.append("**\nCIK: ");
                head.append(cik);
                let mut out = add_line(head, "\nTickers: ", tickers.as_str());
                let entries = show_recents(resp.at("filings").at("recent"), cik);
                assert(views(entries@).len() == entries@.len());
                if entries.len() == 0 {
                    out.append("\n\nNo recent filings found.");
                } else {
                    let listed = count_entries("\n\nRecent Filings (", &entries, "):\n", "\n");
                    out.append(listed.as_str());
                }
                Ok(out)
            },
        },
    }
}

// ─── sec_company_search ─────────────────────────────────────────────────────

/// Whether a company is meant: its title holds what is looked for, or its ticker is that. All
/// three are given in lower case.
pub open spec fn is_meant(title: Seq<char>, ticker: Seq<char>, needle: Seq<char>) -> bool {
    contains(title, needle) || ticker == needle
}

/// Whether a company is meant.
pub fn means(title: &str, ticker: &str, needle: &str) -> (r: bool)
    ensures
        r == is_meant(title@, ticker@, needle@),
{
    contains_text(title, needle) || same(ticker, needle)
}

/// One company, where it is meant and its number is known.
pub open spec fn company_entry(entry: JsonView, needle: Seq<char>) -> Option<Seq<char>> {
    let title = entry.at("title"@).text_or(""@);
    let ticker = entry.at("ticker"@).text_or(""@);
    match entry.at("cik_str"@).natural() {
        Some(cik) => if is_meant(lowercase(title), lowercase(ticker), needle) {
            Some("**"@ + title + "** ("@ + ticker + ") — CIK: "@ + padded_cik(cik))
        } else {
            None
        },
        None => None,
    }
}

/// The entries of the first ten companies that are meant.
pub open spec fn company_entries(
    members: Seq<(Seq<char>, JsonView)>,
    needle: Seq<char>,
) -> Seq<Seq<char>>
    decreases members.len(),
{
    if members.len() == 0 {
        Seq::empty()
    } else {
        let head = company_entries(members.drop_last(), needle);
        match company_entry(members.last().1, needle) {
            Some(line) => if head.len() < 10 {
                head.push(line)
            } else {
                head
            },
            None => head,
        }
    }
}

/// The report of `sec_company_search`.
pub open spec fn company_search_report(args: JsonView, reply: ReplyView) -> Result<
    Seq<char>,
    Seq<char>,
> {
    match asked(args, "name"@, reply) {
        Err(e) => Err(e),
        Ok((name, resp)) => match resp.members() {
            None => Err("unexpected response shape"@),
            Some(members) => {
                let entries = company_entries(members, lowercase(name));
                if entries.len() == 0 {
                    Ok("No SEC-registered company found matching '"@ + name + "'."@)
                } else {
                    Ok(counted("Found "@, entries, " matching companies:\n\n"@, "\n"@))
                }
            },
        },
    }
}

/// One company, where it is meant and its number is known.
fn show_company(entry: &Json, needle: &str) -> (r: Option<String>)
    ensures
        opt_view(r) == company_entry(entry@, needle@),
{
    let title = entry.at("title").text_or("");
    let ticker = entry.at("ticker").text_or("");
    match entry.at("cik_str").as_natural() {
        Some(cik) => {
            let low_title = lower(title);
            let low_ticker = lower(ticker);
            if means(low_title.as_str(), low_ticker.as_str(), needle) {
                let mut out = text("**");
                out.append(title);
                out.append("** (");
                out.append(ticker);
                out.append(") — CIK: ");
                let padded = pad_cik(cik);
                out.append(padded.as_str());
                Some(out)
            } else {
                None
            }
        },
        None => None,
    }
}

/// Once ten companies are found, no more are added.
proof fn entries_stay(members: Seq<(Seq<char>, JsonView)>, needle: Seq<char>, i: int)
    requires
        0 <= i <= members.len(),
        company_entries(members.take(i), needle).len() >= 10,
    ensures
        company_entries(members, needle) == company_entries(members.take(i), needle),
    decreases members.len() - i,
{
    if i < members.len() {
        assert(members.take(i + 1).drop_last() =~= members.take(i));
        entries_stay(members, needle, i + 1);
    } else {
        assert(members.take(i) =~= members);
    }
}

/// The entries of the first ten companies that are meant.
fn show_companies(members: &Vec<(String, Json)>, needle: &str) -> (r: Vec<String>)
    ensures
        views(r@) == company_entries(member_views(members@), needle@),
{
    let ghost all = member_views(members@);
    let mut entries: Vec<String> = Vec::new();
    let mut i: usize = 0;
    assert(views(entries@) =~= company_entries(all.take(0), needle@));
    while i < members.len() && entries.len() < 10
        invariant
            i <= members@.len(),
            all == member_views(members@),
            views(entries@) == company_entries(all.take(i as int), needle@),
        decreases members@.len() - i,
    {
        let ghost before = views(entries@);
        assert(before.len() == entries@.len());
        assert(all.take(i + 1).drop_last() =~= all.take(i as int));
        match show_company(&members[i].1, needle) {
            Some(line) => {
                let ghost added = line@;
                entries.push(line);
                assert(views(entries@) =~= before.push(added));
            },
            None => {},
        }
        i += 1;
    }
    assert(views(entries@).len() == entries@.len());
    if i == members.len() {
        assert(all.take(i as int) =~= all);
    } else {
        proof {
            entries_stay(all, needle@, i as int);
        }
    }
    entries
}

/// The report of `sec_company_search`.
pub fn sec_company_search(args: &Json, reply: &Reply) -> (r: Result<String, String>)
    ensures
        outcome(r) == company_search_report(args@, reply@),
{
    match ask(args, "name", reply) {
        Err(e) => Err(e),
        Ok((name, resp)) => match resp.as_members() {
            None => Err(text("unexpected response shape")),
            Some(members) => {
                let needle = lower(name);
                let entries = show_companies(members, needle.as_str());
                assert(views(entries@).len() == entries@.len());
                if entries.len() == 0 {
                    let mut out = text("No SEC-registered company found matching '");
                    out.append(name);
                    out.append("'.");
                    Ok(out)
                } else {
                    Ok(count_entries("Found ", &entries, " matching companies:\n\n", "\n"))
                }
            },
        },
    }
}

// ─── federal_register ───────────────────────────────────────────────────────

/// One document.
pub open spec fn document_entry(doc: JsonView) -> Seq<char> {
    let head = "**"@ + doc.at("title"@).text_or("Untitled"@) + "**\nType: "@ + doc.at(
        "type"@,
    ).text_or("unknown"@) + " | Published: "@ + doc.at("publication_date"@).text_or(
        "unknown date"@,
    );
    let agencies = texts_at(doc.at("agencies"@).items_or_none(), "name"@);
    let named = if agencies.len() == 0 {
        head
    } else {
        head + "\nAgencies: "@ + join(agencies, ", "@)
    };
    with_line(
        with_line(named, "\nAbstract: "@, shortened(doc.at("abstract"@).text_or(""@), 300, "..."@)),
        "\nURL: "@,
        doc.at("html_url"@).text_or(""@),
    )
}

/// Whether each abstract can be cut where it has to be.
pub open spec fn register_cuts(reply: ReplyView) -> bool {
    match reply {
        ReplyView::Json(resp) => {
            let docs = resp.at("results"@).items_or_none();
            forall|i: int|
                0 <= i < docs.len() ==> cuts_cleanly(
                    (#[trigger] docs[i]).at("abstract"@).text_or(""@),
                    300,
                )
        },
        _ => true,
    }
}

/// The report of `federal_register`.
pub open spec fn register_report(args: JsonView, reply: ReplyView) -> Result<Seq<char>, Seq<char>> {
    match asked(args, "query"@, reply) {
        Err(e) => Err(e),
        Ok((query, resp)) => match resp.at("results"@).items() {
            None => Err("no results in response"@),
            Some(docs) => if docs.len() == 0 {
                Ok("No Federal Register documents found for '"@ + query + "'."@)
            } else {
                Ok(
                    counted(
                        "Found "@,
                        Seq::new(docs.len(), |i: int| document_entry(docs[i])),
                        " Federal Register documents:\n\n"@,
                        "\n\n---\n\n"@,
                    ),
                )
            },
        },
    }
}

/// One document.
fn show_document(doc: &Json) -> (r: String)
    requires
        cuts_cleanly(doc@.at("abstract"@).text_or(""@), 300),
    ensures
        r@ == document_entry(doc@),
{
    let mut head = text("**");
    head.append(doc.at("title").text_or("Untitled"));
    head.append("**\nType: ");
    head.append(doc.at("type").text_or("unknown"));
    head.append(" | Published: ");
    head.append(doc.at("publication_date").text_or("unknown date"));
    let agencies = match doc.at("agencies").as_items() {
        Some(items) => texts_with(items, "name"),
        None => {
            let none: Vec<String> = Vec::new();
            assert(views(none@) =~= texts_at(Seq::empty(), "name"@));
            none
        },
    };
    assert(views(agencies@).len() == agencies@.len());
    if agencies.len() > 0 {
        head.append("\nAgencies: ");
        let joined = join_texts(&agencies, ", ");
        head.append(joined.as_str());
    }
    let summary = shorten(doc.at("abstract").text_or(""), 300, "...");
    add_line(
        add_line(head, "\nAbstract: ", summary.as_str()),
        "\nURL: ",
        doc.at("html_url").text_or(""),
    )
}

/// The report of `federal_register`.
pub fn federal_register(args: &Json, reply: &Reply) -> (r: Result<String, String>)
    requires
        register_cuts(reply@),
    ensures
        outcome(r) == register_report(args@, reply@),
{
    match ask(args, "query", reply) {
        Err(e) => Err(e),
        Ok((query, resp)) => match resp.at("results").as_items() {
            None => Err(text("no results in response")),
            Some(docs) => {
                let ghost all = json_views(docs@);
                assert(resp@.at("results"@).items_or_none() == all);
                if docs.len() == 0 {
                    let mut out = text("No Federal Register documents found for '");
                    out.append(query);
                    out.append("'.");
                    return Ok(out);
                }
                let mut entries: Vec<String> = Vec::new();
                let mut i: usize = 0;
                while i < docs.len()
                    invariant
                        i <= docs@.len(),
                        all == json_views(docs@),
                        forall|j: int|
                            0 <= j < all.len() ==> cuts_cleanly(
                                (#[trigger] all[j]).at("abstract"@).text_or(""@),
                                300,
                            ),
                        views(entries@) == Seq::new(i as nat, |j: int| document_entry(all[j])),
                    decreases docs@.len() - i,
                {
                    let ghost before = views(entries@);
                    assert(all[i as int] == docs@[i as int]@);
                    entries.push(show_document(&docs[i]));
                    assert(views(entries@) =~= before.push(document_entry(all[i as int])));
                    i += 1;
                    assert(views(entries@) =~= Seq::new(i as nat, |j: int| document_entry(all[j])));
                }
                Ok(
                    count_entries(
                        "Found ",
                        &entries,
                        " Federal Register documents:\n\n",
                        "\n\n---\n\n",
                    ),
                )
            },
        },
    }
}

// ─── case_law_search ────────────────────────────────────────────────────────

/// `s` without the tags that mark what was found.
pub open spec fn without_marks(s: Seq<char>) -> Seq<char> {
    replace(
        replace(replace(replace(s, "<mark>"@, ""@), "</mark>"@, ""@), "<em>"@, ""@),
        "</em>"@,
        ""@,
    )
}

/// What is shown of the text of a case, in full.
pub open spec fn case_snippet(case: JsonView) -> Seq<char> {
    without_marks(either_text(case, "snippet"@, "text"@, ""@))
}

/// The first citation of a case.
pub open spec fn case_citation(case: JsonView) -> Seq<char> {
    match case.at("citation"@).first().text() {
        Some(t) => t,
        None => case.at("citation"@).text_or(""@),
    }
}

/// One case.
pub open spec fn case_entry(case: JsonView) -> Seq<char> {
    let url = case.at("absolute_url"@).text_or(""@);
    let link = if url.len() == 0 {
        Seq::empty()
    } else {
        "https://www.courtlistener.com"@ + url
    };
    let head = "**"@ + either_text(case, "caseName"@, "case_name"@, "Unknown Case"@)
        + "**\nCourt: "@ + either_text(
        case,
        "court_citation_string"@,
        "court"@,
        "unknown court"@,
    ) + " | Date Filed: "@ + either_text(case, "dateFiled"@, "date_filed"@, "unknown date"@);
    with_line(
        with_line(
            with_line(head, "\nCitation: "@, case_citation(case)),
            "\nSnippet: "@,
            shortened(case_snippet(case), 300, "..."@),
        ),
        "\nLink: "@,
        link,
    )
}

/// Whether each snippet that is shown can be cut where it has to be.
pub open spec fn case_law_cuts(reply: ReplyView) -> bool {
    match reply {
        ReplyView::Json(resp) => {
            let cases = resp.at("results"@).items_or_none();
            forall|i: int|
                0 <= i < at_most(cases.len(), 10) ==> cuts_cleanly(
                    case_snippet(#[trigger] cases[i]),
                    300,
                )
        },
        _ => true,
    }
}

/// The report of `case_law_search`.
pub open spec fn case_law_report(args: JsonView, reply: ReplyView) -> Result<Seq<char>, Seq<char>> {
    match asked(args, "query"@, reply) {
        Err(e) => Err(e),
        Ok((query, resp)) => match resp.at("results"@).items() {
            None => Err("no results in response"@),
            Some(cases) => if cases.len() == 0 {
                Ok("No case law found for '"@ + query + "'."@)
            } else {
                Ok(
                    counted(
                        "Found "@,
                        Seq::new(at_most(cases.len(), 10), |i: int| case_entry(cases[i])),
                        " cases:\n\n"@,
                        "\n\n---\n\n"@,
                    ),
                )
            },
        },
    }
}

/// `s` without the tags that mark what was found.
fn strip_marks(s: &str) -> (r: String)
    ensures
        r@ == without_marks(s@),
{
    proof {
        reveal_strlit("<mark>");
        reveal_strlit("</mark>");
        reveal_strlit("<em>");
        reveal_strlit("</em>");
    }
    let a = replace_text(s, "<mark>", "");
    let b = replace_text(a.as_str(), "</mark>", "");
    let c = replace_text(b.as_str(), "<em>", "");
    replace_text(c.as_str(), "</em>", "")
}

/// What is shown of the text of a case, in full.
fn snippet_of(case: &Json) -> (r: String)
    ensures
        r@ == case_snippet(case@),
{
    strip_marks(pick_text(case, "snippet", "text", ""))
}

/// One case.
fn show_case(case: &Json) -> (r: String)
    requires
        cuts_cleanly(case_snippet(case@), 300),
    ensures
        r@ == case_entry(case@),
{
    let url = case.at("absolute_url").text_or("");
    let link = if url.is_empty() {
        String::new()
    } else {
        prefixed("https://www.courtlistener.com", url)
    };
    let mut head = text("**");
    head.append(pick_text(case, "caseName", "case_name", "Unknown Case"));
    head.append("**\nCourt: ");
    head.append(pick_text(case, "court_citation_string", "court", "unknown court"));
    head.append(" | Date Filed: ");
    head.append(pick_text(case, "dateFiled", "date_filed", "unknown date"));
    let citation = match case.at("citation").first().as_text() {
        Some(t) => t,
        None => case.at("citation").text_or(""),
    };
    let snippet = snippet_of(case);
    let short = shorten(snippet.as_str(), 300, "...");
    add_line(
        add_line(add_line(head, "\nCitation: ", citation), "\nSnippet: ", short.as_str()),
        "\nLink: ",
        link.as_str(),
    )
}

/// The report of `case_law_search`.
pub fn case_law_search(args: &Json, reply: &Reply) -> (r: Result<String, String>)
    requires
        case_law_cuts(reply@),
    ensures
        outcome(r) == case_law_report(args@, reply@),
{
    match ask(args, "query", reply) {
        Err(e) => Err(e),
        Ok((query, resp)) => match resp.at("results").as_items() {
            None => Err(text("no results in response")),
            Some(cases) => {
                let ghost all = json_views(cases@);
                assert(resp@.at("results"@).items_or_none() == all);
                if cases.len() == 0 {
                    let mut out = text("No case law found for '");
                    out.append(query);
                    out.append("'.");
                    return Ok(out);
                }
                let count: usize = if cases.len() < 10 {
                    cases.len()
                } else {
                    10
                };
                let mut entries: Vec<String> = Vec::new();
                let mut i: usize = 0;
                while i < count
                    invariant
                        i <= count <= cases@.len(),
                        count == at_most(all.len(), 10),
                        all == json_views(cases@),
                        forall|j: int|
                            0 <= j < at_most(all.len(), 10) ==> cuts_cleanly(
                                case_snippet(#[trigger] all[j]),
                                300,
                            ),
                        views(entries@) == Seq::new(i as nat, |j: int| case_entry(all[j])),
                    decreases count - i,
                {
                    let ghost before = views(entries@);
                    assert(all[i as int] == cases@[i as int]@);
                    entries.push(show_case(&cases[i]));
                    assert(views(entries@) =~= before.push(case_entry(all[i as int])));
                    i += 1;
                    assert(views(entries@) =~= Seq::new(i as nat, |j: int| case_entry(all[j])));
                }
                Ok(count_entries("Found ", &entries, " cases:\n\n", "\n\n---\n\n"))
            },
        },
    }
}

// ─── Tool calls ─────────────────────────────────────────────────────────────

/// Whether a report on these replies can be made: texts can be cut where they have to be, and
/// filings come with their dates.
pub open spec fn reportable(tool: Tool, replies: Seq<ReplyView>) -> bool {
    replies.len() > 0 ==> match tool {
        Tool::SecCompanyFilings => company_filings_dated(replies[0]),
        Tool::FederalRegister => register_cuts(replies[0]),
        Tool::CaseLawSearch => case_law_cuts(replies[0]),
        _ => true,
    }
}

/// The report of a tool on a reply.
pub open spec fn report_of(tool: Tool, args: JsonView, reply: ReplyView) -> Result<
    Seq<char>,
    Seq<char>,
> {
    match tool {
        Tool::SecFilingSearch => filing_search_report(args, reply),
        Tool::SecCompanyFilings => company_filings_report(args, reply),
        Tool::SecCompanySearch => company_search_report(args, reply),
        Tool::FederalRegister => register_report(args, reply),
        Tool::CaseLawSearch => case_law_report(args, reply),
    }
}

/// How the call of the tool `name` goes on, given what its arguments were read as.
pub open spec fn dispatched(
    name: Seq<char>,
    args: Result<JsonView, Seq<char>>,
    replies: Seq<ReplyView>,
) -> StepView {
    match tool_of(name) {
        None => StepView::Done(shown(Err("Unknown tool: "@ + name))),
        Some(tool) => match args {
            Err(e) => StepView::Done(shown(Err(e))),
            Ok(j) => single_fetch(request_for(tool, j), replies, report_of(tool, j, replies[0])),
        },
    }
}

/// Whether there is a date for each filing that is shown.
fn has_dates(recent: &Json) -> (r: bool)
    ensures
        r == dates_suffice(recent@),
{
    match recent.at("form").as_items() {
        Some(forms) => match recent.at("filingDate").as_items() {
            Some(dates) => {
                let count: usize = if forms.len() < 10 {
                    forms.len()
                } else {
                    10
                };
                assert(json_views(dates@).len() == dates@.len());
                count <= dates.len()
            },
            None => true,
        },
        None => true,
    }
}

/// Whether each abstract can be cut where it has to be.
fn abstracts_cut(docs: &Vec<Json>) -> (r: bool)
    ensures
        r == forall|i: int|
            0 <= i < docs@.len() ==> cuts_cleanly(
                (#[trigger] json_views(docs@)[i]).at("abstract"@).text_or(""@),
                300,
            ),
{
    let ghost all = json_views(docs@);
    let mut i: usize = 0;
    while i < docs.len()
        invariant
            i <= docs@.len(),
            all == json_views(docs@),
            forall|j: int|
                0 <= j < i ==> cuts_cleanly(
                    (#[trigger] all[j]).at("abstract"@).text_or(""@),
                    300,
                ),
        decreases docs@.len() - i,
    {
        assert(all[i as int] == docs@[i as int]@);
        if !can_cut(docs[i].at("abstract").text_or(""), 300) {
            return false;
        }
        i += 1;
    }
    true
}

/// Whether each snippet that is shown can be cut where it has to be.
fn snippets_cut(cases: &Vec<Json>) -> (r: bool)
    ensures
        r == forall|i: int|
            0 <= i < at_most(cases@.len(), 10) ==> cuts_cleanly(
                case_snippet(#[trigger] json_views(cases@)[i]),
                300,
            ),
{
    let ghost all = json_views(cases@);
    let mut i: usize = 0;
    while i < cases.len() && i < 10
        invariant
            i <= cases@.len(),
            i <= 10,
            all == json_views(cases@),
            forall|j: int| 0 <= j < i ==> cuts_cleanly(case_snippet(#[trigger] all[j]), 300),
        decreases cases@.len() - i,
    {
        assert(all[i as int] == cases@[i as int]@);
        let snippet = snippet_of(&cases[i]);
        if !can_cut(snippet.as_str(), 300) {
            return false;
        }
        i += 1;
    }
    true
}

/// Whether a report of the tool `name` on these replies can be made.
pub fn can_report(name: &str, replies: &Vec<Reply>) -> (r: bool)
    ensures
        r == (tool_of(name@) matches Some(tool) ==> reportable(tool, reply_views(replies@))),
{
    match tool_named(name) {
        None => true,
        Some(tool) => if replies.len() == 0 {
            true
        } else {
            assert(reply_views(replies@)[0] == replies@[0]@);
            match &replies[0] {
                Reply::Json(resp) => match tool {
                    Tool::SecCompanyFilings => has_dates(resp.at("filings").at("recent")),
                    Tool::FederalRegister => match resp.at("results").as_items() {
                        Some(docs) => {
                            let r = abstracts_cut(docs);
                            assert(resp@.at("results"@).items_or_none() == json_views(docs@));
                            assert(r == register_cuts(replies@[0]@));
                            r
                        },
                        None => true,
                    },
                    Tool::CaseLawSearch => match resp.at("results").as_items() {
                        Some(cases) => {
                            let r = snippets_cut(cases);
                            assert(resp@.at("results"@).items_or_none() == json_views(cases@));
                            assert(r == case_law_cuts(replies@[0]@));
                            r
                        },
                        None => true,
                    },
                    _ => true,
                },
                _ => true,
            }
        },
    }
}

/// How the call of the tool `name` goes on, given what its arguments were read as.
pub fn dispatch(name: &str, args: &Result<Json, String>, replies: &Vec<Reply>) -> (r: Step)
    requires
        tool_of(name@) matches Some(tool) ==> reportable(tool, reply_views(replies@)),
    ensures
        r@ == dispatched(name@, parsed_view(*args), reply_views(replies@)),
{
    match tool_named(name) {
        None => Step::Done(show(Err(prefixed("Unknown tool: ", name)))),
        Some(tool) => match args {
            Err(e) => Step::Done(show(Err(text(e.as_str())))),
            Ok(j) => match request(tool, j) {
                Err(e) => Step::Done(show(Err(e))),
                Ok(first) => {
                    if replies.len() == 0 {
                        return Step::Fetch(first);
                    }
                    let reply = &replies[0];
                    assert(reply_views(replies@)[0] == reply@);
                    let report = match tool {
                        Tool::SecFilingSearch => sec_filing_search(j, reply),
                        Tool::SecCompanyFilings => sec_company_filings(j, reply),
                        Tool::SecCompanySearch => sec_company_search(j, reply),
                        Tool::FederalRegister => federal_register(j, reply),
                        Tool::CaseLawSearch => case_law_search(j, reply),
                    };
                    Step::Done(show(report))
                },
            },
        },
    }
}

/// Carries a tool call on: `arguments` is the JSON text from the model, `replies` what came back
/// for the requests so far. Ends in a text for the model; an error is formatted, not raised.
pub fn execute(name: &str, arguments: &str, replies: &Vec<Reply>) -> (r: Step)
    requires
        tool_of(name@) matches Some(tool) ==> reportable(tool, reply_views(replies@)),
    ensures
        r@ == dispatched(name@, json_of_text(arguments@), reply_views(replies@)),
{
    let args = parse(arguments);
    dispatch(name, &args, replies)
}

/// The tools that are advertised to the model are the ones that it can call.
pub proof fn advertised_tools_can_be_called(name: Seq<char>)
    ensures
        advertises(definitions_view(), name) <==> tool_of(name) is Some,
{
    let all = definitions_view();
    definitions_are_named();
    assert(schema_name(all[0]) == Some("sec_filing_search"@));
    assert(schema_name(all[1]) == Some("sec_company_filings"@));
    assert(schema_name(all[2]) == Some("sec_company_search"@));
    assert(schema_name(all[3]) == Some("federal_register"@));
    assert(schema_name(all[4]) == Some("case_law_search"@));
}

/// A company number is written with ten digits, zeros in front, and stands for the same number; one
/// too large for ten digits is written as it is.
pub proof fn cik_is_padded(n: u64)
    ensures
        padded_cik(n).len() >= 10,
        n < 10_000_000_000 ==> padded_cik(n).len() == 10,
        n >= 10_000_000_000 ==> padded_cik(n) == decimal(n as nat),
        forall|i: int| 0 <= i < padded_cik(n).len() ==> is_digit(#[trigger] padded_cik(n)[i]),
        digits_value(padded_cik(n)) == n,
{
    let digits = decimal(n as nat);
    decimal_is_read_back(n as nat);
    ten_digits(n as nat);
    let padded = padded_cik(n);
    let zeros = (padded.len() - digits.len()) as int;
    zeros_add_nothing(padded, zeros);
    assert(padded.skip(zeros) =~= digits);
    assert forall|i: int| 0 <= i < padded.len() implies is_digit(#[trigger] padded[i]) by {
        if i >= zeros {
            assert(padded[i] == digits[i - zeros]);
        }
    }
}

/// Ten digits are enough for the numbers below ten to the tenth, and fewer are not for the others.
proof fn ten_digits(n: nat)
    ensures
        n < 10_000_000_000 <==> decimal(n).len() <= 10,
{
    reveal_with_fuel(decimal, 11);
    if n >= 10_000_000_000 {
        decimal_is_read_back(n / 10_000_000_000);
    }
}

/// Zeros in front do not change the number that digits stand for.
proof fn zeros_add_nothing(s: Seq<char>, zeros: int)
    requires
        0 <= zeros <= s.len(),
        forall|i: int| 0 <= i < zeros ==> s[i] == '0',
    ensures
        digits_value(s) == digits_value(s.skip(zeros)),
    decreases s.len(),
{
    if s.len() > 0 {
        if zeros < s.len() {
            zeros_add_nothing(s.drop_last(), zeros);
            assert(s.skip(zeros).drop_last() =~= s.drop_last().skip(zeros));
        } else {
            zeros_add_nothing(s.drop_last(), zeros - 1);
            assert(s.drop_last().skip(zeros - 1) =~= Seq::empty());
            assert(s.skip(zeros) =~= Seq::empty());
        }
    } else {
        assert(s.skip(zeros) =~= s);
    }
}

/// A search for companies lists ten at most, each of them meant by the search.
pub proof fn few_companies_are_listed(members: Seq<(Seq<char>, JsonView)>, needle: Seq<char>)
    ensures
        company_entries(members, needle).len() <= 10,
        forall|i: int|
            0 <= i < company_entries(members, needle).len() ==> exists|k: int|
                0 <= k < members.len() && #[trigger] company_entry(members[k].1, needle) == Some(
                    #[trigger] company_entries(members, needle)[i],
                ),
    decreases members.len(),
{
    if members.len() > 0 {
        let head = members.drop_last();
        few_companies_are_listed(head, needle);
        let entries = company_entries(members, needle);
        let before = company_entries(head, needle);
        assert forall|i: int| 0 <= i < entries.len() implies exists|k: int|
            0 <= k < members.len() && #[trigger] company_entry(members[k].1, needle) == Some(
                #[trigger] entries[i],
            ) by {
            if i < before.len() {
                assert(entries[i] == before[i]);
                let k = choose|k: int|
                    0 <= k < head.len() && #[trigger] company_entry(head[k].1, needle) == Some(
                        before[i],
                    );
                assert(members[k] == head[k]);
                assert(company_entry(members[k].1, needle) == Some(entries[i]));
            } else {
                let k = members.len() - 1;
                assert(company_entry(members[k].1, needle) == Some(entries[i]));
            }
        }
    }
}

} // verus!
