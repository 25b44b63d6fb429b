//! The research paper tools: which address a call reads, and what it reports of the answer.

use vstd::prelude::*;

use super::definitions::{definitions_are_named, definitions_view};
use super::feed::{
    can_cut_papers, paper_entry, paper_views, papers_cut, papers_in, read_feed, show_paper, Paper,
    PaperView,
};
use crate::http::{
    ask, asked, body_text, get, need, needed, reply_views, request_view, show, shown, single_fetch,
    text_body, Expect, Reply, ReplyView, Request, RequestView, Step, StepView,
};
use crate::json::notation::{compact, notation};
use crate::json::serde::{json_of_text, parse};
use crate::json::{json_views, parsed_view, texts_at, texts_with, Json, JsonView};
use crate::schema::{advertises, schema_name};
use crate::text::url::{urlencode, urlencoded};
use crate::text::{
    count_text, decimal, decimal_text, is_text, join, join_texts, outcome, prefixed, same, text,
    views,
};

pub use super::definitions::definitions;

verus! {

/// The research paper tools.
#[derive(Debug, Clone, Copy, PartialEq, Eq, Structural)]
pub enum Tool {
    ArxivSearch,
    SemanticScholar,
    SemanticScholarPaper,
    WikipediaSummary,
}

/// The tool that is called by `name`.
pub open spec fn tool_of(name: Seq<char>) -> Option<Tool> {
    if name == "arxiv_search"@ {
        Some(Tool::ArxivSearch)
    } else if name == "semantic_scholar"@ {
        Some(Tool::SemanticScholar)
    } else if name == "semantic_scholar_paper"@ {
        Some(Tool::SemanticScholarPaper)
    } else if name == "wikipedia_summary"@ {
        Some(Tool::WikipediaSummary)
    } else {
        None
    }
}

/// The tool that is called by `name`.
pub fn tool_named(name: &str) -> (r: Option<Tool>)
    ensures
        r == tool_of(name@),
{
    if same(name, "arxiv_search") {
        Some(Tool::ArxivSearch)
    } else if same(name, "semantic_scholar") {
        Some(Tool::SemanticScholar)
    } else if same(name, "semantic_scholar_paper") {
        Some(Tool::SemanticScholarPaper)
    } else if same(name, "wikipedia_summary") {
        Some(Tool::WikipediaSummary)
    } else {
        None
    }
}

// ─── Requests ───────────────────────────────────────────────────────────────

/// How many results are asked for: five where nothing is said, ten at most.
pub open spec fn wanted(args: JsonView, key: Seq<char>) -> nat {
    let n = args.at(key).natural_or(5);
    if n < 10 {
        n as nat
    } else {
        10
    }
}

/// How many results are asked for.
fn count_wanted(args: &Json, key: &str) -> (r: String)
    ensures
        r@ == decimal(wanted(args@, key@)),
{
    let n = args.at(key).natural_or(5);
    if n < 10 {
        decimal_text(n)
    } else {
        decimal_text(10)
    }
}

/// The address that `arxiv_search` reads.
pub open spec fn arxiv_url(query: Seq<char>, args: JsonView) -> Seq<char> {
    "http://export.arxiv.org/api/query?search_query=all:"@ + urlencoded(query)
        + "&start=0&max_results="@ + decimal(wanted(args, "max_results"@)) + "&sortBy="@ + args.at(
        "sort_by"@,
    ).text_or("relevance"@) + "&sortOrder=descending"@
}

/// The address that `semantic_scholar` reads.
pub open spec fn scholar_url(query: Seq<char>, args: JsonView) -> Seq<char> {
    let url = "https://api.semanticscholar.org/graph/v1/paper/search?query="@ + urlencoded(query)
        + "&limit="@ + decimal(wanted(args, "limit"@))
        + "&fields=title,authors,year,citationCount,influentialCitationCount,tldr,externalIds"@;
    match args.at("year"@).text() {
        Some(year) => url + "&year="@ + year,
        None => url,
    }
}

/// The address that `semantic_scholar_paper` reads.
pub open spec fn scholar_paper_url(id: Seq<char>) -> Seq<char> {
    "https://api.semanticscholar.org/graph/v1/paper/"@ + urlencoded(id)
        + "?fields=title,authors,year,abstract,citationCount,influentialCitationCount,references.title,references.year,tldr,externalIds,venue"@
}

/// The request that a call of `tool` sends, or why it sends none.
pub open spec fn request_for(tool: Tool, args: JsonView) -> Result<RequestView, Seq<char>> {
    match tool {
        Tool::ArxivSearch => match needed(args, "query"@) {
            Err(e) => Err(e),
            Ok(query) => Ok(
                RequestView {
                    url: arxiv_url(query, args),
                    user_agent: None,
                    expect: Expect::Text,
                },
            ),
        },
        Tool::SemanticScholar => match needed(args, "query"@) {
            Err(e) => Err(e),
            Ok(query) => Ok(
                RequestView {
                    url: scholar_url(query, args),
                    user_agent: None,
                    expect: Expect::Json,
                },
            ),
        },
        Tool::SemanticScholarPaper => match needed(args, "paper_id"@) {
            Err(e) => Err(e),
            Ok(id) => Ok(
                RequestView {
                    url: scholar_paper_url(id),
                    user_agent: None,
                    expect: Expect::Json,
                },
            ),
        },
        Tool::WikipediaSummary => match needed(args, "topic"@) {
            Err(e) => Err(e),
            Ok(topic) => Ok(
                RequestView {
                    url: "https://en.wikipedia.org/api/rest_v1/page/summary/"@ + urlencoded(topic),
                    user_agent: None,
                    expect: Expect::Json,
                },
            ),
        },
    }
}

/// The request that a call of `tool` sends, or why it sends none.
pub fn request(tool: Tool, args: &Json) -> (r: Result<Request, String>)
    ensures
        request_view(r) == request_for(tool, args@),
{
    match tool {
        Tool::ArxivSearch => match need(args, "query") {
            Err(e) => Err(e),
            Ok(query) => {
                let mut url = text("http://export.arxiv.org/api/query?search_query=all:");
                let q = urlencode(query);
                url.append(q.as_str());
                url.append("&start=0&max_results=");
                let count = count_wanted(args, "max_results");
                url.append(count.as_str());
                url.append("&sortBy=");
                url.append(args.at("sort_by").text_or("relevance"));
                url.append("&sortOrder=descending");
                Ok(get(url, None, Expect::Text))
            },
        },
        Tool::SemanticScholar => match need(args, "query") {
            Err(e) => Err(e),
            Ok(query) => {
                let mut url = text(
                    "https://api.semanticscholar.org/graph/v1/paper/search?query=",
                );
                let q = urlencode(query);
                url.append(q.as_str());
                url.append("&limit=");
                let count = count_wanted(args, "limit");
                url.append(count.as_str());
                url.append(
                    "&fields=title,authors,year,citationCount,influentialCitationCount,tldr,externalIds",
                );
                match args.at("year").as_text() {
                    Some(year) => {
                        url.append("&year=");
                        url.append(year);
                    },
                    None => {},
                }
                Ok(get(url, None, Expect::Json))
            },
        },
        Tool::SemanticScholarPaper => match need(args, "paper_id") {
            Err(e) => Err(e),
            Ok(id) => {
                let mut url = text("https://api.semanticscholar.org/graph/v1/paper/");
                let encoded = urlencode(id);
                url.append(encoded.as_str());
                url.append(
                    "?fields=title,authors,year,abstract,citationCount,influentialCitationCount,references.title,references.year,tldr,externalIds,venue",
                );
                Ok(get(url, None, Expect::Json))
            },
        },
        Tool::WikipediaSummary => match need(args, "topic") {
            Err(e) => Err(e),
            Ok(topic) => {
                let mut url = text("https://en.wikipedia.org/api/rest_v1/page/summary/");
                let encoded = urlencode(topic);
                url.append(encoded.as_str());
                Ok(get(url, None, Expect::Json))
            },
        },
    }
}

// ─── arxiv_search ───────────────────────────────────────────────────────────

/// What is reported of the papers of a feed.
pub open spec fn papers_report(query: Seq<char>, papers: Seq<PaperView>) -> Seq<char> {
    if papers.len() == 0 {
        "No arXiv papers found for '"@ + query + "'."@
    } else {
        "Found "@ + decimal(papers.len()) + " papers:\n\n"@ + join(
            papers.map_values(|p: PaperView| paper_entry(p)),
            "\n---\n"@,
        )
    }
}

/// The report of `arxiv_search`.
pub open spec fn arxiv_report(args: JsonView, reply: ReplyView) -> Result<Seq<char>, Seq<char>> {
    match needed(args, "query"@) {
        Err(e) => Err(e),
        Ok(query) => match text_body(reply, "search failed (HTTP "@) {
            Err(e) => Err(e),
            Ok(feed) => Ok(papers_report(query, papers_in(feed))),
        },
    }
}

/// Whether the report of `arxiv_search` can be cut where it has to be.
pub open spec fn arxiv_cuts(reply: ReplyView) -> bool {
    match reply {
        ReplyView::Text(feed) => papers_cut(papers_in(feed)),
        _ => true,
    }
}

/// What is reported of the papers of a feed.
pub fn report_papers(query: &str, papers: &Vec<Paper>) -> (r: String)
    requires
        papers_cut(paper_views(papers@)),
    ensures
        r@ == papers_report(query@, paper_views(papers@)),
{
    let ghost all = paper_views(papers@);
    assert(all.len() == papers@.len());
    if papers.len() == 0 {
        let mut out = text("No arXiv papers found for '");
        out.append(query);
        out.append("'.");
        return out;
    }
    let ghost entries = all.map_values(|p: PaperView| paper_entry(p));
    let mut shown_papers: Vec<String> = Vec::new();
    let mut i: usize = 0;
    assert(views(shown_papers@) =~= entries.take(0));
    while i < papers.len()
        invariant
            i <= papers@.len(),
            all == paper_views(papers@),
            papers_cut(all),
            entries == all.map_values(|p: PaperView| paper_entry(p)),
            views(shown_papers@) == entries.take(i as int),
        decreases papers@.len() - i,
    {
        let ghost before = views(shown_papers@);
        assert(all[i as int] == papers@[i as int]@);
        shown_papers.push(show_paper(&papers[i]));
        assert(views(shown_papers@) =~= before.push(entries[i as int]));
        i += 1;
        assert(views(shown_papers@) =~= entries.take(i as int));
    }
    assert(entries.take(i as int) =~= entries);
    let mut out = text("Found ");
    let count = count_text(papers.len());
    out.append(count.as_str());
    out.append(" papers:\n\n");
    let joined = join_texts(&shown_papers, "\n---\n");
    out.append(joined.as_str());
    out
}

/// The report of `arxiv_search`.
pub fn arxiv_search(args: &Json, reply: &Reply) -> (r: Result<String, String>)
    requires
        arxiv_cuts(reply@),
    ensures
        outcome(r) == arxiv_report(args@, reply@),
{
    match need(args, "query") {
        Err(e) => Err(e),
        Ok(query) => match body_text(reply, "search failed (HTTP ") {
            Err(e) => Err(e),
            Ok(feed) => {
                let papers = read_feed(feed.as_str());
                Ok(report_papers(query, &papers))
            },
        },
    }
}

// ─── semantic_scholar ───────────────────────────────────────────────────────

/// The year of a paper; empty where it is not known.
pub open spec fn year_of(paper: JsonView) -> Seq<char> {
    match paper.at("year"@).natural() {
        Some(y) => decimal(y as nat),
        None => Seq::empty(),
    }
}

/// The authors of a paper.
pub open spec fn authors_of(paper: JsonView) -> Seq<char> {
    join(texts_at(paper.at("authors"@).items_or_none(), "name"@), ", "@)
}

/// How often a paper was cited.
pub open spec fn citations_of(paper: JsonView) -> Seq<char> {
    decimal(paper.at("citationCount"@).natural_or(0) as nat) + " ("@ + decimal(
        paper.at("influentialCitationCount"@).natural_or(0) as nat,
    ) + " influential)"@
}

/// One paper of a search.
pub open spec fn scholar_entry(paper: JsonView) -> Seq<char> {
    let head = "**"@ + paper.at("title"@).text_or("Untitled"@) + "** ("@ + year_of(paper)
        + ")\nAuthors: "@ + authors_of(paper) + "\nCitations: "@ + citations_of(paper) + "\nID: "@
        + paper.at("paperId"@).text_or(""@);
    let linked = match paper.at("externalIds"@).at("ArXiv"@).text() {
        Some(id) => head + "\narXiv: https://arxiv.org/abs/"@ + id,
        None => head,
    };
    let tldr = paper.at("tldr"@).at("text"@).text_or(""@);
    if tldr.len() == 0 {
        linked
    } else {
        linked + "\nTL;DR: "@ + tldr
    }
}

/// The report of `semantic_scholar`.
pub open spec fn scholar_report(args: JsonView, reply: ReplyView) -> Result<Seq<char>, Seq<char>> {
    match asked(args, "query"@, reply) {
        Err(e) => Err(e),
        Ok((query, resp)) => match resp.at("data"@).items() {
            None => Err("no results"@),
            Some(papers) => if papers.len() == 0 {
                Ok("No papers found for '"@ + query + "'."@)
            } else {
                Ok(
                    "Found "@ + decimal(papers.len()) + " papers:\n\n"@ + join(
                        Seq::new(papers.len(), |i: int| scholar_entry(papers[i])),
                        "\n\n---\n\n"@,
                    ),
                )
            },
        },
    }
}

/// The year of a paper.
fn show_year(paper: &Json) -> (r: String)
    ensures
        r@ == year_of(paper@),
{
    match paper.at("year").as_natural() {
        Some(y) => decimal_text(y),
        None => String::new(),
    }
}

/// The authors of a paper.
fn show_authors(paper: &Json) -> (r: String)
    ensures
        r@ == authors_of(paper@),
{
    match paper.at("authors").as_items() {
        Some(items) => join_texts(&texts_with(items, "name"), ", "),
        None => {
            let none: Vec<String> = Vec::new();
            assert(views(none@) =~= texts_at(Seq::empty(), "name"@));
            join_texts(&none, ", ")
        },
    }
}

/// How often a paper was cited.
fn show_citations(paper: &Json) -> (r: String)
    ensures
        r@ == citations_of(paper@),
{
    let mut out = decimal_text(paper.at("citationCount").natural_or(0));
    out.append(" (");
    let influential = decimal_text(paper.at("influentialCitationCount").natural_or(0));
    out.append(influential.as_str());
    out.append(" influential)");
    out
}

/// One paper of a search.
fn show_found(paper: &Json) -> (r: String)
    ensures
        r@ == scholar_entry(paper@),
{
    let mut out = text("**");
    out.append(paper.at("title").text_or("Untitled"));
    out.append("** (");
    let year = show_year(paper);
    out.append(year.as_str());
    out.append(")\nAuthors: ");
    let authors = show_authors(paper);
    out.append(authors.as_str());
    out.append("\nCitations: ");
    let citations = show_citations(paper);
    out.append(citations.as_str());
    out.append("\nID: ");
    out.append(paper.at("paperId").text_or(""));
    match paper.at("externalIds").at("ArXiv").as_text() {
        Some(id) => {
            out.append("\narXiv: https://arxiv.org/abs/");
            out.append(id);
        },
        None => {},
    }
    let tldr = paper.at("tldr").at("text").text_or("");
    if !tldr.is_empty() {
        out.append("\nTL;DR: ");
        out.append(tldr);
    }
    out
}

/// The report of `semantic_scholar`.
pub fn semantic_scholar_search(args: &Json, reply: &Reply) -> (r: Result<String, String>)
    ensures
        outcome(r) == scholar_report(args@, reply@),
{
    match ask(args, "query", reply) {
        Err(e) => Err(e),
        Ok((query, resp)) => match resp.at("data").as_items() {
            None => Err(text("no results")),
            Some(papers) => {
                let ghost all = json_views(papers@);
                if papers.len() == 0 {
                    let mut out = text("No papers found for '");
                    out.append(query);
                    out.append("'.");
                    return Ok(out);
                }
                let mut entries: Vec<String> = Vec::new();
                let mut i: usize = 0;
                while i < papers.len()
                    invariant
                        i <= papers@.len(),
                        all == json_views(papers@),
                        views(entries@) == Seq::new(i as nat, |j: int| scholar_entry(all[j])),
                    decreases papers@.len() - i,
                {
                    let ghost before = views(entries@);
                    entries.push(show_found(&papers[i]));
                    assert(views(entries@) =~= before.push(scholar_entry(all[i as int])));
                    i += 1;
                    assert(views(entries@) =~= Seq::new(i as nat, |j: int| scholar_entry(all[j])));
                }
                let mut out = text("Found ");
                let count = count_text(papers.len());
                out.append(count.as_str());
                out.append(" papers:\n\n");
                let joined = join_texts(&entries, "\n\n---\n\n");
                out.append(joined.as_str());
                Ok(out)
            },
        },
    }
}

// ─── semantic_scholar_paper ─────────────────────────────────────────────────

/// One reference of a paper, where it has a title.
pub open spec fn reference_line(reference: JsonView) -> Option<Seq<char>> {
    match reference.at("title"@).text() {
        Some(t) => Some(
            "  - "@ + t + match reference.at("year"@).natural() {
                Some(y) => " ("@ + decimal(y as nat) + ")"@,
                None => Seq::empty(),
            },
        ),
        None => None,
    }
}

/// The lines on references.
pub open spec fn reference_lines(references: Seq<JsonView>) -> Seq<Seq<char>>
    decreases references.len(),
{
    if references.len() == 0 {
        Seq::empty()
    } else {
        match reference_line(references.last()) {
            Some(line) => reference_lines(references.drop_last()).push(line),
            None => reference_lines(references.drop_last()),
        }
    }
}

/// The first ten references of a paper.
pub open spec fn key_references(paper: JsonView) -> Seq<JsonView> {
    let all = paper.at("references"@).items_or_none();
    if all.len() < 10 {
        all
    } else {
        all.take(10)
    }
}

/// The report of `semantic_scholar_paper`.
pub open spec fn scholar_paper_report(args: JsonView, reply: ReplyView) -> Result<
    Seq<char>,
    Seq<char>,
> {
    match asked(args, "paper_id"@, reply) {
        Err(e) => Err(e),
        Ok((_, resp)) => match resp.get("error"@) {
            Some(error) => Err("Paper not found: "@ + notation(error)),
            None => {
                let head = "**"@ + resp.at("title"@).text_or("Untitled"@) + "** ("@ + year_of(resp)
                    + ")\nVenue: "@ + resp.at("venue"@).text_or(""@) + "\nAuthors: "@ + authors_of(
                    resp,
                ) + "\nCitations: "@ + citations_of(resp);
                let tldr = resp.at("tldr"@).at("text"@).text_or(""@);
                let told = if tldr.len() == 0 {
                    head
                } else {
                    head + "\n\nTL;DR: "@ + tldr
                };
                let whole = told + "\n\nAbstract:\n"@ + resp.at("abstract"@).text_or(
                    "No abstract available."@,
                );
                let references = reference_lines(key_references(resp));
                Ok(
                    if references.len() == 0 {
                        whole
                    } else {
                        whole + "\n\nKey References:\n"@ + join(references, "\n"@)
                    },
                )
            },
        },
    }
}

/// The lines on the first ten references of a paper.
fn show_references(paper: &Json) -> (r: Vec<String>)
    ensures
        views(r@) == reference_lines(key_references(paper@)),
{
    let mut out: Vec<String> = Vec::new();
    match paper.at("references").as_items() {
        None => {
            assert(views(out@) =~= reference_lines(key_references(paper@)));
            out
        },
        Some(references) => {
            let ghost all = json_views(references@);
            let count: usize = if references.len() < 10 {
                references.len()
            } else {
                10
            };
            let mut i: usize = 0;
            assert(views(out@) =~= reference_lines(all.take(0)));
            while i < count
                invariant
                    i <= count <= references@.len(),
                    all == json_views(references@),
                    views(out@) == reference_lines(all.take(i as int)),
                decreases count - i,
            {
                let ghost before = views(out@);
                assert(all.take(i + 1).drop_last() =~= all.take(i as int));
                assert(all[i as int] == references@[i as int]@);
                match references[i].at("title").as_text() {
                    Some(t) => {
                        let mut line = text("  - ");
                        line.append(t);
                        let year = match references[i].at("year").as_natural() {
                            Some(y) => {
                                let mut shown_year = text(" (");
                                let digits = decimal_text(y);
                                shown_year.append(digits.as_str());
                                shown_year.append(")");
                                shown_year
                            },
                            None => String::new(),
                        };
                        line.append(year.as_str());
                        let ghost added = line@;
                        out.push(line);
                        assert(views(out@) =~= before.push(added));
                    },
                    None => {},
                }
                i += 1;
            }
            assert(all.take(count as int) =~= key_references(paper@));
            out
        },
    }
}

/// The report of `semantic_scholar_paper`.
pub fn semantic_scholar_paper(args: &Json, reply: &Reply) -> (r: Result<String, String>)
    ensures
        outcome(r) == scholar_paper_report(args@, reply@),
{
    match ask(args, "paper_id", reply) {
        Err(e) => Err(e),
        Ok((_, resp)) => match resp.get("error") {
            Some(error) => {
                let mut out = text("Paper not found: ");
                let written = compact(error);
                out.append(written.as_str());
                Err(out)
            },
            None => {
                let mut out = text("**");
                out.append(resp.at("title").text_or("Untitled"));
                out.append("** (");
                let year = show_year(resp);
                out.append(year.as_str());
                out.append(")\nVenue: ");
                out.append(resp.at("venue").text_or(""));
                out.append("\nAuthors: ");
                let authors = show_authors(resp);
                out.append(authors.as_str());
                out.append("\nCitations: ");
                let citations = show_citations(resp);
                out.append(citations.as_str());
                let tldr = resp.at("tldr").at("text").text_or("");
                if !tldr.is_empty() {
                    out.append("\n\nTL;DR: ");
                    out.append(tldr);
                }
                out.append("\n\nAbstract:\n");
                out.append(resp.at("abstract").text_or("No abstract available."));
                let references = show_references(resp);
                assert(views(references@).len() == references@.len());
                if references.len() > 0 {
                    out.append("\n\nKey References:\n");
                    let joined = join_texts(&references, "\n");
                    out.append(joined.as_str());
                }
                Ok(out)
            },
        },
    }
}

// ─── wikipedia_summary ──────────────────────────────────────────────────────

/// The report of `wikipedia_summary`.
pub open spec fn wikipedia_report(args: JsonView, reply: ReplyView) -> Result<
    Seq<char>,
    Seq<char>,
> {
    match asked(args, "topic"@, reply) {
        Err(e) => Err(e),
        Ok((topic, resp)) => if resp.at("type"@).text() == Some(
            "https://mediawiki.org/wiki/HyperSwitch/errors/not_found"@,
        ) {
            Ok("No Wikipedia article found for '"@ + topic + "'."@)
        } else {
            Ok(
                "**"@ + resp.at("title"@).text_or(topic) + "**\n\n"@ + resp.at("extract"@).text_or(
                    "No summary available."@,
                ) + "\n\nSource: "@ + resp.at("content_urls"@).at("desktop"@).at("page"@).text_or(
                    ""@,
                ),
            )
        },
    }
}

/// The report of `wikipedia_summary`.
pub fn wikipedia_summary(args: &Json, reply: &Reply) -> (r: Result<String, String>)
    ensures
        outcome(r) == wikipedia_report(args@, reply@),
{
    match ask(args, "topic", reply) {
        Err(e) => Err(e),
        Ok((topic, resp)) => if is_text(
            resp.at("type").as_text(),
            "https://mediawiki.org/wiki/HyperSwitch/errors/not_found",
        ) {
            let mut out = text("No Wikipedia article found for '");
            out.append(topic);
            out.append("'.");
            Ok(out)
        } else {
            let mut out = text("**");
            out.append(resp.at("title").text_or(topic));
            out.append("**\n\n");
            out.append(resp.at("extract").text_or("No summary available."));
            out.append("\n\nSource: ");
            out.append(resp.at("content_urls").at("desktop").at("page").text_or(""));
            Ok(out)
        },
    }
}

// ─── Tool calls ─────────────────────────────────────────────────────────────

/// Whether a report on these replies can be cut where it has to be.
pub open spec fn reply_cuts(tool: Tool, replies: Seq<ReplyView>) -> bool {
    replies.len() > 0 && tool == Tool::ArxivSearch ==> arxiv_cuts(replies[0])
}

/// The report of a tool on a reply.
pub open spec fn report_of(tool: Tool, args: JsonView, reply: ReplyView) -> Result<
    Seq<char>,
    Seq<char>,
> {
    match tool {
        Tool::ArxivSearch => arxiv_report(args, reply),
        Tool::SemanticScholar => scholar_report(args, reply),
        Tool::SemanticScholarPaper => scholar_paper_report(args, reply),
        Tool::WikipediaSummary => wikipedia_report(args, reply),
    }
}

/// How the call of the tool `name` goes on, given what its arguments were read as.
pub open spec fn dispatched(
    name: Seq<char>,
    args: Result<JsonView, Seq<char>>,
    replies: Seq<ReplyView>,
) -> StepView {
    match tool_of(name) {
        None => StepView::Done(shown(Err("Unknown tool: "@ + name))),
        Some(tool) => match args {
            Err(e) => StepView::Done(shown(Err(e))),
            Ok(j) => single_fetch(request_for(tool, j), replies, report_of(tool, j, replies[0])),
        },
    }
}

/// Whether a report of the tool `name` on these replies can be cut where it has to be.
pub fn cuts(name: &str, replies: &Vec<Reply>) -> (r: bool)
    ensures
        r == (tool_of(name@) matches Some(tool) ==> reply_cuts(tool, reply_views(replies@))),
{
    match tool_named(name) {
        Some(Tool::ArxivSearch) => if replies.len() == 0 {
            true
        } else {
            assert(reply_views(replies@)[0] == replies@[0]@);
            match &replies[0] {
                Reply::Text(feed) => can_cut_papers(&read_feed(feed.as_str())),
                _ => true,
            }
        },
        _ => true,
    }
}

/// How the call of the tool `name` goes on, given what its arguments were read as.
pub fn dispatch(name: &str, args: &Result<Json, String>, replies: &Vec<Reply>) -> (r: Step)
    requires
        tool_of(name@) matches Some(tool) ==> reply_cuts(tool, reply_views(replies@)),
    ensures
        r@ == dispatched(name@, parsed_view(*args), reply_views(replies@)),
{
    match tool_named(name) {
        None => Step::Done(show(Err(prefixed("Unknown tool: ", name)))),
        Some(tool) => match args {
            Err(e) => Step::Done(show(Err(text(e.as_str())))),
            Ok(j) => match request(tool, j) {
                Err(e) => Step::Done(show(Err(e))),
                Ok(first) => {
                    if replies.len() == 0 {
                        return Step::Fetch(first);
                    }
                    let reply = &replies[0];
                    assert(reply_views(replies@)[0] == reply@);
                    let report = match tool {
                        Tool::ArxivSearch => arxiv_search(j, reply),
                        Tool::SemanticScholar => semantic_scholar_search(j, reply),
                        Tool::SemanticScholarPaper => semantic_scholar_paper(j, reply),
                        Tool::WikipediaSummary => wikipedia_summary(j, reply),
                    };
                    Step::Done(show(report))
                },
            },
        },
    }
}

/// Carries a tool call on: `arguments` is the JSON text from the model, `replies` what came back
/// for the requests so far. Ends in a text for the model; an error is formatted, not raised.
pub fn execute(name: &str, arguments: &str, replies: &Vec<Reply>) -> (r: Step)
    requires
        tool_of(name@) matches Some(tool) ==> reply_cuts(tool, reply_views(replies@)),
    ensures
        r@ == dispatched(name@, json_of_text(arguments@), reply_views(replies@)),
{
    let args = parse(arguments);
    dispatch(name, &args, replies)
}

/// The tools that are advertised to the model are the ones that it can call.
pub proof fn advertised_tools_can_be_called(name: Seq<char>)
    ensures
        advertises(definitions_view(), name) <==> tool_of(name) is Some,
{
    let all = definitions_view();
    definitions_are_named();
    assert(schema_name(all[0]) == Some("arxiv_search"@));
    assert(schema_name(all[1]) == Some("semantic_scholar"@));
    assert(schema_name(all[2]) == Some("semantic_scholar_paper"@));
    assert(schema_name(all[3]) == Some("wikipedia_summary"@));
}

/// However many results are asked for, ten are asked of a service at most; up to ten, as many as
/// are asked for.
pub proof fn results_are_bounded(args: JsonView, key: Seq<char>)
    ensures
        wanted(args, key) <= 10,
        args.at(key).natural() matches Some(n) ==> (n <= 10 ==> wanted(args, key) == n),
        args.at(key).natural() is None ==> wanted(args, key) == 5,
{
}

} // verus!
