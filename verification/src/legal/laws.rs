//! What the legal tools read and report, from the members of an answer to a report.

use vstd::prelude::*;

use super::tools::{
    at_most, case_entry, case_snippet, company_entries, company_entry, dispatched, document_entry,
    filing_entries, filing_entry, padded_cik, recent_entries, recent_entry, report_of, reportable,
    request_for, Tool,
};
use crate::http::{Expect, ReplyView, StepView};
use crate::json::{texts_at, texts_of, JsonView};
use crate::text::case::{all_ascii, lowercase};
use crate::text::laws::{joined_parts_stand, lists_behind, text_can_be_cut};
use crate::text::lines::trim;
use crate::text::number::natural_of;
use crate::text::search::{contains, group_contained, replace, split};
use crate::text::url::urlencoded;
use crate::text::width::{byte_len, cuts_cleanly, prefix_within};
use crate::text::{decimal, join};

verus! {

// ─── Addresses ──────────────────────────────────────────────────────────────

/// A search carries its query and its filters encoded, each under its own name.
pub proof fn named_things_are_read(args: JsonView, query: Seq<char>)
    requires
        args.at("query"@) == JsonView::Text(query),
    ensures
        request_for(Tool::SecFilingSearch, args) matches Ok(r) && {
            &&& contains(r.url, "https://efts.sec.gov/LATEST/search-index?q="@ + urlencoded(query))
            &&& args.at("form_type"@) matches JsonView::Text(form) ==> contains(
                r.url,
                "&forms="@ + urlencoded(form),
            )
            &&& args.at("start_date"@) matches JsonView::Text(start) ==> contains(
                r.url,
                "&startdt="@ + urlencoded(start),
            ) && contains(r.url, "&dateRange=custom"@)
            &&& args.at("end_date"@) matches JsonView::Text(end) ==> contains(
                r.url,
                "&enddt="@ + urlencoded(end),
            ) && contains(r.url, "&dateRange=custom"@)
        },
        request_for(Tool::FederalRegister, args) matches Ok(r) && {
            &&& contains(
                r.url,
                "https://www.federalregister.gov/api/v1/documents.json?conditions[term]="@
                    + urlencoded(query),
            )
            &&& args.at("document_type"@) matches JsonView::Text(kind) ==> contains(
                r.url,
                "&conditions[type][]="@ + urlencoded(kind),
            )
        },
        request_for(Tool::CaseLawSearch, args) matches Ok(r) && {
            &&& contains(
                r.url,
                "https://www.courtlistener.com/api/rest/v3/search/?q="@ + urlencoded(query),
            )
            &&& args.at("court"@) matches JsonView::Text(court) ==> contains(
                r.url,
                "&court="@ + urlencoded(court),
            )
        },
{
    broadcast use group_contained;

    let first = "https://efts.sec.gov/LATEST/search-index?q="@ + urlencoded(query);
    assert(contains(first, first));
}

/// The filings of a company are read by its number, with ten digits; what is no number is refused.
pub proof fn company_is_read_by_number(args: JsonView, cik: Seq<char>)
    requires
        args.at("cik"@) == JsonView::Text(cik),
    ensures
        natural_of(trim(cik)) matches Some(n) ==> (request_for(Tool::SecCompanyFilings, args) matches
            Ok(r) && r.url == "https://data.sec.gov/submissions/CIK"@ + padded_cik(n) + ".json"@),
        natural_of(trim(cik)) is None ==> (request_for(Tool::SecCompanyFilings, args) matches Err(e)
            && contains(e, cik)),
{
    broadcast use group_contained;

}

/// The services that ask for it are told who is calling, and each answer is read as what its tool
/// makes use of.
pub proof fn services_are_asked_properly(tool: Tool, args: JsonView)
    requires
        request_for(tool, args) is Ok,
    ensures
        tool == Tool::SecFilingSearch || tool == Tool::SecCompanyFilings || tool
            == Tool::SecCompanySearch
            ==> request_for(tool, args)->Ok_0.user_agent
                == Some("nasiko-legal-agent/1.0 (research@nasiko.io)"@),
        tool == Tool::FederalRegister || tool == Tool::CaseLawSearch
            ==> request_for(tool, args)->Ok_0.user_agent == None::<Seq<char>>,
        request_for(tool, args)->Ok_0.expect == Expect::Json,
{
}

// ─── Filings ────────────────────────────────────────────────────────────────

/// Whether an entry tells of a filing that a search has found: the company, the form, the date,
/// the description, and the address of the filing.
pub open spec fn tells_of_filing(entry: Seq<char>, hit: JsonView) -> bool {
    let source = hit.at("_source"@);
    &&& contains(
        entry,
        "**"@ + source.at("entity_name"@).text_or("Unknown Company"@) + "** - Form "@ + source.at(
            "form_type"@,
        ).text_or("unknown"@),
    )
    &&& contains(entry, "\nFiled: "@ + source.at("file_date"@).text_or("unknown date"@))
    &&& source.at("file_description"@) matches JsonView::Text(d) ==> (d.len() > 0 ==> contains(
        entry,
        "\nDescription: "@ + d,
    ))
    &&& hit.at("_id"@) matches JsonView::Text(accession) ==> (accession.len() > 0 ==> contains(
        entry,
        "\nLink: "@ + ("https://www.sec.gov/Archives/edgar/data/"@ + split(
            source.at("file_num"@).text_or(""@),
            "-"@,
        )[0] + "/"@ + replace(accession, "-"@, ""@)),
    ))
}

proof fn filing_is_told(hit: JsonView)
    ensures
        tells_of_filing(filing_entry(hit), hit),
{
    broadcast use group_contained;

    let source = hit.at("_source"@);
    let head = "**"@ + source.at("entity_name"@).text_or("Unknown Company"@) + "** - Form "@
        + source.at("form_type"@).text_or("unknown"@);
    assert(contains(head, head));
    match hit.at("_id"@) {
        JsonView::Text(accession) => {
            if accession.len() > 0 {
                let link = "https://www.sec.gov/Archives/edgar/data/"@ + split(
                    source.at("file_num"@).text_or(""@),
                    "-"@,
                )[0] + "/"@ + replace(accession, "-"@, ""@);
                reveal_strlit("/");
                assert(link.len() > 0);
            }
        },
        _ => {},
    }
}

/// The first ten filings that a search has found are reported, in the order of the answer, each
/// with its own company, form, date and description; and how many are reported.
pub proof fn found_filings_are_reported(args: JsonView, resp: JsonView, hits: Seq<JsonView>)
    requires
        args.at("query"@) is Text,
        resp.at("hits"@).at("hits"@) == JsonView::List(hits),
        hits.len() > 0,
    ensures
        ({
            let told = report_of(Tool::SecFilingSearch, args, ReplyView::Json(resp));
            &&& told is Ok
            &&& exists|head: Seq<char>, entries: Seq<Seq<char>>|
                {
                    &&& #[trigger] lists_behind(told->Ok_0, head, entries, "\n\n---\n\n"@)
                    &&& contains(head, "Found "@ + decimal(entries.len()))
                    &&& entries.len() == if hits.len() < 10 {
                        hits.len()
                    } else {
                        10
                    }
                    &&& forall|i: int|
                        0 <= i < entries.len() ==> tells_of_filing(#[trigger] entries[i], hits[i])
                }
        }),
{
    broadcast use group_contained;

    let told = report_of(Tool::SecFilingSearch, args, ReplyView::Json(resp));
    let entries = filing_entries(hits);
    let count = "Found "@ + decimal(entries.len());
    let head = count + " SEC filings:\n\n"@;
    assert(contains(count, count));
    assert(told->Ok_0 == head + join(entries, "\n\n---\n\n"@));
    assert(lists_behind(told->Ok_0, head, entries, "\n\n---\n\n"@));
    assert forall|i: int| 0 <= i < entries.len() implies tells_of_filing(
        #[trigger] entries[i],
        hits[i],
    ) by {
        filing_is_told(hits[i]);
    }
}

/// What stands at place `i` of a list of texts.
pub open spec fn text_at_place(j: JsonView, i: int, other: Seq<char>) -> Seq<char> {
    match j {
        JsonView::List(items) => if 0 <= i < items.len() {
            items[i].text_or(other)
        } else {
            other
        },
        _ => other,
    }
}

/// Whether an entry tells of the filing at place `i`: its form and date, and its description.
pub open spec fn tells_of_recent(entry: Seq<char>, recent: JsonView, i: int) -> bool {
    &&& contains(
        entry,
        "  "@ + text_at_place(recent.at("form"@), i, "?"@) + " | "@ + text_at_place(
            recent.at("filingDate"@),
            i,
            "?"@,
        ),
    )
    &&& text_at_place(recent.at("primaryDocDescription"@), i, ""@).len() > 0 ==> contains(
        entry,
        " | "@ + text_at_place(recent.at("primaryDocDescription"@), i, ""@),
    )
}

/// The report on a company tells its name, its number and its tickers, and of its ten newest
/// filings, in their order, each by its own form, date and description.
pub proof fn company_is_reported(
    args: JsonView,
    n: u64,
    resp: JsonView,
    forms: Seq<JsonView>,
)
    requires
        args.at("cik"@) matches JsonView::Text(cik) && natural_of(trim(cik)) == Some(n),
        resp.at("filings"@).at("recent"@).at("form"@) == JsonView::List(forms),
        resp.at("filings"@).at("recent"@).at("filingDate"@) is List,
        forms.len() > 0,
    ensures
        ({
            let told = report_of(Tool::SecCompanyFilings, args, ReplyView::Json(resp));
            let recent = resp.at("filings"@).at("recent"@);
            let cik = resp.at("cik"@).text_or(padded_cik(n));
            let tickers = texts_of(resp.at("tickers"@).items_or_none());
            &&& told is Ok
            &&& contains(
                told->Ok_0,
                "**"@ + resp.at("name"@).text_or("Unknown Company"@) + "**\nCIK: "@ + cik,
            )
            &&& join(tickers, ", "@).len() > 0 ==> contains(
                told->Ok_0,
                "\nTickers: "@ + join(tickers, ", "@),
            )
            &&& exists|head: Seq<char>, entries: Seq<Seq<char>>|
                {
                    &&& #[trigger] lists_behind(told->Ok_0, head, entries, "\n"@)
                    &&& contains(head, "\n\nRecent Filings ("@ + decimal(entries.len()))
                    &&& entries.len() == if forms.len() < 10 {
                        forms.len()
                    } else {
                        10
                    }
                    &&& forall|i: int|
                        0 <= i < entries.len() ==> tells_of_recent(#[trigger] entries[i], recent, i)
                }
        }),
{
    broadcast use group_contained;

    let told = report_of(Tool::SecCompanyFilings, args, ReplyView::Json(resp));
    let recent = resp.at("filings"@).at("recent"@);
    let cik = resp.at("cik"@).text_or(padded_cik(n));
    let tickers = join(texts_of(resp.at("tickers"@).items_or_none()), ", "@);
    let entries = recent_entries(recent, cik);
    let name = "**"@ + resp.at("name"@).text_or("Unknown Company"@) + "**\nCIK: "@ + cik;
    let about = super::tools::with_line(name, "\nTickers: "@, tickers);
    let count = "\n\nRecent Filings ("@ + decimal(entries.len());
    let list = count + "):\n"@ + join(entries, "\n"@);
    let head = about + (count + "):\n"@);
    assert(contains(name, name));
    assert(contains(about, name));
    assert(contains(count, count));
    assert(told->Ok_0 == about + list);
    assert(about + list =~= head + join(entries, "\n"@));
    assert(lists_behind(told->Ok_0, head, entries, "\n"@));
    assert(contains(about + list, name));
    if tickers.len() > 0 {
        assert(contains(about, "\nTickers: "@ + tickers));
        assert(contains(about + list, "\nTickers: "@ + tickers));
    }
    assert forall|i: int| 0 <= i < entries.len() implies tells_of_recent(
        #[trigger] entries[i],
        recent,
        i,
    ) by {
        let line = "  "@ + text_at_place(recent.at("form"@), i, "?"@) + " | "@ + text_at_place(
            recent.at("filingDate"@),
            i,
            "?"@,
        );
        assert(contains(line, line));
        assert(entries[i] == recent_entry(recent, cik, i));
    }
}

/// Every company whose name holds what is searched for, or whose ticker it is, whatever the case,
/// is reported with its own name, ticker and number, while there are ten at most.
pub proof fn meant_companies_are_reported(
    args: JsonView,
    name: Seq<char>,
    members: Seq<(Seq<char>, JsonView)>,
    i: int,
    cik: u64,
)
    requires
        args.at("name"@) == JsonView::Text(name),
        0 <= i < members.len(),
        members.len() <= 10,
        members[i].1.at("cik_str"@) == JsonView::Natural(cik),
        contains(lowercase(members[i].1.at("title"@).text_or(""@)), lowercase(name)) || lowercase(
            members[i].1.at("ticker"@).text_or(""@),
        ) == lowercase(name),
    ensures
        report_of(
            Tool::SecCompanySearch,
            args,
            ReplyView::Json(JsonView::Object(members)),
        ) matches Ok(report) && contains(
            report,
            "**"@ + members[i].1.at("title"@).text_or(""@) + "** ("@ + members[i].1.at(
                "ticker"@,
            ).text_or(""@) + ") — CIK: "@ + padded_cik(cik),
        ),
{
    broadcast use group_contained;

    let k = company_place(members, lowercase(name), i);
    joined_parts_stand(company_entries(members, lowercase(name)), "\n"@, k);
}

proof fn company_place(members: Seq<(Seq<char>, JsonView)>, needle: Seq<char>, i: int) -> (k: int)
    requires
        0 <= i < members.len(),
        members.len() <= 10,
        company_entry(members[i].1, needle) is Some,
    ensures
        0 <= k < company_entries(members, needle).len(),
        company_entries(members, needle)[k] == company_entry(members[i].1, needle)->0,
        company_entries(members, needle).len() <= members.len(),
    decreases members.len(),
{
    company_count(members.drop_last(), needle);
    if i < members.len() - 1 {
        let k = company_place(members.drop_last(), needle, i);
        assert(members.drop_last()[i] == members[i]);
        k
    } else {
        company_entries(members, needle).len() - 1
    }
}

proof fn company_count(members: Seq<(Seq<char>, JsonView)>, needle: Seq<char>)
    ensures
        company_entries(members, needle).len() <= members.len(),
    decreases members.len(),
{
    if members.len() > 0 {
        company_count(members.drop_last(), needle);
    }
}

/// A company that is not meant is not reported.
pub proof fn others_are_not_reported(entry: JsonView, needle: Seq<char>)
    ensures
        company_entry(entry, needle) is Some <==> entry.at("cik_str"@) is Natural && (contains(
            lowercase(entry.at("title"@).text_or(""@)),
            needle,
        ) || lowercase(entry.at("ticker"@).text_or(""@)) == needle),
{
}

// ─── Documents ──────────────────────────────────────────────────────────────

/// Whether an entry tells of a document: its title, its type, its date, its agencies, its abstract
/// and its address.
pub open spec fn tells_of_document(entry: Seq<char>, doc: JsonView) -> bool {
    &&& contains(
        entry,
        "**"@ + doc.at("title"@).text_or("Untitled"@) + "**\nType: "@ + doc.at("type"@).text_or(
            "unknown"@,
        ),
    )
    &&& contains(
        entry,
        " | Published: "@ + doc.at("publication_date"@).text_or("unknown date"@),
    )
    &&& doc.at("agencies"@) matches JsonView::List(agencies) ==> (texts_at(
        agencies,
        "name"@,
    ).len() > 0 ==> contains(
        entry,
        "\nAgencies: "@ + join(texts_at(agencies, "name"@), ", "@),
    ))
    &&& doc.at("abstract"@) matches JsonView::Text(a) ==> (0 < a.len() && byte_len(a) <= 300
        ==> contains(entry, "\nAbstract: "@ + a))
    &&& doc.at("html_url"@) matches JsonView::Text(url) ==> (url.len() > 0 ==> contains(
        entry,
        "\nURL: "@ + url,
    ))
}

proof fn document_is_told(doc: JsonView)
    ensures
        tells_of_document(document_entry(doc), doc),
{
    broadcast use group_contained;

    let head = "**"@ + doc.at("title"@).text_or("Untitled"@) + "**\nType: "@ + doc.at(
        "type"@,
    ).text_or("unknown"@);
    assert(contains(head, head));
}

/// The documents that a search has found are reported, every one of them and in the order of the
/// answer, each with its own title, type, date, agencies, abstract and address.
pub proof fn found_documents_are_reported(args: JsonView, resp: JsonView, docs: Seq<JsonView>)
    requires
        args.at("query"@) is Text,
        resp.at("results"@) == JsonView::List(docs),
        docs.len() > 0,
    ensures
        ({
            let told = report_of(Tool::FederalRegister, args, ReplyView::Json(resp));
            &&& told is Ok
            &&& exists|head: Seq<char>, entries: Seq<Seq<char>>|
                {
                    &&& #[trigger] lists_behind(told->Ok_0, head, entries, "\n\n---\n\n"@)
                    &&& contains(head, "Found "@ + decimal(docs.len()))
                    &&& entries.len() == docs.len()
                    &&& forall|i: int|
                        0 <= i < docs.len() ==> tells_of_document(#[trigger] entries[i], docs[i])
                }
        }),
{
    broadcast use group_contained;

    let told = report_of(Tool::FederalRegister, args, ReplyView::Json(resp));
    let entries = Seq::new(docs.len(), |i: int| document_entry(docs[i]));
    let count = "Found "@ + decimal(docs.len());
    let head = count + " Federal Register documents:\n\n"@;
    assert(contains(count, count));
    assert(told->Ok_0 == head + join(entries, "\n\n---\n\n"@));
    assert(lists_behind(told->Ok_0, head, entries, "\n\n---\n\n"@));
    assert forall|i: int| 0 <= i < docs.len() implies tells_of_document(
        #[trigger] entries[i],
        docs[i],
    ) by {
        document_is_told(docs[i]);
    }
}

// ─── Cases ──────────────────────────────────────────────────────────────────

/// The text under `key`, else the one under `second`, else `other`.
pub open spec fn one_of(j: JsonView, key: Seq<char>, second: Seq<char>, other: Seq<char>) -> Seq<
    char,
> {
    match j.at(key) {
        JsonView::Text(t) => t,
        _ => match j.at(second) {
            JsonView::Text(t) => t,
            _ => other,
        },
    }
}

/// Whether an entry tells of a case: its name, its court, its date, its citation, what was found,
/// and its address.
pub open spec fn tells_of_case(entry: Seq<char>, case: JsonView) -> bool {
    &&& contains(
        entry,
        "**"@ + one_of(case, "caseName"@, "case_name"@, "Unknown Case"@) + "**\nCourt: "@ + one_of(
            case,
            "court_citation_string"@,
            "court"@,
            "unknown court"@,
        ),
    )
    &&& contains(
        entry,
        " | Date Filed: "@ + one_of(case, "dateFiled"@, "date_filed"@, "unknown date"@),
    )
    &&& case.at("citation"@).first() matches JsonView::Text(c) ==> (c.len() > 0 ==> contains(
        entry,
        "\nCitation: "@ + c,
    ))
    &&& case.at("citation"@) matches JsonView::Text(c) ==> (c.len() > 0 ==> contains(
        entry,
        "\nCitation: "@ + c,
    ))
    &&& 0 < case_snippet(case).len() && byte_len(case_snippet(case)) <= 300 ==> contains(
        entry,
        "\nSnippet: "@ + case_snippet(case),
    )
    &&& case.at("absolute_url"@) matches JsonView::Text(url) ==> (url.len() > 0 ==> contains(
        entry,
        "\nLink: "@ + ("https://www.courtlistener.com"@ + url),
    ))
}

proof fn case_is_told(case: JsonView)
    ensures
        tells_of_case(case_entry(case), case),
{
    broadcast use group_contained;

    let head = "**"@ + one_of(case, "caseName"@, "case_name"@, "Unknown Case"@) + "**\nCourt: "@
        + one_of(case, "court_citation_string"@, "court"@, "unknown court"@);
    assert(contains(head, head));
}

/// The first ten cases that a search has found are reported, in the order of the answer, each with
/// its own name, court, date, citation, snippet and address; and how many are reported.
pub proof fn found_cases_are_reported(args: JsonView, resp: JsonView, cases: Seq<JsonView>)
    requires
        args.at("query"@) is Text,
        resp.at("results"@) == JsonView::List(cases),
        cases.len() > 0,
    ensures
        ({
            let told = report_of(Tool::CaseLawSearch, args, ReplyView::Json(resp));
            &&& told is Ok
            &&& exists|head: Seq<char>, entries: Seq<Seq<char>>|
                {
                    &&& #[trigger] lists_behind(told->Ok_0, head, entries, "\n\n---\n\n"@)
                    &&& contains(head, "Found "@ + decimal(entries.len()))
                    &&& entries.len() == if cases.len() < 10 {
                        cases.len()
                    } else {
                        10
                    }
                    &&& forall|i: int|
                        0 <= i < entries.len() ==> tells_of_case(#[trigger] entries[i], cases[i])
                }
        }),
{
    broadcast use group_contained;

    let told = report_of(Tool::CaseLawSearch, args, ReplyView::Json(resp));
    let entries = Seq::new(at_most(cases.len(), 10), |i: int| case_entry(cases[i]));
    let count = "Found "@ + decimal(entries.len());
    let head = count + " cases:\n\n"@;
    assert(contains(count, count));
    assert(told->Ok_0 == head + join(entries, "\n\n---\n\n"@));
    assert(lists_behind(told->Ok_0, head, entries, "\n\n---\n\n"@));
    assert forall|i: int| 0 <= i < entries.len() implies tells_of_case(
        #[trigger] entries[i],
        cases[i],
    ) by {
        case_is_told(cases[i]);
    }
}

// ─── Calls ──────────────────────────────────────────────────────────────────

/// Whether a call by `name` does the work of `tool`: it fetches what the tool reads, and tells what
/// the tool reports of the first reply, or what went wrong.
pub open spec fn does_the_work_of(
    name: Seq<char>,
    tool: Tool,
    args: JsonView,
    reply: ReplyView,
) -> bool {
    let asked = dispatched(name, Ok(args), Seq::empty());
    let told = dispatched(name, Ok(args), seq![reply]);
    match request_for(tool, args) {
        Err(e) => asked == StepView::Done("Error: "@ + e) && told == asked,
        Ok(r) => {
            &&& asked == StepView::Fetch(r)
            &&& match report_of(tool, args, reply) {
                Ok(report) => told == StepView::Done(report),
                Err(e) => told == StepView::Done("Error: "@ + e),
            }
        },
    }
}

proof fn names_differ()
    ensures
        "sec_company_filings"@ != "sec_filing_search"@,
        "sec_company_search"@ != "sec_filing_search"@,
        "sec_company_search"@ != "sec_company_filings"@,
        "federal_register"@ != "sec_filing_search"@,
        "federal_register"@ != "sec_company_filings"@,
        "federal_register"@ != "sec_company_search"@,
        "case_law_search"@ != "sec_filing_search"@,
        "case_law_search"@ != "sec_company_filings"@,
        "case_law_search"@ != "sec_company_search"@,
        "case_law_search"@ != "federal_register"@,
{
    reveal_strlit("sec_filing_search");
    reveal_strlit("sec_company_filings");
    reveal_strlit("sec_company_search");
    reveal_strlit("federal_register");
    reveal_strlit("case_law_search");
    assert("sec_company_filings"@.len() != "sec_filing_search"@.len());
    assert("sec_company_search"@.len() != "sec_filing_search"@.len());
    assert("sec_company_search"@.len() != "sec_company_filings"@.len());
    assert("federal_register"@.len() != "sec_filing_search"@.len());
    assert("federal_register"@.len() != "sec_company_filings"@.len());
    assert("federal_register"@.len() != "sec_company_search"@.len());
    assert("case_law_search"@.len() != "sec_filing_search"@.len());
    assert("case_law_search"@.len() != "sec_company_filings"@.len());
    assert("case_law_search"@.len() != "sec_company_search"@.len());
    assert("case_law_search"@.len() != "federal_register"@.len());
}

/// Each tool does its own work where it is called by its name.
pub proof fn tools_are_called_by_name(args: JsonView, reply: ReplyView)
    ensures
        does_the_work_of("sec_filing_search"@, Tool::SecFilingSearch, args, reply),
        does_the_work_of("sec_company_filings"@, Tool::SecCompanyFilings, args, reply),
        does_the_work_of("sec_company_search"@, Tool::SecCompanySearch, args, reply),
        does_the_work_of("federal_register"@, Tool::FederalRegister, args, reply),
        does_the_work_of("case_law_search"@, Tool::CaseLawSearch, args, reply),
{
    names_differ();
    assert(seq![reply][0] == reply);
}

/// Arguments that cannot be read are told of, and so is a tool that is not known.
pub proof fn unusable_call_is_explained(name: Seq<char>, e: Seq<char>, replies: Seq<ReplyView>)
    requires
        name != "sec_filing_search"@,
        name != "sec_company_filings"@,
        name != "sec_company_search"@,
        name != "federal_register"@,
        name != "case_law_search"@,
    ensures
        forall|args: Result<JsonView, Seq<char>>| #[trigger]
            dispatched(name, args, replies) == StepView::Done("Error: "@ + ("Unknown tool: "@ + name)),
        dispatched("sec_filing_search"@, Err(e), replies) == StepView::Done("Error: "@ + e),
        dispatched("sec_company_filings"@, Err(e), replies) == StepView::Done("Error: "@ + e),
        dispatched("sec_company_search"@, Err(e), replies) == StepView::Done("Error: "@ + e),
        dispatched("federal_register"@, Err(e), replies) == StepView::Done("Error: "@ + e),
        dispatched("case_law_search"@, Err(e), replies) == StepView::Done("Error: "@ + e),
{
    assert(forall|args: Result<JsonView, Seq<char>>| #[trigger]
        dispatched(name, args, replies) == StepView::Done("Error: "@ + ("Unknown tool: "@ + name)));
}

// ─── Empty and unusable answers ─────────────────────────────────────────────

/// Where nothing is found, what was searched for is named.
pub proof fn nothing_found_is_told(args: JsonView, query: Seq<char>, resp: JsonView)
    requires
        args.at("query"@) == JsonView::Text(query),
    ensures
        resp.at("hits"@).at("hits"@) == JsonView::List(Seq::empty()) ==> report_of(
            Tool::SecFilingSearch,
            args,
            ReplyView::Json(resp),
        ) == Ok::<Seq<char>, Seq<char>>("No SEC filings found for '"@ + query + "'."@),
        resp.at("results"@) == JsonView::List(Seq::empty()) ==> report_of(
            Tool::FederalRegister,
            args,
            ReplyView::Json(resp),
        ) == Ok::<Seq<char>, Seq<char>>(
            "No Federal Register documents found for '"@ + query + "'."@,
        ) && report_of(Tool::CaseLawSearch, args, ReplyView::Json(resp)) == Ok::<
            Seq<char>,
            Seq<char>,
        >("No case law found for '"@ + query + "'."@),
        resp.at("hits"@).at("hits"@) !is List ==> report_of(
            Tool::SecFilingSearch,
            args,
            ReplyView::Json(resp),
        ) is Err,
        resp.at("results"@) !is List ==> report_of(
            Tool::FederalRegister,
            args,
            ReplyView::Json(resp),
        ) is Err && report_of(Tool::CaseLawSearch, args, ReplyView::Json(resp)) is Err,
{
    assert(Seq::<JsonView>::empty().len() == 0);
}

/// Where no company is meant, its name is told; a company without filings is reported without any.
pub proof fn no_company_is_told(args: JsonView, name: Seq<char>, n: u64, resp: JsonView)
    ensures
        args.at("name"@) == JsonView::Text(name) && resp == JsonView::Object(Seq::empty())
            ==> report_of(Tool::SecCompanySearch, args, ReplyView::Json(resp)) == Ok::<
            Seq<char>,
            Seq<char>,
        >("No SEC-registered company found matching '"@ + name + "'."@),
        args.at("name"@) is Text && resp !is Object ==> report_of(
            Tool::SecCompanySearch,
            args,
            ReplyView::Json(resp),
        ) is Err,
        (args.at("cik"@) matches JsonView::Text(cik) && natural_of(trim(cik)) == Some(n)) && resp.at(
            "filings"@,
        ).at("recent"@).at("form"@) !is List ==> (report_of(
            Tool::SecCompanyFilings,
            args,
            ReplyView::Json(resp),
        ) matches Ok(report) && contains(report, "\n\nNo recent filings found."@)),
{
    broadcast use group_contained;

    assert(company_entries(Seq::empty(), lowercase(name)).len() == 0);
}

/// A filing with an accession number is reported with the address under which it is listed.
pub proof fn recent_filing_is_linked(recent: JsonView, cik: Seq<char>, i: int)
    requires
        text_at_place(recent.at("accessionNumber"@), i, ""@).len() > 0,
        0 <= i,
    ensures
        contains(
            recent_entry(recent, cik, i),
            "https://www.sec.gov/cgi-bin/browse-edgar?action=getcompany&CIK="@ + cik,
        ),
        contains(
            recent_entry(recent, cik, i),
            "&type="@ + urlencoded(text_at_place(recent.at("form"@), i, "?"@)),
        ),
{
    broadcast use group_contained;

    let form = text_at_place(recent.at("form"@), i, "?"@);
    let start = "https://www.sec.gov/cgi-bin/browse-edgar?action=getcompany&CIK="@ + cik;
    let link = start + "&type="@ + urlencoded(form) + "&dateb=&owner=include&count=1"@;
    assert(contains(start, start));
    assert(contains(link, start));
    assert(contains(link, "&type="@ + urlencoded(form)));
    reveal_strlit("&dateb=&owner=include&count=1");
    assert(link.len() > 0);
}

/// An answer can be reported on where the texts that are cut have characters of one byte each and
/// every filing has a date; and no other answer needs that.
pub proof fn plain_answers_can_be_reported(
    tool: Tool,
    resp: JsonView,
    items: Seq<JsonView>,
    forms: Seq<JsonView>,
    dates: Seq<JsonView>,
)
    requires
        resp.at("results"@) == JsonView::List(items),
        resp.at("filings"@).at("recent"@).at("form"@) == JsonView::List(forms),
        resp.at("filings"@).at("recent"@).at("filingDate"@) == JsonView::List(dates),
    ensures
        (forall|i: int|
            0 <= i < items.len() ==> all_ascii((#[trigger] items[i]).at("abstract"@).text_or(""@)))
            ==> reportable(Tool::FederalRegister, seq![ReplyView::Json(resp)]),
        (forall|i: int| 0 <= i < items.len() ==> all_ascii(case_snippet(#[trigger] items[i])))
            ==> reportable(Tool::CaseLawSearch, seq![ReplyView::Json(resp)]),
        forms.len() <= dates.len() || dates.len() >= 10 ==> reportable(
            Tool::SecCompanyFilings,
            seq![ReplyView::Json(resp)],
        ),
        dates.len() < forms.len() && dates.len() < 10 ==> !reportable(
            Tool::SecCompanyFilings,
            seq![ReplyView::Json(resp)],
        ),
        reportable(tool, Seq::empty()),
        tool == Tool::SecFilingSearch || tool == Tool::SecCompanySearch ==> reportable(
            tool,
            seq![ReplyView::Json(resp)],
        ),
{
    assert forall|s: Seq<char>| all_ascii(s) implies #[trigger] cuts_cleanly(s, 300) by {
        text_can_be_cut(s, 300);
    }
}

/// Of a long abstract or snippet the first three hundred bytes are reported, with a mark behind
/// them.
pub proof fn long_texts_are_cut(doc: JsonView, text: Seq<char>, case: JsonView)
    requires
        doc.at("abstract"@) == JsonView::Text(text),
        byte_len(text) > 300,
        byte_len(case_snippet(case)) > 300,
    ensures
        contains(document_entry(doc), "\nAbstract: "@ + (prefix_within(text, 300) + "..."@)),
        contains(
            case_entry(case),
            "\nSnippet: "@ + (prefix_within(case_snippet(case), 300) + "..."@),
        ),
{
    broadcast use group_contained;

    reveal_strlit("...");
    assert((prefix_within(text, 300) + "..."@).len() > 0);
    assert((prefix_within(case_snippet(case), 300) + "..."@).len() > 0);
}

} // verus!
