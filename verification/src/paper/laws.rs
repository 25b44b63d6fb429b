//! What the research tools read and report, from a feed and from the members of an answer to a
//! report.

use vstd::prelude::*;

use super::feed::{
    after_lines, blank_paper, end_tag, paper_entry, papers_cut, papers_in, tag_content, Open,
    PaperView,
};
use super::tools::{
    authors_of, citations_of, dispatched, key_references, reference_line, reference_lines,
    reply_cuts, report_of, request_for, scholar_entry, wanted, year_of, Tool,
};
use crate::http::{Expect, ReplyView, StepView};
use crate::json::notation::notation;
use crate::json::{texts_at, JsonView};
use crate::text::case::all_ascii;
use crate::text::laws::{joined_parts_stand, lists_behind, text_can_be_cut};
use crate::text::lines::trim;
use crate::text::search::{contains, find_from, find_is_first, group_contained, occurs_at};
use crate::text::url::urlencoded;
use crate::text::width::{byte_len, cuts_cleanly, prefix_within};
use crate::text::{decimal, join};

verus! {

// ─── Addresses ──────────────────────────────────────────────────────────────

/// A search carries its query encoded, as many results as are wanted, and its order or its year;
/// a paper is addressed by its identifier, and an article by its topic.
pub proof fn named_things_are_read(
    args: JsonView,
    query: Seq<char>,
    id: Seq<char>,
    topic: Seq<char>,
)
    requires
        args.at("query"@) == JsonView::Text(query),
        args.at("paper_id"@) == JsonView::Text(id),
        args.at("topic"@) == JsonView::Text(topic),
    ensures
        request_for(Tool::ArxivSearch, args) matches Ok(r) && {
            &&& contains(
                r.url,
                "http://export.arxiv.org/api/query?search_query=all:"@ + urlencoded(query),
            )
            &&& contains(
                r.url,
                "&start=0&max_results="@ + decimal(wanted(args, "max_results"@)),
            )
            &&& contains(r.url, "&sortBy="@ + args.at("sort_by"@).text_or("relevance"@))
        },
        request_for(Tool::SemanticScholar, args) matches Ok(r) && {
            &&& contains(
                r.url,
                "https://api.semanticscholar.org/graph/v1/paper/search?query="@ + urlencoded(query),
            )
            &&& contains(r.url, "&limit="@ + decimal(wanted(args, "limit"@)))
            &&& args.at("year"@) matches JsonView::Text(year) ==> contains(r.url, "&year="@ + year)
        },
        request_for(Tool::SemanticScholarPaper, args) matches Ok(r) && contains(
            r.url,
            "https://api.semanticscholar.org/graph/v1/paper/"@ + urlencoded(id),
        ),
        request_for(Tool::WikipediaSummary, args) matches Ok(r) && r.url
            == "https://en.wikipedia.org/api/rest_v1/page/summary/"@ + urlencoded(topic),
{
    broadcast use group_contained;

    let arxiv = "http://export.arxiv.org/api/query?search_query=all:"@ + urlencoded(query);
    let scholar = "https://api.semanticscholar.org/graph/v1/paper/search?query="@ + urlencoded(
        query,
    );
    let paper = "https://api.semanticscholar.org/graph/v1/paper/"@ + urlencoded(id);
    assert(contains(arxiv, arxiv));
    assert(contains(scholar, scholar));
    assert(contains(paper, paper));
}

/// The services that ask for it are told who is calling, and each answer is read as what its tool
/// makes use of.
pub proof fn services_are_asked_properly(tool: Tool, args: JsonView)
    requires
        request_for(tool, args) is Ok,
    ensures
        request_for(tool, args)->Ok_0.user_agent == None::<Seq<char>>,
        tool == Tool::ArxivSearch ==> request_for(tool, args)->Ok_0.expect == Expect::Text,
        tool != Tool::ArxivSearch ==> request_for(tool, args)->Ok_0.expect == Expect::Json,
{
}

// ─── Feeds ──────────────────────────────────────────────────────────────────

/// A text between its tags.
pub open spec fn tagged(tag: Seq<char>, text: Seq<char>) -> Seq<char> {
    "<"@ + tag + ">"@ + text + "</"@ + tag + ">"@
}

/// Whether a tag is a plain word.
pub open spec fn is_word(tag: Seq<char>) -> bool {
    forall|i: int| 0 <= i < tag.len() ==> #[trigger] tag[i] != '<'
}

/// The text between its tags is what is read of it.
pub proof fn text_between_tags_is_read(tag: Seq<char>, text: Seq<char>)
    requires
        is_word(tag),
        !contains(text, end_tag(tag)),
    ensures
        tag_content(tagged(tag, text), tag) == text,
{
    reveal_strlit("<");
    reveal_strlit(">");
    reveal_strlit("</");
    let line = tagged(tag, text);
    let begin = "<"@ + tag + ">"@;
    let end = "</"@ + tag + ">"@;
    let at: int = begin.len() as int;
    let stop: int = at + text.len();
    assert(end == end_tag(tag));
    assert(line =~= begin + text + end);
    assert(line.subrange(0, at) =~= begin);
    assert(occurs_at(line, begin, 0));
    find_is_first(line, begin, 0);
    find_is_first(line, end, at);
    find_is_first(text, end, 0);
    assert(line.subrange(stop, stop + end.len()) =~= end);
    assert(occurs_at(line, end, stop));
    assert forall|j: int| at <= j < stop implies !occurs_at(line, end, j) by {
        if occurs_at(line, end, j) {
            let part = line.subrange(j, j + end.len());
            if j + end.len() <= stop {
                assert(part =~= text.subrange(j - at, j - at + end.len()));
                assert(occurs_at(text, end, j - at));
            } else {
                assert(part[stop - j] == line[stop]);
                assert(line[stop] == end[0]);
                assert(end[0] == '<');
                assert(end[stop - j] != '<') by {
                    let k = stop - j;
                    assert(0 < k < end.len());
                    if k >= 2 && k < 2 + tag.len() {
                        assert(end[k] == tag[k - 2]);
                    }
                }
            }
        }
    }
    assert(find_from(line, end, at) == Some(stop));
    assert(line.subrange(at, stop) =~= text);
}

/// What is read of a feed after one line more.
proof fn one_line_more(all: Seq<Seq<char>>, line: Seq<char>)
    ensures
        all.push(line).drop_last() == all,
        all.push(line).last() == line,
{
    assert(all.push(line).drop_last() =~= all);
}

/// An entry starts with nothing known of its paper.
pub proof fn entry_starts_blank(all: Seq<Seq<char>>, line: Seq<char>)
    requires
        trim(line) == "<entry>"@,
    ensures
        ({
            let after = after_lines(all.push(line));
            after.in_entry && after.current == blank_paper() && after.papers == after_lines(
                all,
            ).papers
        }),
{
    one_line_more(all, line);
    assert("<entry>"@.subrange(0, "<entry>"@.len() as int) =~= "<entry>"@);
}

/// Within an entry each line fills its own field and leaves the others: the identifier, the date,
/// the title and the summary; a name is one author more, behind the others.
pub proof fn lines_fill_their_fields(all: Seq<Seq<char>>, line: Seq<char>, text: Seq<char>)
    requires
        after_lines(all).in_entry,
    ensures
        ({
            let before = after_lines(all).current;
            let after = after_lines(all.push(line));
            &&& trim(line) == tagged("id"@, text) && !contains(text, end_tag("id"@)) ==> after.in_entry
                && after.current == (PaperView { id: text, ..before })
            &&& trim(line) == tagged("published"@, text) && !contains(text, end_tag("published"@))
                ==> after.in_entry && after.current == (PaperView { published: text, ..before })
            &&& trim(line) == tagged("title"@, text) && !contains(text, end_tag("title"@))
                ==> after.in_entry && after.current == (PaperView { title: text, ..before })
            &&& trim(line) == tagged("summary"@, text) && !contains(text, end_tag("summary"@))
                ==> after.in_entry && after.current == (PaperView { summary: text, ..before })
            &&& trim(line) == tagged("name"@, text) && !contains(text, end_tag("name"@))
                ==> after.in_entry && after.current == (PaperView {
                authors: before.authors.push(text),
                ..before
            })
        }),
{
    one_line_more(all, line);
    let at = trim(line);
    reveal_strlit("<");
    reveal_strlit(">");
    reveal_strlit("</");
    reveal_strlit("id");
    reveal_strlit("published");
    reveal_strlit("title");
    reveal_strlit("summary");
    reveal_strlit("name");
    reveal_strlit("<id>");
    reveal_strlit("<published>");
    reveal_strlit("<title>");
    reveal_strlit("<summary>");
    reveal_strlit("<name>");
    reveal_strlit("<entry>");
    reveal_strlit("</entry>");
    if at == tagged("id"@, text) && !contains(text, end_tag("id"@)) {
        text_between_tags_is_read("id"@, text);
        assert(at.subrange(0, 4) =~= "<id>"@);
        starts_apart(at, "<entry>"@, 1);
        starts_apart(at, "</entry>"@, 1);
    }
    if at == tagged("published"@, text) && !contains(text, end_tag("published"@)) {
        text_between_tags_is_read("published"@, text);
        assert(at.subrange(0, 11) =~= "<published>"@);
        starts_apart(at, "<entry>"@, 1);
        starts_apart(at, "</entry>"@, 1);
        starts_apart(at, "<id>"@, 1);
    }
    if at == tagged("title"@, text) && !contains(text, end_tag("title"@)) {
        text_between_tags_is_read("title"@, text);
        assert(at.subrange(0, 7) =~= "<title>"@);
        starts_apart(at, "<entry>"@, 1);
        starts_apart(at, "</entry>"@, 1);
        starts_apart(at, "<id>"@, 1);
        starts_apart(at, "<published>"@, 1);
    }
    if at == tagged("summary"@, text) && !contains(text, end_tag("summary"@)) {
        text_between_tags_is_read("summary"@, text);
        assert(at.subrange(0, 9) =~= "<summary>"@);
        starts_apart(at, "<entry>"@, 1);
        starts_apart(at, "</entry>"@, 1);
        starts_apart(at, "<id>"@, 1);
        starts_apart(at, "<published>"@, 1);
        starts_apart(at, "<title>"@, 1);
    }
    if at == tagged("name"@, text) && !contains(text, end_tag("name"@)) {
        text_between_tags_is_read("name"@, text);
        assert(at.subrange(0, 6) =~= "<name>"@);
        starts_apart(at, "<entry>"@, 1);
        starts_apart(at, "</entry>"@, 1);
        starts_apart(at, "<id>"@, 1);
        starts_apart(at, "<published>"@, 1);
        starts_apart(at, "<title>"@, 1);
        starts_apart(at, "<summary>"@, 1);
    }
}

proof fn starts_apart(line: Seq<char>, pat: Seq<char>, k: int)
    requires
        0 <= k < pat.len(),
        k < line.len(),
        line[k] != pat[k],
    ensures
        !occurs_at(line, pat, 0),
{
    if occurs_at(line, pat, 0) {
        assert(line.subrange(0, pat.len() as int)[k] == line[k]);
    }
}

/// A title or a summary that goes on over several lines is read with a space between them, until
/// its end tag.
pub proof fn texts_go_on(all: Seq<Seq<char>>, line: Seq<char>)
    requires
        after_lines(all).in_entry,
        trim(line).len() > 0,
        forall|i: int| 0 <= i < trim(line).len() ==> #[trigger] trim(line)[i] != '<',
    ensures
        ({
            let before = after_lines(all);
            let after = after_lines(all.push(line));
            &&& after.in_entry && after.open == before.open && after.papers == before.papers
            &&& before.open == Open::Title ==> after.current == (PaperView {
                title: before.current.title + " "@ + trim(line),
                ..before.current
            })
            &&& before.open == Open::Summary ==> after.current == (PaperView {
                summary: before.current.summary + " "@ + trim(line),
                ..before.current
            })
            &&& before.open == Open::Nothing ==> after.current == before.current
        }),
{
    one_line_more(all, line);
    let at = trim(line);
    reveal_strlit("<");
    reveal_strlit(">");
    reveal_strlit("</");
    reveal_strlit("title");
    reveal_strlit("summary");
    reveal_strlit("<id>");
    reveal_strlit("<published>");
    reveal_strlit("<title>");
    reveal_strlit("<summary>");
    reveal_strlit("<name>");
    reveal_strlit("<entry>");
    reveal_strlit("</entry>");
    reveal_strlit("</title>");
    reveal_strlit("</summary>");
    starts_apart(at, "<entry>"@, 0);
    starts_apart(at, "</entry>"@, 0);
    starts_apart(at, "<id>"@, 0);
    starts_apart(at, "<published>"@, 0);
    starts_apart(at, "<title>"@, 0);
    starts_apart(at, "<summary>"@, 0);
    starts_apart(at, "<name>"@, 0);
    starts_apart(at, "</title>"@, 0);
    starts_apart(at, "</summary>"@, 0);
    holds_no_tag(at, "title"@);
    holds_no_tag(at, "summary"@);
}

proof fn holds_no_tag(line: Seq<char>, tag: Seq<char>)
    requires
        forall|i: int| 0 <= i < line.len() ==> #[trigger] line[i] != '<',
    ensures
        !contains(line, end_tag(tag)),
{
    reveal_strlit("</");
    reveal_strlit(">");
    let pat = end_tag(tag);
    find_is_first(line, pat, 0);
    assert forall|j: int| 0 <= j implies !occurs_at(line, pat, j) by {
        if occurs_at(line, pat, j) {
            assert(line.subrange(j, j + pat.len())[0] == line[j]);
            assert(pat[0] == '<');
        }
    }
}

/// The end of an entry gives its paper, behind those of the entries before it.
pub proof fn entry_gives_its_paper(all: Seq<Seq<char>>, line: Seq<char>)
    requires
        after_lines(all).in_entry,
        trim(line) == "</entry>"@,
    ensures
        ({
            let before = after_lines(all);
            let after = after_lines(all.push(line));
            after.papers == before.papers.push(before.current) && !after.in_entry
        }),
{
    one_line_more(all, line);
    reveal_strlit("<entry>");
    reveal_strlit("</entry>");
    assert("</entry>"@.subrange(0, "</entry>"@.len() as int) =~= "</entry>"@);
    starts_apart(trim(line), "<entry>"@, 1);
}

/// What stands outside of every entry is passed over.
pub proof fn other_lines_are_passed_over(all: Seq<Seq<char>>, line: Seq<char>)
    requires
        !after_lines(all).in_entry,
        !occurs_at(trim(line), "<entry>"@, 0),
    ensures
        after_lines(all.push(line)) == after_lines(all),
{
    one_line_more(all, line);
}

/// Whether an entry tells of a paper: its title, its authors, its day, its address and its
/// summary.
pub open spec fn tells_of_paper(entry: Seq<char>, p: PaperView) -> bool {
    &&& contains(entry, "**"@ + trim(p.title) + "**\nAuthors: "@ + join(p.authors, ", "@))
    &&& contains(entry, "\nDate: "@ + prefix_within(p.published, 10))
    &&& contains(entry, "\nLink: "@ + trim(p.id))
    &&& byte_len(p.summary) <= 300 ==> contains(entry, "\nAbstract: "@ + trim(p.summary))
}

proof fn paper_is_told(p: PaperView)
    ensures
        tells_of_paper(paper_entry(p), p),
{
    broadcast use group_contained;

    let head = "**"@ + trim(p.title) + "**\nAuthors: "@ + join(p.authors, ", "@);
    assert(contains(head, head));
}

/// Every paper of a feed is reported, in the order of the feed, by its own title, authors, day,
/// address and summary; and how many they are.
pub proof fn papers_are_reported(args: JsonView, feed: Seq<char>)
    requires
        args.at("query"@) is Text,
        papers_in(feed).len() > 0,
    ensures
        ({
            let told = report_of(Tool::ArxivSearch, args, ReplyView::Text(feed));
            let papers = papers_in(feed);
            &&& told is Ok
            &&& exists|head: Seq<char>, entries: Seq<Seq<char>>|
                {
                    &&& #[trigger] lists_behind(told->Ok_0, head, entries, "\n---\n"@)
                    &&& contains(head, "Found "@ + decimal(papers.len()))
                    &&& entries.len() == papers.len()
                    &&& forall|i: int|
                        0 <= i < papers.len() ==> tells_of_paper(#[trigger] entries[i], papers[i])
                }
        }),
{
    broadcast use group_contained;

    let told = report_of(Tool::ArxivSearch, args, ReplyView::Text(feed));
    let papers = papers_in(feed);
    let entries = papers.map_values(|p: PaperView| paper_entry(p));
    let count = "Found "@ + decimal(papers.len());
    let head = count + " papers:\n\n"@;
    assert(contains(count, count));
    assert(contains(head, count));
    assert(told->Ok_0 == head + join(entries, "\n---\n"@));
    assert(lists_behind(told->Ok_0, head, entries, "\n---\n"@));
    assert forall|i: int| 0 <= i < papers.len() implies tells_of_paper(
        #[trigger] entries[i],
        papers[i],
    ) by {
        paper_is_told(papers[i]);
    }
}

// ─── Scholar ────────────────────────────────────────────────────────────────

/// Whether an entry tells of a paper that a search has found: its title and year, its authors,
/// how often it is cited, its identifier, its address and its short summary.
pub open spec fn tells_of_found(entry: Seq<char>, paper: JsonView) -> bool {
    &&& contains(entry, "**"@ + paper.at("title"@).text_or("Untitled"@))
    &&& paper.at("year"@) matches JsonView::Natural(year) ==> contains(
        entry,
        "** ("@ + decimal(year as nat),
    )
    &&& paper.at("authors"@) matches JsonView::List(authors) ==> contains(
        entry,
        ")\nAuthors: "@ + join(texts_at(authors, "name"@), ", "@),
    )
    &&& contains(
        entry,
        "\nCitations: "@ + (decimal(paper.at("citationCount"@).natural_or(0) as nat) + " ("@
            + decimal(paper.at("influentialCitationCount"@).natural_or(0) as nat)
            + " influential)"@),
    )
    &&& contains(entry, "\nID: "@ + paper.at("paperId"@).text_or(""@))
    &&& paper.at("externalIds"@).at("ArXiv"@) matches JsonView::Text(id) ==> contains(
        entry,
        "\narXiv: https://arxiv.org/abs/"@ + id,
    )
    &&& paper.at("tldr"@).at("text"@) matches JsonView::Text(t) ==> (t.len() > 0 ==> contains(
        entry,
        "\nTL;DR: "@ + t,
    ))
}

proof fn found_is_told(paper: JsonView)
    ensures
        tells_of_found(scholar_entry(paper), paper),
{
    broadcast use group_contained;

    let head = "**"@ + paper.at("title"@).text_or("Untitled"@);
    assert(contains(head, head));
}

/// Every paper that a search has found is reported, in the order of the answer, each with its own
/// members; and how many they are.
pub proof fn found_papers_are_reported(args: JsonView, resp: JsonView, papers: Seq<JsonView>)
    requires
        args.at("query"@) is Text,
        resp.at("data"@) == JsonView::List(papers),
        papers.len() > 0,
    ensures
        ({
            let told = report_of(Tool::SemanticScholar, args, ReplyView::Json(resp));
            &&& told is Ok
            &&& exists|head: Seq<char>, entries: Seq<Seq<char>>|
                {
                    &&& #[trigger] lists_behind(told->Ok_0, head, entries, "\n\n---\n\n"@)
                    &&& contains(head, "Found "@ + decimal(papers.len()))
                    &&& entries.len() == papers.len()
                    &&& forall|i: int|
                        0 <= i < papers.len() ==> tells_of_found(#[trigger] entries[i], papers[i])
                }
        }),
{
    broadcast use group_contained;

    let told = report_of(Tool::SemanticScholar, args, ReplyView::Json(resp));
    let entries = Seq::new(papers.len(), |i: int| scholar_entry(papers[i]));
    let count = "Found "@ + decimal(papers.len());
    let head = count + " papers:\n\n"@;
    assert(contains(count, count));
    assert(contains(head, count));
    assert(told->Ok_0 == head + join(entries, "\n\n---\n\n"@));
    assert(lists_behind(told->Ok_0, head, entries, "\n\n---\n\n"@));
    assert forall|i: int| 0 <= i < papers.len() implies tells_of_found(
        #[trigger] entries[i],
        papers[i],
    ) by {
        found_is_told(papers[i]);
    }
}

/// The report on a paper tells each of its members under its own label.
pub proof fn paper_is_reported(args: JsonView, resp: JsonView)
    requires
        args.at("paper_id"@) is Text,
        resp.get("error"@) is None,
    ensures
        report_of(Tool::SemanticScholarPaper, args, ReplyView::Json(resp)) matches Ok(report) && {
            &&& contains(report, "**"@ + resp.at("title"@).text_or("Untitled"@))
            &&& resp.at("year"@) matches JsonView::Natural(year) ==> contains(
                report,
                "** ("@ + decimal(year as nat),
            )
            &&& contains(report, ")\nVenue: "@ + resp.at("venue"@).text_or(""@))
            &&& resp.at("authors"@) matches JsonView::List(authors) ==> contains(
                report,
                "\nAuthors: "@ + join(texts_at(authors, "name"@), ", "@),
            )
            &&& contains(
                report,
                "\nCitations: "@ + (decimal(resp.at("citationCount"@).natural_or(0) as nat) + " ("@
                    + decimal(resp.at("influentialCitationCount"@).natural_or(0) as nat)
                    + " influential)"@),
            )
            &&& resp.at("tldr"@).at("text"@) matches JsonView::Text(t) ==> (t.len() > 0 ==> contains(
                report,
                "\n\nTL;DR: "@ + t,
            ))
            &&& contains(
                report,
                "\n\nAbstract:\n"@ + resp.at("abstract"@).text_or("No abstract available."@),
            )
        },
{
    broadcast use group_contained;

    let title = "**"@ + resp.at("title"@).text_or("Untitled"@);
    let head = title + "** ("@ + year_of(resp) + ")\nVenue: "@ + resp.at("venue"@).text_or(""@)
        + "\nAuthors: "@ + authors_of(resp) + "\nCitations: "@ + citations_of(resp);
    assert(contains(title, title));
    assert(contains(head, title));
}

/// A reference with a title is reported, with its own title and year, where it is one of the
/// first ten.
pub proof fn references_are_reported(
    args: JsonView,
    resp: JsonView,
    references: Seq<JsonView>,
    i: int,
    title: Seq<char>,
)
    requires
        args.at("paper_id"@) is Text,
        resp.get("error"@) is None,
        resp.at("references"@) == JsonView::List(references),
        0 <= i < references.len(),
        i < 10,
        references[i].at("title"@) == JsonView::Text(title),
    ensures
        report_of(Tool::SemanticScholarPaper, args, ReplyView::Json(resp)) matches Ok(report) && {
            &&& contains(report, "  - "@ + title)
            &&& references[i].at("year"@) matches JsonView::Natural(year) ==> contains(
                report,
                "  - "@ + title + (" ("@ + decimal(year as nat) + ")"@),
            )
        },
{
    broadcast use group_contained;

    let lines = reference_lines(key_references(resp));
    assert(key_references(resp)[i] == references[i]);
    let k = reference_place(key_references(resp), i);
    joined_parts_stand(lines, "\n"@, k);
    let line = reference_line(references[i])->0;
    let list = join(lines, "\n"@);
    assert(contains(list, line));
    let start = "  - "@ + title;
    assert(contains(start, start));
    assert(contains(line, start));
    contained_in_part(list, line, start);
}

proof fn reference_place(references: Seq<JsonView>, i: int) -> (k: int)
    requires
        0 <= i < references.len(),
        reference_line(references[i]) is Some,
    ensures
        0 <= k < reference_lines(references).len(),
        reference_lines(references)[k] == reference_line(references[i])->0,
    decreases references.len(),
{
    if i < references.len() - 1 {
        let k = reference_place(references.drop_last(), i);
        assert(references.drop_last()[i] == references[i]);
        k
    } else {
        reference_lines(references).len() - 1
    }
}

proof fn contained_in_part(s: Seq<char>, part: Seq<char>, pat: Seq<char>)
    requires
        contains(s, part),
        contains(part, pat),
    ensures
        contains(s, pat),
{
    find_is_first(s, part, 0);
    find_is_first(part, pat, 0);
    find_is_first(s, pat, 0);
    let i = find_from(s, part, 0)->0;
    let j = find_from(part, pat, 0)->0;
    assert(s.subrange(i + j, i + j + pat.len()) =~= s.subrange(i, i + part.len()).subrange(
        j,
        j + pat.len(),
    ));
    assert(occurs_at(s, pat, i + j));
}

/// An article is reported by its title, what it says and its address; where there is none, the
/// topic is named.
pub proof fn article_is_reported(args: JsonView, topic: Seq<char>, resp: JsonView)
    requires
        args.at("topic"@) == JsonView::Text(topic),
    ensures
        resp.at("type"@) == JsonView::Text(
            "https://mediawiki.org/wiki/HyperSwitch/errors/not_found"@,
        ) ==> (report_of(Tool::WikipediaSummary, args, ReplyView::Json(resp)) matches Ok(report)
            && contains(report, "No Wikipedia article found for '"@ + topic)),
        resp.at("type"@) != JsonView::Text(
            "https://mediawiki.org/wiki/HyperSwitch/errors/not_found"@,
        ) ==> (report_of(Tool::WikipediaSummary, args, ReplyView::Json(resp)) matches Ok(report) && {
            &&& contains(report, "**"@ + resp.at("title"@).text_or(topic))
            &&& contains(report, "**\n\n"@ + resp.at("extract"@).text_or("No summary available."@))
            &&& contains(
                report,
                "\n\nSource: "@ + resp.at("content_urls"@).at("desktop"@).at("page"@).text_or(""@),
            )
        }),
{
    broadcast use group_contained;

    let missing = "No Wikipedia article found for '"@ + topic;
    let title = "**"@ + resp.at("title"@).text_or(topic);
    assert(contains(missing, missing));
    assert(contains(title, title));
}

// ─── Calls ──────────────────────────────────────────────────────────────────

/// Whether a call by `name` does the work of `tool`: it fetches what the tool reads, and tells what
/// the tool reports of the first reply, or what went wrong.
pub open spec fn does_the_work_of(
    name: Seq<char>,
    tool: Tool,
    args: JsonView,
    reply: ReplyView,
) -> bool {
    let asked = dispatched(name, Ok(args), Seq::empty());
    let told = dispatched(name, Ok(args), seq![reply]);
    match request_for(tool, args) {
        Err(e) => asked == StepView::Done("Error: "@ + e) && told == asked,
        Ok(r) => {
            &&& asked == StepView::Fetch(r)
            &&& match report_of(tool, args, reply) {
                Ok(report) => told == StepView::Done(report),
                Err(e) => told == StepView::Done("Error: "@ + e),
            }
        },
    }
}

proof fn names_differ()
    ensures
        "semantic_scholar"@ != "arxiv_search"@,
        "semantic_scholar_paper"@ != "arxiv_search"@,
        "semantic_scholar_paper"@ != "semantic_scholar"@,
        "wikipedia_summary"@ != "arxiv_search"@,
        "wikipedia_summary"@ != "semantic_scholar"@,
        "wikipedia_summary"@ != "semantic_scholar_paper"@,
{
    reveal_strlit("arxiv_search");
    reveal_strlit("semantic_scholar");
    reveal_strlit("semantic_scholar_paper");
    reveal_strlit("wikipedia_summary");
    assert("semantic_scholar"@.len() != "arxiv_search"@.len());
    assert("semantic_scholar_paper"@.len() != "arxiv_search"@.len());
    assert("semantic_scholar_paper"@.len() != "semantic_scholar"@.len());
    assert("wikipedia_summary"@.len() != "arxiv_search"@.len());
    assert("wikipedia_summary"@.len() != "semantic_scholar"@.len());
    assert("wikipedia_summary"@.len() != "semantic_scholar_paper"@.len());
}

/// Each tool does its own work where it is called by its name.
pub proof fn tools_are_called_by_name(args: JsonView, reply: ReplyView)
    ensures
        does_the_work_of("arxiv_search"@, Tool::ArxivSearch, args, reply),
        does_the_work_of("semantic_scholar"@, Tool::SemanticScholar, args, reply),
        does_the_work_of("semantic_scholar_paper"@, Tool::SemanticScholarPaper, args, reply),
        does_the_work_of("wikipedia_summary"@, Tool::WikipediaSummary, args, reply),
{
    names_differ();
    assert(seq![reply][0] == reply);
}

/// Arguments that cannot be read are told of, and so is a tool that is not known.
pub proof fn unusable_call_is_explained(name: Seq<char>, e: Seq<char>, replies: Seq<ReplyView>)
    requires
        name != "arxiv_search"@,
        name != "semantic_scholar"@,
        name != "semantic_scholar_paper"@,
        name != "wikipedia_summary"@,
    ensures
        forall|args: Result<JsonView, Seq<char>>| #[trigger]
            dispatched(name, args, replies) == StepView::Done("Error: "@ + ("Unknown tool: "@ + name)),
        dispatched("arxiv_search"@, Err(e), replies) == StepView::Done("Error: "@ + e),
        dispatched("semantic_scholar"@, Err(e), replies) == StepView::Done("Error: "@ + e),
        dispatched("semantic_scholar_paper"@, Err(e), replies) == StepView::Done("Error: "@ + e),
        dispatched("wikipedia_summary"@, Err(e), replies) == StepView::Done("Error: "@ + e),
{
    assert(forall|args: Result<JsonView, Seq<char>>| #[trigger]
        dispatched(name, args, replies) == StepView::Done("Error: "@ + ("Unknown tool: "@ + name)));
}

// ─── Empty and unusable answers ─────────────────────────────────────────────

/// Where nothing is found, what was searched for is named; an answer without a list is an error,
/// and a paper that is not there is told of with the error.
pub proof fn nothing_found_is_told(
    args: JsonView,
    query: Seq<char>,
    feed: Seq<char>,
    resp: JsonView,
    error: JsonView,
)
    ensures
        args.at("query"@) == JsonView::Text(query) && papers_in(feed).len() == 0 ==> report_of(
            Tool::ArxivSearch,
            args,
            ReplyView::Text(feed),
        ) == Ok::<Seq<char>, Seq<char>>("No arXiv papers found for '"@ + query + "'."@),
        args.at("query"@) == JsonView::Text(query) && resp.at("data"@) == JsonView::List(
            Seq::empty(),
        ) ==> report_of(Tool::SemanticScholar, args, ReplyView::Json(resp)) == Ok::<
            Seq<char>,
            Seq<char>,
        >("No papers found for '"@ + query + "'."@),
        args.at("query"@) is Text && resp.at("data"@) !is List ==> report_of(
            Tool::SemanticScholar,
            args,
            ReplyView::Json(resp),
        ) == Err::<Seq<char>, Seq<char>>("no results"@),
        args.at("paper_id"@) is Text && resp.get("error"@) == Some(error) ==> report_of(
            Tool::SemanticScholarPaper,
            args,
            ReplyView::Json(resp),
        ) == Err::<Seq<char>, Seq<char>>("Paper not found: "@ + notation(error)),
{
    assert(Seq::<JsonView>::empty().len() == 0);
}

/// A feed can be reported on where the summaries and the dates that are cut have characters of one
/// byte each.
pub proof fn plain_papers_can_be_cut(papers: Seq<PaperView>)
    requires
        forall|i: int|
            0 <= i < papers.len() ==> all_ascii((#[trigger] papers[i]).summary) && all_ascii(
                papers[i].published,
            ),
    ensures
        papers_cut(papers),
{
    assert forall|s: Seq<char>, n: nat| all_ascii(s) implies #[trigger] cuts_cleanly(s, n) by {
        text_can_be_cut(s, n);
    }
}

/// A paper cannot be reported on if and only if its summary or its date would be cut within a
/// character.
pub proof fn cut_within_a_character_is_seen(p: PaperView)
    ensures
        papers_cut(seq![p]) <==> {
            &&& byte_len(p.summary) > 300 ==> byte_len(prefix_within(p.summary, 300)) == 300
            &&& byte_len(p.published) > 10 ==> byte_len(prefix_within(p.published, 10)) == 10
        },
{
    assert(seq![p][0] == p);
}

/// Of a long summary the first three hundred bytes are reported, with a mark behind them.
pub proof fn long_summary_is_cut(p: PaperView)
    requires
        byte_len(p.summary) > 300,
    ensures
        contains(
            paper_entry(p),
            "\nAbstract: "@ + trim(prefix_within(p.summary, 300) + "..."@),
        ),
{
    broadcast use group_contained;

}

/// Only a feed is cut, and only once it is there.
pub proof fn other_answers_need_no_cut(tool: Tool, reply: ReplyView, feed: Seq<char>)
    ensures
        reply_cuts(tool, Seq::empty()),
        tool != Tool::ArxivSearch ==> reply_cuts(tool, seq![reply]),
        reply_cuts(Tool::ArxivSearch, seq![ReplyView::Text(feed)]) <==> papers_cut(papers_in(feed)),
{
}

} // verus!
