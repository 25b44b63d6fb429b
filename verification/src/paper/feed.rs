//! The arXiv feed: an Atom document, read line by line.

use vstd::prelude::*;

use crate::text::lines::{lines, lines_of, trim, trim_text};
use crate::text::search::{
    contains, find, find_chars, find_from, find_is_first, occurs_at, starts_with, starts_with_text,
};
use crate::text::width::{can_cut, cuts_cleanly, prefix_within, shorten, shortened, safe_truncate};
use crate::text::{chars, join, join_texts, slice, text, views};

verus! {

/// The element of an entry whose text may go on over several lines.
#[derive(Debug, Clone, Copy, PartialEq, Eq, Structural)]
pub enum Open {
    Nothing,
    Title,
    Summary,
}

/// One paper of the feed.
#[derive(Debug)]
pub struct Paper {
    pub title: String,
    pub authors: Vec<String>,
    pub published: String,
    pub id: String,
    pub summary: String,
}

/// What a paper of the feed holds.
#[verifier::ext_equal]
pub struct PaperView {
    pub title: Seq<char>,
    pub authors: Seq<Seq<char>>,
    pub published: Seq<char>,
    pub id: Seq<char>,
    pub summary: Seq<char>,
}

impl View for Paper {
    type V = PaperView;

    open spec fn view(&self) -> PaperView {
        PaperView {
            title: self.title@,
            authors: views(self.authors@),
            published: self.published@,
            id: self.id@,
            summary: self.summary@,
        }
    }
}

/// The views of papers.
pub open spec fn paper_views(papers: Seq<Paper>) -> Seq<PaperView> {
    papers.map_values(|paper: Paper| paper@)
}

/// A paper of which nothing is known yet.
pub open spec fn blank_paper() -> PaperView {
    PaperView {
        title: Seq::empty(),
        authors: Seq::empty(),
        published: Seq::empty(),
        id: Seq::empty(),
        summary: Seq::empty(),
    }
}

/// How far a feed has been read.
pub struct Reader {
    pub papers: Vec<Paper>,
    pub in_entry: bool,
    pub current: Paper,
    pub open: Open,
}

/// What a reader holds.
#[verifier::ext_equal]
pub struct ReaderView {
    pub papers: Seq<PaperView>,
    pub in_entry: bool,
    pub current: PaperView,
    pub open: Open,
}

impl View for Reader {
    type V = ReaderView;

    open spec fn view(&self) -> ReaderView {
        ReaderView {
            papers: paper_views(self.papers@),
            in_entry: self.in_entry,
            current: self.current@,
            open: self.open,
        }
    }
}

/// The text in an element on a line: up to its end, or up to the end of the line. Empty where the
/// element does not begin there.
pub open spec fn tag_content(line: Seq<char>, tag: Seq<char>) -> Seq<char> {
    let begin = "<"@ + tag + ">"@;
    let end = "</"@ + tag + ">"@;
    match find(line, begin) {
        Some(i) => match find_from(line, end, i + begin.len()) {
            Some(j) => line.subrange(i + begin.len(), j),
            None => line.skip(i + begin.len()),
        },
        None => Seq::empty(),
    }
}

/// The text in an element on a line.
pub fn extract_tag_content(line: &str, tag: &str) -> (r: String)
    ensures
        r@ == tag_content(line@, tag@),
{
    let mut begin = text("<");
    begin.append(tag);
    begin.append(">");
    let mut end = text("</");
    end.append(tag);
    end.append(">");
    let c = chars(line);
    let b = chars(begin.as_str());
    match find_chars(&c, &b, 0) {
        Some(i) => {
            let from: usize = i + b.len();
            let e = chars(end.as_str());
            match find_chars(&c, &e, from) {
                Some(j) => slice(&c, from, j),
                None => {
                    assert(c@.subrange(from as int, c@.len() as int) =~= line@.skip(from as int));
                    slice(&c, from, c.len())
                },
            }
        },
        None => String::new(),
    }
}

/// The tag that an element ends with.
pub open spec fn end_tag(tag: Seq<char>) -> Seq<char> {
    "</"@ + tag + ">"@
}

/// The element that is open after a line on which `tag` is: none where it ends there.
pub open spec fn open_after(line: Seq<char>, tag: Seq<char>, open: Open) -> Open {
    if contains(line, end_tag(tag)) {
        Open::Nothing
    } else {
        open
    }
}

/// What a line adds to an element that was open before it: all of it, or what stands in front of
/// the end of the element.
pub open spec fn rest_of(line: Seq<char>, tag: Seq<char>) -> Seq<char> {
    match find(line, end_tag(tag)) {
        Some(i) => line.take(i),
        None => line,
    }
}

/// A paper after one more line of its entry, and the element that is open after it. A title or a
/// summary that does not end on its line goes on over the next lines, up to its end.
pub open spec fn entry_line(paper: PaperView, open: Open, line: Seq<char>) -> (PaperView, Open) {
    if starts_with(line, "<id>"@) {
        (PaperView { id: tag_content(line, "id"@), ..paper }, open)
    } else if starts_with(line, "<published>"@) {
        (PaperView { published: tag_content(line, "published"@), ..paper }, open)
    } else if starts_with(line, "<title>"@) {
        (
            PaperView { title: tag_content(line, "title"@), ..paper },
            open_after(line, "title"@, Open::Title),
        )
    } else if starts_with(line, "<summary>"@) {
        (
            PaperView { summary: tag_content(line, "summary"@), ..paper },
            open_after(line, "summary"@, Open::Summary),
        )
    } else if starts_with(line, "<name>"@) {
        (PaperView { authors: paper.authors.push(tag_content(line, "name"@)), ..paper }, open)
    } else if starts_with(line, "</title>"@) || starts_with(line, "</summary>"@) {
        (paper, Open::Nothing)
    } else {
        match open {
            Open::Title => (
                PaperView { title: paper.title + " "@ + rest_of(line, "title"@), ..paper },
                open_after(line, "title"@, open),
            ),
            Open::Summary => (
                PaperView { summary: paper.summary + " "@ + rest_of(line, "summary"@), ..paper },
                open_after(line, "summary"@, open),
            ),
            Open::Nothing => (paper, open),
        }
    }
}

/// A reader after one more line, which has no white space around it.
pub open spec fn after_line(r: ReaderView, line: Seq<char>) -> ReaderView {
    if starts_with(line, "<entry>"@) {
        ReaderView { in_entry: true, current: blank_paper(), open: Open::Nothing, ..r }
    } else if r.in_entry {
        if starts_with(line, "</entry>"@) {
            ReaderView { papers: r.papers.push(r.current), in_entry: false, ..r }
        } else {
            let (current, open) = entry_line(r.current, r.open, line);
            ReaderView { current, open, ..r }
        }
    } else {
        r
    }
}

/// A reader that has read nothing.
pub open spec fn fresh() -> ReaderView {
    ReaderView {
        papers: Seq::empty(),
        in_entry: false,
        current: blank_paper(),
        open: Open::Nothing,
    }
}

/// A reader after some lines.
pub open spec fn after_lines(all: Seq<Seq<char>>) -> ReaderView
    decreases all.len(),
{
    if all.len() == 0 {
        fresh()
    } else {
        after_line(after_lines(all.drop_last()), trim(all.last()))
    }
}

/// The papers of a feed.
pub open spec fn papers_in(feed: Seq<char>) -> Seq<PaperView> {
    after_lines(lines(feed)).papers
}

/// A paper of which nothing is known yet.
fn no_paper() -> (r: Paper)
    ensures
        r@ == blank_paper(),
{
    let r = Paper {
        title: String::new(),
        authors: Vec::new(),
        published: String::new(),
        id: String::new(),
        summary: String::new(),
    };
    assert(r@ =~= blank_paper());
    r
}

/// A copy of a paper.
fn copy_paper(paper: &Paper) -> (r: Paper)
    ensures
        r@ == paper@,
{
    let mut authors: Vec<String> = Vec::new();
    let mut i: usize = 0;
    while i < paper.authors.len()
        invariant
            i <= paper.authors@.len(),
            views(authors@) == views(paper.authors@).take(i as int),
        decreases paper.authors@.len() - i,
    {
        let ghost before = views(authors@);
        authors.push(text(paper.authors[i].as_str()));
        assert(views(authors@) =~= before.push(paper.authors@[i as int]@));
        i += 1;
        assert(views(authors@) =~= views(paper.authors@).take(i as int));
    }
    assert(views(paper.authors@).take(i as int) =~= views(paper.authors@));
    Paper {
        title: text(paper.title.as_str()),
        authors,
        published: text(paper.published.as_str()),
        id: text(paper.id.as_str()),
        summary: text(paper.summary.as_str()),
    }
}

/// What a line adds to an element that was open before it, and the element that is open after it.
fn take_rest(line: &str, tag: &str, open: Open) -> (r: (String, Open))
    ensures
        r.0@ == rest_of(line@, tag@),
        r.1 == open_after(line@, tag@, open),
{
    let mut end = text("</");
    end.append(tag);
    end.append(">");
    let c = chars(line);
    let e = chars(end.as_str());
    match find_chars(&c, &e, 0) {
        Some(i) => {
            assert(c@.subrange(0, i as int) =~= line@.take(i as int));
            (slice(&c, 0, i), Open::Nothing)
        },
        None => (text(line), open),
    }
}

/// Takes in one more line of an entry.
fn take_entry_line(paper: Paper, open: Open, line: &str) -> (r: (Paper, Open))
    ensures
        (r.0@, r.1) == entry_line(paper@, open, line@),
{
    let mut paper = paper;
    if starts_with_text(line, "<id>") {
        paper.id = extract_tag_content(line, "id");
        (paper, open)
    } else if starts_with_text(line, "<published>") {
        paper.published = extract_tag_content(line, "published");
        (paper, open)
    } else if starts_with_text(line, "<title>") {
        paper.title = extract_tag_content(line, "title");
        let (_, now) = take_rest(line, "title", Open::Title);
        (paper, now)
    } else if starts_with_text(line, "<summary>") {
        paper.summary = extract_tag_content(line, "summary");
        let (_, now) = take_rest(line, "summary", Open::Summary);
        (paper, now)
    } else if starts_with_text(line, "<name>") {
        let ghost before = views(paper.authors@);
        let name = extract_tag_content(line, "name");
        let ghost added = name@;
        paper.authors.push(name);
        assert(views(paper.authors@) =~= before.push(added));
        (paper, open)
    } else if starts_with_text(line, "</title>") || starts_with_text(line, "</summary>") {
        (paper, Open::Nothing)
    } else {
        match open {
            Open::Title => {
                let (more, now) = take_rest(line, "title", open);
                paper.title.append(" ");
                paper.title.append(more.as_str());
                (paper, now)
            },
            Open::Summary => {
                let (more, now) = take_rest(line, "summary", open);
                paper.summary.append(" ");
                paper.summary.append(more.as_str());
                (paper, now)
            },
            Open::Nothing => (paper, open),
        }
    }
}

/// Takes in one more line, which has no white space around it.
fn take_line(r: Reader, line: &str) -> (out: Reader)
    ensures
        out@ == after_line(r@, line@),
{
    if starts_with_text(line, "<entry>") {
        Reader { papers: r.papers, in_entry: true, current: no_paper(), open: Open::Nothing }
    } else if r.in_entry {
        if starts_with_text(line, "</entry>") {
            let ghost before = paper_views(r.papers@);
            let mut papers = r.papers;
            papers.push(copy_paper(&r.current));
            assert(paper_views(papers@) =~= before.push(r.current@));
            Reader { papers, in_entry: false, current: r.current, open: r.open }
        } else {
            let (current, open) = take_entry_line(r.current, r.open, line);
            Reader { papers: r.papers, in_entry: true, current, open }
        }
    } else {
        r
    }
}

/// The papers of a feed.
pub fn read_feed(feed: &str) -> (r: Vec<Paper>)
    ensures
        paper_views(r@) == papers_in(feed@),
{
    let all = lines_of(feed);
    let ghost every = lines(feed@);
    let papers: Vec<Paper> = Vec::new();
    assert(paper_views(papers@) =~= Seq::empty());
    let mut reader = Reader { papers, in_entry: false, current: no_paper(), open: Open::Nothing };
    let mut i: usize = 0;
    assert(every.take(0) =~= Seq::empty());
    while i < all.len()
        invariant
            i <= all@.len(),
            every == views(all@),
            reader@ == after_lines(every.take(i as int)),
        decreases all@.len() - i,
    {
        assert(every.take(i + 1).drop_last() =~= every.take(i as int));
        let line = trim_text(all[i].as_str());
        reader = take_line(reader, line.as_str());
        i += 1;
    }
    assert(every.take(i as int) =~= every);
    reader.papers
}

// ─── Reports ────────────────────────────────────────────────────────────────

/// What is shown of a paper: of its summary the first three hundred bytes, of its date the first
/// ten.
pub open spec fn paper_entry(p: PaperView) -> Seq<char> {
    "**"@ + trim(p.title) + "**\nAuthors: "@ + join(p.authors, ", "@) + "\nDate: "@ + prefix_within(
        p.published,
        10,
    ) + "\nLink: "@ + trim(p.id) + "\nAbstract: "@ + trim(shortened(p.summary, 300, "..."@))
        + "\n"@
}

/// Whether summary and date can be cut where they have to be.
pub open spec fn paper_cuts(p: PaperView) -> bool {
    cuts_cleanly(p.summary, 300) && cuts_cleanly(p.published, 10)
}

/// Whether every paper can be cut where it has to be.
pub open spec fn papers_cut(papers: Seq<PaperView>) -> bool {
    forall|i: int| 0 <= i < papers.len() ==> paper_cuts(#[trigger] papers[i])
}

/// What is shown of a paper.
pub fn show_paper(p: &Paper) -> (r: String)
    requires
        paper_cuts(p@),
    ensures
        r@ == paper_entry(p@),
{
    let mut out = text("**");
    let title = trim_text(p.title.as_str());
    out.append(title.as_str());
    out.append("**\nAuthors: ");
    let authors = join_texts(&p.authors, ", ");
    out.append(authors.as_str());
    out.append("\nDate: ");
    let date = safe_truncate(p.published.as_str(), 10);
    out.append(date.as_str());
    out.append("\nLink: ");
    let id = trim_text(p.id.as_str());
    out.append(id.as_str());
    out.append("\nAbstract: ");
    let summary = shorten(p.summary.as_str(), 300, "...");
    let trimmed = trim_text(summary.as_str());
    out.append(trimmed.as_str());
    out.append("\n");
    out
}

/// Whether every paper can be cut where it has to be.
pub fn can_cut_papers(papers: &Vec<Paper>) -> (r: bool)
    ensures
        r == papers_cut(paper_views(papers@)),
{
    let ghost all = paper_views(papers@);
    let mut i: usize = 0;
    while i < papers.len()
        invariant
            i <= papers@.len(),
            all == paper_views(papers@),
            forall|j: int| 0 <= j < i ==> paper_cuts(#[trigger] all[j]),
        decreases papers@.len() - i,
    {
        assert(all[i as int] == papers@[i as int]@);
        if !can_cut(papers[i].summary.as_str(), 300) || !can_cut(
            papers[i].published.as_str(),
            10,
        ) {
            assert(!paper_cuts(all[i as int]));
            return false;
        }
        i += 1;
    }
    true
}

/// How many lines close an entry.
pub open spec fn closings(all: Seq<Seq<char>>) -> nat
    decreases all.len(),
{
    if all.len() == 0 {
        0
    } else {
        closings(all.drop_last()) + if starts_with(trim(all.last()), "</entry>"@) {
            1nat
        } else {
            0nat
        }
    }
}

/// A paper is read for a closed entry only, and for each closed entry at most one.
pub proof fn papers_come_from_entries(all: Seq<Seq<char>>)
    ensures
        after_lines(all).papers.len() <= closings(all),
    decreases all.len(),
{
    if all.len() > 0 {
        papers_come_from_entries(all.drop_last());
    }
}

/// Once title and summary have ended, no other line of the entry adds to them.
pub proof fn ended_texts_stay(paper: PaperView, line: Seq<char>)
    requires
        !starts_with(line, "<title>"@),
        !starts_with(line, "<summary>"@),
    ensures
        ({
            let (after, open) = entry_line(paper, Open::Nothing, line);
            after.title == paper.title && after.summary == paper.summary && open == Open::Nothing
        }),
{
}

/// A title or a summary that ends on its own line is read whole there, and is open no more.
pub proof fn whole_texts_end(paper: PaperView, open: Open, line: Seq<char>)
    requires
        starts_with(line, "<title>"@) && contains(line, end_tag("title"@)) || starts_with(
            line,
            "<summary>"@,
        ) && contains(line, end_tag("summary"@)),
    ensures
        entry_line(paper, open, line).1 == Open::Nothing,
{
    reveal_strlit("<id>");
    reveal_strlit("<published>");
    reveal_strlit("<title>");
    reveal_strlit("<summary>");
    if starts_with(line, "<title>"@) {
        assert(line.subrange(0, 7)[1] == "<title>"@[1]);
    } else {
        assert(line.subrange(0, 9)[1] == "<summary>"@[1]);
    }
    if starts_with(line, "<id>"@) {
        assert(line.subrange(0, 4)[1] == "<id>"@[1]);
    }
    if starts_with(line, "<published>"@) {
        assert(line.subrange(0, 11)[1] == "<published>"@[1]);
    }
}

/// Whether title and summary hold their own text only, not the tag that they end with.
pub open spec fn unmarked(paper: PaperView) -> bool {
    !contains(paper.title, end_tag("title"@)) && !contains(paper.summary, end_tag("summary"@))
}

/// A part of a text holds nothing that the text does not hold.
proof fn part_holds_no_more(s: Seq<char>, i: int, j: int, pat: Seq<char>)
    requires
        0 <= i <= j <= s.len(),
        forall|k: int| i <= k && k + pat.len() <= j ==> !#[trigger] occurs_at(s, pat, k),
    ensures
        !contains(s.subrange(i, j), pat),
{
    let part = s.subrange(i, j);
    find_is_first(part, pat, 0);
    if contains(part, pat) {
        let k = find(part, pat)->0;
        assert(s.subrange(i + k, i + k + pat.len()) =~= part.subrange(k, k + pat.len()));
        assert(occurs_at(s, pat, i + k));
    }
}

/// A tag without a space in it does not come about where texts are joined with a space.
proof fn no_tag_across_a_space(a: Seq<char>, b: Seq<char>, pat: Seq<char>)
    requires
        !contains(a, pat),
        !contains(b, pat),
        forall|k: int| 0 <= k < pat.len() ==> #[trigger] pat[k] != ' ',
        pat.len() > 0,
    ensures
        !contains(a + " "@ + b, pat),
{
    reveal_strlit(" ");
    let s = a + " "@ + b;
    find_is_first(s, pat, 0);
    find_is_first(a, pat, 0);
    find_is_first(b, pat, 0);
    if contains(s, pat) {
        let k = find(s, pat)->0;
        let n = pat.len() as int;
        let m = a.len() as int;
        assert(s.subrange(k, k + n) == pat);
        if k + n <= m {
            assert(a.subrange(k, k + n) =~= s.subrange(k, k + n));
            assert(occurs_at(a, pat, k));
        } else if k > m {
            assert(b.subrange(k - m - 1, k - m - 1 + n) =~= s.subrange(k, k + n));
            assert(occurs_at(b, pat, k - m - 1));
        } else {
            assert(s.subrange(k, k + n)[m - k] == ' ');
        }
    }
}

proof fn content_is_unmarked(line: Seq<char>, tag: Seq<char>)
    ensures
        !contains(tag_content(line, tag), end_tag(tag)),
{
    reveal_strlit("</");
    reveal_strlit("<");
    reveal_strlit(">");
    let begin = "<"@ + tag + ">"@;
    let end = end_tag(tag);
    find_is_first(line, begin, 0);
    match find(line, begin) {
        Some(i) => {
            let from = i + begin.len();
            find_is_first(line, end, from);
            match find_from(line, end, from) {
                Some(j) => part_holds_no_more(line, from, j, end),
                None => {
                    part_holds_no_more(line, from, line.len() as int, end);
                    assert(line.subrange(from, line.len() as int) =~= line.skip(from));
                },
            }
        },
        None => {
            find_is_first(Seq::empty(), end, 0);
        },
    }
}

proof fn rest_is_unmarked(line: Seq<char>, tag: Seq<char>)
    ensures
        !contains(rest_of(line, tag), end_tag(tag)),
{
    reveal_strlit("</");
    let end = end_tag(tag);
    find_is_first(line, end, 0);
    match find(line, end) {
        Some(i) => {
            part_holds_no_more(line, 0, i, end);
            assert(line.subrange(0, i) =~= line.take(i));
        },
        None => {},
    }
}

proof fn entry_line_keeps_unmarked(paper: PaperView, open: Open, line: Seq<char>)
    requires
        unmarked(paper),
    ensures
        unmarked(entry_line(paper, open, line).0),
{
    reveal_strlit("</");
    reveal_strlit(">");
    reveal_strlit("title");
    reveal_strlit("summary");
    content_is_unmarked(line, "title"@);
    content_is_unmarked(line, "summary"@);
    rest_is_unmarked(line, "title"@);
    rest_is_unmarked(line, "summary"@);
    no_tag_across_a_space(paper.title, rest_of(line, "title"@), end_tag("title"@));
    no_tag_across_a_space(paper.summary, rest_of(line, "summary"@), end_tag("summary"@));
}

/// Titles and summaries are read without the tags that they end with.
pub proof fn texts_are_unmarked(all: Seq<Seq<char>>)
    ensures
        unmarked(after_lines(all).current),
        forall|i: int| 0 <= i < after_lines(all).papers.len() ==> unmarked(
            #[trigger] after_lines(all).papers[i],
        ),
    decreases all.len(),
{
    reveal_strlit("</");
    find_is_first(Seq::empty(), end_tag("title"@), 0);
    find_is_first(Seq::empty(), end_tag("summary"@), 0);
    if all.len() > 0 {
        texts_are_unmarked(all.drop_last());
        let before = after_lines(all.drop_last());
        entry_line_keeps_unmarked(before.current, before.open, trim(all.last()));
    }
}

} // verus!
