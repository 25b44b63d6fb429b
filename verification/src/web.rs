//! Reading a page of web search results.

use vstd::prelude::*;

use crate::text::laws::{matches_are_splits, text_between_is_found};
use crate::text::lines::{trim, trim_text};
use crate::text::search::{
    between, count_matches, extract_between, find, find_is_first, occurs_at, replace, replace_text,
    split, split_text,
};
use crate::text::views;

verus! {

/// One result of a web search.
#[derive(Debug)]
pub struct Hit {
    pub href: String,
    pub title: String,
    pub snippet: String,
}

/// What a result holds.
#[verifier::ext_equal]
pub struct HitView {
    pub href: Seq<char>,
    pub title: Seq<char>,
    pub snippet: Seq<char>,
}

impl View for Hit {
    type V = HitView;

    open spec fn view(&self) -> HitView {
        HitView { href: self.href@, title: self.title@, snippet: self.snippet@ }
    }
}

/// The views of a sequence of results.
pub open spec fn hit_views(hits: Seq<Hit>) -> Seq<HitView> {
    hits.map_values(|hit: Hit| hit@)
}

/// `s` without the tags that set text in bold.
pub open spec fn without_bold(s: Seq<char>) -> Seq<char> {
    replace(replace(s, "<b>"@, ""@), "</b>"@, ""@)
}

/// What stands in `chunk` between the marks, empty where they do not both stand there.
pub open spec fn inside(chunk: Seq<char>, start: Seq<char>, end: Seq<char>) -> Seq<char> {
    match between(chunk, start, end) {
        Some(s) => s,
        None => Seq::empty(),
    }
}

/// The result that a link and, where there is one, the snippet of the same rank make.
pub open spec fn hit_of(link: Seq<char>, snippet: Option<Seq<char>>) -> HitView {
    HitView {
        href: inside(link, "href=\""@, "\""@),
        title: without_bold(inside(link, ">"@, "</a>"@)),
        snippet: match snippet {
            Some(chunk) => trim(without_bold(inside(chunk, ">"@, "</a>"@))),
            None => Seq::empty(),
        },
    }
}

/// The results on a page, in order: what follows each link mark, with what follows the snippet
/// mark of the same rank.
pub open spec fn hits(page: Seq<char>) -> Seq<HitView> {
    let links = split(page, "class=\"result__a\""@);
    let snippets = split(page, "class=\"result__snippet\""@);
    Seq::new(
        (links.len() - 1) as nat,
        |i: int|
            hit_of(
                links[i + 1],
                if i + 1 < snippets.len() {
                    Some(snippets[i + 1])
                } else {
                    None
                },
            ),
    )
}

/// The address of a web search.
pub open spec fn search_url(query: Seq<char>) -> Seq<char> {
    "https://html.duckduckgo.com/html/?q="@ + crate::text::url::urlencoded(query)
}

/// What the search says it is.
pub open spec fn browser() -> Seq<char> {
    "Mozilla/5.0 (X11; Linux x86_64) AppleWebKit/537.36 (KHTML, like Gecko) Chrome/120.0.0.0 Safari/537.36"@
}

/// What the search says it is.
pub fn browser_name() -> (r: &'static str)
    ensures
        r@ == browser(),
{
    "Mozilla/5.0 (X11; Linux x86_64) AppleWebKit/537.36 (KHTML, like Gecko) Chrome/120.0.0.0 Safari/537.36"
}

/// The address of a web search.
pub fn address(query: &str) -> (r: String)
    ensures
        r@ == search_url(query@),
{
    let mut url = crate::text::text("https://html.duckduckgo.com/html/?q=");
    let encoded = crate::text::url::urlencode(query);
    url.append(encoded.as_str());
    url
}

/// `s` without the tags that set text in bold.
fn plain(s: &str) -> (r: String)
    ensures
        r@ == without_bold(s@),
{
    proof {
        reveal_strlit("<b>");
        reveal_strlit("</b>");
    }
    let once = replace_text(s, "<b>", "");
    replace_text(once.as_str(), "</b>", "")
}

/// What stands in `chunk` between the marks.
fn part(chunk: &str, start: &str, end: &str) -> (r: String)
    ensures
        r@ == inside(chunk@, start@, end@),
{
    match extract_between(chunk, start, end) {
        Some(s) => s,
        None => String::new(),
    }
}

/// The results on a page, in order.
pub fn read_hits(page: &str) -> (r: Vec<Hit>)
    ensures
        hit_views(r@) == hits(page@),
{
    proof {
        reveal_strlit("class=\"result__a\"");
        reveal_strlit("class=\"result__snippet\"");
    }
    let links = split_text(page, "class=\"result__a\"");
    let snippets = split_text(page, "class=\"result__snippet\"");
    let ghost all = split(page@, "class=\"result__a\""@);
    let ghost all_snippets = split(page@, "class=\"result__snippet\""@);
    let mut out: Vec<Hit> = Vec::new();
    let mut i: usize = 1;
    while i < links.len()
        invariant
            1 <= i <= links@.len(),
            views(links@) == all,
            views(snippets@) == all_snippets,
            all == split(page@, "class=\"result__a\""@),
            all_snippets == split(page@, "class=\"result__snippet\""@),
            hit_views(out@) == hits(page@).take(i - 1),
        decreases links@.len() - i,
    {
        let ghost before = hit_views(out@);
        assert(all[i as int] == links@[i as int]@);
        let link = links[i].as_str();
        let href = part(link, "href=\"", "\"");
        let raw_title = part(link, ">", "</a>");
        let title = plain(raw_title.as_str());
        let snippet = if i < snippets.len() {
            assert(all_snippets[i as int] == snippets@[i as int]@);
            let raw = part(snippets[i].as_str(), ">", "</a>");
            let unmarked = plain(raw.as_str());
            trim_text(unmarked.as_str())
        } else {
            String::new()
        };
        let hit = Hit { href, title, snippet };
        let ghost added = hit@;
        out.push(hit);
        assert(added =~= hits(page@)[i - 1]);
        assert(hit_views(out@) =~= before.push(added));
        i += 1;
        assert(hit_views(out@) =~= hits(page@).take(i - 1));
    }
    assert(hits(page@).take(i - 1) =~= hits(page@));
    out
}

// ─── Laws ───────────────────────────────────────────────────────────────────

/// Whether a text is free of a character.
pub open spec fn lacks(s: Seq<char>, c: char) -> bool {
    forall|i: int| 0 <= i < s.len() ==> #[trigger] s[i] != c
}

proof fn nothing_found(s: Seq<char>, pat: Seq<char>)
    requires
        pat.len() > 0,
        lacks(s, pat[0]),
    ensures
        find(s, pat) is None,
{
    find_is_first(s, pat, 0);
    assert forall|i: int| 0 <= i implies !occurs_at(s, pat, i) by {
        if occurs_at(s, pat, i) {
            assert(s.subrange(i, i + pat.len())[0] == s[i]);
        }
    }
}

proof fn plain_text_stays(s: Seq<char>)
    requires
        lacks(s, '<'),
    ensures
        without_bold(s) == s,
{
    reveal_strlit("<b>");
    reveal_strlit("</b>");
    nothing_found(s, "<b>"@);
    nothing_found(s, "</b>"@);
    assert(s.skip(0) =~= s);
}

/// A link as a page has it, behind the mark of a hit.
pub open spec fn link_written(href: Seq<char>, title: Seq<char>, rest: Seq<char>) -> Seq<char> {
    " href=\""@ + href + "\">"@ + title + "</a>"@ + rest
}

/// A snippet as a page has it, behind the mark of a snippet.
pub open spec fn snippet_written(text: Seq<char>, rest: Seq<char>) -> Seq<char> {
    ">"@ + text + "</a>"@ + rest
}

proof fn link_is_read(href: Seq<char>, title: Seq<char>, rest: Seq<char>)
    requires
        lacks(href, '"'),
        lacks(href, '>'),
        lacks(title, '<'),
    ensures
        inside(link_written(href, title, rest), "href=\""@, "\""@) == href,
        inside(link_written(href, title, rest), ">"@, "</a>"@) == title,
{
    reveal_strlit(" href=\"");
    reveal_strlit("href=\"");
    reveal_strlit("\">");
    reveal_strlit("\"");
    reveal_strlit(">");
    reveal_strlit(" ");
    reveal_strlit("</a>");
    let link = link_written(href, title, rest);
    let behind = ">"@ + title + "</a>"@ + rest;
    assert(link =~= " "@ + "href=\""@ + href + "\""@ + behind);
    assert forall|i: int| 0 <= i < " "@.len() implies !#[trigger] occurs_at(
        link,
        "href=\""@,
        i,
    ) by {
        if occurs_at(link, "href=\""@, i) {
            assert(link.subrange(i, i + "href=\""@.len())[0] == link[i]);
        }
    }
    let at = " "@.len() + "href=\""@.len();
    assert forall|i: int| at <= i < at + href.len() implies !#[trigger] occurs_at(
        link,
        "\""@,
        i,
    ) by {
        if occurs_at(link, "\""@, i) {
            assert(link.subrange(i, i + "\""@.len())[0] == link[i]);
            assert(link[i] == href[i - at]);
        }
    }
    text_between_is_found(" "@, "href=\""@, href, "\""@, behind);
    let before = " href=\""@ + href + "\""@;
    assert(link =~= before + ">"@ + title + "</a>"@ + rest);
    assert forall|i: int| 0 <= i < before.len() implies !#[trigger] occurs_at(link, ">"@, i) by {
        if occurs_at(link, ">"@, i) {
            assert(link.subrange(i, i + ">"@.len())[0] == link[i]);
            assert(link[i] == before[i]);
            if 7 <= i < 7 + href.len() {
                assert(before[i] == href[i - 7]);
            }
        }
    }
    title_ends(before, title, rest);
    text_between_is_found(before, ">"@, title, "</a>"@, rest);
}

proof fn title_ends(before: Seq<char>, title: Seq<char>, rest: Seq<char>)
    requires
        lacks(title, '<'),
    ensures
        forall|i: int|
            before.len() + ">"@.len() <= i < before.len() + ">"@.len() + title.len()
                ==> !#[trigger] occurs_at(before + ">"@ + title + "</a>"@ + rest, "</a>"@, i),
{
    reveal_strlit("</a>");
    let s = before + ">"@ + title + "</a>"@ + rest;
    let at = before.len() + ">"@.len();
    assert forall|i: int| at <= i < at + title.len() implies !#[trigger] occurs_at(
        s,
        "</a>"@,
        i,
    ) by {
        if occurs_at(s, "</a>"@, i) {
            assert(s.subrange(i, i + "</a>"@.len())[0] == s[i]);
            assert(s[i] == title[i - at]);
        }
    }
}

/// A hit has the address and the title of its own link, and the text of the snippet that stands in
/// the same place among the snippets.
pub proof fn hit_is_read_from_its_link(
    page: Seq<char>,
    i: int,
    href: Seq<char>,
    title: Seq<char>,
    text: Seq<char>,
    link_rest: Seq<char>,
    snippet_rest: Seq<char>,
)
    requires
        lacks(href, '"'),
        lacks(href, '>'),
        lacks(title, '<'),
        lacks(text, '<'),
        0 <= i,
        i + 1 < split(page, "class=\"result__a\""@).len(),
        split(page, "class=\"result__a\""@)[i + 1] == link_written(href, title, link_rest),
    ensures
        i < hits(page).len(),
        hits(page)[i].href == href,
        hits(page)[i].title == title,
        i + 1 < split(page, "class=\"result__snippet\""@).len() && split(
            page,
            "class=\"result__snippet\""@,
        )[i + 1] == snippet_written(text, snippet_rest) ==> hits(page)[i].snippet == trim(text),
        i + 1 >= split(page, "class=\"result__snippet\""@).len() ==> hits(page)[i].snippet.len()
            == 0,
{
    link_is_read(href, title, link_rest);
    plain_text_stays(title);
    plain_text_stays(text);
    let chunk = snippet_written(text, snippet_rest);
    title_ends(Seq::empty(), text, snippet_rest);
    assert(chunk =~= Seq::<char>::empty() + ">"@ + text + "</a>"@ + snippet_rest);
    text_between_is_found(Seq::empty(), ">"@, text, "</a>"@, snippet_rest);
}

/// There is one hit for each link, in the order of the page.
pub proof fn every_link_is_a_hit(page: Seq<char>)
    ensures
        hits(page).len() == count_matches(page, "class=\"result__a\""@),
{
    reveal_strlit("class=\"result__a\"");
    matches_are_splits(page, "class=\"result__a\""@);
}

} // verus!
