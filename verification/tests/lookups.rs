use nasiko_agents::devops;
use nasiko_agents::docs;
use nasiko_agents::finance;
use nasiko_agents::http::{refuse, Expect, Reply, Request, Step};
use nasiko_agents::json::serde::parse;
use nasiko_agents::legal;
use nasiko_agents::paper;

fn json(text: &str) -> Reply {
    Reply::Json(parse(text).unwrap())
}

fn page(text: &str) -> Reply {
    Reply::Text(text.to_string())
}

fn fetched(step: Step) -> Request {
    match step {
        Step::Fetch(r) => r,
        Step::Done(t) => panic!("a request is sent, not: {t}"),
    }
}

fn done(step: Step) -> String {
    match step {
        Step::Done(t) => t,
        Step::Fetch(r) => panic!("the call is over, not: {}", r.url),
    }
}

const RESULTS: &str = "<a class=\"result__a\" href=\"https://a.io\"> First <b>hit</b> </a>\
    <a class=\"result__snippet\" href=\"x\"> Some <b>words</b> </a>\
    <a class=\"result__a\" href=\"\">No link</a><a class=\"result__snippet\">s</a>\
    <a class=\"result__a\" href=\"https://c.io\">Third</a>";

// ─── Documentation ──────────────────────────────────────────────────────────

#[test]
fn crates_are_searched() {
    let args = "{\"query\":\"json parser\"}";
    let r = fetched(docs::tools::execute("crates_io", args, &vec![]));
    assert_eq!(r.url, "https://crates.io/api/v1/crates?q=json+parser&per_page=10&sort=downloads");
    assert_eq!(r.user_agent.as_deref(), Some("nasiko-docs-agent/1.0"));
    let reply = json("{\"crates\":[{\"id\":\"serde\",\"max_version\":\"1.0\",\"description\":\"d\",\"downloads\":5},{}]}");
    assert_eq!(
        done(docs::tools::execute("crates_io", args, &vec![reply])),
        "**serde** v1.0 (5 downloads)\n  d\n  docs: https://docs.rs/serde/1.0\n\n\
         **?** v? (0 downloads)\n  \n  docs: https://docs.rs/?/?"
    );
    let sorted = "{\"query\":\"x\",\"sort\":\"recent updates\"}";
    let r = fetched(docs::tools::execute("crates_io", sorted, &vec![]));
    assert_eq!(r.url, "https://crates.io/api/v1/crates?q=x&per_page=10&sort=recent+updates");
    let none = done(docs::tools::execute("crates_io", args, &vec![json("{\"crates\":[]}")]));
    assert_eq!(none, "No crates found for 'json parser'.");
    let odd = done(docs::tools::execute("crates_io", args, &vec![json("{}")]));
    assert_eq!(odd, "Error: no results");
}

#[test]
fn a_crate_is_looked_up_in_two_steps() {
    let args = "{\"name\":\"tokio\"}";
    let first = fetched(docs::tools::execute("crate_info", args, &vec![]));
    assert_eq!(first.url, "https://crates.io/api/v1/crates/tokio");
    let info = || {
        json(
            "{\"crate\":{\"max_version\":\"1.2\",\"description\":\"d\",\"repository\":\"r\",\"downloads\":9},\
              \"versions\":[{\"num\":\"1.1\",\"features\":{}},{\"num\":\"1.2\",\"features\":{\"rt\":[],\"fs\":[]}}]}",
        )
    };
    let second = fetched(docs::tools::execute("crate_info", args, &vec![info()]));
    assert_eq!(second.url, "https://crates.io/api/v1/crates/tokio/1.2/dependencies");
    let deps = json(
        "{\"dependencies\":[{\"kind\":\"normal\",\"crate_id\":\"mio\",\"req\":\"^1\"},\
          {\"kind\":\"dev\",\"crate_id\":\"loom\"},{\"kind\":\"normal\",\"optional\":true}]}",
    );
    assert_eq!(
        done(docs::tools::execute("crate_info", args, &vec![info(), deps])),
        "**tokio** v1.2\nd\n\nLatest: 1.2\nDownloads: 9\nRepository: r\n\
         Docs: https://docs.rs/tokio/1.2\n\nFeatures: fs, rt\n\nDependencies:\n  mio ^1\n  ? * (optional)"
    );
    let failed = Reply::Failed("offline".to_string());
    assert_eq!(
        done(docs::tools::execute("crate_info", "{\"name\":\"tokio\",\"version\":\"1.1\"}", &vec![info(), failed])),
        "**tokio** v1.1\nd\n\nLatest: 1.2\nDownloads: 9\nRepository: r\nDocs: https://docs.rs/tokio/1.1"
    );
}

#[test]
fn npm_packages_are_searched() {
    let args = "{\"query\":\"left pad\"}";
    let r = fetched(docs::tools::execute("npm_search", args, &vec![]));
    assert_eq!(r.url, "https://registry.npmjs.org/-/v1/search?text=left+pad&size=5");
    assert_eq!(r.user_agent, None);
    let reply = json("{\"objects\":[{\"package\":{\"name\":\"a\",\"version\":\"1\",\"description\":\"d\"}}]}");
    assert_eq!(
        done(docs::tools::execute("npm_search", args, &vec![reply])),
        "**a** v1\n  d\n  https://www.npmjs.com/package/a"
    );
    assert_eq!(
        done(docs::tools::execute("npm_search", args, &vec![json("{\"objects\":[]}")])),
        "No npm packages found for 'left pad'."
    );
}

#[test]
fn an_npm_package_is_shown() {
    let args = "{\"name\":\"a\"}";
    let r = fetched(docs::tools::execute("npm_package", args, &vec![]));
    assert_eq!(r.url, "https://registry.npmjs.org/a/latest");
    let r = fetched(docs::tools::execute("npm_package", "{\"name\":\"a\",\"version\":\"2\"}", &vec![]));
    assert_eq!(r.url, "https://registry.npmjs.org/a/2");
    let reply = json(
        "{\"version\":\"2\",\"description\":\"d\",\"repository\":{\"url\":\"u\"},\"homepage\":\"h\",\
          \"dependencies\":{\"y\":\"^1\",\"x\":3},\"readme\":\"hello\"}",
    );
    assert_eq!(
        done(docs::tools::execute("npm_package", args, &vec![reply])),
        "**a** v2\nd\n\nHomepage: h\nRepository: u\n\nDependencies (2):\n  x: *\n  y: ^1\n\n---\nREADME:\nhello"
    );
    assert_eq!(
        done(docs::tools::execute("npm_package", args, &vec![json("{\"error\":{\"code\":\"E404\"}}")])),
        "Error: Package not found: {\"code\":\"E404\"}"
    );
    let long = format!("{{\"readme\":\"{}\"}}", "r".repeat(2001));
    let shown = done(docs::tools::execute("npm_package", args, &vec![json(&long)]));
    assert!(shown.ends_with("rr...\n[truncated]"));
    let exact = format!("{{\"readme\":\"{}\"}}", "r".repeat(2000));
    let shown = done(docs::tools::execute("npm_package", args, &vec![json(&exact)]));
    assert!(shown.ends_with("rrr"));
    let wide = format!("{{\"readme\":\"{}ßß\"}}", "r".repeat(1999));
    assert!(!docs::tools::cuts("npm_package", &vec![json(&wide)]));
    assert!(docs::tools::cuts("npm_package", &vec![json(&exact)]));
}

#[test]
fn a_pypi_package_is_shown() {
    let args = "{\"name\":\"requests\"}";
    let r = fetched(docs::tools::execute("pypi_package", args, &vec![]));
    assert_eq!(r.url, "https://pypi.org/pypi/requests/json");
    let reply = json(
        "{\"info\":{\"version\":\"2\",\"summary\":\"s\",\"home_page\":\"h\",\"project_url\":\"p\",\
          \"license\":\"MIT\",\"requires_dist\":[\"a\",1,\"b\"],\"description\":\"long\"}}",
    );
    assert_eq!(
        done(docs::tools::execute("pypi_package", args, &vec![reply])),
        "**requests** v2\ns\n\nPython: any\nLicense: MIT\nHomepage: h\nPyPI: p\n\n\
         Dependencies:\n  a\n  b\n\n---\nDescription:\nlong"
    );
    assert_eq!(
        done(docs::tools::execute("pypi_package", args, &vec![json("{}")])),
        "**requests** v?\n\n\nPython: any\nLicense: ?\nHomepage: \nPyPI: "
    );
}

#[test]
fn a_readme_is_shown() {
    let args = "{\"repo\":\"a/b\"}";
    let r = fetched(docs::tools::execute("github_readme", args, &vec![]));
    assert_eq!(r.url, "https://raw.githubusercontent.com/a/b/HEAD/README.md");
    assert_eq!(done(docs::tools::execute("github_readme", args, &vec![page("# hi")])), "# hi");
    let long = "x".repeat(4001);
    let shown = done(docs::tools::execute("github_readme", args, &vec![page(&long)]));
    assert_eq!(
        shown,
        format!("{}...\n\n[truncated, full README at https://github.com/a/b]", "x".repeat(4000))
    );
    let refused = Reply::Refused("404 Not Found".to_string());
    assert_eq!(
        done(docs::tools::execute("github_readme", args, &vec![refused])),
        "Error: README not found for 'a/b' (HTTP 404 Not Found)"
    );
}

#[test]
fn only_texts_that_need_a_success_are_refused() {
    for code in [100, 199, 300, 404, 500] {
        match refuse(Expect::SuccessText, code, format!("{code} X")) {
            Some(Reply::Refused(line)) => assert_eq!(line, format!("{code} X")),
            _ => panic!("{code} is refused"),
        }
        for expect in [Expect::Json, Expect::Text, Expect::Probe] {
            assert!(refuse(expect, code, "X".to_string()).is_none());
        }
    }
    for code in [200, 204, 299] {
        assert!(refuse(Expect::SuccessText, code, "X".to_string()).is_none());
    }
}

#[test]
fn the_web_is_searched_for_documentation() {
    let args = "{\"query\":\"a b\"}";
    let r = fetched(docs::tools::execute("web_search", args, &vec![]));
    assert_eq!(r.url, "https://html.duckduckgo.com/html/?q=a+b");
    assert!(r.user_agent.unwrap().starts_with("Mozilla/5.0 (X11; Linux x86_64)"));
    assert_eq!(r.expect, Expect::SuccessText);
    assert_eq!(
        done(docs::tools::execute("web_search", args, &vec![page(RESULTS)])),
        "**First hit**\n  https://a.io\n  Some words\n\n**Third**\n  https://c.io"
    );
    assert_eq!(
        done(docs::tools::execute("web_search", args, &vec![page("nothing")])),
        "No web results found for 'a b'."
    );
    let refused = Reply::Refused("503 Service Unavailable".to_string());
    assert_eq!(
        done(docs::tools::execute("web_search", args, &vec![refused])),
        "Error: search failed (HTTP 503 Service Unavailable)"
    );
}

#[test]
fn at_most_five_results_are_shown() {
    let mut body = String::new();
    for i in 0..7 {
        body.push_str(&format!("<a class=\"result__a\" href=\"u{i}\">t{i}</a>"));
    }
    let args = "{\"query\":\"q\"}";
    let shown = done(docs::tools::execute("web_search", args, &vec![page(&body)]));
    assert_eq!(shown.matches("**t").count(), 5);
    assert!(shown.ends_with("**t4**\n  u4"));
}

#[test]
fn faults_are_told_to_the_model() {
    let args = "{\"query\":\"q\"}";
    let failed = Reply::Failed("dns".to_string());
    assert_eq!(
        done(docs::tools::execute("crates_io", args, &vec![failed])),
        "Error: request failed: dns"
    );
    let odd = Reply::Unreadable("eof".to_string());
    assert_eq!(
        done(docs::tools::execute("crates_io", args, &vec![odd])),
        "Error: parse failed: eof"
    );
    assert_eq!(
        done(docs::tools::execute("web_search", args, &vec![Reply::Unreadable("eof".to_string())])),
        "Error: read failed: eof"
    );
    assert_eq!(done(docs::tools::execute("crates_io", "{}", &vec![])), "Error: missing 'query'");
    assert_eq!(done(docs::tools::execute("nope", "{}", &vec![])), "Error: Unknown tool: nope");
    let message = serde_json::from_str::<serde_json::Value>("{").unwrap_err().to_string();
    assert_eq!(
        done(docs::tools::execute("crates_io", "{", &vec![])),
        format!("Error: {message}")
    );
}

// ─── Law ────────────────────────────────────────────────────────────────────

#[test]
fn filings_are_searched() {
    let args = "{\"query\":\"risk\",\"form_type\":\"10-K\",\"start_date\":\"2024-01-01\"}";
    let r = fetched(legal::tools::execute("sec_filing_search", args, &vec![]));
    assert_eq!(
        r.url,
        "https://efts.sec.gov/LATEST/search-index?q=risk&forms=10-K&dateRange=custom&startdt=2024-01-01"
    );
    assert_eq!(r.user_agent.as_deref(), Some("nasiko-legal-agent/1.0 (research@nasiko.io)"));
    let reply = json(
        "{\"hits\":{\"hits\":[{\"_id\":\"0001-24-000\",\"_source\":{\"file_date\":\"d\",\"form_type\":\"10-K\",\
          \"entity_name\":\"ACME\",\"display_names\":[\"Acme Inc\"],\"file_num\":\"001-333\"}},{\"_source\":{}}]}}",
    );
    assert_eq!(
        done(legal::tools::execute("sec_filing_search", args, &vec![reply])),
        "Found 2 SEC filings:\n\n**ACME** - Form 10-K\nFiled: d\nDescription: Acme Inc\n\
         Link: https://www.sec.gov/Archives/edgar/data/001/000124000\n\n---\n\n\
         **Unknown Company** - Form unknown\nFiled: unknown date"
    );
    let none = json("{\"hits\":{\"hits\":[]}}");
    assert_eq!(
        done(legal::tools::execute("sec_filing_search", args, &vec![none])),
        "No SEC filings found for 'risk'."
    );
    assert_eq!(
        done(legal::tools::execute("sec_filing_search", args, &vec![json("{}")])),
        "Error: no results in response"
    );
    let broken = Reply::NoClient("tls".to_string());
    assert_eq!(
        done(legal::tools::execute("sec_filing_search", args, &vec![broken])),
        "Error: failed to build HTTP client: tls"
    );
}

#[test]
fn filings_of_a_company_are_listed() {
    let args = "{\"cik\":\" 320193 \"}";
    let r = fetched(legal::tools::execute("sec_company_filings", args, &vec![]));
    assert_eq!(r.url, "https://data.sec.gov/submissions/CIK0000320193.json");
    assert_eq!(
        done(legal::tools::execute("sec_company_filings", "{\"cik\":\"x1\"}", &vec![])),
        "Error: invalid CIK number: 'x1'"
    );
    let reply = json(
        "{\"name\":\"Apple\",\"tickers\":[\"AAPL\",\"B\"],\"filings\":{\"recent\":{\"form\":[\"10-K\",\"8 K\"],\
          \"filingDate\":[\"d1\",\"d2\"],\"primaryDocDescription\":[\"\",\"desc\"],\"accessionNumber\":[\"\",\"acc\"]}}}",
    );
    assert_eq!(
        done(legal::tools::execute("sec_company_filings", args, &vec![reply])),
        "**Apple**\nCIK: 0000320193\nTickers: AAPL, B\n\nRecent Filings (2):\n  10-K | d1\n  8 K | d2 | desc\n    \
         https://www.sec.gov/cgi-bin/browse-edgar?action=getcompany&CIK=0000320193&type=8+K&dateb=&owner=include&count=1"
    );
    assert_eq!(
        done(legal::tools::execute("sec_company_filings", args, &vec![json("{}")])),
        "**Unknown Company**\nCIK: 0000320193\n\nNo recent filings found."
    );
    let short = json("{\"filings\":{\"recent\":{\"form\":[\"a\",\"b\"],\"filingDate\":[\"d\"]}}}");
    assert!(!legal::tools::can_report("sec_company_filings", &vec![short]));
}

#[test]
fn companies_are_matched_without_case() {
    let args = "{\"name\":\"APple\"}";
    let r = fetched(legal::tools::execute("sec_company_search", args, &vec![]));
    assert_eq!(r.url, "https://www.sec.gov/files/company_tickers.json");
    let reply = || {
        json(
            "{\"0\":{\"cik_str\":320193,\"ticker\":\"AAPL\",\"title\":\"Apple Inc.\"},\
              \"1\":{\"cik_str\":7,\"ticker\":\"aPPLE\",\"title\":\"Other\"},\
              \"2\":{\"ticker\":\"X\",\"title\":\"apple without number\"},\
              \"3\":{\"cik_str\":8,\"ticker\":\"APPLES\",\"title\":\"None\"}}",
        )
    };
    assert_eq!(
        done(legal::tools::execute("sec_company_search", args, &vec![reply()])),
        "Found 2 matching companies:\n\n**Apple Inc.** (AAPL) — CIK: 0000320193\n**Other** (aPPLE) — CIK: 0000000007"
    );
    assert_eq!(
        done(legal::tools::execute("sec_company_search", "{\"name\":\"zz\"}", &vec![reply()])),
        "No SEC-registered company found matching 'zz'."
    );
    assert_eq!(
        done(legal::tools::execute("sec_company_search", args, &vec![json("[]")])),
        "Error: unexpected response shape"
    );
    assert!(legal::tools::means("apple inc", "aapl", "apple"));
    assert!(legal::tools::means("x", "aapl", "aapl"));
    assert!(!legal::tools::means("x", "aapl", "aap"));
}

#[test]
fn the_federal_register_is_searched() {
    let args = "{\"query\":\"clean air\",\"document_type\":\"RULE\"}";
    let r = fetched(legal::tools::execute("federal_register", args, &vec![]));
    assert_eq!(
        r.url,
        "https://www.federalregister.gov/api/v1/documents.json?conditions[term]=clean+air&per_page=5&order=newest&conditions[type][]=RULE"
    );
    let long = "a".repeat(301);
    let reply = json(&format!(
        "{{\"results\":[{{\"title\":\"T\",\"type\":\"Rule\",\"publication_date\":\"p\",\"abstract\":\"{long}\",\
          \"html_url\":\"u\",\"agencies\":[{{\"name\":\"EPA\"}},{{}},{{\"name\":\"DOE\"}}]}},{{}}]}}"
    ));
    assert_eq!(
        done(legal::tools::execute("federal_register", args, &vec![reply])),
        format!(
            "Found 2 Federal Register documents:\n\n**T**\nType: Rule | Published: p\nAgencies: EPA, DOE\n\
             Abstract: {}...\nURL: u\n\n---\n\n**Untitled**\nType: unknown | Published: unknown date",
            "a".repeat(300)
        )
    );
    let wide = json(&format!("{{\"results\":[{{\"abstract\":\"{}ßß\"}}]}}", "a".repeat(299)));
    assert!(!legal::tools::can_report("federal_register", &vec![wide]));
}

#[test]
fn case_law_is_searched() {
    let args = "{\"query\":\"q\",\"court\":\"scotus\"}";
    let r = fetched(legal::tools::execute("case_law_search", args, &vec![]));
    assert_eq!(
        r.url,
        "https://www.courtlistener.com/api/rest/v3/search/?q=q&type=o&order_by=score+desc&court=scotus"
    );
    let reply = json(
        "{\"results\":[{\"caseName\":\"A v. B\",\"court\":\"ct\",\"date_filed\":\"d\",\"citation\":[\"1 U.S. 1\"],\
          \"snippet\":\"<mark>x</mark> <em>y</em>\",\"absolute_url\":\"/o/1/\"},{\"citation\":\"c2\"}]}",
    );
    assert_eq!(
        done(legal::tools::execute("case_law_search", args, &vec![reply])),
        "Found 2 cases:\n\n**A v. B**\nCourt: ct | Date Filed: d\nCitation: 1 U.S. 1\nSnippet: x y\n\
         Link: https://www.courtlistener.com/o/1/\n\n---\n\n\
         **Unknown Case**\nCourt: unknown court | Date Filed: unknown date\nCitation: c2"
    );
    assert_eq!(
        done(legal::tools::execute("case_law_search", args, &vec![json("{\"results\":[]}")])),
        "No case law found for 'q'."
    );
}

// ─── Papers ─────────────────────────────────────────────────────────────────

const FEED: &str = "<feed>\n<title>Query</title>\n <entry>\n  <id>http://arxiv.org/abs/1</id>\n\
  <published>2024-05-06T00:00:00Z</published>\n  <title>A study\n   of things</title>\n  <summary>First\n\
  second line\n  </summary>\n  <author>\n   <name>Ann</name>\n  </author>\n  <author><name>hidden</name></author>\n\
  <name>Bob</name>\n </entry>\n</feed>\n";

#[test]
fn arxiv_is_searched() {
    let args = "{\"query\":\"graph nets\",\"max_results\":50}";
    let r = fetched(paper::tools::execute("arxiv_search", args, &vec![]));
    assert_eq!(
        r.url,
        "http://export.arxiv.org/api/query?search_query=all:graph+nets&start=0&max_results=10&sortBy=relevance&sortOrder=descending"
    );
    assert_eq!(r.expect, Expect::Text);
    assert_eq!(
        done(paper::tools::execute("arxiv_search", args, &vec![page(FEED)])),
        "Found 1 papers:\n\n**A study of things**\nAuthors: Ann, Bob\nDate: 2024-05-06\n\
         Link: http://arxiv.org/abs/1\nAbstract: First second line\n"
    );
    assert_eq!(
        done(paper::tools::execute("arxiv_search", args, &vec![page("<feed></feed>")])),
        "No arXiv papers found for 'graph nets'."
    );
}

#[test]
fn papers_come_from_entries_only() {
    assert!(paper::feed::read_feed("<title>x</title>\n</entry>\n").is_empty());
    let papers = paper::feed::read_feed(FEED);
    assert_eq!(papers.len(), 1);
    assert_eq!(papers[0].authors, vec!["Ann", "Bob"]);
    assert_eq!(papers[0].published, "2024-05-06T00:00:00Z");
    let two = "<entry>\n<title>One</title>\n</entry>\n<entry>\n<id>2</id>\n</entry>\n";
    let papers = paper::feed::read_feed(two);
    assert_eq!(papers.len(), 2);
    assert_eq!(papers[0].title, "One");
    assert_eq!(papers[1].title, "");
    assert_eq!(papers[1].id, "2");
}

#[test]
fn texts_of_an_entry_are_its_own() {
    let feed = "<entry>\n<id>u</id>\n<published>2024-01-02T00:00:00Z</published>\n<title>T</title>\n\
                <summary>S</summary>\n<author>\n<name>A</name>\n</author>\n</entry>\n";
    assert_eq!(
        done(paper::tools::execute("arxiv_search", "{\"query\":\"q\"}", &vec![page(feed)])),
        "Found 1 papers:\n\n**T**\nAuthors: A\nDate: 2024-01-02\nLink: u\nAbstract: S\n"
    );
    let long = "<entry>\n<title>A\n  B</title>\n<author>\n<name>N</name>\n</author>\n\
                <summary>one\n two\n three</summary>\n<link/>\n</entry>\n";
    let papers = paper::feed::read_feed(long);
    assert_eq!(papers[0].title, "A B");
    assert_eq!(papers[0].summary, "one two three");
    let cut = "<entry>\n<summary>S\n</entry>\n<entry>\n<author>\n</entry>\n";
    assert_eq!(paper::feed::read_feed(cut)[1].summary, "");
}

#[test]
fn tags_are_read_from_a_line() {
    assert_eq!(paper::feed::extract_tag_content("<id>x</id>", "id"), "x");
    assert_eq!(paper::feed::extract_tag_content("<id>x", "id"), "x");
    assert_eq!(paper::feed::extract_tag_content("x</id>", "id"), "");
    assert_eq!(paper::feed::extract_tag_content("</id><id>y</id>", "id"), "y");
}

#[test]
fn long_abstracts_are_cut() {
    let feed = format!("<entry>\n<summary>{}</summary>\n</entry>\n", "s".repeat(301));
    let shown = done(paper::tools::execute("arxiv_search", "{\"query\":\"q\"}", &vec![page(&feed)]));
    assert!(shown.ends_with(&format!("Abstract: {}...\n", "s".repeat(300))));
    let wide = format!("<entry>\n<summary>{}ßß</summary>\n</entry>\n", "s".repeat(299));
    assert!(!paper::tools::cuts("arxiv_search", &vec![page(&wide)]));
    let odd = "<entry>\n<published>2024-05-0ß</published>\n</entry>\n";
    assert!(!paper::tools::cuts("arxiv_search", &vec![page(odd)]));
}

#[test]
fn semantic_scholar_is_searched() {
    let args = "{\"query\":\"q\",\"year\":\"2020-\"}";
    let r = fetched(paper::tools::execute("semantic_scholar", args, &vec![]));
    assert_eq!(
        r.url,
        "https://api.semanticscholar.org/graph/v1/paper/search?query=q&limit=5&fields=title,authors,year,citationCount,influentialCitationCount,tldr,externalIds&year=2020-"
    );
    let reply = json(
        "{\"data\":[{\"title\":\"T\",\"year\":2021,\"citationCount\":3,\"influentialCitationCount\":1,\"paperId\":\"p\",\
          \"tldr\":{\"text\":\"short\"},\"authors\":[{\"name\":\"A\"},{\"name\":\"B\"}],\"externalIds\":{\"ArXiv\":\"1.2\"}},{}]}",
    );
    assert_eq!(
        done(paper::tools::execute("semantic_scholar", args, &vec![reply])),
        "Found 2 papers:\n\n**T** (2021)\nAuthors: A, B\nCitations: 3 (1 influential)\nID: p\n\
         arXiv: https://arxiv.org/abs/1.2\nTL;DR: short\n\n---\n\n\
         **Untitled** ()\nAuthors: \nCitations: 0 (0 influential)\nID: "
    );
}

#[test]
fn a_paper_is_shown() {
    let args = "{\"paper_id\":\"arXiv:1\"}";
    let r = fetched(paper::tools::execute("semantic_scholar_paper", args, &vec![]));
    assert_eq!(
        r.url,
        "https://api.semanticscholar.org/graph/v1/paper/arXiv%3A1?fields=title,authors,year,abstract,citationCount,influentialCitationCount,references.title,references.year,tldr,externalIds,venue"
    );
    let reply = json(
        "{\"title\":\"T\",\"venue\":\"V\",\"references\":[{\"title\":\"R1\",\"year\":1999},{},{\"title\":\"R2\"}]}",
    );
    assert_eq!(
        done(paper::tools::execute("semantic_scholar_paper", args, &vec![reply])),
        "**T** ()\nVenue: V\nAuthors: \nCitations: 0 (0 influential)\n\nAbstract:\nNo abstract available.\n\n\
         Key References:\n  - R1 (1999)\n  - R2"
    );
    assert_eq!(
        done(paper::tools::execute("semantic_scholar_paper", args, &vec![json("{\"error\":\"gone\"}")])),
        "Error: Paper not found: \"gone\""
    );
}

#[test]
fn wikipedia_is_summarised() {
    let args = "{\"topic\":\"Rust (language)\"}";
    let r = fetched(paper::tools::execute("wikipedia_summary", args, &vec![]));
    assert_eq!(r.url, "https://en.wikipedia.org/api/rest_v1/page/summary/Rust+%28language%29");
    let reply = json("{\"extract\":\"E\",\"content_urls\":{\"desktop\":{\"page\":\"u\"}}}");
    assert_eq!(
        done(paper::tools::execute("wikipedia_summary", args, &vec![reply])),
        "**Rust (language)**\n\nE\n\nSource: u"
    );
    let gone = json("{\"type\":\"https://mediawiki.org/wiki/HyperSwitch/errors/not_found\"}");
    assert_eq!(
        done(paper::tools::execute("wikipedia_summary", args, &vec![gone])),
        "No Wikipedia article found for 'Rust (language)'."
    );
}

// ─── Operations ─────────────────────────────────────────────────────────────

#[test]
fn a_repository_is_shown() {
    let args = "{\"owner\":\"a b\",\"repo\":\"c\"}";
    let r = fetched(devops::tools::execute("github_repo_info", args, &vec![]));
    assert_eq!(r.url, "https://api.github.com/repos/a+b/c");
    assert_eq!(r.user_agent.as_deref(), Some("nasiko-devops-agent/1.0"));
    let reply = json(
        "{\"full_name\":\"a/c\",\"stargazers_count\":1,\"forks_count\":2,\"open_issues_count\":3,\
          \"language\":\"Rust\",\"license\":{\"spdx_id\":\"MIT\"},\"pushed_at\":\"p\"}",
    );
    assert_eq!(
        done(devops::tools::execute("github_repo_info", args, &vec![reply])),
        "**a/c**\nDescription: No description\nLanguage: Rust\nStars: 1\nForks: 2\nOpen Issues: 3\n\
         License: MIT\nLast Push: p"
    );
    assert_eq!(
        done(devops::tools::execute("github_repo_info", args, &vec![json("{\"message\":\"Not Found\"}")])),
        "Repository 'a b/c' not found."
    );
    assert_eq!(
        done(devops::tools::execute("github_repo_info", "{\"owner\":\"x\"}", &vec![])),
        "Error: missing 'repo'"
    );
}

#[test]
fn workflow_runs_are_listed() {
    let args = "{\"owner\":\"a\",\"repo\":\"b\"}";
    let r = fetched(devops::tools::execute("github_actions_runs", args, &vec![]));
    assert_eq!(r.url, "https://api.github.com/repos/a/b/actions/runs?per_page=5");
    let reply = json("{\"workflow_runs\":[{\"name\":\"ci\",\"status\":\"completed\",\"conclusion\":\"success\",\"created_at\":\"t\",\"head_branch\":\"main\",\"event\":\"push\"},{}]}");
    assert_eq!(
        done(devops::tools::execute("github_actions_runs", args, &vec![reply])),
        "Recent workflow runs for a/b:\n\n- **ci** [completed/success]\n  Branch: main | Event: push | Created: t\n\
         - **unnamed** [unknown/pending]\n  Branch: unknown | Event: unknown | Created: unknown"
    );
    for (reply, expected) in [
        ("{\"message\":\"Not Found\"}", "Repository 'a/b' not found or Actions not enabled."),
        ("{\"workflow_runs\":[]}", "No workflow runs found for 'a/b'."),
        ("{}", "Error: no workflow_runs field in response"),
    ] {
        assert_eq!(
            done(devops::tools::execute("github_actions_runs", args, &vec![json(reply)])),
            expected
        );
    }
}

#[test]
fn images_are_searched() {
    let args = "{\"query\":\"web server\"}";
    let r = fetched(devops::tools::execute("docker_hub_search", args, &vec![]));
    assert_eq!(
        r.url,
        "https://hub.docker.com/v2/search/repositories/?query=web+server&page_size=5"
    );
    assert_eq!(r.user_agent, None);
    let reply = json("{\"results\":[{\"repo_name\":\"nginx\",\"short_description\":\"d\",\"star_count\":1,\"pull_count\":2,\"is_official\":true},{}]}");
    assert_eq!(
        done(devops::tools::execute("docker_hub_search", args, &vec![reply])),
        "Docker Hub results for 'web server':\n\n- **nginx** [OFFICIAL]\n  d\n  Stars: 1 | Pulls: 2\n\
         - **unknown**\n  No description\n  Stars: 0 | Pulls: 0"
    );
    assert_eq!(
        done(devops::tools::execute("docker_hub_search", args, &vec![json("{\"results\":[]}")])),
        "No Docker Hub images found for 'web server'."
    );
    assert_eq!(
        done(devops::tools::execute("docker_hub_search", args, &vec![json("{}")])),
        "Error: no results field in response"
    );
}

#[test]
fn endpoints_are_probed() {
    let args = "{\"url\":\"https://x.io\"}";
    let r = fetched(devops::tools::execute("check_endpoint", args, &vec![]));
    assert_eq!(r.url, "https://x.io");
    assert_eq!(r.expect, Expect::Probe);
    let up = Reply::Answered {
        code: 200,
        status: "200 OK".to_string(),
        content_type: Some("text/html".to_string()),
        elapsed_ms: 12,
    };
    assert_eq!(
        done(devops::tools::execute("check_endpoint", args, &vec![up])),
        "Endpoint: https://x.io\nStatus: 200 OK [HEALTHY]\nResponse Time: 12ms\nContent-Type: text/html"
    );
    let moved = Reply::Answered {
        code: 302,
        status: "302 Found".to_string(),
        content_type: None,
        elapsed_ms: 1,
    };
    assert!(done(devops::tools::execute("check_endpoint", args, &vec![moved]))
        .contains("Status: 302 Found [UNHEALTHY]"));
    let down = Reply::Answered {
        code: 500,
        status: "500 Internal Server Error".to_string(),
        content_type: None,
        elapsed_ms: 0,
    };
    assert_eq!(
        done(devops::tools::execute("check_endpoint", args, &vec![down])),
        "Endpoint: https://x.io\nStatus: 500 Internal Server Error [UNHEALTHY]\nResponse Time: 0ms\n\
         Content-Type: not specified"
    );
    assert_eq!(
        done(devops::tools::execute("check_endpoint", args, &vec![Reply::TimedOut])),
        "Endpoint: https://x.io\nStatus: TIMEOUT [UNHEALTHY]\nResponse Time: >10000ms\n\
         Error: Request timed out after 10 seconds"
    );
    let lost = Reply::Unreachable { elapsed_ms: 7, error: "refused".to_string() };
    assert_eq!(
        done(devops::tools::execute("check_endpoint", args, &vec![lost])),
        "Endpoint: https://x.io\nStatus: CONNECTION FAILED [UNHEALTHY]\nResponse Time: 7ms\nError: refused"
    );
    let broken = Reply::NoClient("tls".to_string());
    assert_eq!(
        done(devops::tools::execute("check_endpoint", args, &vec![broken])),
        "Error: failed to build client: tls"
    );
}

#[test]
fn the_web_is_searched_for_operations() {
    let args = "{\"query\":\"q\"}";
    assert_eq!(
        done(devops::tools::execute("web_search", args, &vec![page(RESULTS)])),
        "Web results for 'q':\n\n** First hit **\n  URL: https://a.io\n  Some words\n\n\
         **No link**\n  URL: \n  s\n\n**Third**\n  URL: https://c.io"
    );
    assert_eq!(
        done(devops::tools::execute("web_search", args, &vec![page("")])),
        "No web results found for 'q'."
    );
}

// ─── Finance ────────────────────────────────────────────────────────────────

fn ask_finance(name: &str, args: &str, replies: Vec<Reply>, figures: Option<Vec<Option<String>>>) -> finance::tools::Step {
    finance::tools::execute(name, args, &replies, &figures)
}

fn finance_done(step: finance::tools::Step) -> String {
    match step {
        finance::tools::Step::Done(t) => t,
        _ => panic!("the call is over"),
    }
}

fn finance_url(step: finance::tools::Step) -> String {
    match step {
        finance::tools::Step::Fetch(r) => {
            assert_eq!(r.user_agent.as_deref(), Some("nasiko-finance-agent/1.0"));
            r.url
        }
        _ => panic!("a request is sent"),
    }
}

#[test]
fn exchange_rates_are_shown() {
    let args = "{\"base\":\"usd\",\"targets\":[\"eur\",\"xxx\",7]}";
    let url = finance_url(ask_finance("exchange_rates", args, vec![], None));
    assert_eq!(url, "https://open.er-api.com/v6/latest/USD");
    let reply = || {
        json("{\"result\":\"success\",\"time_last_update_utc\":\"today\",\"rates\":{\"USD\":1,\"EUR\":0.92,\"GBP\":0.79,\"ZAR\":18.1}}")
    };
    assert_eq!(
        finance_done(ask_finance("exchange_rates", args, vec![reply()], None)),
        "**Exchange Rates for USD**\nLast updated: today\n\n  USD -> EUR: 0.92\n  USD -> XXX: not available\n"
    );
    assert_eq!(
        finance_done(ask_finance("exchange_rates", "{\"base\":\"Usd\"}", vec![reply()], None)),
        "**Exchange Rates for USD**\nLast updated: today\n\n  USD -> EUR: 0.92\n  USD -> GBP: 0.79\n"
    );
    for (reply, expected) in [
        ("{\"result\":\"error\",\"error-type\":\"unsupported-code\"}", "Error: API error: unsupported-code"),
        ("{}", "Error: API error: unknown error"),
        ("{\"result\":\"success\"}", "Error: missing rates in response"),
    ] {
        assert_eq!(
            finance_done(ask_finance("exchange_rates", args, vec![json(reply)], None)),
            expected
        );
    }
}

#[test]
fn a_coin_is_shown_with_its_figures() {
    let args = "{\"coin_id\":\"Bitcoin\"}";
    let url = finance_url(ask_finance("crypto_price", args, vec![], None));
    assert_eq!(
        url,
        "https://api.coingecko.com/api/v3/coins/bitcoin?localization=false&tickers=false&community_data=false&developer_data=false"
    );
    let reply = || {
        json("{\"name\":\"Bitcoin\",\"symbol\":\"btc\",\"market_data\":{\"current_price\":{\"usd\":50000,\"btc\":1.0},\"market_cap\":{\"usd\":1e12},\"price_change_percentage_24h\":-1.25}}")
    };
    match ask_finance("crypto_price", args, vec![reply()], None) {
        finance::tools::Step::Format(figures) => {
            assert_eq!(figures.len(), 9);
            let f = figures[0].as_ref().unwrap();
            assert_eq!(f.format, finance::tools::Format::Price);
            assert_eq!(f.number, "50000");
            assert!(figures[1].is_none());
            assert_eq!(figures[2].as_ref().unwrap().format, finance::tools::Format::Bitcoin);
            assert_eq!(figures[2].as_ref().unwrap().number, "1.0");
            assert_eq!(figures[3].as_ref().unwrap().format, finance::tools::Format::Large);
            assert_eq!(figures[4].as_ref().unwrap().format, finance::tools::Format::Percent);
            assert_eq!(figures[4].as_ref().unwrap().number, "-1.25");
            assert!(figures[8].is_none());
        }
        _ => panic!("figures are to be shown"),
    }
    let shown = vec![
        Some("50000.00".to_string()),
        None,
        Some("1.00000000".to_string()),
        Some("1.00T".to_string()),
        Some("-1.25%".to_string()),
        None,
        None,
        None,
        None,
    ];
    assert_eq!(
        finance_done(ask_finance("crypto_price", args, vec![reply()], Some(shown))),
        "**Bitcoin (BTC)**\n\nPrice (USD): $50000.00\nPrice (EUR): €N/A\nPrice (BTC): 1.00000000\n\
         Market Cap:  $1.00T\n24h Change:  -1.25%\n24h High:    $N/A\n24h Low:     $N/A\n\
         ATH:         $N/A\nCirculating: N/A"
    );
    assert_eq!(
        finance_done(ask_finance("crypto_price", args, vec![json("{\"error\":\"coin not found\"}")], None)),
        "Error: CoinGecko error: coin not found"
    );
}

#[test]
fn coins_are_searched() {
    let args = "{\"query\":\"doge\"}";
    let url = finance_url(ask_finance("crypto_search", args, vec![], None));
    assert_eq!(url, "https://api.coingecko.com/api/v3/search?query=doge");
    let reply = json("{\"coins\":[{\"id\":\"dogecoin\",\"name\":\"Dogecoin\",\"symbol\":\"doge\",\"market_cap_rank\":8},{}]}");
    assert_eq!(
        finance_done(ask_finance("crypto_search", args, vec![reply], None)),
        "**Search results for 'doge':**\n\n  Dogecoin (DOGE) - ID: `dogecoin` - Rank: #8\n\
         \x20 Unknown () - ID: `unknown` - Rank: unranked"
    );
    assert_eq!(
        finance_done(ask_finance("crypto_search", args, vec![json("{\"coins\":[]}")], None)),
        "No cryptocurrencies found for 'doge'."
    );
    assert_eq!(
        finance_done(ask_finance("crypto_search", args, vec![json("{}")], None)),
        "Error: no results"
    );
    let many = format!("{{\"coins\":[{}]}}", vec!["{}"; 9].join(","));
    let shown = finance_done(ask_finance("crypto_search", args, vec![json(&many)], None));
    assert_eq!(shown.matches("Unknown").count(), 5);
}

#[test]
fn the_market_is_shown() {
    for (args, n) in [("not json", 10), ("{}", 10), ("{\"limit\":1}", 5), ("{\"limit\":7}", 7), ("{\"limit\":99}", 20)] {
        let url = finance_url(ask_finance("crypto_market", args, vec![], None));
        assert_eq!(
            url,
            format!("https://api.coingecko.com/api/v3/coins/markets?vs_currency=usd&order=market_cap_desc&per_page={n}&page=1&sparkline=false")
        );
    }
    let reply = || {
        json("[{\"market_cap_rank\":1,\"name\":\"Bitcoin\",\"symbol\":\"btc\",\"current_price\":5},{\"name\":\"Ether\",\"symbol\":\"eth\",\"market_cap\":3}]")
    };
    match ask_finance("crypto_market", "{}", vec![reply()], None) {
        finance::tools::Step::Format(figures) => {
            assert_eq!(figures.len(), 6);
            assert_eq!(figures[0].as_ref().unwrap().number, "5");
            assert!(figures[1].is_none());
            assert_eq!(figures[5].as_ref().unwrap().format, finance::tools::Format::Large);
        }
        _ => panic!("figures are to be shown"),
    }
    let shown = vec![Some("5.00".to_string()), None, None, None, None, Some("3.00".to_string())];
    assert_eq!(
        finance_done(ask_finance("crypto_market", "{}", vec![reply()], Some(shown))),
        "**Top Cryptocurrencies by Market Cap**\n\n  #1 Bitcoin (BTC): $5.00 (N/A) - MCap: $N/A\n\
         \x20 #0 Ether (ETH): $N/A (N/A) - MCap: $3.00\n"
    );
    assert_eq!(
        finance_done(ask_finance("crypto_market", "{}", vec![json("[]")], Some(vec![]))),
        "No market data available."
    );
    assert_eq!(
        finance_done(ask_finance("crypto_market", "{}", vec![json("{}")], None)),
        "Error: unexpected response format"
    );
}

// ─── Names ──────────────────────────────────────────────────────────────────

#[test]
fn advertised_tools_can_be_called() {
    for d in docs::tools::definitions() {
        assert!(docs::tools::tool_named(d.at("function").at("name").text_or("")).is_some());
    }
    for d in legal::tools::definitions() {
        assert!(legal::tools::tool_named(d.at("function").at("name").text_or("")).is_some());
    }
    for d in paper::tools::definitions() {
        assert!(paper::tools::tool_named(d.at("function").at("name").text_or("")).is_some());
    }
    for d in finance::tools::definitions() {
        assert!(finance::tools::tool_named(d.at("function").at("name").text_or("")).is_some());
    }
    for d in devops::tools::definitions() {
        assert!(devops::tools::tool_named(d.at("function").at("name").text_or("")).is_some());
    }
    assert_eq!(docs::tools::definitions().len(), 7);
    assert_eq!(legal::tools::definitions().len(), 5);
    assert_eq!(paper::tools::definitions().len(), 4);
    assert_eq!(finance::tools::definitions().len(), 4);
    assert_eq!(devops::tools::definitions().len(), 5);
    assert!(docs::tools::tool_named("crypto_price").is_none());
}
