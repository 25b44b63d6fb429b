//! The documentation tools: which address a call reads, and what it reports of the answer.

use vstd::prelude::*;

use super::definitions::{definitions_are_named, definitions_view};
use crate::http::{
    ask, asked, body_text, get, json_body, need, needed, reply_views, request_view, show, shown,
    single_fetch, text_body, Expect, Reply, ReplyView, Request, RequestView, Step, StepView,
};
use crate::json::notation::{compact, notation};
use crate::json::serde::{json_of_text, parse};
use crate::json::{json_views, member_views, texts_in, texts_of, Json, JsonView};
use crate::schema::{advertises, schema_name};
use crate::text::lines::{trim, trim_text};
use crate::text::url::{urlencode, urlencoded};
use crate::text::width::{can_cut, cuts_cleanly, shorten, shortened};
use crate::text::{
    count_text, decimal, decimal_text, is_text, join, join_texts, outcome, same, text, views,
};
use crate::web::{
    address, browser, browser_name, hit_views, hits, read_hits, search_url, Hit, HitView,
};

pub use super::definitions::definitions;

verus! {

/// The documentation tools.
#[derive(Debug, Clone, Copy, PartialEq, Eq, Structural)]
pub enum Tool {
    CratesIo,
    CrateInfo,
    NpmSearch,
    NpmPackage,
    PypiPackage,
    GithubReadme,
    WebSearch,
}

/// The tool that is called by `name`.
pub open spec fn tool_of(name: Seq<char>) -> Option<Tool> {
    if name == "crates_io"@ {
        Some(Tool::CratesIo)
    } else if name == "crate_info"@ {
        Some(Tool::CrateInfo)
    } else if name == "npm_search"@ {
        Some(Tool::NpmSearch)
    } else if name == "npm_package"@ {
        Some(Tool::NpmPackage)
    } else if name == "pypi_package"@ {
        Some(Tool::PypiPackage)
    } else if name == "github_readme"@ {
        Some(Tool::GithubReadme)
    } else if name == "web_search"@ {
        Some(Tool::WebSearch)
    } else {
        None
    }
}

/// The tool that is called by `name`.
pub fn tool_named(name: &str) -> (r: Option<Tool>)
    ensures
        r == tool_of(name@),
{
    if same(name, "crates_io") {
        Some(Tool::CratesIo)
    } else if same(name, "crate_info") {
        Some(Tool::CrateInfo)
    } else if same(name, "npm_search") {
        Some(Tool::NpmSearch)
    } else if same(name, "npm_package") {
        Some(Tool::NpmPackage)
    } else if same(name, "pypi_package") {
        Some(Tool::PypiPackage)
    } else if same(name, "github_readme") {
        Some(Tool::GithubReadme)
    } else if same(name, "web_search") {
        Some(Tool::WebSearch)
    } else {
        None
    }
}

// ─── Requests ───────────────────────────────────────────────────────────────

/// The agent's name, sent to crates.io.
pub open spec fn docs_agent() -> Option<Seq<char>> {
    Some("nasiko-docs-agent/1.0"@)
}

/// The address that `crates_io` reads.
pub open spec fn crates_io_url(query: Seq<char>, sort: Seq<char>) -> Seq<char> {
    "https://crates.io/api/v1/crates?q="@ + urlencoded(query) + "&per_page=10&sort="@ + urlencoded(
        sort,
    )
}

/// The address that `npm_package` reads: a version where one is named, else the latest.
pub open spec fn npm_package_url(name: Seq<char>, version: Option<Seq<char>>) -> Seq<char> {
    "https://registry.npmjs.org/"@ + name + "/"@ + match version {
        Some(v) => v,
        None => "latest"@,
    }
}

/// The request that a call of `tool` sends first, or why it sends none.
pub open spec fn request_for(tool: Tool, args: JsonView) -> Result<RequestView, Seq<char>> {
    match tool {
        Tool::CratesIo => match needed(args, "query"@) {
            Err(e) => Err(e),
            Ok(query) => Ok(
                RequestView {
                    url: crates_io_url(query, args.at("sort"@).text_or("downloads"@)),
                    user_agent: docs_agent(),
                    expect: Expect::Json,
                },
            ),
        },
        Tool::CrateInfo => match needed(args, "name"@) {
            Err(e) => Err(e),
            Ok(name) => Ok(
                RequestView {
                    url: "https://crates.io/api/v1/crates/"@ + name,
                    user_agent: docs_agent(),
                    expect: Expect::Json,
                },
            ),
        },
        Tool::NpmSearch => match needed(args, "query"@) {
            Err(e) => Err(e),
            Ok(query) => Ok(
                RequestView {
                    url: "https://registry.npmjs.org/-/v1/search?text="@ + urlencoded(query)
                        + "&size=5"@,
                    user_agent: None,
                    expect: Expect::Json,
                },
            ),
        },
        Tool::NpmPackage => match needed(args, "name"@) {
            Err(e) => Err(e),
            Ok(name) => Ok(
                RequestView {
                    url: npm_package_url(name, args.at("version"@).text()),
                    user_agent: None,
                    expect: Expect::Json,
                },
            ),
        },
        Tool::PypiPackage => match needed(args, "name"@) {
            Err(e) => Err(e),
            Ok(name) => Ok(
                RequestView {
                    url: "https://pypi.org/pypi/"@ + name + "/json"@,
                    user_agent: None,
                    expect: Expect::Json,
                },
            ),
        },
        Tool::GithubReadme => match needed(args, "repo"@) {
            Err(e) => Err(e),
            Ok(repo) => Ok(
                RequestView {
                    url: "https://raw.githubusercontent.com/"@ + repo + "/HEAD/README.md"@,
                    user_agent: None,
                    expect: Expect::SuccessText,
                },
            ),
        },
        Tool::WebSearch => match needed(args, "query"@) {
            Err(e) => Err(e),
            Ok(query) => Ok(
                RequestView {
                    url: search_url(query),
                    user_agent: Some(browser()),
                    expect: Expect::SuccessText,
                },
            ),
        },
    }
}

/// The request that a call of `tool` sends first, or why it sends none.
pub fn request(tool: Tool, args: &Json) -> (r: Result<Request, String>)
    ensures
        request_view(r) == request_for(tool, args@),
{
    match tool {
        Tool::CratesIo => match need(args, "query") {
            Err(e) => Err(e),
            Ok(query) => {
                let mut url = text("https://crates.io/api/v1/crates?q=");
                let q = urlencode(query);
                url.append(q.as_str());
                url.append("&per_page=10&sort=");
                let sort = urlencode(args.at("sort").text_or("downloads"));
                url.append(sort.as_str());
                Ok(get(url, Some("nasiko-docs-agent/1.0"), Expect::Json))
            },
        },
        Tool::CrateInfo => match need(args, "name") {
            Err(e) => Err(e),
            Ok(name) => {
                let mut url = text("https://crates.io/api/v1/crates/");
                url.append(name);
                Ok(get(url, Some("nasiko-docs-agent/1.0"), Expect::Json))
            },
        },
        Tool::NpmSearch => match need(args, "query") {
            Err(e) => Err(e),
            Ok(query) => {
                let mut url = text("https://registry.npmjs.org/-/v1/search?text=");
                let q = urlencode(query);
                url.append(q.as_str());
                url.append("&size=5");
                Ok(get(url, None, Expect::Json))
            },
        },
        Tool::NpmPackage => match need(args, "name") {
            Err(e) => Err(e),
            Ok(name) => {
                let mut url = text("https://registry.npmjs.org/");
                url.append(name);
                url.append("/");
                match args.at("version").as_text() {
                    Some(v) => url.append(v),
                    None => url.append("latest"),
                }
                Ok(get(url, None, Expect::Json))
            },
        },
        Tool::PypiPackage => match need(args, "name") {
            Err(e) => Err(e),
            Ok(name) => {
                let mut url = text("https://pypi.org/pypi/");
                url.append(name);
                url.append("/json");
                Ok(get(url, None, Expect::Json))
            },
        },
        Tool::GithubReadme => match need(args, "repo") {
            Err(e) => Err(e),
            Ok(repo) => {
                let mut url = text("https://raw.githubusercontent.com/");
                url.append(repo);
                url.append("/HEAD/README.md");
                Ok(get(url, None, Expect::SuccessText))
            },
        },
        Tool::WebSearch => match need(args, "query") {
            Err(e) => Err(e),
            Ok(query) => Ok(get(address(query), Some(browser_name()), Expect::SuccessText)),
        },
    }
}

// ─── crates_io ──────────────────────────────────────────────────────────────

/// One crate of a search.
pub open spec fn crate_entry(c: JsonView) -> Seq<char> {
    let name = c.at("id"@).text_or("?"@);
    let version = c.at("max_version"@).text_or("?"@);
    "**"@ + name + "** v"@ + version + " ("@ + decimal(c.at("downloads"@).natural_or(0) as nat)
        + " downloads)\n  "@ + c.at("description"@).text_or(""@) + "\n  docs: https://docs.rs/"@
        + name + "/"@ + version
}

/// The report of `crates_io`.
pub open spec fn crates_io_report(args: JsonView, reply: ReplyView) -> Result<
    Seq<char>,
    Seq<char>,
> {
    match asked(args, "query"@, reply) {
        Err(e) => Err(e),
        Ok((query, resp)) => match resp.at("crates"@).items() {
            None => Err("no results"@),
            Some(crates) => if crates.len() == 0 {
                Ok("No crates found for '"@ + query + "'."@)
            } else {
                Ok(join(Seq::new(crates.len(), |i: int| crate_entry(crates[i])), "\n\n"@))
            },
        },
    }
}

fn crate_line(c: &Json) -> (r: String)
    ensures
        r@ == crate_entry(c@),
{
    let name = c.at("id").text_or("?");
    let version = c.at("max_version").text_or("?");
    let mut out = text("**");
    out.append(name);
    out.append("** v");
    out.append(version);
    out.append(" (");
    let downloads = decimal_text(c.at("downloads").natural_or(0));
    out.append(downloads.as_str());
    out.append(" downloads)\n  ");
    out.append(c.at("description").text_or(""));
    out.append("\n  docs: https://docs.rs/");
    out.append(name);
    out.append("/");
    out.append(version);
    out
}

/// The report of `crates_io`.
pub fn crates_io_search(args: &Json, reply: &Reply) -> (r: Result<String, String>)
    ensures
        outcome(r) == crates_io_report(args@, reply@),
{
    match ask(args, "query", reply) {
        Err(e) => Err(e),
        Ok((query, resp)) => match resp.at("crates").as_items() {
            None => Err(text("no results")),
            Some(crates) => {
                let ghost all = json_views(crates@);
                if crates.len() == 0 {
                    let mut out = text("No crates found for '");
                    out.append(query);
                    out.append("'.");
                    return Ok(out);
                }
                let mut entries: Vec<String> = Vec::new();
                let mut i: usize = 0;
                while i < crates.len()
                    invariant
                        i <= crates@.len(),
                        all == json_views(crates@),
                        views(entries@) == Seq::new(i as nat, |j: int| crate_entry(all[j])),
                    decreases crates@.len() - i,
                {
                    let ghost before = views(entries@);
                    entries.push(crate_line(&crates[i]));
                    assert(views(entries@) =~= before.push(crate_entry(all[i as int])));
                    i += 1;
                    assert(views(entries@) =~= Seq::new(i as nat, |j: int| crate_entry(all[j])));
                }
                Ok(join_texts(&entries, "\n\n"))
            },
        },
    }
}

// ─── crate_info ─────────────────────────────────────────────────────────────

/// The first item whose member `key` is the text `value`.
pub open spec fn first_with(items: Seq<JsonView>, key: Seq<char>, value: Seq<char>) -> Option<
    JsonView,
>
    decreases items.len(),
{
    if items.len() == 0 {
        None
    } else if items[0].at(key).text() == Some(value) {
        Some(items[0])
    } else {
        first_with(items.drop_first(), key, value)
    }
}

/// The first item whose member `key` is the text `value`.
fn find_with<'a>(items: &'a Vec<Json>, key: &str, value: &str) -> (r: Option<&'a Json>)
    ensures
        match r {
            Some(j) => first_with(json_views(items@), key@, value@) == Some(j@),
            None => first_with(json_views(items@), key@, value@) is None,
        },
{
    let ghost all = json_views(items@);
    let mut i: usize = 0;
    assert(all.skip(0) =~= all);
    while i < items.len()
        invariant
            i <= items@.len(),
            all == json_views(items@),
            first_with(all, key@, value@) == first_with(all.skip(i as int), key@, value@),
        decreases items@.len() - i,
    {
        assert(all.skip(i as int)[0] == all[i as int]);
        assert(all.skip(i as int).drop_first() =~= all.skip(i + 1));
        if is_text(items[i].at(key).as_text(), value) {
            return Some(&items[i]);
        }
        i += 1;
    }
    None
}

/// The version that a call of `crate_info` asks about: the one named, else the latest.
pub open spec fn wanted_version(args: JsonView, resp: JsonView) -> Seq<char> {
    match args.at("version"@).text() {
        Some(v) => v,
        None => resp.at("crate"@).at("max_version"@).text_or("?"@),
    }
}

/// The address of the dependencies of a version of a crate.
pub open spec fn deps_url(name: Seq<char>, version: Seq<char>) -> Seq<char> {
    "https://crates.io/api/v1/crates/"@ + name + "/"@ + version + "/dependencies"@
}

/// The names of the first members.
pub open spec fn first_names(members: Seq<(Seq<char>, JsonView)>, n: nat) -> Seq<Seq<char>> {
    Seq::new(
        if members.len() < n {
            members.len()
        } else {
            n
        },
        |i: int| members[i].0,
    )
}

/// The features of the version asked about, where they are known and there are any.
pub open spec fn features_part(resp: JsonView, version: Seq<char>) -> Seq<char> {
    match resp.at("versions"@).items() {
        None => Seq::empty(),
        Some(versions) => match first_with(versions, "num"@, version) {
            None => Seq::empty(),
            Some(v) => match v.at("features"@).members() {
                None => Seq::empty(),
                Some(features) => if features.len() == 0 {
                    Seq::empty()
                } else {
                    "\n\nFeatures: "@ + join(first_names(features, 15), ", "@)
                },
            },
        },
    }
}

/// One dependency of a crate.
pub open spec fn dep_entry(d: JsonView) -> Seq<char> {
    let line = "  "@ + d.at("crate_id"@).text_or("?"@) + " "@ + d.at("req"@).text_or("*"@);
    if d.at("optional"@).truth() == Some(true) {
        line + " (optional)"@
    } else {
        line
    }
}

/// The first ten normal dependencies.
pub open spec fn normal_deps(deps: Seq<JsonView>) -> Seq<Seq<char>>
    decreases deps.len(),
{
    if deps.len() == 0 {
        Seq::empty()
    } else {
        let head = normal_deps(deps.drop_last());
        if deps.last().at("kind"@).text() == Some("normal"@) && head.len() < 10 {
            head.push(dep_entry(deps.last()))
        } else {
            head
        }
    }
}

/// The dependencies of the version asked about, where they are known and there are any.
pub open spec fn deps_part(reply: ReplyView) -> Seq<char> {
    match json_body(reply) {
        Err(_) => Seq::empty(),
        Ok(resp) => match resp.at("dependencies"@).items() {
            None => Seq::empty(),
            Some(deps) => if normal_deps(deps).len() == 0 {
                Seq::empty()
            } else {
                "\n\nDependencies:\n"@ + join(normal_deps(deps), "\n"@)
            },
        },
    }
}

/// The report of `crate_info`, from the crate's record and the answer about its dependencies.
pub open spec fn crate_info_report(args: JsonView, reply: ReplyView, deps: ReplyView) -> Result<
    Seq<char>,
    Seq<char>,
> {
    match asked(args, "name"@, reply) {
        Err(e) => Err(e),
        Ok((name, resp)) => {
            let record = resp.at("crate"@);
            let version = wanted_version(args, resp);
            Ok(
                "**"@ + name + "** v"@ + version + "\n"@ + record.at("description"@).text_or(""@)
                    + "\n\nLatest: "@ + record.at("max_version"@).text_or("?"@) + "\nDownloads: "@
                    + decimal(record.at("downloads"@).natural_or(0) as nat) + "\nRepository: "@
                    + record.at("repository"@).text_or(""@) + "\nDocs: https://docs.rs/"@ + name
                    + "/"@ + version + features_part(resp, version) + deps_part(deps),
            )
        },
    }
}

/// How a call of `crate_info` goes on: the crate's record, then its dependencies, then the report.
pub open spec fn crate_info_step(args: JsonView, replies: Seq<ReplyView>) -> StepView {
    match request_for(Tool::CrateInfo, args) {
        Err(e) => StepView::Done(shown(Err(e))),
        Ok(first) => if replies.len() == 0 {
            StepView::Fetch(first)
        } else {
            match asked(args, "name"@, replies[0]) {
                Err(e) => StepView::Done(shown(Err(e))),
                Ok((name, resp)) => if replies.len() == 1 {
                    StepView::Fetch(
                        RequestView {
                            url: deps_url(name, wanted_version(args, resp)),
                            user_agent: docs_agent(),
                            expect: Expect::Json,
                        },
                    )
                } else {
                    StepView::Done(shown(crate_info_report(args, replies[0], replies[1])))
                },
            }
        },
    }
}

/// The version that a call of `crate_info` asks about.
fn target_version<'a>(args: &'a Json, resp: &'a Json) -> (r: &'a str)
    ensures
        r@ == wanted_version(args@, resp@),
{
    match args.at("version").as_text() {
        Some(v) => v,
        None => resp.at("crate").at("max_version").text_or("?"),
    }
}

/// The features of the version asked about.
fn features_text(resp: &Json, version: &str) -> (r: String)
    ensures
        r@ == features_part(resp@, version@),
{
    match resp.at("versions").as_items() {
        None => String::new(),
        Some(versions) => match find_with(versions, "num", version) {
            None => String::new(),
            Some(v) => match v.at("features").as_members() {
                None => String::new(),
                Some(features) => {
                    let ghost all = member_views(features@);
                    if features.len() == 0 {
                        return String::new();
                    }
                    let count: usize = if features.len() < 15 {
                        features.len()
                    } else {
                        15
                    };
                    let mut names: Vec<String> = Vec::new();
                    let mut i: usize = 0;
                    while i < count
                        invariant
                            i <= count <= features@.len(),
                            all == member_views(features@),
                            views(names@) == Seq::new(i as nat, |j: int| all[j].0),
                        decreases count - i,
                    {
                        let ghost before = views(names@);
                        names.push(text(features[i].0.as_str()));
                        assert(views(names@) =~= before.push(all[i as int].0));
                        i += 1;
                        assert(views(names@) =~= Seq::new(i as nat, |j: int| all[j].0));
                    }
                    assert(views(names@) =~= first_names(all, 15));
                    let mut out = text("\n\nFeatures: ");
                    let joined = join_texts(&names, ", ");
                    out.append(joined.as_str());
                    out
                },
            },
        },
    }
}

fn dep_line(d: &Json) -> (r: String)
    ensures
        r@ == dep_entry(d@),
{
    let mut out = text("  ");
    out.append(d.at("crate_id").text_or("?"));
    out.append(" ");
    out.append(d.at("req").text_or("*"));
    match d.at("optional").as_truth() {
        Some(optional) => if optional {
            out.append(" (optional)");
        },
        None => {},
    }
    out
}

/// The first ten normal dependencies.
fn normal_dep_lines(deps: &Vec<Json>) -> (r: Vec<String>)
    ensures
        views(r@) == normal_deps(json_views(deps@)),
{
    let ghost all = json_views(deps@);
    let mut out: Vec<String> = Vec::new();
    let mut i: usize = 0;
    assert(views(out@) =~= normal_deps(all.take(0)));
    while i < deps.len()
        invariant
            i <= deps@.len(),
            all == json_views(deps@),
            views(out@) == normal_deps(all.take(i as int)),
        decreases deps@.len() - i,
    {
        let ghost before = views(out@);
        assert(all.take(i + 1).drop_last() =~= all.take(i as int));
        assert(before.len() == out@.len());
        if is_text(deps[i].at("kind").as_text(), "normal") && out.len() < 10 {
            out.push(dep_line(&deps[i]));
            assert(views(out@) =~= before.push(dep_entry(all[i as int])));
        }
        i += 1;
    }
    assert(all.take(i as int) =~= all);
    out
}

/// The dependencies of the version asked about.
fn deps_text(reply: &Reply) -> (r: String)
    ensures
        r@ == deps_part(reply@),
{
    match crate::http::body_json(reply) {
        Err(_) => String::new(),
        Ok(resp) => match resp.at("dependencies").as_items() {
            None => String::new(),
            Some(deps) => {
                let entries = normal_dep_lines(deps);
                assert(views(entries@).len() == entries@.len());
                if entries.len() == 0 {
                    String::new()
                } else {
                    let mut out = text("\n\nDependencies:\n");
                    let joined = join_texts(&entries, "\n");
                    out.append(joined.as_str());
                    out
                }
            },
        },
    }
}

/// The report of `crate_info`.
fn crate_info_text(args: &Json, reply: &Reply, deps: &Reply) -> (r: Result<String, String>)
    ensures
        outcome(r) == crate_info_report(args@, reply@, deps@),
{
    match ask(args, "name", reply) {
        Err(e) => Err(e),
        Ok((name, resp)) => {
            let record = resp.at("crate");
            let version = target_version(args, resp);
            let mut out = text("**");
            out.append(name);
            out.append("** v");
            out.append(version);
            out.append("\n");
            out.append(record.at("description").text_or(""));
            out.append("\n\nLatest: ");
            out.append(record.at("max_version").text_or("?"));
            out.append("\nDownloads: ");
            let downloads = decimal_text(record.at("downloads").natural_or(0));
            out.append(downloads.as_str());
            out.append("\nRepository: ");
            out.append(record.at("repository").text_or(""));
            out.append("\nDocs: https://docs.rs/");
            out.append(name);
            out.append("/");
            out.append(version);
            let features = features_text(resp, version);
            out.append(features.as_str());
            let dependencies = deps_text(deps);
            out.append(dependencies.as_str());
            Ok(out)
        },
    }
}

/// How a call of `crate_info` goes on.
pub fn crate_info(args: &Json, replies: &Vec<Reply>) -> (r: Step)
    ensures
        r@ == crate_info_step(args@, reply_views(replies@)),
{
    match request(Tool::CrateInfo, args) {
        Err(e) => Step::Done(show(Err(e))),
        Ok(first) => if replies.len() == 0 {
            Step::Fetch(first)
        } else {
            match ask(args, "name", &replies[0]) {
                Err(e) => Step::Done(show(Err(e))),
                Ok((name, resp)) => if replies.len() == 1 {
                    let mut url = text("https://crates.io/api/v1/crates/");
                    url.append(name);
                    url.append("/");
                    url.append(target_version(args, resp));
                    url.append("/dependencies");
                    Step::Fetch(get(url, Some("nasiko-docs-agent/1.0"), Expect::Json))
                } else {
                    Step::Done(show(crate_info_text(args, &replies[0], &replies[1])))
                },
            }
        },
    }
}

// ─── npm ────────────────────────────────────────────────────────────────────

/// One package of an npm search.
pub open spec fn npm_entry(o: JsonView) -> Seq<char> {
    let package = o.at("package"@);
    let name = package.at("name"@).text_or("?"@);
    "**"@ + name + "** v"@ + package.at("version"@).text_or("?"@) + "\n  "@ + package.at(
        "description"@,
    ).text_or(""@) + "\n  https://www.npmjs.com/package/"@ + name
}

/// The report of `npm_search`.
pub open spec fn npm_search_report(args: JsonView, reply: ReplyView) -> Result<
    Seq<char>,
    Seq<char>,
> {
    match asked(args, "query"@, reply) {
        Err(e) => Err(e),
        Ok((query, resp)) => match resp.at("objects"@).items() {
            None => Err("no results"@),
            Some(objects) => if objects.len() == 0 {
                Ok("No npm packages found for '"@ + query + "'."@)
            } else {
                Ok(join(Seq::new(objects.len(), |i: int| npm_entry(objects[i])), "\n\n"@))
            },
        },
    }
}

fn npm_line(o: &Json) -> (r: String)
    ensures
        r@ == npm_entry(o@),
{
    let package = o.at("package");
    let name = package.at("name").text_or("?");
    let mut out = text("**");
    out.append(name);
    out.append("** v");
    out.append(package.at("version").text_or("?"));
    out.append("\n  ");
    out.append(package.at("description").text_or(""));
    out.append("\n  https://www.npmjs.com/package/");
    out.append(name);
    out
}

/// The report of `npm_search`.
pub fn npm_search(args: &Json, reply: &Reply) -> (r: Result<String, String>)
    ensures
        outcome(r) == npm_search_report(args@, reply@),
{
    match ask(args, "query", reply) {
        Err(e) => Err(e),
        Ok((query, resp)) => match resp.at("objects").as_items() {
            None => Err(text("no results")),
            Some(objects) => {
                let ghost all = json_views(objects@);
                if objects.len() == 0 {
                    let mut out = text("No npm packages found for '");
                    out.append(query);
                    out.append("'.");
                    return Ok(out);
                }
                let mut entries: Vec<String> = Vec::new();
                let mut i: usize = 0;
                while i < objects.len()
                    invariant
                        i <= objects@.len(),
                        all == json_views(objects@),
                        views(entries@) == Seq::new(i as nat, |j: int| npm_entry(all[j])),
                    decreases objects@.len() - i,
                {
                    let ghost before = views(entries@);
                    entries.push(npm_line(&objects[i]));
                    assert(views(entries@) =~= before.push(npm_entry(all[i as int])));
                    i += 1;
                    assert(views(entries@) =~= Seq::new(i as nat, |j: int| npm_entry(all[j])));
                }
                Ok(join_texts(&entries, "\n\n"))
            },
        },
    }
}

/// The first fifteen dependencies of an npm package, each with its version range.
pub open spec fn npm_deps(resp: JsonView) -> Seq<Seq<char>> {
    match resp.at("dependencies"@).members() {
        None => Seq::empty(),
        Some(deps) => Seq::new(
            if deps.len() < 15 {
                deps.len()
            } else {
                15
            },
            |i: int| "  "@ + deps[i].0 + ": "@ + deps[i].1.text_or("*"@),
        ),
    }
}

/// The text of a member, cut after 2000 bytes; empty where there is none.
pub open spec fn excerpt(j: JsonView) -> Seq<char> {
    shortened(j.text_or(""@), 2000, "...\n[truncated]"@)
}

/// The report of `npm_package`.
pub open spec fn npm_package_report(args: JsonView, reply: ReplyView) -> Result<
    Seq<char>,
    Seq<char>,
> {
    match asked(args, "name"@, reply) {
        Err(e) => Err(e),
        Ok((name, resp)) => match resp.get("error"@) {
            Some(error) => Err("Package not found: "@ + notation(error)),
            None => {
                let head = "**"@ + name + "** v"@ + resp.at("version"@).text_or("?"@) + "\n"@
                    + resp.at("description"@).text_or(""@) + "\n\nHomepage: "@ + resp.at(
                    "homepage"@,
                ).text_or(""@) + "\nRepository: "@ + resp.at("repository"@).at("url"@).text_or(
                    ""@,
                );
                let deps = npm_deps(resp);
                let listed = if deps.len() == 0 {
                    head
                } else {
                    head + "\n\nDependencies ("@ + decimal(deps.len()) + "):\n"@ + join(deps, "\n"@)
                };
                let readme = excerpt(resp.at("readme"@));
                Ok(
                    if readme.len() == 0 {
                        listed
                    } else {
                        listed + "\n\n---\nREADME:\n"@ + readme
                    },
                )
            },
        },
    }
}

/// Whether the report of `npm_package` can be cut where it has to be.
pub open spec fn npm_package_cuts(reply: ReplyView) -> bool {
    match reply {
        ReplyView::Json(resp) => resp.get("error"@) is None ==> cuts_cleanly(
            resp.at("readme"@).text_or(""@),
            2000,
        ),
        _ => true,
    }
}

/// The first fifteen dependencies of an npm package.
fn npm_dep_lines(resp: &Json) -> (r: Vec<String>)
    ensures
        views(r@) == npm_deps(resp@),
{
    let mut out: Vec<String> = Vec::new();
    match resp.at("dependencies").as_members() {
        None => {
            assert(views(out@) =~= npm_deps(resp@));
            out
        },
        Some(deps) => {
            let ghost all = member_views(deps@);
            let count: usize = if deps.len() < 15 {
                deps.len()
            } else {
                15
            };
            let mut i: usize = 0;
            assert(views(out@) =~= npm_deps(resp@).take(0));
            while i < count
                invariant
                    i <= count <= deps@.len(),
                    all == member_views(deps@),
                    resp@.at("dependencies"@).members() == Some(all),
                    count == npm_deps(resp@).len(),
                    views(out@) == npm_deps(resp@).take(i as int),
                decreases count - i,
            {
                let ghost before = views(out@);
                let mut line = text("  ");
                line.append(deps[i].0.as_str());
                line.append(": ");
                line.append(deps[i].1.text_or("*"));
                let ghost added = line@;
                out.push(line);
                assert(all[i as int] == (deps@[i as int].0@, deps@[i as int].1@));
                assert(added == npm_deps(resp@)[i as int]);
                assert(views(out@) =~= before.push(added));
                i += 1;
                assert(views(out@) =~= npm_deps(resp@).take(i as int));
            }
            assert(npm_deps(resp@).take(i as int) =~= npm_deps(resp@));
            out
        },
    }
}

/// The report of `npm_package`.
pub fn npm_package(args: &Json, reply: &Reply) -> (r: Result<String, String>)
    requires
        npm_package_cuts(reply@),
    ensures
        outcome(r) == npm_package_report(args@, reply@),
{
    match ask(args, "name", reply) {
        Err(e) => Err(e),
        Ok((name, resp)) => match resp.get("error") {
            Some(error) => {
                let mut out = text("Package not found: ");
                let shown_error = compact(error);
                out.append(shown_error.as_str());
                Err(out)
            },
            None => {
                let mut out = text("**");
                out.append(name);
                out.append("** v");
                out.append(resp.at("version").text_or("?"));
                out.append("\n");
                out.append(resp.at("description").text_or(""));
                out.append("\n\nHomepage: ");
                out.append(resp.at("homepage").text_or(""));
                out.append("\nRepository: ");
                out.append(resp.at("repository").at("url").text_or(""));
                let deps = npm_dep_lines(resp);
                assert(views(deps@).len() == deps@.len());
                if deps.len() > 0 {
                    out.append("\n\nDependencies (");
                    let count = count_text(deps.len());
                    out.append(count.as_str());
                    out.append("):\n");
                    let joined = join_texts(&deps, "\n");
                    out.append(joined.as_str());
                }
                let readme = shorten(resp.at("readme").text_or(""), 2000, "...\n[truncated]");
                if !readme.as_str().is_empty() {
                    out.append("\n\n---\nREADME:\n");
                    out.append(readme.as_str());
                }
                Ok(out)
            },
        },
    }
}

// ─── pypi_package ───────────────────────────────────────────────────────────

/// The first `n` items, or all of them where there are fewer.
pub open spec fn at_most(items: Seq<JsonView>, n: int) -> Seq<JsonView> {
    if items.len() < n {
        items
    } else {
        items.take(n)
    }
}

/// The report of `pypi_package`.
pub open spec fn pypi_package_report(args: JsonView, reply: ReplyView) -> Result<
    Seq<char>,
    Seq<char>,
> {
    match asked(args, "name"@, reply) {
        Err(e) => Err(e),
        Ok((name, resp)) => {
            let info = resp.at("info"@);
            let head = "**"@ + name + "** v"@ + info.at("version"@).text_or("?"@) + "\n"@ + info.at(
                "summary"@,
            ).text_or(""@) + "\n\nPython: "@ + info.at("requires_python"@).text_or("any"@)
                + "\nLicense: "@ + info.at("license"@).text_or("?"@) + "\nHomepage: "@ + info.at(
                "home_page"@,
            ).text_or(""@) + "\nPyPI: "@ + info.at("project_url"@).text_or(""@);
            let deps = texts_of(at_most(info.at("requires_dist"@).items_or_none(), 15));
            let listed = if deps.len() == 0 {
                head
            } else {
                head + "\n\nDependencies:\n  "@ + join(deps, "\n  "@)
            };
            let description = excerpt(info.at("description"@));
            Ok(
                if description.len() == 0 {
                    listed
                } else {
                    listed + "\n\n---\nDescription:\n"@ + description
                },
            )
        },
    }
}

/// Whether the report of `pypi_package` can be cut where it has to be.
pub open spec fn pypi_package_cuts(reply: ReplyView) -> bool {
    match reply {
        ReplyView::Json(resp) => cuts_cleanly(
            resp.at("info"@).at("description"@).text_or(""@),
            2000,
        ),
        _ => true,
    }
}

/// The texts among the first fifteen requirements.
fn requirement_lines(info: &Json) -> (r: Vec<String>)
    ensures
        views(r@) == texts_of(at_most(info@.at("requires_dist"@).items_or_none(), 15)),
{
    match info.at("requires_dist").as_items() {
        None => {
            let out: Vec<String> = Vec::new();
            assert(views(out@) =~= Seq::empty());
            out
        },
        Some(items) => {
            let ghost all = json_views(items@);
            if items.len() < 15 {
                return texts_in(items);
            }
            let mut out: Vec<String> = Vec::new();
            let mut i: usize = 0;
            assert(views(out@) =~= texts_of(all.take(0)));
            while i < 15
                invariant
                    i <= 15 <= items@.len(),
                    all == json_views(items@),
                    views(out@) == texts_of(all.take(i as int)),
                decreases 15 - i,
            {
                let ghost before = views(out@);
                assert(all.take(i + 1).drop_last() =~= all.take(i as int));
                match items[i].as_text() {
                    Some(t) => {
                        out.push(text(t));
                        assert(views(out@) =~= before.push(t@));
                    },
                    None => {},
                }
                i += 1;
            }
            out
        },
    }
}

/// The report of `pypi_package`.
pub fn pypi_package(args: &Json, reply: &Reply) -> (r: Result<String, String>)
    requires
        pypi_package_cuts(reply@),
    ensures
        outcome(r) == pypi_package_report(args@, reply@),
{
    match ask(args, "name", reply) {
        Err(e) => Err(e),
        Ok((name, resp)) => {
            let info = resp.at("info");
            let mut out = text("**");
            out.append(name);
            out.append("** v");
            out.append(info.at("version").text_or("?"));
            out.append("\n");
            out.append(info.at("summary").text_or(""));
            out.append("\n\nPython: ");
            out.append(info.at("requires_python").text_or("any"));
            out.append("\nLicense: ");
            out.append(info.at("license").text_or("?"));
            out.append("\nHomepage: ");
            out.append(info.at("home_page").text_or(""));
            out.append("\nPyPI: ");
            out.append(info.at("project_url").text_or(""));
            let deps = requirement_lines(info);
            assert(views(deps@).len() == deps@.len());
            if deps.len() > 0 {
                out.append("\n\nDependencies:\n  ");
                let joined = join_texts(&deps, "\n  ");
                out.append(joined.as_str());
            }
            let description = shorten(
                info.at("description").text_or(""),
                2000,
                "...\n[truncated]",
            );
            if !description.as_str().is_empty() {
                out.append("\n\n---\nDescription:\n");
                out.append(description.as_str());
            }
            Ok(out)
        },
    }
}

// ─── github_readme ──────────────────────────────────────────────────────────

/// The report of `github_readme`.
pub open spec fn github_readme_report(args: JsonView, reply: ReplyView) -> Result<
    Seq<char>,
    Seq<char>,
> {
    match needed(args, "repo"@) {
        Err(e) => Err(e),
        Ok(repo) => match text_body(reply, "README not found for '"@ + repo + "' (HTTP "@) {
            Err(e) => Err(e),
            Ok(body) => Ok(
                shortened(
                    body,
                    4000,
                    "...\n\n[truncated, full README at https://github.com/"@ + repo + "]"@,
                ),
            ),
        },
    }
}

/// Whether the report of `github_readme` can be cut where it has to be.
pub open spec fn github_readme_cuts(reply: ReplyView) -> bool {
    match reply {
        ReplyView::Text(body) => cuts_cleanly(body, 4000),
        _ => true,
    }
}

/// The report of `github_readme`.
pub fn github_readme(args: &Json, reply: &Reply) -> (r: Result<String, String>)
    requires
        github_readme_cuts(reply@),
    ensures
        outcome(r) == github_readme_report(args@, reply@),
{
    match need(args, "repo") {
        Err(e) => Err(e),
        Ok(repo) => {
            let mut refused = text("README not found for '");
            refused.append(repo);
            refused.append("' (HTTP ");
            match body_text(reply, refused.as_str()) {
                Err(e) => Err(e),
                Ok(body) => {
                    let mut mark = text("...\n\n[truncated, full README at https://github.com/");
                    mark.append(repo);
                    mark.append("]");
                    Ok(shorten(body.as_str(), 4000, mark.as_str()))
                },
            }
        },
    }
}

// ─── web_search ─────────────────────────────────────────────────────────────

/// One result of a web search; it is shown where it has a title and an address.
pub open spec fn hit_entry(hit: HitView) -> Seq<char> {
    let line = "**"@ + trim(hit.title) + "**\n  "@ + hit.href;
    if hit.snippet.len() == 0 {
        line
    } else {
        line + "\n  "@ + hit.snippet
    }
}

/// The first five results that are shown.
pub open spec fn shown_hits(all: Seq<HitView>) -> Seq<Seq<char>>
    decreases all.len(),
{
    if all.len() == 0 {
        Seq::empty()
    } else {
        let head = shown_hits(all.drop_last());
        if head.len() < 5 && all.last().title.len() > 0 && all.last().href.len() > 0 {
            head.push(hit_entry(all.last()))
        } else {
            head
        }
    }
}

/// The report of `web_search`.
pub open spec fn web_search_report(args: JsonView, reply: ReplyView) -> Result<
    Seq<char>,
    Seq<char>,
> {
    match needed(args, "query"@) {
        Err(e) => Err(e),
        Ok(query) => match text_body(reply, "search failed (HTTP "@) {
            Err(e) => Err(e),
            Ok(page) => if shown_hits(hits(page)).len() == 0 {
                Ok("No web results found for '"@ + query + "'."@)
            } else {
                Ok(join(shown_hits(hits(page)), "\n\n"@))
            },
        },
    }
}

fn hit_line(hit: &Hit) -> (r: String)
    ensures
        r@ == hit_entry(hit@),
{
    let mut out = text("**");
    let title = trim_text(hit.title.as_str());
    out.append(title.as_str());
    out.append("**\n  ");
    out.append(hit.href.as_str());
    if !hit.snippet.as_str().is_empty() {
        out.append("\n  ");
        out.append(hit.snippet.as_str());
    }
    out
}

/// The report of `web_search`.
pub fn web_search(args: &Json, reply: &Reply) -> (r: Result<String, String>)
    ensures
        outcome(r) == web_search_report(args@, reply@),
{
    match need(args, "query") {
        Err(e) => Err(e),
        Ok(query) => match body_text(reply, "search failed (HTTP ") {
            Err(e) => Err(e),
            Ok(page) => {
                let found = read_hits(page.as_str());
                let ghost all = hits(page@);
                let mut entries: Vec<String> = Vec::new();
                let mut i: usize = 0;
                assert(views(entries@) =~= shown_hits(all.take(0)));
                while i < found.len()
                    invariant
                        i <= found@.len(),
                        hit_views(found@) == all,
                        views(entries@) == shown_hits(all.take(i as int)),
                    decreases found@.len() - i,
                {
                    let ghost before = views(entries@);
                    assert(before.len() == entries@.len());
                    assert(all[i as int] == found@[i as int]@);
                    assert(all.take(i + 1).drop_last() =~= all.take(i as int));
                    if entries.len() < 5 && !found[i].title.as_str().is_empty()
                        && !found[i].href.as_str().is_empty() {
                        entries.push(hit_line(&found[i]));
                        assert(views(entries@) =~= before.push(hit_entry(all[i as int])));
                    }
                    i += 1;
                }
                assert(all.take(i as int) =~= all);
                assert(views(entries@).len() == entries@.len());
                if entries.len() == 0 {
                    let mut out = text("No web results found for '");
                    out.append(query);
                    out.append("'.");
                    Ok(out)
                } else {
                    Ok(join_texts(&entries, "\n\n"))
                }
            },
        },
    }
}

// ─── Tool calls ─────────────────────────────────────────────────────────────

/// Whether a report on these replies can be cut where it has to be.
pub open spec fn reply_cuts(tool: Tool, replies: Seq<ReplyView>) -> bool {
    replies.len() > 0 ==> match tool {
        Tool::NpmPackage => npm_package_cuts(replies[0]),
        Tool::PypiPackage => pypi_package_cuts(replies[0]),
        Tool::GithubReadme => github_readme_cuts(replies[0]),
        _ => true,
    }
}

/// The report of a tool that sends one request.
pub open spec fn report_of(tool: Tool, args: JsonView, reply: ReplyView) -> Result<
    Seq<char>,
    Seq<char>,
> {
    match tool {
        Tool::CratesIo => crates_io_report(args, reply),
        Tool::CrateInfo => crate_info_report(args, reply, reply),
        Tool::NpmSearch => npm_search_report(args, reply),
        Tool::NpmPackage => npm_package_report(args, reply),
        Tool::PypiPackage => pypi_package_report(args, reply),
        Tool::GithubReadme => github_readme_report(args, reply),
        Tool::WebSearch => web_search_report(args, reply),
    }
}

/// How a call of `tool` goes on after the replies so far.
pub open spec fn call_step(tool: Tool, args: JsonView, replies: Seq<ReplyView>) -> StepView {
    if tool == Tool::CrateInfo {
        crate_info_step(args, replies)
    } else {
        single_fetch(request_for(tool, args), replies, report_of(tool, args, replies[0]))
    }
}

/// How the call of the tool `name` goes on, given what its arguments were read as.
pub open spec fn dispatched(
    name: Seq<char>,
    args: Result<JsonView, Seq<char>>,
    replies: Seq<ReplyView>,
) -> StepView {
    match tool_of(name) {
        None => StepView::Done(shown(Err("Unknown tool: "@ + name))),
        Some(tool) => match args {
            Err(e) => StepView::Done(shown(Err(e))),
            Ok(j) => call_step(tool, j, replies),
        },
    }
}

/// Whether a report of the tool `name` on these replies can be cut where it has to be.
pub fn cuts(name: &str, replies: &Vec<Reply>) -> (r: bool)
    ensures
        r == (tool_of(name@) matches Some(tool) ==> reply_cuts(tool, reply_views(replies@))),
{
    match tool_named(name) {
        None => true,
        Some(tool) => if replies.len() == 0 {
            true
        } else {
            assert(reply_views(replies@)[0] == replies@[0]@);
            match tool {
                Tool::NpmPackage => match &replies[0] {
                    Reply::Json(resp) => resp.get("error").is_some() || can_cut(
                        resp.at("readme").text_or(""),
                        2000,
                    ),
                    _ => true,
                },
                Tool::PypiPackage => match &replies[0] {
                    Reply::Json(resp) => can_cut(
                        resp.at("info").at("description").text_or(""),
                        2000,
                    ),
                    _ => true,
                },
                Tool::GithubReadme => match &replies[0] {
                    Reply::Text(body) => can_cut(body.as_str(), 4000),
                    _ => true,
                },
                _ => true,
            }
        },
    }
}

/// How a call of `tool` goes on after the replies so far.
pub fn call(tool: Tool, args: &Json, replies: &Vec<Reply>) -> (r: Step)
    requires
        reply_cuts(tool, reply_views(replies@)),
    ensures
        r@ == call_step(tool, args@, reply_views(replies@)),
{
    match tool {
        Tool::CrateInfo => crate_info(args, replies),
        _ => match request(tool, args) {
            Err(e) => Step::Done(show(Err(e))),
            Ok(first) => {
                if replies.len() == 0 {
                    return Step::Fetch(first);
                }
                let reply = &replies[0];
                assert(reply_views(replies@)[0] == reply@);
                let report = match tool {
                    Tool::CratesIo => crates_io_search(args, reply),
                    Tool::NpmSearch => npm_search(args, reply),
                    Tool::NpmPackage => npm_package(args, reply),
                    Tool::PypiPackage => pypi_package(args, reply),
                    Tool::GithubReadme => github_readme(args, reply),
                    _ => web_search(args, reply),
                };
                Step::Done(show(report))
            },
        },
    }
}

/// How the call of the tool `name` goes on, given what its arguments were read as.
pub fn dispatch(name: &str, args: &Result<Json, String>, replies: &Vec<Reply>) -> (r: Step)
    requires
        tool_of(name@) matches Some(tool) ==> reply_cuts(tool, reply_views(replies@)),
    ensures
        r@ == dispatched(name@, crate::json::parsed_view(*args), reply_views(replies@)),
{
    match tool_named(name) {
        None => {
            let mut e = text("Unknown tool: ");
            e.append(name);
            Step::Done(show(Err(e)))
        },
        Some(tool) => match args {
            Err(e) => Step::Done(show(Err(text(e.as_str())))),
            Ok(j) => call(tool, j, replies),
        },
    }
}

/// Carries a tool call on: `arguments` is the JSON text from the model, `replies` what came back
/// for the requests so far. Ends in a text for the model; an error is formatted, not raised.
pub fn execute(name: &str, arguments: &str, replies: &Vec<Reply>) -> (r: Step)
    requires
        tool_of(name@) matches Some(tool) ==> reply_cuts(tool, reply_views(replies@)),
    ensures
        r@ == dispatched(name@, json_of_text(arguments@), reply_views(replies@)),
{
    let args = parse(arguments);
    dispatch(name, &args, replies)
}

/// The tools that are advertised to the model are the ones that it can call.
pub proof fn advertised_tools_can_be_called(name: Seq<char>)
    ensures
        advertises(definitions_view(), name) <==> tool_of(name) is Some,
{
    let all = definitions_view();
    definitions_are_named();
    assert(schema_name(all[0]) == Some("crates_io"@));
    assert(schema_name(all[1]) == Some("crate_info"@));
    assert(schema_name(all[2]) == Some("npm_search"@));
    assert(schema_name(all[3]) == Some("npm_package"@));
    assert(schema_name(all[4]) == Some("pypi_package"@));
    assert(schema_name(all[5]) == Some("github_readme"@));
    assert(schema_name(all[6]) == Some("web_search"@));
}

/// A web search shows five results at most.
pub proof fn few_hits_are_shown(all: Seq<HitView>)
    ensures
        shown_hits(all).len() <= 5,
        shown_hits(all).len() <= all.len(),
    decreases all.len(),
{
    if all.len() > 0 {
        few_hits_are_shown(all.drop_last());
    }
}

} // verus!
