//! What the documentation tools read and report, from the members of an answer to a report.

use vstd::prelude::*;

use super::tools::{
    call_step, crate_entry, dep_entry, dispatched, first_names, first_with, hit_entry, normal_deps,
    npm_deps, npm_entry, reply_cuts, request_for, shown_hits, Tool,
};
use crate::http::{Expect, ReplyView, StepView};
use crate::json::notation::notation;
use crate::json::{texts_of, JsonView};
use crate::text::case::all_ascii;
use crate::text::laws::{is_joined, joined_parts_stand, text_can_be_cut};
use crate::text::lines::trim;
use crate::text::search::{contains, group_contained};
use crate::text::url::urlencoded;
use crate::text::width::{byte_len, prefix_within};
use crate::text::{decimal, join};
use crate::web::{browser, hits, HitView};

verus! {

// ─── Addresses ──────────────────────────────────────────────────────────────

/// A call reads the address of what it names: searches carry the query encoded, packages are
/// addressed by name and version, a page by its repository.
pub proof fn named_things_are_read(args: JsonView, name: Seq<char>)
    ensures
        args.at("query"@) == JsonView::Text(name) ==> {
            &&& call_step(Tool::CratesIo, args, Seq::empty()) matches StepView::Fetch(r) && r.url
                == "https://crates.io/api/v1/crates?q="@ + urlencoded(name) + "&per_page=10&sort="@
                + urlencoded(args.at("sort"@).text_or("downloads"@))
            &&& call_step(Tool::NpmSearch, args, Seq::empty()) matches StepView::Fetch(r) && contains(
                r.url,
                "https://registry.npmjs.org/-/v1/search?text="@ + urlencoded(name),
            )
            &&& call_step(Tool::WebSearch, args, Seq::empty()) matches StepView::Fetch(r) && r.url
                == "https://html.duckduckgo.com/html/?q="@ + urlencoded(name)
        },
        args.at("name"@) == JsonView::Text(name) ==> {
            &&& call_step(Tool::CrateInfo, args, Seq::empty()) matches StepView::Fetch(r) && r.url
                == "https://crates.io/api/v1/crates/"@ + name
            &&& call_step(Tool::NpmPackage, args, Seq::empty()) matches StepView::Fetch(r) && r.url
                == "https://registry.npmjs.org/"@ + name + "/"@ + match args.at("version"@) {
                JsonView::Text(v) => v,
                _ => "latest"@,
            }
            &&& call_step(Tool::PypiPackage, args, Seq::empty()) matches StepView::Fetch(r) && r.url
                == "https://pypi.org/pypi/"@ + name + "/json"@
        },
        args.at("repo"@) == JsonView::Text(name) ==> (call_step(
            Tool::GithubReadme,
            args,
            Seq::empty(),
        ) matches StepView::Fetch(r) && r.url == "https://raw.githubusercontent.com/"@ + name
            + "/HEAD/README.md"@),
{
    broadcast use group_contained;

}

/// The dependencies of a crate are read for the version that is named, and for the latest one
/// where none is.
pub proof fn dependencies_of_the_version_are_read(args: JsonView, name: Seq<char>, resp: JsonView)
    requires
        args.at("name"@) == JsonView::Text(name),
    ensures
        call_step(Tool::CrateInfo, args, seq![ReplyView::Json(resp)]) matches StepView::Fetch(r)
            && r.url == "https://crates.io/api/v1/crates/"@ + name + "/"@ + match args.at(
            "version"@,
        ) {
            JsonView::Text(v) => v,
            _ => resp.at("crate"@).at("max_version"@).text_or("?"@),
        } + "/dependencies"@,
{
}

/// The services that ask for it are told who is calling, and each answer is read as what its tool
/// makes use of.
pub proof fn services_are_asked_properly(tool: Tool, args: JsonView)
    requires
        request_for(tool, args) is Ok,
    ensures
        tool == Tool::CratesIo || tool == Tool::CrateInfo
            ==> request_for(tool, args)->Ok_0.user_agent == Some("nasiko-docs-agent/1.0"@),
        tool == Tool::CratesIo || tool == Tool::CrateInfo
            ==> request_for(tool, args)->Ok_0.expect == Expect::Json,
        tool == Tool::NpmSearch || tool == Tool::NpmPackage || tool == Tool::PypiPackage
            ==> request_for(tool, args)->Ok_0.user_agent == None::<Seq<char>>,
        tool == Tool::NpmSearch || tool == Tool::NpmPackage || tool == Tool::PypiPackage
            ==> request_for(tool, args)->Ok_0.expect == Expect::Json,
        tool == Tool::GithubReadme
            ==> request_for(tool, args)->Ok_0.user_agent == None::<Seq<char>>,
        tool == Tool::GithubReadme ==> request_for(tool, args)->Ok_0.expect == Expect::SuccessText,
        tool == Tool::WebSearch ==> request_for(tool, args)->Ok_0.user_agent == Some(browser()),
        tool == Tool::WebSearch ==> request_for(tool, args)->Ok_0.expect == Expect::SuccessText,
{
}

// ─── Crates ─────────────────────────────────────────────────────────────────

/// Whether an entry tells of a crate: its name and version, its downloads, what it is, and the
/// address of its documentation.
pub open spec fn tells_of_crate(entry: Seq<char>, c: JsonView) -> bool {
    let name = c.at("id"@).text_or("?"@);
    let version = c.at("max_version"@).text_or("?"@);
    &&& contains(entry, "**"@ + name + "** v"@ + version)
    &&& contains(entry, " ("@ + decimal(c.at("downloads"@).natural_or(0) as nat))
    &&& contains(entry, " downloads)\n  "@ + c.at("description"@).text_or(""@))
    &&& contains(entry, "\n  docs: https://docs.rs/"@ + name + "/"@ + version)
}

/// The crates that a search finds are reported one after the other, every one of them and in the
/// order of the answer, each with its own name, version, downloads and description.
pub proof fn found_crates_are_reported(
    args: JsonView,
    resp: JsonView,
    crates: Seq<JsonView>,
)
    requires
        args.at("query"@) is Text,
        resp.at("crates"@) == JsonView::List(crates),
        crates.len() > 0,
    ensures
        ({
            let told = call_step(Tool::CratesIo, args, seq![ReplyView::Json(resp)]);
            &&& told is Done
            &&& exists|entries: Seq<Seq<char>>|
                {
                    &&& #[trigger] is_joined(told->Done_0, entries, "\n\n"@)
                    &&& entries.len() == crates.len()
                    &&& forall|i: int|
                        0 <= i < crates.len() ==> tells_of_crate(#[trigger] entries[i], crates[i])
                }
        }),
{
    broadcast use group_contained;

    let entries = Seq::new(crates.len(), |i: int| crate_entry(crates[i]));
    let report = join(entries, "\n\n"@);
    let told = call_step(Tool::CratesIo, args, seq![ReplyView::Json(resp)]);
    assert(told == StepView::Done(report));
    assert(is_joined(told->Done_0, entries, "\n\n"@));
    assert(is_joined(report, entries, "\n\n"@));
    assert forall|i: int| 0 <= i < crates.len() implies tells_of_crate(
        #[trigger] entries[i],
        crates[i],
    ) by {
        let c = crates[i];
        let name = c.at("id"@).text_or("?"@);
        let version = c.at("max_version"@).text_or("?"@);
        let head = "**"@ + name + "** v"@ + version;
        assert(contains(head, head));
        let docs = "\n  docs: https://docs.rs/"@ + name + "/"@ + version;
        let rest = head + " ("@ + decimal(c.at("downloads"@).natural_or(0) as nat)
            + " downloads)\n  "@ + c.at("description"@).text_or(""@);
        assert(entries[i] =~= rest + docs);
        assert(contains(rest + docs, docs));
    }
}

/// The report on a crate tells the version that was asked for, or the latest one, and behind each
/// label the member that it names.
pub proof fn crate_is_reported(
    args: JsonView,
    name: Seq<char>,
    resp: JsonView,
    deps: ReplyView,
)
    requires
        args.at("name"@) == JsonView::Text(name),
    ensures
        call_step(
            Tool::CrateInfo,
            args,
            seq![ReplyView::Json(resp), deps],
        ) matches StepView::Done(report) && {
            let record = resp.at("crate"@);
            let version = match args.at("version"@) {
                JsonView::Text(v) => v,
                _ => record.at("max_version"@).text_or("?"@),
            };
            &&& contains(report, "**"@ + name + "** v"@ + version)
            &&& contains(report, "\n"@ + record.at("description"@).text_or(""@))
            &&& contains(report, "\n\nLatest: "@ + record.at("max_version"@).text_or("?"@))
            &&& contains(
                report,
                "\nDownloads: "@ + decimal(record.at("downloads"@).natural_or(0) as nat),
            )
            &&& contains(report, "\nRepository: "@ + record.at("repository"@).text_or(""@))
            &&& contains(report, "\nDocs: https://docs.rs/"@ + name)
        },
{
    broadcast use group_contained;

    let version = match args.at("version"@) {
        JsonView::Text(v) => v,
        _ => resp.at("crate"@).at("max_version"@).text_or("?"@),
    };
    let head = "**"@ + name + "** v"@ + version;
    assert(contains(head, head));
}

/// The features that are reported are those of the version that is reported, by name.
pub proof fn features_are_reported(
    args: JsonView,
    name: Seq<char>,
    resp: JsonView,
    deps: ReplyView,
    versions: Seq<JsonView>,
    k: int,
    features: Seq<(Seq<char>, JsonView)>,
    i: int,
)
    requires
        args.at("name"@) == JsonView::Text(name),
        resp.at("versions"@) == JsonView::List(versions),
        0 <= k < versions.len(),
        versions[k].at("num"@) == (match args.at("version"@) {
            JsonView::Text(v) => JsonView::Text(v),
            _ => JsonView::Text(resp.at("crate"@).at("max_version"@).text_or("?"@)),
        }),
        forall|j: int| 0 <= j < k ==> (#[trigger] versions[j]).at("num"@) != versions[k].at("num"@),
        versions[k].at("features"@) == JsonView::Object(features),
        0 <= i < features.len(),
        i < 15,
    ensures
        call_step(
            Tool::CrateInfo,
            args,
            seq![ReplyView::Json(resp), deps],
        ) matches StepView::Done(report) && contains(report, features[i].0) && contains(
            report,
            "\n\nFeatures: "@,
        ),
{
    broadcast use group_contained;

    first_is_found(versions, "num"@, versions[k].at("num"@)->Text_0, k);
    let names = first_names(features, 15);
    joined_parts_stand(names, ", "@, i);
    assert(names[i] == features[i].0);
}

proof fn first_is_found(items: Seq<JsonView>, key: Seq<char>, value: Seq<char>, k: int)
    requires
        0 <= k < items.len(),
        items[k].at(key) == JsonView::Text(value),
        forall|j: int| 0 <= j < k ==> (#[trigger] items[j]).at(key) != JsonView::Text(value),
    ensures
        first_with(items, key, value) == Some(items[k]),
    decreases items.len(),
{
    if k > 0 {
        let rest = items.drop_first();
        assert(items[0].at(key) != JsonView::Text(value));
        assert(rest[k - 1] == items[k]);
        assert forall|j: int| 0 <= j < k - 1 implies (#[trigger] rest[j]).at(key) != JsonView::Text(
            value,
        ) by {
            assert(rest[j] == items[j + 1]);
        }
        first_is_found(rest, key, value, k - 1);
    }
}

/// The first ten normal dependencies of a crate are reported, each with its own requirement, and
/// whether it is optional; others are not.
pub proof fn dependencies_are_reported(
    args: JsonView,
    name: Seq<char>,
    resp: JsonView,
    listed: JsonView,
    deps: Seq<JsonView>,
    i: int,
)
    requires
        args.at("name"@) == JsonView::Text(name),
        listed.at("dependencies"@) == JsonView::List(deps),
        0 <= i < deps.len(),
        deps.len() <= 10,
        deps[i].at("kind"@) == JsonView::Text("normal"@),
    ensures
        call_step(
            Tool::CrateInfo,
            args,
            seq![ReplyView::Json(resp), ReplyView::Json(listed)],
        ) matches StepView::Done(report) && {
            let line = "  "@ + deps[i].at("crate_id"@).text_or("?"@) + " "@ + deps[i].at(
                "req"@,
            ).text_or("*"@);
            &&& contains(report, line)
            &&& deps[i].at("optional"@) == JsonView::Bool(true) ==> contains(
                report,
                line + " (optional)"@,
            )
        },
{
    broadcast use group_contained;

    let k = normal_place(deps, i);
    let lines = normal_deps(deps);
    joined_parts_stand(lines, "\n"@, k);
    let entry = dep_entry(deps[i]);
    let line = "  "@ + deps[i].at("crate_id"@).text_or("?"@) + " "@ + deps[i].at("req"@).text_or(
        "*"@,
    );
    assert(contains(entry, line));
    crate::text::laws::joined_parts_tell(lines, "\n"@, k, line);
}

proof fn normal_place(deps: Seq<JsonView>, i: int) -> (k: int)
    requires
        0 <= i < deps.len(),
        deps.len() <= 10,
        deps[i].at("kind"@) == JsonView::Text("normal"@),
    ensures
        0 <= k < normal_deps(deps).len(),
        normal_deps(deps)[k] == dep_entry(deps[i]),
        normal_deps(deps).len() <= deps.len(),
    decreases deps.len(),
{
    normal_count(deps.drop_last());
    if i < deps.len() - 1 {
        let k = normal_place(deps.drop_last(), i);
        assert(deps.drop_last()[i] == deps[i]);
        k
    } else {
        normal_deps(deps).len() - 1
    }
}

proof fn normal_count(deps: Seq<JsonView>)
    ensures
        normal_deps(deps).len() <= deps.len(),
    decreases deps.len(),
{
    if deps.len() > 0 {
        normal_count(deps.drop_last());
    }
}

// ─── npm ────────────────────────────────────────────────────────────────────

/// Whether an entry tells of a package: its name and version, what it is, and its address.
pub open spec fn tells_of_package(entry: Seq<char>, o: JsonView) -> bool {
    let package = o.at("package"@);
    let name = package.at("name"@).text_or("?"@);
    &&& contains(entry, "**"@ + name + "** v"@ + package.at("version"@).text_or("?"@))
    &&& contains(entry, "\n  "@ + package.at("description"@).text_or(""@))
    &&& contains(entry, "\n  https://www.npmjs.com/package/"@ + name)
}

/// The packages that a search finds are reported one after the other, every one of them and in the
/// order of the answer, each with its own name, version and description.
pub proof fn found_packages_are_reported(
    args: JsonView,
    resp: JsonView,
    objects: Seq<JsonView>,
)
    requires
        args.at("query"@) is Text,
        resp.at("objects"@) == JsonView::List(objects),
        objects.len() > 0,
    ensures
        ({
            let told = call_step(Tool::NpmSearch, args, seq![ReplyView::Json(resp)]);
            &&& told is Done
            &&& exists|entries: Seq<Seq<char>>|
                {
                    &&& #[trigger] is_joined(told->Done_0, entries, "\n\n"@)
                    &&& entries.len() == objects.len()
                    &&& forall|i: int|
                        0 <= i < objects.len() ==> tells_of_package(#[trigger] entries[i], objects[i])
                }
        }),
{
    broadcast use group_contained;

    let entries = Seq::new(objects.len(), |i: int| npm_entry(objects[i]));
    let report = join(entries, "\n\n"@);
    let told = call_step(Tool::NpmSearch, args, seq![ReplyView::Json(resp)]);
    assert(told == StepView::Done(report));
    assert(is_joined(told->Done_0, entries, "\n\n"@));
    assert(is_joined(report, entries, "\n\n"@));
    assert forall|i: int| 0 <= i < objects.len() implies tells_of_package(
        #[trigger] entries[i],
        objects[i],
    ) by {
        let package = objects[i].at("package"@);
        let head = "**"@ + package.at("name"@).text_or("?"@) + "** v"@ + package.at(
            "version"@,
        ).text_or("?"@);
        assert(contains(head, head));
    }
}

/// The report on a package tells behind each label the member that it names: version, description,
/// homepage, repository, every dependency with its version, and the README.
pub proof fn package_is_reported(
    args: JsonView,
    name: Seq<char>,
    resp: JsonView,
    i: int,
)
    requires
        args.at("name"@) == JsonView::Text(name),
        resp.get("error"@) is None,
    ensures
        call_step(Tool::NpmPackage, args, seq![ReplyView::Json(resp)]) matches StepView::Done(report)
            && {
            &&& contains(report, "**"@ + name + "** v"@ + resp.at("version"@).text_or("?"@))
            &&& contains(report, "\n"@ + resp.at("description"@).text_or(""@))
            &&& contains(report, "\n\nHomepage: "@ + resp.at("homepage"@).text_or(""@))
            &&& contains(
                report,
                "\nRepository: "@ + resp.at("repository"@).at("url"@).text_or(""@),
            )
            &&& resp.at("dependencies"@) matches JsonView::Object(deps) ==> (0 <= i < deps.len()
                && i < 15 ==> contains(
                report,
                "  "@ + deps[i].0 + ": "@ + deps[i].1.text_or("*"@),
            ))
            &&& resp.at("readme"@) matches JsonView::Text(readme) ==> (0 < readme.len()
                && byte_len(readme) <= 2000 ==> contains(report, "\n\n---\nREADME:\n"@ + readme))
        },
{
    broadcast use group_contained;

    let head = "**"@ + name + "** v"@ + resp.at("version"@).text_or("?"@);
    assert(contains(head, head));
    match resp.at("dependencies"@) {
        JsonView::Object(deps) => {
            if 0 <= i < deps.len() && i < 15 {
                let lines = npm_deps(resp);
                joined_parts_stand(lines, "\n"@, i);
                assert(lines[i] == "  "@ + deps[i].0 + ": "@ + deps[i].1.text_or("*"@));
            }
        },
        _ => {},
    }
}

// ─── PyPI ───────────────────────────────────────────────────────────────────

/// The report on a Python package tells behind each label the member that it names, and its first
/// requirements.
pub proof fn python_package_is_reported(
    args: JsonView,
    name: Seq<char>,
    resp: JsonView,
)
    requires
        args.at("name"@) == JsonView::Text(name),
    ensures
        call_step(Tool::PypiPackage, args, seq![ReplyView::Json(resp)]) matches StepView::Done(
            report,
        ) && {
            let info = resp.at("info"@);
            &&& contains(report, "**"@ + name + "** v"@ + info.at("version"@).text_or("?"@))
            &&& contains(report, "\n"@ + info.at("summary"@).text_or(""@))
            &&& contains(report, "\n\nPython: "@ + info.at("requires_python"@).text_or("any"@))
            &&& contains(report, "\nLicense: "@ + info.at("license"@).text_or("?"@))
            &&& contains(report, "\nHomepage: "@ + info.at("home_page"@).text_or(""@))
            &&& contains(report, "\nPyPI: "@ + info.at("project_url"@).text_or(""@))
            &&& info.at("requires_dist"@) matches JsonView::List(deps) ==> (0 < deps.len() < 15
                && texts_of(deps).len() > 0 ==> contains(
                report,
                "\n\nDependencies:\n  "@ + join(texts_of(deps), "\n  "@),
            ))
            &&& info.at("description"@) matches JsonView::Text(d) ==> (0 < d.len() && byte_len(d)
                <= 2000 ==> contains(report, "\n\n---\nDescription:\n"@ + d))
        },
{
    broadcast use group_contained;

    let head = "**"@ + name + "** v"@ + resp.at("info"@).at("version"@).text_or("?"@);
    assert(contains(head, head));
}

// ─── Pages ──────────────────────────────────────────────────────────────────

/// A README is shown as it is while it is short; a refused one is told by its status.
pub proof fn readme_is_shown(args: JsonView, repo: Seq<char>, body: Seq<char>, status: Seq<char>)
    requires
        args.at("repo"@) == JsonView::Text(repo),
    ensures
        byte_len(body) <= 4000 ==> call_step(
            Tool::GithubReadme,
            args,
            seq![ReplyView::Text(body)],
        ) == StepView::Done(body),
        call_step(Tool::GithubReadme, args, seq![ReplyView::Refused(status)]) matches StepView::Done(
            told,
        ) && contains(told, "README not found for '"@ + repo) && contains(
            told,
            "' (HTTP "@ + status,
        ),
{
    broadcast use group_contained;

    let head = "README not found for '"@ + repo;
    assert(contains(head, head));
    let told = head + "' (HTTP "@ + status;
    assert(contains(told, "' (HTTP "@ + status));
}

/// Whether an entry tells of a result of a search: its title, its address, and its snippet.
pub open spec fn tells_of_hit(entry: Seq<char>, hit: HitView) -> bool {
    &&& contains(entry, "**"@ + trim(hit.title) + "**\n  "@ + hit.href)
    &&& hit.snippet.len() > 0 ==> contains(entry, "\n  "@ + hit.snippet)
}

/// The results of a search that are shown are the first five with a title and an address, in the
/// order of the page, each with its own title, address and snippet.
pub proof fn hits_are_reported(all: Seq<HitView>, i: int)
    requires
        0 <= i < all.len(),
        i < 5,
        forall|k: int|
            0 <= k <= i ==> (#[trigger] all[k]).title.len() > 0 && all[k].href.len() > 0,
    ensures
        i < shown_hits(all).len(),
        tells_of_hit(shown_hits(all)[i], all[i]),
    decreases all.len(),
{
    broadcast use group_contained;

    if i < all.len() - 1 {
        let head = all.drop_last();
        assert(head[i] == all[i]);
        assert forall|k: int| 0 <= k <= i implies (#[trigger] head[k]).title.len() > 0
            && head[k].href.len() > 0 by {
            assert(head[k] == all[k]);
        }
        hits_are_reported(head, i);
    } else {
        all_are_shown(all.drop_last());
        let line = "**"@ + trim(all[i].title) + "**\n  "@ + all[i].href;
        assert(all[i].title.len() > 0);
        assert(shown_hits(all).last() == hit_entry(all[i]));
        assert(contains(line, line));
    }
}

proof fn all_are_shown(all: Seq<HitView>)
    requires
        all.len() <= 5,
        forall|k: int|
            0 <= k < all.len() ==> (#[trigger] all[k]).title.len() > 0 && all[k].href.len() > 0,
    ensures
        shown_hits(all).len() == all.len(),
    decreases all.len(),
{
    if all.len() > 0 {
        let head = all.drop_last();
        assert forall|k: int| 0 <= k < head.len() implies (#[trigger] head[k]).title.len() > 0
            && head[k].href.len() > 0 by {
            assert(head[k] == all[k]);
        }
        all_are_shown(head);
        assert(all[all.len() - 1].title.len() > 0);
    }
}

/// The report of a search is made of the results on the page that are shown.
pub proof fn page_is_reported(args: JsonView, page: Seq<char>)
    requires
        args.at("query"@) is Text,
        shown_hits(hits(page)).len() > 0,
    ensures
        call_step(Tool::WebSearch, args, seq![ReplyView::Text(page)]) matches StepView::Done(report)
            && is_joined(report, shown_hits(hits(page)), "\n\n"@),
{
}

// ─── Calls ──────────────────────────────────────────────────────────────────

proof fn names_differ()
    ensures
        "crate_info"@ != "crates_io"@,
        "npm_search"@ != "crates_io"@,
        "npm_search"@ != "crate_info"@,
        "npm_package"@ != "crates_io"@,
        "npm_package"@ != "crate_info"@,
        "npm_package"@ != "npm_search"@,
        "pypi_package"@ != "crates_io"@,
        "pypi_package"@ != "crate_info"@,
        "pypi_package"@ != "npm_search"@,
        "pypi_package"@ != "npm_package"@,
        "github_readme"@ != "crates_io"@,
        "github_readme"@ != "crate_info"@,
        "github_readme"@ != "npm_search"@,
        "github_readme"@ != "npm_package"@,
        "github_readme"@ != "pypi_package"@,
        "web_search"@ != "crates_io"@,
        "web_search"@ != "crate_info"@,
        "web_search"@ != "npm_search"@,
        "web_search"@ != "npm_package"@,
        "web_search"@ != "pypi_package"@,
        "web_search"@ != "github_readme"@,
{
    reveal_strlit("crates_io");
    reveal_strlit("crate_info");
    reveal_strlit("npm_search");
    reveal_strlit("npm_package");
    reveal_strlit("pypi_package");
    reveal_strlit("github_readme");
    reveal_strlit("web_search");
    assert("crate_info"@.len() != "crates_io"@.len());
    assert("npm_search"@.len() != "crates_io"@.len());
    assert("npm_search"@[0] != "crate_info"@[0]);
    assert("npm_package"@.len() != "crates_io"@.len());
    assert("npm_package"@.len() != "crate_info"@.len());
    assert("npm_package"@.len() != "npm_search"@.len());
    assert("pypi_package"@.len() != "crates_io"@.len());
    assert("pypi_package"@.len() != "crate_info"@.len());
    assert("pypi_package"@.len() != "npm_search"@.len());
    assert("pypi_package"@.len() != "npm_package"@.len());
    assert("github_readme"@.len() != "crates_io"@.len());
    assert("github_readme"@.len() != "crate_info"@.len());
    assert("github_readme"@.len() != "npm_search"@.len());
    assert("github_readme"@.len() != "npm_package"@.len());
    assert("github_readme"@.len() != "pypi_package"@.len());
    assert("web_search"@.len() != "crates_io"@.len());
    assert("web_search"@[0] != "crate_info"@[0]);
    assert("web_search"@[0] != "npm_search"@[0]);
    assert("web_search"@.len() != "npm_package"@.len());
    assert("web_search"@.len() != "pypi_package"@.len());
    assert("web_search"@.len() != "github_readme"@.len());
}

/// Each tool does its own work where it is called by its name.
pub proof fn tools_are_called_by_name(args: JsonView, replies: Seq<ReplyView>)
    ensures
        dispatched("crates_io"@, Ok(args), replies) == call_step(Tool::CratesIo, args, replies),
        dispatched("crate_info"@, Ok(args), replies) == call_step(Tool::CrateInfo, args, replies),
        dispatched("npm_search"@, Ok(args), replies) == call_step(Tool::NpmSearch, args, replies),
        dispatched("npm_package"@, Ok(args), replies) == call_step(Tool::NpmPackage, args, replies),
        dispatched("pypi_package"@, Ok(args), replies) == call_step(Tool::PypiPackage, args, replies),
        dispatched("github_readme"@, Ok(args), replies) == call_step(Tool::GithubReadme, args, replies),
        dispatched("web_search"@, Ok(args), replies) == call_step(Tool::WebSearch, args, replies),
{
    names_differ();
}

/// Arguments that cannot be read are told of, and so is a tool that is not known.
pub proof fn unusable_call_is_explained(name: Seq<char>, e: Seq<char>, replies: Seq<ReplyView>)
    requires
        name != "crates_io"@,
        name != "crate_info"@,
        name != "npm_search"@,
        name != "npm_package"@,
        name != "pypi_package"@,
        name != "github_readme"@,
        name != "web_search"@,
    ensures
        forall|args: Result<JsonView, Seq<char>>| #[trigger]
            dispatched(name, args, replies) == StepView::Done("Error: "@ + ("Unknown tool: "@ + name)),
        dispatched("crates_io"@, Err(e), replies) == StepView::Done("Error: "@ + e),
        dispatched("crate_info"@, Err(e), replies) == StepView::Done("Error: "@ + e),
        dispatched("npm_search"@, Err(e), replies) == StepView::Done("Error: "@ + e),
        dispatched("npm_package"@, Err(e), replies) == StepView::Done("Error: "@ + e),
        dispatched("pypi_package"@, Err(e), replies) == StepView::Done("Error: "@ + e),
        dispatched("github_readme"@, Err(e), replies) == StepView::Done("Error: "@ + e),
        dispatched("web_search"@, Err(e), replies) == StepView::Done("Error: "@ + e),
{
}

/// A reply that cannot be used is told of, with the reason, by every tool that reads one page.
pub proof fn useless_reply_is_explained(args: JsonView, e: Seq<char>)
    requires
        args.at("query"@) is Text,
    ensures
        call_step(Tool::CratesIo, args, seq![ReplyView::Failed(e)]) == StepView::Done(
            "Error: "@ + ("request failed: "@ + e),
        ),
        call_step(Tool::NpmSearch, args, seq![ReplyView::Unreadable(e)]) == StepView::Done(
            "Error: "@ + ("parse failed: "@ + e),
        ),
        call_step(Tool::WebSearch, args, seq![ReplyView::Refused(e)]) matches StepView::Done(told)
            && contains(told, e),
{
    broadcast use group_contained;

}

// ─── Empty and unusable answers ─────────────────────────────────────────────

/// Where nothing is found, what was searched for is named; an answer without a list is an error.
pub proof fn nothing_found_is_told(args: JsonView, query: Seq<char>, resp: JsonView)
    requires
        args.at("query"@) == JsonView::Text(query),
    ensures
        resp.at("crates"@) == JsonView::List(Seq::empty()) ==> call_step(
            Tool::CratesIo,
            args,
            seq![ReplyView::Json(resp)],
        ) == StepView::Done("No crates found for '"@ + query + "'."@),
        resp.at("crates"@) !is List ==> call_step(
            Tool::CratesIo,
            args,
            seq![ReplyView::Json(resp)],
        ) == StepView::Done("Error: "@ + "no results"@),
        resp.at("objects"@) == JsonView::List(Seq::empty()) ==> call_step(
            Tool::NpmSearch,
            args,
            seq![ReplyView::Json(resp)],
        ) == StepView::Done("No npm packages found for '"@ + query + "'."@),
        resp.at("objects"@) !is List ==> call_step(
            Tool::NpmSearch,
            args,
            seq![ReplyView::Json(resp)],
        ) == StepView::Done("Error: "@ + "no results"@),
{
    assert(Seq::<JsonView>::empty().len() == 0);
}

/// A page without hits is told of, with the query; a page that is refused, with what was asked for
/// and its status; a package that is not there, with the error.
pub proof fn missing_page_is_told(
    args: JsonView,
    asked: Seq<char>,
    page: Seq<char>,
    line: Seq<char>,
    resp: JsonView,
    error: JsonView,
)
    ensures
        args.at("query"@) == JsonView::Text(asked) && hits(page).len() == 0 ==> call_step(
            Tool::WebSearch,
            args,
            seq![ReplyView::Text(page)],
        ) == StepView::Done("No web results found for '"@ + asked + "'."@),
        args.at("query"@) == JsonView::Text(asked) ==> call_step(
            Tool::WebSearch,
            args,
            seq![ReplyView::Refused(line)],
        ) == StepView::Done("Error: "@ + ("search failed (HTTP "@ + line + ")"@)),
        args.at("repo"@) == JsonView::Text(asked) ==> call_step(
            Tool::GithubReadme,
            args,
            seq![ReplyView::Refused(line)],
        ) == StepView::Done(
            "Error: "@ + ("README not found for '"@ + asked + "' (HTTP "@ + line + ")"@),
        ),
        args.at("name"@) is Text && resp.get("error"@) == Some(error) ==> call_step(
            Tool::NpmPackage,
            args,
            seq![ReplyView::Json(resp)],
        ) == StepView::Done("Error: "@ + ("Package not found: "@ + notation(error))),
{
}

/// Ten dependencies at most are reported, and only those that are needed to run.
pub proof fn few_dependencies_are_reported(deps: Seq<JsonView>, dep: JsonView)
    ensures
        normal_deps(deps).len() <= 10,
        dep.at("kind"@) == JsonView::Text("normal"@) && normal_deps(deps).len() < 10 ==> normal_deps(
            deps.push(dep),
        ) == normal_deps(deps).push(dep_entry(dep)),
        dep.at("kind"@) != JsonView::Text("normal"@) || normal_deps(deps).len() == 10
            ==> normal_deps(deps.push(dep)) == normal_deps(deps),
    decreases deps.len(),
{
    assert(deps.push(dep).drop_last() =~= deps);
    if deps.len() > 0 {
        few_dependencies_are_reported(deps.drop_last(), dep);
    }
}

/// A text that is cut for a report can be cut where its characters take one byte each; and no other
/// answer needs a cut.
pub proof fn plain_texts_can_be_cut(tool: Tool, resp: JsonView, page: Seq<char>)
    ensures
        all_ascii(resp.at("readme"@).text_or(""@)) ==> reply_cuts(
            Tool::NpmPackage,
            seq![ReplyView::Json(resp)],
        ),
        resp.get("error"@) is Some ==> reply_cuts(Tool::NpmPackage, seq![ReplyView::Json(resp)]),
        all_ascii(resp.at("info"@).at("description"@).text_or(""@)) ==> reply_cuts(
            Tool::PypiPackage,
            seq![ReplyView::Json(resp)],
        ),
        all_ascii(page) ==> reply_cuts(Tool::GithubReadme, seq![ReplyView::Text(page)]),
        reply_cuts(tool, Seq::empty()),
        tool != Tool::NpmPackage && tool != Tool::PypiPackage && tool != Tool::GithubReadme
            ==> reply_cuts(tool, seq![ReplyView::Json(resp)]),
{
    text_can_be_cut(resp.at("readme"@).text_or(""@), 2000);
    text_can_be_cut(resp.at("info"@).at("description"@).text_or(""@), 2000);
    text_can_be_cut(page, 4000);
}

/// Of a long page the first four thousand bytes are shown, and where the rest is.
pub proof fn long_page_is_cut(args: JsonView, repo: Seq<char>, body: Seq<char>)
    requires
        args.at("repo"@) == JsonView::Text(repo),
        byte_len(body) > 4000,
    ensures
        call_step(Tool::GithubReadme, args, seq![ReplyView::Text(body)]) == StepView::Done(
            prefix_within(body, 4000)
                + ("...\n\n[truncated, full README at https://github.com/"@ + repo + "]"@),
        ),
{
}

/// Fifteen features at most are named, from the first one on.
pub proof fn first_features_are_named(features: Seq<(Seq<char>, JsonView)>, i: int)
    ensures
        first_names(features, 15).len() == if features.len() < 15 {
            features.len()
        } else {
            15
        },
        0 <= i < features.len() && i < 15 ==> first_names(features, 15)[i] == features[i].0,
{
}

} // verus!
