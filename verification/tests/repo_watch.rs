use nasiko_agents::agent::events::{Event, Part};
use nasiko_agents::json::notation::compact;
use nasiko_agents::json::serde::parse;
use nasiko_agents::json::Json;
use nasiko_agents::repo_watch::agent::{
    agent_card, begin, calls_in, deliver_to_slack, extract_preview, greeting, is_calling,
    mentions_slack, names_slack, take_digest, take_posting, take_reply, take_result, Delivery,
    RepoWatchAgent, Talk, Turn,
};
use nasiko_agents::repo_watch::commits::{
    find_references, get_commit, read_file, show_contents,
};
use nasiko_agents::repo_watch::files::{
    churns_fit, file_churn, format_file_stat, list_stats, render_patches, sort_by_churn,
    PATCH_BUDGET,
};
use nasiko_agents::repo_watch::github::{
    bearer_token, can_shorten, ensure_success, headers, read_list, refuse, short_hash, split_repo,
    Expect, Progress, Reply, Request,
};
use nasiko_agents::repo_watch::messages::{
    assistant_text, openai_format_messages, output_tokens, record_answer, AssistantPart,
    ChatMessage, UserPart,
};
use nasiko_agents::repo_watch::prompt::{digest_comment, prompt_with, system_prompt};
use nasiko_agents::repo_watch::schedule::{
    choose_trigger, evening_trigger, morning_trigger, next_trigger_duration, parse_trigger_time,
    SCHEDULED_DIGEST_PROMPT,
};
use nasiko_agents::repo_watch::slack;
use nasiko_agents::repo_watch::surveys::{
    compare_diff, fetch_commits, format_pr_activity, is_cut, list_commits, search_prs, Fetch, Step,
};

fn json(text: &str) -> Json {
    parse(text).unwrap()
}

fn body(text: &str) -> Reply {
    Reply::Json(json(text))
}

fn items(text: &str) -> Vec<Json> {
    match json(text) {
        Json::List(items) => items,
        _ => panic!("a list"),
    }
}

fn query(r: &Request) -> String {
    r.query.iter().map(|(k, v)| format!("{k}={v}")).collect::<Vec<_>>().join("&")
}

fn asked(step: Step) -> Request {
    match step {
        Step::Ask(r) => r,
        _ => panic!("something is asked for"),
    }
}

fn told(step: Step) -> String {
    match step {
        Step::Done(t) => t,
        _ => panic!("the survey is done"),
    }
}

fn ends(progress: Progress) -> Result<String, String> {
    match progress {
        Progress::Done { outcome, .. } => outcome,
        _ => panic!("the call is done"),
    }
}

fn wants(progress: Progress) -> Request {
    match progress {
        Progress::Ask(r) => r,
        _ => panic!("something is asked for"),
    }
}

// ─── GitHub ─────────────────────────────────────────────────────────────────

#[test]
fn repositories_are_named_by_two_parts() {
    assert_eq!(split_repo("a/b").unwrap(), ("a".to_string(), "b".to_string()));
    assert_eq!(split_repo("a/b/c").unwrap(), ("a".to_string(), "b/c".to_string()));
    for r in ["", "a", "/", "a/", "/b"] {
        assert_eq!(
            split_repo(r).unwrap_err(),
            format!("'{r}' is not a valid \"owner/name\" repo reference")
        );
    }
}

#[test]
fn hashes_are_shortened() {
    assert_eq!(short_hash("0123456789"), "0123456");
    assert_eq!(short_hash("012"), "012");
    assert!(can_shorten("ßßßß") == "ßßßß".is_char_boundary(7));
    assert!(can_shorten("abcdefgß"));
}

#[test]
fn requests_carry_headers() {
    let h = headers(Expect::List);
    assert_eq!(h.len(), 2);
    assert_eq!(h[0], ("Accept".to_string(), "application/vnd.github+json".to_string()));
    assert_eq!(h[1], ("X-GitHub-Api-Version".to_string(), "2022-11-28".to_string()));
    let h = headers(Expect::Bytes);
    assert_eq!(h[2], ("Accept".to_string(), "application/vnd.github.raw".to_string()));
    assert_eq!(bearer_token(None), None);
    assert_eq!(bearer_token(Some(String::new())), None);
    assert_eq!(bearer_token(Some("t".to_string())), Some("t".to_string()));
}

#[test]
fn refusals_are_explained() {
    let refused = |code: u16| refuse(code, format!("{code} X"), "b".to_string()).unwrap();
    assert_eq!(
        ensure_success(&refused(404), "API").unwrap_err(),
        "API 404 X: b (a private repo needs a GITHUB_TOKEN with read access)"
    );
    assert_eq!(ensure_success(&refused(500), "API").unwrap_err(), "API 500 X: b");
    assert_eq!(ensure_success(&refused(300), "API").unwrap_err(), "API 300 X: b");
    assert_eq!(ensure_success(&refused(199), "API").unwrap_err(), "API 199 X: b");
    for code in [200, 204, 299] {
        assert!(refuse(code, "X".to_string(), "b".to_string()).is_none());
    }
    assert_eq!(
        ensure_success(&Reply::Failed("dns".to_string()), "API").unwrap_err(),
        "request failed: dns"
    );
    assert_eq!(
        ensure_success(&Reply::Unreadable("eof".to_string()), "API").unwrap_err(),
        "parse failed: eof"
    );
    assert_eq!(compact(ensure_success(&body("{}"), "API").unwrap()), "{}");
    assert_eq!(read_list(&body("[1]"), "API").unwrap().len(), 1);
}

// ─── Surveys ────────────────────────────────────────────────────────────────

fn repos(names: &[&str]) -> Vec<String> {
    names.iter().map(|n| n.to_string()).collect()
}

const COMMIT: &str = "{\"sha\":\"abcdef0123\",\"html_url\":\"u\",\"commit\":{\"message\":\"Fix it\\n\\nbecause\",\
    \"author\":{\"name\":\"Ann\",\"date\":\"d\"}}}";

#[test]
fn commits_are_listed() {
    let r = repos(&["a/b"]);
    let first = asked(list_commits(&r, "S", &vec![]));
    assert_eq!(first.url, "https://api.github.com/repos/a/b/commits");
    assert_eq!(query(&first), "since=S&per_page=100&page=1");
    let reply = body(&format!("[{COMMIT},{{}}]"));
    assert_eq!(
        told(list_commits(&r, "S", &vec![reply])),
        "### a/b\n2 commit(s) to a/b since S:\n- abcdef0 Fix it (Ann, d) u\n-   (unknown, ) "
    );
    assert_eq!(
        told(list_commits(&r, "S", &vec![body("[]")])),
        "### a/b\nNo commits to a/b since S."
    );
}

fn full_page() -> Reply {
    body(&format!("[{}]", vec![COMMIT; 100].join(",")))
}

#[test]
fn pages_are_walked_up_to_a_bound() {
    let r = repos(&["a/b"]);
    let second = asked(list_commits(&r, "S", &vec![full_page()]));
    assert_eq!(query(&second), "since=S&per_page=100&page=2");
    let told_now = told(list_commits(&r, "S", &vec![full_page(), body("[]")]));
    assert!(told_now.starts_with("### a/b\n100 commit(s) to a/b since S:\n"));
    let mut replies = Vec::new();
    for _ in 0..9 {
        replies.push(full_page());
    }
    assert_eq!(query(&asked(list_commits(&r, "S", &replies))), "since=S&per_page=100&page=10");
    replies.push(full_page());
    assert!(told(list_commits(&r, "S", &replies)).starts_with("### a/b\n1000 commit(s)"));
}

#[test]
fn dropped_history_is_noticed() {
    let cut_after = |replies: &Vec<Reply>| match fetch_commits("a", "b", "S", replies, 0, 1) {
        Fetch::Done { commits, used, cut } => {
            assert_eq!(used, replies.len());
            (commits.unwrap().len(), cut)
        }
        Fetch::Ask(r) => panic!("the reading is over, not: {}", r.url),
    };
    let mut replies: Vec<Reply> = (0..9).map(|_| full_page()).collect();
    replies.push(body("[{}]"));
    assert_eq!(cut_after(&replies), (901, false));
    replies.pop();
    replies.push(full_page());
    assert_eq!(cut_after(&replies), (1000, true));
    assert_eq!(cut_after(&vec![body("[]")]), (0, false));
    match fetch_commits("a", "b", "S", &vec![body("{}")], 0, 1) {
        Fetch::Done { commits, cut, .. } => assert!(commits.is_err() && !cut),
        Fetch::Ask(r) => panic!("the reading is over, not: {}", r.url),
    }
    assert!(is_cut(10, 100));
    assert!(!is_cut(10, 99));
    assert!(!is_cut(9, 100));
}

#[test]
fn one_repository_does_not_stop_the_others() {
    let r = repos(&["bad", "a/b", "c/d"]);
    let refused = Reply::Refused { code: 500, status: "500 X".to_string(), body: "b".to_string() };
    assert_eq!(
        told(list_commits(&r, "S", &vec![refused, body("[]")])),
        "### bad\nError: 'bad' is not a valid \"owner/name\" repo reference\n\n\
         ### a/b\nError: GitHub commits API 500 X: b\n\n\
         ### c/d\nNo commits to c/d since S."
    );
    assert_eq!(told(list_commits(&vec![], "S", &vec![])), "");
}

#[test]
fn windows_are_compared() {
    let r = repos(&["a/b"]);
    let commits = || body("[{\"sha\":\"head567890\"},{\"sha\":\"early67890\"}]");
    let parent = asked(compare_diff(&r, "S", &vec![commits()]));
    assert_eq!(parent.url, "https://api.github.com/repos/a/b/commits/early67890");
    let found = || body("{\"parents\":[{\"sha\":\"base567890\"}]}");
    let compare = asked(compare_diff(&r, "S", &vec![commits(), found()]));
    assert_eq!(
        compare.url,
        "https://api.github.com/repos/a/b/compare/base567890...head567890"
    );
    let files = body(
        "{\"files\":[{\"filename\":\"x\",\"status\":\"modified\",\"additions\":1,\"deletions\":0,\"patch\":\"+x\"},\
          {\"filename\":\"y\",\"status\":\"added\",\"additions\":5,\"deletions\":1}]}",
    );
    assert_eq!(
        told(compare_diff(&r, "S", &vec![commits(), found(), files])),
        "### a/b\n2 file(s) changed since S (compare base567...head567, 2 commit(s)):\n\
         - y (added, +5/-1)\n- x (modified, +1/-0)\n\nPatches (largest changes first, may be truncated):\n\n\
         ### x\n```diff\n+x\n```"
    );
    let none = body("{\"files\":[]}");
    assert_eq!(
        told(compare_diff(&r, "S", &vec![commits(), found(), none])),
        "### a/b\n2 commit(s) since S, but no file changes reported."
    );
    let first = asked(compare_diff(&r, "S", &vec![commits(), body("{\"parents\":[]}")]));
    assert_eq!(
        first.url,
        "https://api.github.com/repos/a/b/compare/early67890...head567890"
    );
    assert_eq!(
        told(compare_diff(&r, "S", &vec![body("[]")])),
        "### a/b\nNo commits since S, nothing to diff."
    );
    assert_eq!(
        told(compare_diff(&r, "S", &vec![body("[{}]")])),
        "### a/b\nError: missing head hash"
    );
    assert_eq!(
        told(compare_diff(&r, "S", &vec![body("[{\"sha\":\"h\"},{}]")])),
        "### a/b\nError: missing earliest hash"
    );
}

#[test]
fn hashes_that_cannot_be_cut_stop_a_survey() {
    let r = repos(&["a/b"]);
    assert!(matches!(list_commits(&r, "S", &vec![body("[{\"sha\":\"ßßßßß\"}]")]), Step::Stuck));
}

#[test]
fn pull_requests_are_searched() {
    let r = repos(&["a/b"]);
    let ask = asked(search_prs(&r, "S", &vec![]));
    assert_eq!(ask.url, "https://api.github.com/search/issues");
    assert_eq!(query(&ask), "q=repo:a/b is:pr updated:>=S&sort=updated&order=desc&per_page=50");
    let found = body("{\"items\":[{\"number\":7,\"title\":\"T\",\"state\":\"open\",\"created_at\":\"c\",\"html_url\":\"u\"}]}");
    assert_eq!(
        told(search_prs(&r, "S", &vec![found])),
        "### a/b\n1 PR(s) with activity since S:\n- #7 T [state=open, created=c] u"
    );
    assert_eq!(
        told(search_prs(&r, "S", &vec![body("{}")])),
        "### a/b\nNo PR activity on a/b since S."
    );
    let merged = json("{\"state\":\"closed\",\"closed_at\":\"x\",\"pull_request\":{\"merged_at\":\"m\"}}");
    assert_eq!(format_pr_activity(&merged), "- #0  [state=closed, created=, merged=m] ");
    let closed = json("{\"state\":\"closed\",\"closed_at\":\"x\"}");
    assert_eq!(
        format_pr_activity(&closed),
        "- #0  [state=closed, created=, closed=x (not merged)] "
    );
}

// ─── Files ──────────────────────────────────────────────────────────────────

#[test]
fn files_come_most_changed_first() {
    let files = items(
        "[{\"filename\":\"a\",\"additions\":1},{\"filename\":\"b\",\"additions\":2,\"deletions\":3},\
          {\"filename\":\"c\",\"deletions\":1},{\"filename\":\"d\"}]",
    );
    assert!(churns_fit(&files));
    assert_eq!(file_churn(&files[1]), 5);
    let sorted = sort_by_churn(&files);
    let names: Vec<&str> = sorted.iter().map(|f| f.at("filename").text_or("")).collect();
    assert_eq!(names, vec!["b", "a", "c", "d"]);
    assert_eq!(
        list_stats(&sorted),
        "- b (, +2/-3)\n- a (, +1/-0)\n- c (, +0/-1)\n- d (, +0/-0)"
    );
    assert_eq!(format_file_stat(&json("{}")), "-  (, +0/-0)");
    let huge = items("[{\"additions\":18446744073709551615,\"deletions\":1}]");
    assert!(!churns_fit(&huge));
}

#[test]
fn patches_stay_within_the_budget() {
    let patch = |n: usize| format!("{{\"filename\":\"f\",\"patch\":\"{}\"}}", "x".repeat(n));
    let files = items(&format!("[{},{{}},{},{}]", patch(PATCH_BUDGET - 1), patch(5), patch(1)));
    let (shown, omitted) = render_patches(&files);
    assert_eq!(omitted, 1);
    assert_eq!(shown.matches('x').count(), PATCH_BUDGET);
    assert_eq!(shown.matches("### f").count(), 2);
    let wide = items(&format!(
        "[{},{{\"patch\":\"ßß\"}},{}]",
        patch(PATCH_BUDGET - 1),
        patch(1)
    ));
    let (shown, omitted) = render_patches(&wide);
    assert_eq!(omitted, 0);
    assert!(shown.contains("### \n```diff\n\n```"));
    assert!(shown.ends_with("```diff\nx\n```"));
}

// ─── Commits ────────────────────────────────────────────────────────────────

#[test]
fn a_commit_is_shown() {
    let latest = wants(get_commit("a/b", None, &vec![]));
    assert_eq!(latest.url, "https://api.github.com/repos/a/b/commits");
    assert_eq!(query(&latest), "per_page=1");
    let blank = wants(get_commit("a/b", Some(" "), &vec![]));
    assert_eq!(query(&blank), "per_page=1");
    let given = wants(get_commit("a/b", Some("abc"), &vec![]));
    assert_eq!(given.url, "https://api.github.com/repos/a/b/commits/abc");
    let list = body("[{\"sha\":\"newest\"}]");
    let then = wants(get_commit("a/b", None, &vec![list]));
    assert_eq!(then.url, "https://api.github.com/repos/a/b/commits/newest");
    assert_eq!(
        ends(get_commit("a/b", None, &vec![body("[]")])).unwrap_err(),
        "repo has no commits"
    );
    let commit = body(
        "{\"sha\":\"full\",\"parents\":[{\"sha\":\"par\"}],\"commit\":{\"message\":\"M\\nx\",\"author\":{\"name\":\"A\",\"date\":\"D\"}},\
          \"files\":[{\"filename\":\"f\",\"status\":\"added\",\"additions\":2}]}",
    );
    assert_eq!(
        ends(get_commit("a/b", Some("abc"), &vec![commit])).unwrap(),
        "Commit full\nmessage: M\nauthor: A\ndate: D\nparent_hash: par  (use as `git_ref` in read_file for the BEFORE version)\n\n\
         1 file(s) changed (most-changed first):\n- f (added, +2/-0)\n\n\
         To read a file's exact before/after, call read_file with git_ref=full (after) and git_ref=par (before)."
    );
    let first = ends(get_commit("a/b", Some("abc"), &vec![body("{}")])).unwrap();
    assert!(first.starts_with("Commit abc\nmessage: \nauthor: unknown\ndate: \nparent_hash: (none — this is the repo's first commit)\n"));
    let huge = body("{\"files\":[{\"additions\":18446744073709551615,\"deletions\":1}]}");
    assert!(matches!(get_commit("a/b", Some("abc"), &vec![huge]), Progress::Stuck));
    assert!(ends(get_commit("ab", None, &vec![])).is_err());
}

#[test]
fn a_file_is_read_at_a_revision() {
    let ask = wants(read_file("a/b", "src/x.rs", "main", &vec![]));
    assert_eq!(ask.url, "https://api.github.com/repos/a/b/contents/src/x.rs");
    assert_eq!(query(&ask), "ref=main");
    assert_eq!(ask.expect, Expect::Bytes);
    let text = Reply::Bytes("grüße".as_bytes().to_vec());
    assert_eq!(
        ends(read_file("a/b", "p", "r", &vec![text])).unwrap(),
        "p @ r:\n```\ngrüße\n```"
    );
    let gone = Reply::Refused { code: 404, status: "404 Not Found".to_string(), body: String::new() };
    assert_eq!(
        ends(read_file("a/b", "p", "r", &vec![gone])).unwrap(),
        "'p' does not exist at r (added or deleted at this ref — no content)."
    );
    assert_eq!(
        show_contents("p", "r", &vec![0xff, 0x00]),
        "'p' at r is binary/non-UTF-8 (2 bytes) — not shown."
    );
    let long = show_contents("p", "r", &vec![b'x'; 60_001]);
    assert_eq!(
        long,
        format!("p @ r:\n```\n{}\n```\n\n(truncated — file is 60001 bytes)", "x".repeat(60_000))
    );
    let failed = Reply::Unreadable("eof".to_string());
    assert_eq!(ends(read_file("a/b", "p", "r", &vec![failed])).unwrap_err(), "read failed: eof");
}

#[test]
fn references_are_searched() {
    let ask = wants(find_references("a/b", "foo", &vec![]));
    assert_eq!(ask.url, "https://api.github.com/search/code");
    assert_eq!(query(&ask), "q=foo repo:a/b&per_page=50");
    let found = body("{\"items\":[{\"path\":\"x\"},{},{\"path\":\"y\"}]}");
    assert_eq!(
        ends(find_references("a/b", "foo", &vec![found])).unwrap(),
        "2 file(s) reference `foo` in a/b (textual match on the default branch — verify each is a real dependency, not a name collision):\n- x\n- y"
    );
    assert_eq!(
        ends(find_references("a/b", "foo", &vec![body("{}")])).unwrap(),
        "No files in a/b reference `foo` (per code search)."
    );
    let limited = Reply::Refused { code: 403, status: "403 Forbidden".to_string(), body: "slow".to_string() };
    assert_eq!(
        ends(find_references("a/b", "foo", &vec![limited])).unwrap_err(),
        "GitHub code search 403 (rate limit or auth): slow"
    );
}

// ─── Slack ──────────────────────────────────────────────────────────────────

fn post(replies: Vec<slack::Reply>) -> slack::Step {
    let token = Some("t".to_string());
    let channel = Some("C1".to_string());
    slack::post_markdown_file(&token, &channel, "grüße", "d.md", "hello", &replies)
}

fn slack_json(text: &str) -> slack::Reply {
    slack::Reply::Json(json(text))
}

fn posted(step: slack::Step) -> Result<(), String> {
    match step {
        slack::Step::Done(r) => r,
        _ => panic!("the posting is over"),
    }
}

#[test]
fn a_file_is_posted_in_three_steps() {
    let place = || slack_json("{\"ok\":true,\"upload_url\":\"https://up\",\"file_id\":\"F\"}");
    match post(vec![]) {
        slack::Step::Send(slack::Request::GetUploadUrl { url, token, filename, length }) => {
            assert_eq!(url, "https://slack.com/api/files.getUploadURLExternal");
            assert_eq!((token.as_str(), filename.as_str(), length.as_str()), ("t", "d.md", "7"));
        }
        _ => panic!("a place is asked for"),
    }
    match post(vec![place()]) {
        slack::Step::Send(slack::Request::Upload { url, content }) => {
            assert_eq!((url.as_str(), content.as_str()), ("https://up", "grüße"));
        }
        _ => panic!("the file is sent"),
    }
    match post(vec![place(), slack::Reply::Taken]) {
        slack::Step::Send(slack::Request::Complete { url, token, body }) => {
            assert_eq!(url, "https://slack.com/api/files.completeUploadExternal");
            assert_eq!(token, "t");
            let value: serde_json::Value = serde_json::from_str(&compact(&body)).unwrap();
            assert_eq!(value["files"][0]["id"], "F");
            assert_eq!(value["files"][0]["title"], "d.md");
            assert_eq!(value["channel_id"], "C1");
            assert_eq!(value["initial_comment"], "hello");
        }
        _ => panic!("the posting is completed"),
    }
    assert_eq!(
        posted(post(vec![place(), slack::Reply::Taken, slack_json("{\"ok\":true}")])),
        Ok(())
    );
}

#[test]
fn a_posting_can_fail_at_each_step() {
    let place = || slack_json("{\"ok\":true,\"upload_url\":\"https://up\",\"file_id\":\"F\"}");
    let refused = || slack::refuse(500, "500 X".to_string(), "b".to_string()).unwrap();
    for code in [200, 201, 299] {
        assert!(slack::refuse(code, "X".to_string(), "b".to_string()).is_none());
    }
    for code in [100, 199, 300] {
        assert!(slack::refuse(code, "X".to_string(), "b".to_string()).is_some());
    }
    let failed = || slack::Reply::Failed("dns".to_string());
    let error = |replies: Vec<slack::Reply>| posted(post(replies)).unwrap_err();
    assert_eq!(error(vec![failed()]), "request failed: dns");
    assert_eq!(error(vec![refused()]), "Slack files.getUploadURLExternal 500 X: b");
    assert_eq!(
        error(vec![slack::Reply::Unreadable("eof".to_string())]),
        "files.getUploadURLExternal parse failed: eof"
    );
    assert_eq!(
        error(vec![slack_json("{\"ok\":false,\"error\":\"no_auth\"}")]),
        "Slack files.getUploadURLExternal failed: no_auth"
    );
    assert_eq!(error(vec![slack_json("{}")]), "Slack files.getUploadURLExternal failed: unknown");
    assert_eq!(error(vec![slack_json("{\"ok\":true}")]), "missing upload_url in response");
    assert_eq!(
        error(vec![slack_json("{\"ok\":true,\"upload_url\":\"u\"}")]),
        "missing file_id in response"
    );
    assert_eq!(error(vec![place(), failed()]), "file upload request failed: dns");
    assert_eq!(error(vec![place(), refused()]), "file upload 500 X: b");
    assert_eq!(
        error(vec![place(), slack::Reply::Taken, slack_json("{\"ok\":false,\"error\":\"x\"}")]),
        "Slack files.completeUploadExternal failed: x"
    );
    let none: Option<String> = None;
    let some = Some("x".to_string());
    assert_eq!(
        posted(slack::post_markdown_file(&none, &some, "", "", "", &vec![])).unwrap_err(),
        "SLACK_BOT_TOKEN is not set"
    );
    assert_eq!(
        posted(slack::post_markdown_file(&some, &none, "", "", "", &vec![])).unwrap_err(),
        "SLACK_CHANNEL_ID is not set"
    );
}

// ─── Schedule ───────────────────────────────────────────────────────────────

#[test]
fn the_next_trigger_is_waited_for() {
    // Midnight UTC is half past five in the morning in India.
    let (morning, evening) = (27_000, 70_200);
    assert_eq!(next_trigger_duration(0, 0, morning, evening), (2 * 3600, 0));
    assert_eq!(next_trigger_duration(2 * 3600, 0, morning, evening), (12 * 3600, 0));
    assert_eq!(next_trigger_duration(2 * 3600 - 1, 500_000_000, morning, evening), (0, 500_000_000));
    assert_eq!(next_trigger_duration(14 * 3600, 0, morning, evening), (12 * 3600, 0));
    assert_eq!(next_trigger_duration(86_400 * 20_000, 0, morning, evening), (2 * 3600, 0));
    assert_eq!(next_trigger_duration(-1, 0, morning, evening), (2 * 3600 + 1, 0));
    assert_eq!(next_trigger_duration(0, 0, evening, morning), (2 * 3600, 0));
    assert_eq!(next_trigger_duration(0, 0, 19_800, 19_800), (86_400, 0));
    assert_eq!(next_trigger_duration(0, 1, 0, 0), (18 * 3600 + 1800 - 1, 999_999_999));
}

#[test]
fn trigger_times_are_read() {
    assert_eq!(morning_trigger(None).seconds, Some(27_000));
    assert_eq!(evening_trigger(None).seconds, Some(70_200));
    assert!(!morning_trigger(None).fell_back);
    assert_eq!(morning_trigger(Some("06:05")).seconds, Some(21_900));
    assert_eq!(morning_trigger(Some("6:5")).seconds, Some(21_900));
    let odd = evening_trigger(Some("25:00"));
    assert_eq!(odd.seconds, Some(70_200));
    assert!(odd.fell_back);
    assert!(evening_trigger(Some("")).fell_back);
    assert!(evening_trigger(Some("07:30:00")).fell_back);
    assert_eq!(parse_trigger_time(None, "x").seconds, None);
    assert_eq!(parse_trigger_time(Some("23:59"), "x").seconds, Some(86_340));
    assert_eq!(choose_trigger(Some(1), None).seconds, Some(1));
    assert!(choose_trigger(None, Some(2)).fell_back);
    assert_eq!(SCHEDULED_DIGEST_PROMPT, "What changed in the watch list in the last 12 hours?");
}

// ─── Prompt ─────────────────────────────────────────────────────────────────

#[test]
fn the_prompt_tells_the_time() {
    let p = system_prompt(&vec![], 1_700_000_000, 0).unwrap();
    assert!(p.contains("The current UTC time is 2023-11-14T22:13:20+00:00. If"));
    assert!(p.contains("pass since=2023-11-14T10:13:20+00:00 (ISO-8601)"));
    assert!(p.starts_with("You are a repo-watch agent."));
    assert!(p.ends_with("never answer from memory."));
    assert!(!p.contains("watch list: ["));
    assert_eq!(system_prompt(&vec![], i64::MAX, 0), None);
    assert_eq!(system_prompt(&vec![], i64::MIN, 0), None);
    let p = prompt_with(&repos(&["a/b", "c/d"]), "NOW", "THEN");
    assert!(p.contains(
        "If the user doesn't name any repos, use the configured watch list: [\"a/b\", \"c/d\"].\nThe window-survey tools"
    ));
    assert!(p.contains("The current UTC time is NOW."));
    assert!(p.contains("since=THEN "));
    assert_eq!(
        digest_comment(0, 500_000_000).unwrap(),
        "Repo digest — 1970-01-01T00:00:00.500+00:00"
    );
    assert_eq!(digest_comment(i64::MAX, 0), None);
}

// ─── Digest ─────────────────────────────────────────────────────────────────

fn tool(id: &str, name: &str, args: &str) -> AssistantPart {
    AssistantPart::ToolCall { id: id.to_string(), name: name.to_string(), arguments: json(args) }
}

fn says(text: &str) -> AssistantPart {
    AssistantPart::Text(text.to_string())
}

fn completing(turn: Turn) -> (Talk, bool) {
    match turn {
        Turn::Complete { talk, tools } => (talk, tools),
        _ => panic!("a completion is asked for"),
    }
}

#[test]
fn a_digest_is_made() {
    let (talk, tools) = completing(begin("what happened?"));
    assert!(tools);
    let reply = vec![
        says("looking"),
        tool("1", "list_commits", "{\"repos\":[\"a/b\",\"c/d\"]}"),
        tool("2", "get_commit", "{\"repo\":\"a/b\",\"commit_hash\":\"0123456789\"}"),
    ];
    assert_eq!(calls_in(&reply).len(), 2);
    let talk = match take_reply(talk, Ok(reply)) {
        Turn::Call { talk, status } => {
            assert_eq!(status.as_deref(), Some("list_commits: a/b, c/d"));
            talk
        }
        _ => panic!("a tool is called"),
    };
    assert!(is_calling(&talk));
    let talk = match take_result(talk, "r1") {
        Turn::Call { talk, status } => {
            assert_eq!(status.as_deref(), Some("get_commit: a/b @0123456"));
            talk
        }
        _ => panic!("the next tool is called"),
    };
    let (talk, tools) = completing(take_result(talk, "r2"));
    assert!(tools);
    assert_eq!(talk.history.len(), 3);
    match take_reply(talk, Ok(vec![says("## New"), AssistantPart::Other, says("Commits ")])) {
        Turn::Done(r) => assert_eq!(r.unwrap(), "## New\nCommits"),
        _ => panic!("the digest is done"),
    }
}

#[test]
fn a_digest_is_bounded() {
    let mut turn = begin("x");
    let mut completions = 0;
    loop {
        turn = match turn {
            Turn::Complete { talk, tools } => {
                completions += 1;
                if tools {
                    take_reply(talk, Ok(vec![tool("1", "t", "{}")]))
                } else {
                    assert_eq!(completions, 21);
                    take_reply(talk, Ok(vec![says(" ")]))
                }
            }
            Turn::Call { talk, status } => {
                assert_eq!(status.as_deref(), Some("t: ..."));
                take_result(talk, "r")
            }
            Turn::Done(r) => {
                assert_eq!(
                    r.unwrap(),
                    "Reached the maximum number of steps without a final answer."
                );
                break;
            }
        };
    }
}

#[test]
fn a_digest_is_plain() {
    for (said, digest) in [("  two \n", "two"), ("one <｜call｜>", "one"), (" a < b", "a < b")] {
        let (talk, _) = completing(begin("x"));
        match take_reply(talk, Ok(vec![says(said)])) {
            Turn::Done(r) => assert_eq!(r.unwrap(), digest),
            _ => panic!("the digest is over"),
        }
    }
}

#[test]
fn a_failed_completion_ends_the_digest() {
    let (talk, _) = completing(begin("x"));
    match take_reply(talk, Err("x".to_string())) {
        Turn::Done(r) => assert_eq!(r.unwrap_err(), "LLM API error: x"),
        _ => panic!("the digest is over"),
    }
}

#[test]
fn digest_calls_are_previewed() {
    for (args, expected) in [
        ("{\"repos\":[\"a\",1,\"b\"]}", "a, b"),
        ("{\"repos\":[],\"repo\":\"r\"}", "r"),
        ("{\"repo\":\"r\",\"path\":\"p\",\"symbol\":\"s\"}", "r p"),
        ("{\"repo\":\"r\",\"symbol\":\"s\"}", "r `s`"),
        ("{\"repo\":\"r\",\"commit_hash\":\"abc\"}", "r @abc"),
        ("{}", "..."),
        ("null", "..."),
    ] {
        assert_eq!(extract_preview(&json(args)).as_deref(), Some(expected), "{args}");
    }
    assert_eq!(extract_preview(&json("{\"repo\":\"r\",\"commit_hash\":\"ßßßßß\"}")), None);
}

#[test]
fn delivery_is_decided_by_the_request() {
    assert!(mentions_slack("Post it to SLACK please"));
    assert!(mentions_slack("slackline"));
    assert!(!mentions_slack("post it"));
    assert!(names_slack("slack"));
    assert!(!names_slack("SLACK"));
    assert_eq!(deliver_to_slack("D", &Ok(())), "✅ Posted the digest to Slack.");
    assert_eq!(
        deliver_to_slack("D", &Err("e".to_string())),
        "D\n\n⚠️ Could not post to Slack: e"
    );
    assert!(matches!(greeting(), Event::Working(None)));
    match take_digest(true, Ok("D".to_string())) {
        Delivery::Post { event: Event::Working(Some(said)), digest } => {
            assert_eq!(said, "posting digest to Slack");
            assert_eq!(digest, "D");
        }
        _ => panic!("the digest is posted"),
    }
    match take_digest(false, Ok("D".to_string())) {
        Delivery::Finish(events) => assert_eq!(events.len(), 2),
        _ => panic!("the task is over"),
    }
    match take_digest(true, Err("e".to_string())) {
        Delivery::Finish(events) => assert!(matches!(events[0], Event::Failed(_))),
        _ => panic!("the task has failed"),
    }
    match &take_posting("D", &Ok(()))[0] {
        Event::Artifact { text, .. } => assert_eq!(text, "✅ Posted the digest to Slack."),
        _ => panic!("the reply comes first"),
    }
    match &take_posting("D", &Err("e".to_string()))[0] {
        Event::Artifact { text, .. } => assert!(text.starts_with("D\n\n")),
        _ => panic!("the reply comes first"),
    }
}

#[test]
fn the_agent_is_configured() {
    let agent = RepoWatchAgent::new(Some(" a/b\tc/d ".to_string()), None, None, None);
    assert_eq!(agent.default_repos, vec!["a/b", "c/d"]);
    assert_eq!(agent.model, "gpt-4o-mini");
    assert_eq!(agent.base_url, "https://api.openai.com/v1");
    assert_eq!(agent.api_key, "");
    assert!(RepoWatchAgent::new(None, None, None, None).default_repos.is_empty());
    let card = agent_card(8000);
    assert_eq!(card.version, "0.1.0");
    assert_eq!(card.organization, "Nasiko");
    assert_eq!(card.skills[0].tags, vec!["github", "monitoring", "digest"]);
}

#[test]
fn conversations_are_put_in_the_common_format() {
    let history = vec![
        ChatMessage::System("s".to_string()),
        ChatMessage::User(vec![UserPart::Text("u".to_string()), UserPart::Other]),
        ChatMessage::Assistant(vec![says("a"), says("b"), tool("1", "t", "{\"k\": 1}")]),
    ];
    let prompt = ChatMessage::User(vec![UserPart::ToolResult {
        id: "1".to_string(),
        content: vec![Part::Text("x".to_string()), Part::Other, Part::Text("y".to_string())],
    }]);
    let shown: Vec<String> =
        openai_format_messages("p", &history, &prompt).iter().map(|m| compact(m)).collect();
    assert_eq!(
        shown,
        vec![
            "{\"role\":\"system\",\"content\":\"p\"}",
            "{\"role\":\"system\",\"content\":\"s\"}",
            "{\"role\":\"user\",\"content\":\"u\"}",
            "{\"role\":\"assistant\",\"content\":\"a\\nb\",\"tool_calls\":[{\"id\":\"1\",\"function\":{\"name\":\"t\",\"arguments\":\"{\\\"k\\\":1}\"}}]}",
            "{\"role\":\"tool\",\"tool_call_id\":\"1\",\"content\":\"x\\ny\"}",
        ]
    );
    assert_eq!(assistant_text(&vec![says("a"), tool("1", "t", "{}"), says("b")]), "a\nb");
    assert_eq!(
        compact(&record_answer(&vec![says("a")])),
        "[{\"role\":\"assistant\",\"parts\":[{\"type\":\"text\",\"content\":\"a\"}],\"finish_reason\":\"stop\"}]"
    );
    assert_eq!(output_tokens(3, 10), 7);
    assert_eq!(output_tokens(10, 3), 0);
}
