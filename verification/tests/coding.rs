use nasiko_agents::coding::agent::{agent_card, begin, greeting, rules, without_sandbox, MAX_TURNS};
use nasiko_agents::coding::project::{detect, test_command, Language, Search};
use nasiko_agents::coding::sandbox::{
    exec_result, explain, from_env, is_noise, show_directory, show_file, time_limit, Ended, Entry,
    ExecResult, Found, LocalSandbox,
};
use nasiko_agents::coding::tools::{
    apply_edits, definitions, dispatch, execute, format_exec, tool_named, Answer, Ask, Step, Tool,
};
use nasiko_agents::agent::events::Event;
use nasiko_agents::agent::talk::Turn;
use nasiko_agents::json::notation::compact;
use nasiko_agents::json::serde::parse;

/// A workspace held in memory, with a shell that gives one result.
struct Workspace {
    sandbox: LocalSandbox,
    files: Vec<(String, String)>,
    shell: (&'static str, &'static str, i32),
    commands: Vec<(String, Option<u64>)>,
}

impl Workspace {
    fn new() -> Workspace {
        let found = Found { canonical: "/work/space".to_string(), is_dir: true };
        Workspace {
            sandbox: LocalSandbox::new("space", Ok(found)).unwrap(),
            files: Vec::new(),
            shell: ("", "", 0),
            commands: Vec::new(),
        }
    }

    fn read_raw(&self, path: &str) -> Result<String, String> {
        let full = self.sandbox.resolve(path)?;
        match self.files.iter().find(|f| f.0 == full) {
            Some(f) => Ok(f.1.clone()),
            None => Err(explain("read", path, "No such file or directory")),
        }
    }

    fn read_file(&self, path: &str, range: Option<(usize, usize)>) -> Result<String, String> {
        Ok(show_file(&self.read_raw(path)?, range))
    }

    fn write_file(&mut self, path: &str, content: &str) -> Result<(), String> {
        let full = self.sandbox.resolve(path)?;
        self.files.retain(|f| f.0 != full);
        self.files.push((full, content.to_string()));
        Ok(())
    }

    fn list_dir(&self, path: &str) -> Result<String, String> {
        let base = self.sandbox.resolve(path)?;
        let mut entries: Vec<Entry> = Vec::new();
        for (full, _) in &self.files {
            if let Some(below) = full.strip_prefix(&format!("{base}/")) {
                let mut names = vec!["space".to_string()];
                names.extend(below.split('/').map(|n| n.to_string()));
                let from_root = full.strip_prefix("/work/space/").unwrap();
                entries.push(Entry { path: from_root.to_string(), names, is_dir: false });
            }
        }
        Ok(show_directory(path, &entries))
    }

    fn exec(&mut self, command: &str, timeout_s: Option<u64>) -> Result<ExecResult, String> {
        self.commands.push((command.to_string(), timeout_s));
        let ended = Ended::Ran {
            stdout: self.shell.0.as_bytes().to_vec(),
            stderr: self.shell.1.as_bytes().to_vec(),
            code: Some(self.shell.2),
        };
        exec_result(command, timeout_s, ended)
    }

    fn answer(&mut self, ask: Ask) -> Answer {
        let text = match ask {
            Ask::ReadFile { path, range } => self.read_file(&path, range),
            Ask::ReadRaw { path } => self.read_raw(&path),
            Ask::ListDir { path, .. } => self.list_dir(&path),
            Ask::WriteFile { path, content } => {
                return match self.write_file(&path, &content) {
                    Ok(()) => Answer::Wrote,
                    Err(e) => Answer::Failed(e),
                }
            }
            Ask::Exec { command, timeout_s } => {
                return match self.exec(&command, timeout_s) {
                    Ok(x) => Answer::Ran(x),
                    Err(e) => Answer::Failed(e),
                }
            }
        };
        match text {
            Ok(t) => Answer::Text(t),
            Err(e) => Answer::Failed(e),
        }
    }

    fn call(&mut self, name: &str, arguments: &str) -> String {
        let mut answers: Vec<Answer> = Vec::new();
        loop {
            match execute(name, arguments, &answers) {
                Step::Done(t) => return t,
                Step::Ask(ask) => {
                    let a = self.answer(ask);
                    answers.push(a);
                }
            }
        }
    }
}

// ─── Sandbox ────────────────────────────────────────────────────────────────

#[test]
fn write_read_roundtrip() {
    let mut sb = Workspace::new();
    sb.write_file("src/lib.rs", "fn a() {}\nfn b() {}\n").unwrap();
    let out = sb.read_file("src/lib.rs", None).unwrap();
    assert!(out.contains("1\tfn a() {}"));
    assert!(out.contains("2\tfn b() {}"));
}

#[test]
fn read_range() {
    let mut sb = Workspace::new();
    sb.write_file("f.txt", "l1\nl2\nl3\nl4\n").unwrap();
    let out = sb.read_file("f.txt", Some((2, 3))).unwrap();
    assert_eq!(out, "2\tl2\n3\tl3");
}

#[test]
fn ranges_are_inclusive_and_clipped() {
    let text = "a\nb\nc";
    assert_eq!(show_file(text, Some((0, 1))), "1\ta");
    assert_eq!(show_file(text, Some((3, usize::MAX))), "3\tc");
    assert_eq!(show_file(text, Some((4, 9))), "");
    assert_eq!(show_file(text, Some((2, 1))), "");
    assert_eq!(show_file(text, None), "1\ta\n2\tb\n3\tc");
    assert_eq!(show_file("", None), "");
}

#[test]
fn list_skips_noise_dirs() {
    let mut sb = Workspace::new();
    sb.write_file("src/main.rs", "").unwrap();
    sb.write_file("target/junk", "").unwrap();
    sb.write_file(".git/cfg", "").unwrap();
    let out = sb.list_dir(".").unwrap();
    assert!(out.contains("src/main.rs"));
    assert!(!out.contains("target"));
    assert!(!out.contains(".git"));
    assert!(is_noise("node_modules"));
    assert!(!is_noise("src"));
}

#[test]
fn directories_are_marked() {
    let entry = |path: &str, is_dir: bool| Entry {
        path: path.to_string(),
        names: path.split('/').map(|n| n.to_string()).collect(),
        is_dir,
    };
    let entries = vec![entry("", true), entry("src", true), entry("src/a.rs", false)];
    assert_eq!(show_directory(".", &entries), "src/\nsrc/a.rs");
    assert_eq!(show_directory("x", &vec![entry("target", true)]), "(empty) x");
    assert_eq!(show_directory("x", &vec![]), "(empty) x");
}

#[test]
fn exec_captures_output_and_code() {
    let mut sb = Workspace::new();
    sb.shell = ("hi\n", "err\n", 3);
    let r = sb.exec("echo hi; echo err 1>&2; exit 3", None).unwrap();
    assert_eq!(r.stdout.trim(), "hi");
    assert_eq!(r.stderr.trim(), "err");
    assert_eq!(r.exit_code, 3);
}

#[test]
fn commands_that_do_not_end_well() {
    let e = exec_result("x", None, Ended::NotStarted("why".to_string())).unwrap_err();
    assert_eq!(e, "spawn command failed: why");
    let e = exec_result("x", None, Ended::Lost("why".to_string())).unwrap_err();
    assert_eq!(e, "command failed: why");
    let e = exec_result("sleep 9", Some(2), Ended::TimedOut).unwrap_err();
    assert_eq!(e, "command timed out after 2s: sleep 9");
    let e = exec_result("sleep 9", None, Ended::TimedOut).unwrap_err();
    assert_eq!(e, "command timed out after 120s: sleep 9");
    assert_eq!(time_limit(None), 120);
    assert_eq!(time_limit(Some(5)), 5);
    let killed = Ended::Ran { stdout: vec![], stderr: vec![], code: None };
    assert_eq!(exec_result("x", None, killed).unwrap().exit_code, -1);
}

#[test]
fn output_that_is_not_text_is_replaced() {
    let ended = Ended::Ran { stdout: vec![0x61, 0xff, 0x62], stderr: vec![0xc3, 0x9f], code: Some(0) };
    let r = exec_result("x", None, ended).unwrap();
    assert_eq!(r.stdout, "a\u{fffd}b");
    assert_eq!(r.stderr, "ß");
}

#[test]
fn path_containment_rejects_escape() {
    let mut sb = Workspace::new();
    assert!(sb.read_file("../escape.txt", None).is_err());
    assert!(sb.write_file("../../etc/passwd", "x").is_err());
    assert!(sb.read_file("/etc/passwd", None).is_err());
    // A `..` that stays within root is fine.
    sb.write_file("a/b.txt", "x").unwrap();
    assert!(sb.read_file("a/../a/b.txt", None).is_ok());
}

#[test]
fn paths_are_resolved_from_their_text() {
    let sb = Workspace::new().sandbox;
    assert_eq!(sb.resolve("a/./b//c/").unwrap(), "/work/space/a/b/c");
    assert_eq!(sb.resolve("a/../../x").unwrap_err(), "path 'a/../../x' escapes the workspace");
    assert_eq!(sb.resolve("..").unwrap_err(), "path '..' escapes the workspace");
    assert_eq!(
        sb.resolve("/x").unwrap_err(),
        "absolute path '/x' is not allowed; use a relative path"
    );
    assert_eq!(sb.resolve(".").unwrap(), "/work/space");
    assert_eq!(sb.resolve("").unwrap(), "/work/space");
    assert_eq!(sb.resolve("...").unwrap(), "/work/space/...");
    let top = Found { canonical: "/".to_string(), is_dir: true };
    let sb = LocalSandbox::new("/", Ok(top)).unwrap();
    assert_eq!(sb.resolve("a/b").unwrap(), "/a/b");
    assert!(sb.resolve("a/../..").is_err());
}

#[test]
fn roots_must_be_directories() {
    let e = LocalSandbox::new("w", Err("gone".to_string())).unwrap_err();
    assert_eq!(e, "workspace root 'w' is not accessible: gone");
    let file = Found { canonical: "/w".to_string(), is_dir: false };
    assert_eq!(
        LocalSandbox::new("w", Ok(file)).unwrap_err(),
        "workspace root 'w' is not a directory"
    );
}

#[test]
fn backend_is_chosen_by_the_environment() {
    assert_eq!(from_env(None, None).unwrap(), ".");
    assert_eq!(from_env(Some("local".to_string()), Some("/w".to_string())).unwrap(), "/w");
    assert_eq!(
        from_env(Some("remote".to_string()), None).unwrap_err(),
        "SANDBOX_MODE=remote is not implemented yet (Phase 2)"
    );
    assert_eq!(
        from_env(Some("x".to_string()), None).unwrap_err(),
        "unknown SANDBOX_MODE 'x' (expected 'local' or 'remote')"
    );
}

// ─── Tools ──────────────────────────────────────────────────────────────────

#[test]
fn edit_file_unique_replace() {
    let mut sb = Workspace::new();
    sb.write_file("lib.rs", "fn a() {}\nfn b() {}\n").unwrap();
    let args =
        "{\"path\": \"lib.rs\", \"search\": \"fn b() {}\", \"replace\": \"fn b() { add(1,2); }\"}";
    let out = sb.call("edit_file", args);
    assert!(out.contains("Applied 1 edit"), "got: {out}");
    let raw = sb.read_raw("lib.rs").unwrap();
    assert!(raw.contains("fn b() { add(1,2); }"));
    assert_eq!(raw, "fn a() {}\nfn b() { add(1,2); }\n");
}

#[test]
fn edit_file_not_found_errors() {
    let mut sb = Workspace::new();
    sb.write_file("lib.rs", "fn a() {}\n").unwrap();
    let args = "{\"path\": \"lib.rs\", \"search\": \"fn zzz() {}\", \"replace\": \"x\"}";
    let out = sb.call("edit_file", args);
    assert!(out.contains("not found"), "got: {out}");
}

#[test]
fn edit_file_not_unique_errors() {
    let mut sb = Workspace::new();
    sb.write_file("lib.rs", "x\nx\n").unwrap();
    let args = "{\"path\": \"lib.rs\", \"search\": \"x\", \"replace\": \"y\"}";
    let out = sb.call("edit_file", args);
    assert!(out.contains("not unique"), "got: {out}");
    assert_eq!(
        out,
        "Error: search block is not unique in lib.rs (2 matches); add more surrounding context"
    );
}

#[test]
fn refused_edits_write_nothing() {
    let mut sb = Workspace::new();
    sb.write_file("f", "one two").unwrap();
    let args = "{\"path\":\"f\",\"edits\":[{\"search\":\"one\",\"replace\":\"1\"},{\"search\":\"zzz\",\"replace\":\"\"}]}";
    assert_eq!(sb.call("edit_file", args), "Error: edit 2 search block not found in f");
    assert_eq!(sb.read_raw("f").unwrap(), "one two");
}

#[test]
fn edits_are_applied_in_order() {
    let edit = |s: &str, r: &str| (s.to_string(), r.to_string());
    let edits = vec![edit("b", "xx"), edit("xx", "c")];
    assert_eq!(apply_edits("f", "abd", &edits).unwrap(), "acd");
    let mut sb = Workspace::new();
    sb.write_file("f", "abd").unwrap();
    let args = "{\"path\":\"f\",\"edits\":[{\"search\":\"b\",\"replace\":\"xx\"}],\"search\":\"xx\",\"replace\":\"c\"}";
    assert_eq!(sb.call("edit_file", args), "Applied 2 edit(s) to f");
    assert_eq!(sb.read_raw("f").unwrap(), "acd");
}

#[test]
fn one_call_with_two_edits_is_two_calls() {
    let both = "{\"path\":\"f\",\"edits\":[{\"search\":\"a\",\"replace\":\"bb\"},{\"search\":\"bbc\",\"replace\":\"d\"}]}";
    let one = "{\"path\":\"f\",\"search\":\"a\",\"replace\":\"bb\"}";
    let other = "{\"path\":\"f\",\"search\":\"bbc\",\"replace\":\"d\"}";
    for content in ["ac", "xacy", "ab", "bbc", "aac", ""] {
        let mut at_once = Workspace::new();
        at_once.write_file("f", content).unwrap();
        let told = at_once.call("edit_file", both);
        let mut in_turn = Workspace::new();
        in_turn.write_file("f", content).unwrap();
        let made = in_turn.call("edit_file", one).starts_with("Applied 1")
            && in_turn.call("edit_file", other).starts_with("Applied 1");
        assert_eq!(told.starts_with("Applied 2"), made, "{content}");
        if made {
            assert_eq!(at_once.read_raw("f").unwrap(), in_turn.read_raw("f").unwrap());
        } else {
            assert_eq!(at_once.read_raw("f").unwrap(), content);
        }
    }
}

#[test]
fn edits_must_be_given() {
    let mut sb = Workspace::new();
    sb.write_file("f", "a").unwrap();
    let none = "Error: provide either 'search'+'replace' or a non-empty 'edits' array";
    assert_eq!(sb.call("edit_file", "{\"path\":\"f\"}"), none);
    assert_eq!(sb.call("edit_file", "{\"path\":\"f\",\"edits\":[]}"), none);
    assert_eq!(sb.call("edit_file", "{\"path\":\"f\",\"search\":\"a\"}"), none);
    assert_eq!(
        sb.call("edit_file", "{\"path\":\"f\",\"edits\":[{\"replace\":\"x\"}]}"),
        "Error: edits[0] missing 'search'"
    );
    assert_eq!(
        sb.call("edit_file", "{\"path\":\"f\",\"edits\":[{\"search\":\"x\"}]}"),
        "Error: edits[0] missing 'replace'"
    );
    assert_eq!(sb.call("edit_file", "{}"), "Error: missing or non-string 'path'");
}

#[test]
fn an_empty_search_fits_everywhere() {
    let edits = vec![(String::new(), "x".to_string())];
    assert_eq!(apply_edits("f", "", &edits).unwrap(), "x");
    assert_eq!(
        apply_edits("f", "ab", &edits).unwrap_err(),
        "search block is not unique in f (3 matches); add more surrounding context"
    );
}

#[test]
fn run_command_reports_exit() {
    let mut sb = Workspace::new();
    sb.shell = ("hi\n", "", 0);
    let out = sb.call("run_command", "{\"command\": \"echo hi\"}");
    assert!(out.contains("exit code: 0"));
    assert!(out.contains("hi"));
    assert_eq!(out, "exit code: 0\n--- stdout ---\nhi\n");
    assert_eq!(sb.commands, vec![("echo hi".to_string(), None)]);
}

#[test]
fn results_of_commands_are_shown() {
    let r = |stdout: &str, stderr: &str, exit_code: i32| ExecResult {
        stdout: stdout.to_string(),
        stderr: stderr.to_string(),
        exit_code,
    };
    assert_eq!(format_exec(&r(" \n", "", -1)), "exit code: -1\n");
    assert_eq!(
        format_exec(&r("a", "b\n", 2)),
        "exit code: 2\n--- stdout ---\na\n--- stderr ---\nb\n"
    );
}

#[test]
fn unknown_tool_errors() {
    let mut sb = Workspace::new();
    let out = sb.call("nope", "{}");
    assert!(out.contains("unknown tool"));
    assert_eq!(out, "Error: unknown tool: nope");
}

#[test]
fn arguments_must_be_json() {
    let mut sb = Workspace::new();
    let out = sb.call("read_file", "{");
    assert!(out.starts_with("Error: invalid tool arguments JSON: "));
    assert!(out.contains("EOF"));
}

#[test]
fn files_are_read_and_written() {
    let mut sb = Workspace::new();
    let args = "{\"path\":\"f\",\"content\":\"grüße\\nzwei\"}";
    assert_eq!(sb.call("write_file", args), "Wrote 12 bytes to f");
    assert_eq!(sb.call("read_file", "{\"path\":\"f\"}"), "1\tgrüße\n2\tzwei");
    assert_eq!(sb.call("read_file", "{\"path\":\"f\",\"start_line\":2}"), "2\tzwei");
    assert_eq!(
        sb.call("read_file", "{\"path\":\"f\",\"start_line\":1,\"end_line\":1}"),
        "1\tgrüße"
    );
    assert_eq!(
        sb.call("read_file", "{\"path\":\"f\",\"end_line\":1}"),
        "1\tgrüße"
    );
    assert_eq!(
        sb.call("read_file", "{\"path\":\"g\"}"),
        "Error: read 'g': No such file or directory"
    );
    assert_eq!(sb.call("list_directory", "{}"), "f");
    assert_eq!(
        sb.call("write_file", "{\"path\":\"f\"}"),
        "Error: missing or non-string 'content'"
    );
}

#[test]
fn searches_stay_in_the_workspace() {
    let mut sb = Workspace::new();
    sb.shell = ("x:1:root\n", "", 0);
    assert_eq!(
        sb.call("search_code", "{\"pattern\":\"root\",\"path\":\"/etc\"}"),
        "Error: absolute path '/etc' is not allowed; use a relative path"
    );
    assert_eq!(
        sb.call("search_code", "{\"pattern\":\"root\",\"path\":\"a/../../b\"}"),
        "Error: path 'a/../../b' escapes the workspace"
    );
    assert_eq!(
        sb.call("search_code", "{\"pattern\":\"root\",\"path\":\"../..\"}"),
        "Error: path '../..' escapes the workspace"
    );
    assert_eq!(
        sb.call("search_code", "{\"pattern\":\"root\",\"path\":\"a/../b\"}"),
        "x:1:root\n"
    );
}

#[test]
fn code_is_searched_with_quoted_arguments() {
    let mut sb = Workspace::new();
    sb.shell = ("a.rs:1:it's\n", "", 0);
    assert_eq!(sb.call("search_code", "{\"pattern\":\"it's\"}"), "a.rs:1:it's\n");
    assert_eq!(
        sb.commands[0].0,
        "if command -v rg >/dev/null 2>&1; then rg --line-number --no-heading --color never \
         'it'\\''s' '.'; else grep -rn 'it'\\''s' '.' 2>/dev/null; fi"
    );
    assert_eq!(sb.commands[0].1, Some(60));
    sb.shell = ("\n", "", 1);
    let out = sb.call("search_code", "{\"pattern\":\"x\",\"path\":\"src\",\"glob\":\"*.rs\"}");
    assert_eq!(out, "No matches for 'x'.");
    assert_eq!(
        sb.commands[1].0,
        "if command -v rg >/dev/null 2>&1; then rg --line-number --no-heading --color never \
         --glob '*.rs' 'x' 'src'; else grep -rn 'x' 'src' 2>/dev/null; fi"
    );
}

#[test]
fn tests_are_run_by_the_kind_of_project() {
    let mut sb = Workspace::new();
    assert_eq!(
        sb.call("run_tests", "{}"),
        "Error: could not detect project type; pass an explicit `command` to run_tests"
    );
    sb.write_file("setup.py", "").unwrap();
    sb.shell = ("ok", "", 0);
    assert_eq!(
        sb.call("run_tests", "{}"),
        "$ pytest\nexit code: 0\n--- stdout ---\nok\n"
    );
    assert_eq!(sb.commands[0], ("pytest".to_string(), Some(600)));
    sb.write_file("Cargo.toml", "").unwrap();
    sb.call("run_tests", "{\"timeout_s\":9}");
    assert_eq!(sb.commands[1], ("cargo test".to_string(), Some(9)));
    sb.call("run_tests", "{\"command\":\"make check\"}");
    assert_eq!(sb.commands[2].0, "make check");
    sb.call("run_tests", "{\"command\":\"  \"}");
    assert_eq!(sb.commands[3].0, "cargo test");
}

#[test]
fn first_manifest_found_wins() {
    assert!(matches!(detect(&vec![]), Search::Probe("Cargo.toml")));
    assert!(matches!(detect(&vec![false]), Search::Probe("package.json")));
    assert!(matches!(detect(&vec![false, true]), Search::Known(Language::Node)));
    assert!(matches!(detect(&vec![false, false]), Search::Probe("pyproject.toml")));
    assert!(matches!(detect(&vec![false, false, false, true]), Search::Known(Language::Go)));
    assert!(matches!(
        detect(&vec![false, false, false, false, false, false]),
        Search::Probe("pytest.ini")
    ));
    assert!(matches!(
        detect(&vec![false, false, false, false, false, false, true]),
        Search::Known(Language::Python)
    ));
    assert!(matches!(detect(&vec![false; 7]), Search::Known(Language::Unknown)));
    assert!(matches!(test_command(Some("x"), &vec![]), Search::Known(Ok(_))));
    assert!(matches!(test_command(None, &vec![]), Search::Probe("Cargo.toml")));
    assert!(matches!(test_command(None, &vec![false; 7]), Search::Known(Err(_))));
}

#[test]
fn test_commands_of_languages() {
    assert_eq!(Language::Rust.default_test_command(), Some("cargo test"));
    assert_eq!(Language::Node.default_test_command(), Some("npm test"));
    assert_eq!(Language::Python.default_test_command(), Some("pytest"));
    assert_eq!(Language::Go.default_test_command(), Some("go test ./..."));
    assert_eq!(Language::Unknown.default_test_command(), None);
}

#[test]
fn coding_tools_are_advertised_by_name() {
    let names: Vec<String> = definitions()
        .iter()
        .map(|d| d.at("function").at("name").text_or("").to_string())
        .collect();
    assert_eq!(
        names,
        vec![
            "read_file",
            "list_directory",
            "search_code",
            "write_file",
            "edit_file",
            "run_command",
            "run_tests"
        ]
    );
    for n in &names {
        assert!(tool_named(n).is_some());
    }
    assert_eq!(tool_named("edit_file"), Some(Tool::EditFile));
    assert_eq!(tool_named("Edit_file"), None);
    let d = &definitions()[3];
    let value: serde_json::Value = serde_json::from_str(&compact(d)).unwrap();
    assert_eq!(value["type"], "function");
    assert_eq!(value["function"]["parameters"]["type"], "object");
    assert_eq!(value["function"]["parameters"]["required"][0], "path");
    assert_eq!(value["function"]["parameters"]["required"][1], "content");
}

#[test]
fn parsed_arguments_are_dispatched() {
    let args = parse("{\"path\":\"f\"}");
    match dispatch("read_file", &args, &vec![]) {
        Step::Ask(Ask::ReadFile { path, range }) => {
            assert_eq!(path, "f");
            assert_eq!(range, None);
        }
        _ => panic!("a file is asked for"),
    }
    match dispatch("read_file", &Err("bad".to_string()), &vec![]) {
        Step::Done(t) => assert_eq!(t, "Error: invalid tool arguments JSON: bad"),
        _ => panic!("the call is refused"),
    }
}

// ─── Agent ──────────────────────────────────────────────────────────────────

#[test]
fn a_coding_task_opens_with_the_prompt() {
    let r = rules("m");
    assert_eq!(MAX_TURNS, 12);
    assert_eq!(r.turns, 12);
    match begin(&r, "fix it") {
        Turn::Chat { talk, body } => {
            assert_eq!(talk.messages.len(), 2);
            assert_eq!(body.at("model").as_text(), Some("m"));
            assert_eq!(body.at("tools").as_items().unwrap().len(), 7);
            assert_eq!(compact(&talk.messages[1]), "{\"role\":\"user\",\"content\":\"fix it\"}");
        }
        _ => panic!("a completion is asked for"),
    }
    assert!(matches!(greeting(), Event::Working(_)));
}

#[test]
fn a_coding_task_needs_a_sandbox() {
    let events = without_sandbox("why");
    assert_eq!(events.len(), 1);
    match &events[0] {
        Event::Failed(reason) => assert!(reason.contains("why")),
        _ => panic!("the task has failed"),
    }
}

#[test]
fn the_coding_agent_has_a_card() {
    let card = agent_card(8080);
    assert_eq!(card.name, "Coding Agent");
    assert_eq!(card.version, "1.0.0");
    assert_eq!(card.url, "http://0.0.0.0:8080/");
    let ids: Vec<&str> = card.skills.iter().map(|s| s.id.as_str()).collect();
    assert_eq!(ids, vec!["code-edit", "code-test", "code-refactor"]);
    assert_eq!(card.skills[1].tags, vec!["coding", "test", "build"]);
}
