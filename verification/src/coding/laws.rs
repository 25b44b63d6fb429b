//! What the coding tools ask of the sandbox and tell the model, from their arguments on.

use vstd::prelude::*;

use super::project::first_found;
use super::quoting::quoted;
use super::sandbox::{
    directory_shown, entry_line, file_error, file_shown, is_absolute, is_listed, limit_of, listing,
    names_in, numbered, place, plain_name, ran, resolved, rooted, walk, walked, workspace_root,
    Ended, Entry, ExecView, Found, MAX_OUTPUT_BYTES,
};
use super::tools::{
    dispatched, edit_file_progress, edited_once, edits_of, exec_shown, list_directory_progress,
    listed_edits, read_file_progress, readable, run_command_progress, run_tests_progress,
    search_code_progress, write_file_progress, AnswerView, AskView, ProgressView, StepView,
};
use crate::json::JsonView;
use crate::text::laws::{joined_parts_stand, joined_parts_tell, split_joins_back};
use crate::text::lines::{is_blank, lines};
use crate::text::search::{
    contains, count_from, count_matches, find_from, find_is_first, group_contained, occurs_at,
    split,
};
use crate::text::width::byte_len;
use crate::text::{bytes_text, decimal, join, signed_decimal};

verus! {

// ─── Reading ────────────────────────────────────────────────────────────────

/// A call of `read_file` reads the file that it names, between the lines that it names: a first
/// line alone leaves the end open, a last line alone begins with the first line of the file. What
/// the sandbox has read is what the model gets.
pub proof fn named_lines_are_read(args: JsonView, path: Seq<char>, answers: Seq<AnswerView>)
    requires
        args.at("path"@) == JsonView::Text(path),
    ensures
        read_file_progress(args, Seq::empty()) matches ProgressView::Ask(
            AskView::ReadFile { path: asked, range },
        ) && {
            &&& asked == path
            &&& args.at("start_line"@) matches JsonView::Natural(first) ==> (range matches Some(
                (low, high),
            ) && low == first as usize && (args.at("end_line"@) matches JsonView::Natural(last)
                ==> high == last as usize) && (!(args.at("end_line"@) is Natural) ==> high
                == usize::MAX))
            &&& !(args.at("start_line"@) is Natural) ==> match args.at("end_line"@) {
                JsonView::Natural(last) => range == Some((1usize, last as usize)),
                _ => range is None,
            }
        },
        answers.len() > 0 && answers[0] is Text ==> read_file_progress(args, answers)
            == ProgressView::Done(Ok(answers[0]->Text_0)),
        answers.len() > 0 && answers[0] is Failed ==> read_file_progress(args, answers)
            == ProgressView::Done(Err(answers[0]->Failed_0)),
{
}

/// A call of `list_directory` lists the path that it names, and the workspace only where it names
/// none; down to the depth that it names, and all the way where it names none. What the sandbox
/// has listed is what the model gets.
pub proof fn named_directory_is_listed(args: JsonView, answers: Seq<AnswerView>)
    ensures
        list_directory_progress(args, Seq::empty()) matches ProgressView::Ask(
            AskView::ListDir { path, depth },
        ) && {
            &&& args.at("path"@) matches JsonView::Text(named) ==> path == named
            &&& !(args.at("path"@) is Text) ==> path == "."@
            &&& args.at("depth"@) matches JsonView::Natural(named) ==> depth == Some(named as usize)
            &&& !(args.at("depth"@) is Natural) ==> depth is None
        },
        answers.len() > 0 && answers[0] is Text ==> list_directory_progress(args, answers)
            == ProgressView::Done(Ok(answers[0]->Text_0)),
        answers.len() > 0 && answers[0] is Failed ==> list_directory_progress(args, answers)
            == ProgressView::Done(Err(answers[0]->Failed_0)),
{
}

/// A call of `search_code` runs a command that searches for the pattern in the place that is named,
/// or in the whole workspace, and among the files that are named: each as one quoted word, in this
/// order, with either program. What was found is what the model gets; where nothing was, it is told
/// what was searched for.
pub proof fn pattern_is_searched_for(
    args: JsonView,
    pattern: Seq<char>,
    place: Seq<char>,
    answers: Seq<AnswerView>,
)
    requires
        args.at("pattern"@) == JsonView::Text(pattern),
        place == match args.at("path"@) {
            JsonView::Text(path) => path,
            _ => "."@,
        },
        names_in(place) is Ok,
    ensures
        search_code_progress(args, Seq::empty()) matches ProgressView::Ask(
            AskView::Exec { command, .. },
        ) && {
            &&& contains(command, "grep -rn "@ + quoted(pattern) + " "@ + quoted(place))
            &&& args.at("glob"@) matches JsonView::Text(glob) ==> contains(
                command,
                "rg --line-number --no-heading --color never --glob "@ + quoted(glob) + " "@
                    + quoted(pattern) + " "@ + quoted(place),
            )
            &&& !(args.at("glob"@) is Text) ==> contains(
                command,
                "rg --line-number --no-heading --color never "@ + quoted(pattern) + " "@ + quoted(
                    place,
                ),
            )
        },
        answers.len() > 0 ==> match answers[0] {
            AnswerView::Ran(x) => if is_blank(x.stdout) {
                search_code_progress(args, answers) matches ProgressView::Done(Ok(told))
                    && contains(told, "No matches for '"@ + pattern)
            } else {
                search_code_progress(args, answers) == ProgressView::Done(Ok(x.stdout))
            },
            AnswerView::Failed(e) => search_code_progress(args, answers) == ProgressView::Done(
                Err(e),
            ),
            _ => true,
        },
{
    broadcast use group_contained;

}

// ─── Writing ────────────────────────────────────────────────────────────────

/// A call of `write_file` writes the content that it is given to the file that it names, and says
/// so once it is written; a failure is told as it is.
pub proof fn given_content_is_written(
    args: JsonView,
    path: Seq<char>,
    content: Seq<char>,
    answers: Seq<AnswerView>,
)
    requires
        args.at("path"@) == JsonView::Text(path),
        args.at("content"@) == JsonView::Text(content),
    ensures
        write_file_progress(args, Seq::empty()) == ProgressView::Ask(
            AskView::WriteFile { path, content },
        ),
        answers.len() > 0 && answers[0] is Wrote ==> (write_file_progress(args, answers) matches
            ProgressView::Done(Ok(told)) && contains(told, "Wrote "@ + decimal(byte_len(content)))
            && contains(told, " bytes to "@ + path)),
        answers.len() > 0 && answers[0] is Failed ==> write_file_progress(args, answers)
            == ProgressView::Done(Err(answers[0]->Failed_0)),
{
    broadcast use group_contained;

    let told = "Wrote "@ + decimal(byte_len(content)) + " bytes to "@ + path;
    assert(contains("Wrote "@ + decimal(byte_len(content)), "Wrote "@ + decimal(byte_len(content))));
    assert(contains(told, " bytes to "@ + path));
}

/// The edits that are made are those that are asked for, each the replacement of what it searches
/// for: first those of the list, in its order, then the single one.
pub proof fn asked_edits_are_made(args: JsonView, edits: Seq<(Seq<char>, Seq<char>)>)
    requires
        edits_of(args) == Ok::<Seq<(Seq<char>, Seq<char>)>, Seq<char>>(edits),
    ensures
        ({
            let items = match args.at("edits"@) {
                JsonView::List(items) => items,
                _ => Seq::empty(),
            };
            &&& forall|i: int|
                #![trigger items[i]]
                0 <= i < items.len() ==> i < edits.len() && items[i].at("search"@) == JsonView::Text(
                    edits[i].0,
                ) && items[i].at("replace"@) == JsonView::Text(edits[i].1)
            &&& args.at("search"@) is Text && args.at("replace"@) is Text ==> edits.len()
                == items.len() + 1 && edits.last() == (
                args.at("search"@)->Text_0,
                args.at("replace"@)->Text_0,
            )
            &&& !(args.at("search"@) is Text && args.at("replace"@) is Text) ==> edits.len()
                == items.len()
        }),
{
    let items = args.at("edits"@).items_or_none();
    listed_edits_are_those(items);
    let listed = listed_edits(items)->Ok_0;
    assert forall|i: int| #![trigger items[i]] 0 <= i < items.len() implies edits[i] == listed[i] by {
    }
}

proof fn listed_edits_are_those(items: Seq<JsonView>)
    ensures
        listed_edits(items) matches Ok(edits) ==> edits.len() == items.len() && forall|i: int|
            #![trigger items[i]]
            0 <= i < items.len() ==> items[i].at("search"@) == JsonView::Text(edits[i].0)
                && items[i].at("replace"@) == JsonView::Text(edits[i].1),
    decreases items.len(),
{
    if items.len() > 0 {
        let head = items.drop_last();
        listed_edits_are_those(head);
        match listed_edits(items) {
            Ok(edits) => {
                let before = listed_edits(head)->Ok_0;
                assert forall|i: int| #![trigger items[i]] 0 <= i < items.len() implies {
                    &&& items[i].at("search"@) == JsonView::Text(edits[i].0)
                    &&& items[i].at("replace"@) == JsonView::Text(edits[i].1)
                } by {
                    if i < head.len() {
                        assert(head[i] == items[i]);
                        assert(edits[i] == before[i]);
                    }
                }
            },
            Err(_) => {},
        }
    }
}

/// A call of `edit_file` reads the file that it names and writes that file and no other; once it is
/// written, the model is told how many edits were made to it.
pub proof fn named_file_is_edited(
    args: JsonView,
    path: Seq<char>,
    edits: Seq<(Seq<char>, Seq<char>)>,
    answers: Seq<AnswerView>,
)
    requires
        args.at("path"@) == JsonView::Text(path),
        edits_of(args) == Ok::<Seq<(Seq<char>, Seq<char>)>, Seq<char>>(edits),
    ensures
        edit_file_progress(args, Seq::empty()) == ProgressView::Ask(AskView::ReadRaw { path }),
        edit_file_progress(args, answers) matches ProgressView::Ask(
            AskView::WriteFile { path: written, .. },
        ) ==> written == path && answers.len() == 1,
        edit_file_progress(args, answers) matches ProgressView::Done(Ok(told)) ==> answers.len()
            >= 2 && !(answers[1] is Failed) && contains(told, "Applied "@ + decimal(edits.len()))
            && contains(told, " edit(s) to "@ + path),
{
    broadcast use group_contained;

    let told = "Applied "@ + decimal(edits.len()) + " edit(s) to "@ + path;
    assert(contains("Applied "@ + decimal(edits.len()), "Applied "@ + decimal(edits.len())));
    assert(contains(told, " edit(s) to "@ + path));
}

/// What is to be replaced must stand in the file once: where it does not stand there, or stands
/// there twice, the edit is refused.
pub proof fn edit_needs_one_place(
    path: Seq<char>,
    content: Seq<char>,
    edit: (Seq<char>, Seq<char>),
    index: nat,
    count: nat,
    i: int,
    j: int,
)
    requires
        edit.0.len() > 0,
    ensures
        !contains(content, edit.0) ==> edited_once(path, content, edit, index, count) is Err,
        occurs_at(content, edit.0, i) && occurs_at(content, edit.0, j) && i + edit.0.len() <= j
            ==> edited_once(path, content, edit, index, count) is Err,
{
    let pat = edit.0;
    if occurs_at(content, pat, i) && occurs_at(content, pat, j) && i + pat.len() <= j {
        find_is_first(content, pat, 0);
        let first = find_from(content, pat, 0)->0;
        assert(first <= i);
        find_is_first(content, pat, first + pat.len());
        assert(count_from(content, pat, first + pat.len()) >= 1);
        assert(count_matches(content, pat) >= 2);
    }
}

// ─── Running ────────────────────────────────────────────────────────────────

/// What is shown of a command that has run: its exit code, and each stream that holds anything,
/// under its own heading.
pub proof fn output_is_shown(x: ExecView)
    ensures
        contains(exec_shown(x), "exit code: "@ + signed_decimal(x.exit_code as int)),
        !is_blank(x.stdout) ==> contains(exec_shown(x), "--- stdout ---\n"@ + x.stdout),
        !is_blank(x.stderr) ==> contains(exec_shown(x), "--- stderr ---\n"@ + x.stderr),
{
    broadcast use group_contained;

}

/// A call of `run_command` runs the command that it is given, for as long as it says, and shows
/// what came of it.
pub proof fn given_command_is_run(args: JsonView, command: Seq<char>, answers: Seq<AnswerView>)
    requires
        args.at("command"@) == JsonView::Text(command),
    ensures
        run_command_progress(args, Seq::empty()) matches ProgressView::Ask(
            AskView::Exec { command: asked, timeout_s },
        ) && asked == command && match args.at("timeout_s"@) {
            JsonView::Natural(s) => timeout_s == Some(s),
            _ => timeout_s is None,
        },
        answers.len() > 0 && answers[0] is Ran ==> run_command_progress(args, answers)
            == ProgressView::Done(Ok(exec_shown(answers[0]->Ran_0))),
        answers.len() > 0 && answers[0] is Failed ==> run_command_progress(args, answers)
            == ProgressView::Done(Err(answers[0]->Failed_0)),
{
}

/// A call of `run_tests` with a command runs that one at once, whatever the project, and shows it
/// with what came of it.
pub proof fn given_tests_are_run(args: JsonView, command: Seq<char>, x: ExecView)
    requires
        args.at("command"@) == JsonView::Text(command),
        !is_blank(command),
    ensures
        run_tests_progress(args, Seq::empty()) matches ProgressView::Ask(
            AskView::Exec { command: asked, timeout_s },
        ) && asked == command && match args.at("timeout_s"@) {
            JsonView::Natural(s) => timeout_s == Some(s),
            _ => timeout_s == Some(600u64),
        },
        run_tests_progress(args, seq![AnswerView::Ran(x)]) matches ProgressView::Done(Ok(told))
            && contains(told, "$ "@ + command) && contains(told, exec_shown(x)),
{
    broadcast use group_contained;

    assert(contains("$ "@ + command, "$ "@ + command));
}

/// The files by which a project is recognised, in the order in which they are looked for.
pub open spec fn manifests() -> Seq<Seq<char>> {
    seq![
        "Cargo.toml"@,
        "package.json"@,
        "pyproject.toml"@,
        "go.mod"@,
        "setup.py"@,
        "requirements.txt"@,
        "pytest.ini"@,
    ]
}

/// The commands that test the projects that these files belong to.
pub open spec fn test_commands() -> Seq<Seq<char>> {
    seq![
        "cargo test"@,
        "npm test"@,
        "pytest"@,
        "go test ./..."@,
        "pytest"@,
        "pytest"@,
        "pytest"@,
    ]
}

/// A call of `run_tests` without a command looks for one manifest file after the other; the first
/// one that can be read decides what is run, and where there is none the call is refused.
pub proof fn tests_are_found(args: JsonView, answers: Seq<AnswerView>)
    requires
        !(args.at("command"@) is Text),
        forall|i: int| 0 <= i < answers.len() ==> #[trigger] answers[i] is Failed,
    ensures
        answers.len() < 7 ==> (run_tests_progress(args, answers) matches ProgressView::Ask(
            AskView::ReadFile { path, .. },
        ) && path == manifests()[answers.len() as int]),
        answers.len() < 7 ==> forall|found: AnswerView|
            !(found is Failed) ==> (#[trigger] run_tests_progress(args, answers.push(found)) matches
                ProgressView::Ask(AskView::Exec { command, .. }) && command
                == test_commands()[answers.len() as int]),
        answers.len() == 7 ==> run_tests_progress(args, answers) matches ProgressView::Done(Err(_)),
{
    let n = answers.len() as int;
    none_is_found(readable(answers), 0);
    if n < 7 {
        assert forall|found: AnswerView| !(found is Failed) implies (
        #[trigger] run_tests_progress(args, answers.push(found)) matches ProgressView::Ask(
            AskView::Exec { command, .. },
        ) && command == test_commands()[n]) by {
            let all = readable(answers.push(found));
            assert(all[n]);
            assert forall|j: int| 0 <= j < n implies !all[j] by {
                assert(answers.push(found)[j] == answers[j]);
            }
            found_at(all, 0, n);
        }
    }
}

proof fn none_is_found(found: Seq<bool>, from: int)
    requires
        0 <= from,
        forall|j: int| 0 <= j < found.len() ==> !found[j],
    ensures
        first_found(found, from) is None,
    decreases found.len() - from,
{
    if from < found.len() {
        none_is_found(found, from + 1);
    }
}

proof fn found_at(found: Seq<bool>, from: int, i: int)
    requires
        0 <= from <= i < found.len(),
        forall|j: int| from <= j < i ==> !found[j],
        found[i],
    ensures
        first_found(found, from) == Some(i),
    decreases i - from,
{
    if from < i {
        found_at(found, from + 1, i);
    }
}

/// A command that has run keeps its streams apart, and its exit code; one that a signal ended has
/// the code -1. One that has not run is an error that tells why, or after how many seconds it was
/// given up and which one it was.
pub proof fn streams_are_kept_apart(command: Seq<char>, timeout_s: Option<u64>, ended: Ended)
    ensures
        ended matches Ended::Ran { stdout, stderr, code } ==> (ran(command, timeout_s, ended) matches
            Ok(x) && {
            &&& byte_len(bytes_text(stdout@)) <= MAX_OUTPUT_BYTES ==> x.stdout == bytes_text(
                stdout@,
            )
            &&& byte_len(bytes_text(stderr@)) <= MAX_OUTPUT_BYTES ==> x.stderr == bytes_text(
                stderr@,
            )
            &&& code matches Some(c) ==> x.exit_code == c
            &&& code is None ==> x.exit_code == -1
        }),
        ended matches Ended::NotStarted(e) ==> (ran(command, timeout_s, ended) matches Err(told)
            && contains(told, e@)),
        ended matches Ended::Lost(e) ==> (ran(command, timeout_s, ended) matches Err(told)
            && contains(told, e@)),
        ended is TimedOut ==> (ran(command, timeout_s, ended) matches Err(told) && contains(
            told,
            "s: "@ + command,
        ) && (timeout_s matches Some(s) ==> contains(
            told,
            "command timed out after "@ + decimal(s as nat),
        ))),
{
    broadcast use group_contained;

}

// ─── What is shown of files and directories ─────────────────────────────────

/// Every line of a file that is in the range is shown behind its number, where the whole fits.
pub proof fn lines_are_shown(content: Seq<char>, range: Option<(usize, usize)>, n: nat)
    requires
        1 <= n <= lines(content).len(),
        range matches Some((first, last)) ==> first <= n <= last,
        !contains(file_shown(content, range), "\n…[output truncated]"@),
    ensures
        contains(file_shown(content, range), decimal(n) + "\t"@ + lines(content)[n - 1]),
{
    broadcast use group_contained;

    let all = lines(content);
    let (first, last): (nat, nat) = match range {
        Some((first, last)) => (first as nat, last as nat),
        None => (1, all.len()),
    };
    super::sandbox::range_shows_its_lines(all, first, last);
    let shown = super::sandbox::numbered_range(all, first, last);
    assert(shown.contains(numbered(all[n - 1], n)));
    let k = choose|k: int| 0 <= k < shown.len() && shown[k] == numbered(all[n - 1], n);
    joined_parts_stand(shown, "\n"@, k);
}

/// Every entry of a directory that is no noise is shown by its path, directories with a slash
/// behind it, where the whole fits.
pub proof fn entries_are_shown(path: Seq<char>, entries: Seq<Entry>, i: int)
    requires
        0 <= i < entries.len(),
        entries[i].path@.len() > 0,
        forall|k: int|
            0 <= k < entries[i].names@.len() ==> {
                let name = #[trigger] entries[i].names@[k]@;
                name != ".git"@ && name != "target"@ && name != "node_modules"@
            },
        !contains(directory_shown(path, entries), "\n…[output truncated]"@),
    ensures
        entries[i].is_dir ==> contains(directory_shown(path, entries), entries[i].path@ + "/"@),
        !entries[i].is_dir ==> contains(directory_shown(path, entries), entries[i].path@),
{
    broadcast use group_contained;

    super::sandbox::noise_is_left_out(entries);
    assert(is_listed(entries[i]));
    let shown = listing(entries);
    let k = choose|k: int| 0 <= k < shown.len() && shown[k] == entry_line(entries[i]);
    assert(shown.contains(entry_line(entries[i])));
    joined_parts_stand(shown, "\n"@, k);
    if !entries[i].is_dir {
        joined_parts_tell(shown, "\n"@, k, entries[i].path@);
    }
}

/// A listing keeps the order in which the entries were met.
pub proof fn listing_keeps_the_order(a: Seq<Entry>, b: Seq<Entry>)
    ensures
        listing(a + b) == listing(a) + listing(b),
    decreases b.len(),
{
    if b.len() == 0 {
        assert(a + b =~= a);
        assert(listing(a) + listing(b) =~= listing(a));
    } else {
        listing_keeps_the_order(a, b.drop_last());
        assert((a + b).drop_last() =~= a + b.drop_last());
        assert(listing(a + b) =~= listing(a) + listing(b));
    }
}

// ─── Calls ──────────────────────────────────────────────────────────────────

proof fn names_differ()
    ensures
        "list_directory"@ != "read_file"@,
        "search_code"@ != "read_file"@,
        "search_code"@ != "list_directory"@,
        "write_file"@ != "read_file"@,
        "write_file"@ != "list_directory"@,
        "write_file"@ != "search_code"@,
        "edit_file"@ != "read_file"@,
        "edit_file"@ != "list_directory"@,
        "edit_file"@ != "search_code"@,
        "edit_file"@ != "write_file"@,
        "run_command"@ != "read_file"@,
        "run_command"@ != "list_directory"@,
        "run_command"@ != "search_code"@,
        "run_command"@ != "write_file"@,
        "run_command"@ != "edit_file"@,
        "run_tests"@ != "read_file"@,
        "run_tests"@ != "list_directory"@,
        "run_tests"@ != "search_code"@,
        "run_tests"@ != "write_file"@,
        "run_tests"@ != "edit_file"@,
        "run_tests"@ != "run_command"@,
{
    reveal_strlit("read_file");
    reveal_strlit("list_directory");
    reveal_strlit("search_code");
    reveal_strlit("write_file");
    reveal_strlit("edit_file");
    reveal_strlit("run_command");
    reveal_strlit("run_tests");
    assert("list_directory"@.len() != "read_file"@.len());
    assert("search_code"@.len() != "read_file"@.len());
    assert("search_code"@.len() != "list_directory"@.len());
    assert("write_file"@.len() != "read_file"@.len());
    assert("write_file"@.len() != "list_directory"@.len());
    assert("write_file"@.len() != "search_code"@.len());
    assert("edit_file"@[0] != "read_file"@[0]);
    assert("edit_file"@.len() != "list_directory"@.len());
    assert("edit_file"@.len() != "search_code"@.len());
    assert("edit_file"@.len() != "write_file"@.len());
    assert("run_command"@.len() != "read_file"@.len());
    assert("run_command"@.len() != "list_directory"@.len());
    assert("run_command"@[0] != "search_code"@[0]);
    assert("run_command"@.len() != "write_file"@.len());
    assert("run_command"@.len() != "edit_file"@.len());
    assert("run_tests"@[1] != "read_file"@[1]);
    assert("run_tests"@.len() != "list_directory"@.len());
    assert("run_tests"@.len() != "search_code"@.len());
    assert("run_tests"@.len() != "write_file"@.len());
    assert("run_tests"@[0] != "edit_file"@[0]);
    assert("run_tests"@.len() != "run_command"@.len());
}

/// Whether a call by `name` goes on as `progress` does: it asks for the same, and tells the same
/// result or error.
pub open spec fn goes_on_as(
    name: Seq<char>,
    progress: ProgressView,
    args: JsonView,
    answers: Seq<AnswerView>,
) -> bool {
    let step = dispatched(name, Ok(args), answers);
    match progress {
        ProgressView::Ask(ask) => step == StepView::Ask(ask),
        ProgressView::Done(Ok(told)) => step == StepView::Done(told),
        ProgressView::Done(Err(e)) => step == StepView::Done("Error: "@ + e),
    }
}

/// Each tool does its own work where it is called by its name.
pub proof fn tools_are_called_by_name(args: JsonView, answers: Seq<AnswerView>)
    ensures
        goes_on_as("read_file"@, read_file_progress(args, answers), args, answers),
        goes_on_as("list_directory"@, list_directory_progress(args, answers), args, answers),
        goes_on_as("search_code"@, search_code_progress(args, answers), args, answers),
        goes_on_as("write_file"@, write_file_progress(args, answers), args, answers),
        goes_on_as("edit_file"@, edit_file_progress(args, answers), args, answers),
        goes_on_as("run_command"@, run_command_progress(args, answers), args, answers),
        goes_on_as("run_tests"@, run_tests_progress(args, answers), args, answers),
{
    names_differ();
}

/// Arguments that cannot be read are told of, and so is a tool that is not known.
pub proof fn unusable_call_is_explained(
    name: Seq<char>,
    args: JsonView,
    e: Seq<char>,
    answers: Seq<AnswerView>,
)
    ensures
        dispatched(name, Err(e), answers) == StepView::Done(
            "Error: invalid tool arguments JSON: "@ + e,
        ),
        name != "read_file"@ && name != "list_directory"@ && name != "search_code"@
            && name != "write_file"@ && name != "edit_file"@ && name != "run_command"@
            && name != "run_tests"@ ==> dispatched(name, Ok(args), answers)
            == StepView::Done("Error: "@ + ("unknown tool: "@ + name)),
{
}

// ─── Paths ──────────────────────────────────────────────────────────────────

/// A relative path of plain names leads to that path below the root of the workspace.
pub proof fn plain_path_leads_below_the_root(root: Seq<char>, rel: Seq<char>)
    requires
        root.len() > 0,
        root.last() != '/',
        !is_absolute(rel),
        forall|i: int| 0 <= i < split(rel, "/"@).len() ==> plain_name(#[trigger] split(rel, "/"@)[i]),
    ensures
        resolved(root, rel) == Ok::<Seq<char>, Seq<char>>(root + "/"@ + rel),
{
    reveal_strlit("/");
    let names = split(rel, "/"@);
    split_joins_back(rel, "/"@);
    plain_names_are_walked(names);
    if names.len() == 0 {
        assert(rel.len() == 0);
        find_is_first(rel, "/"@, 0);
        assert(split(rel, "/"@).len() > 0);
    }
    names_are_placed(root, names);
}

proof fn plain_names_are_walked(names: Seq<Seq<char>>)
    requires
        forall|i: int| 0 <= i < names.len() ==> plain_name(#[trigger] names[i]),
    ensures
        walk(names) == Some(names),
    decreases names.len(),
{
    if names.len() > 0 {
        let before = names.drop_last();
        assert forall|i: int| 0 <= i < before.len() implies plain_name(#[trigger] before[i]) by {
            assert(before[i] == names[i]);
        }
        plain_names_are_walked(before);
        assert(plain_name(names[names.len() - 1]));
        assert(before.push(names.last()) =~= names);
    } else {
        assert(names =~= Seq::<Seq<char>>::empty());
    }
}

proof fn names_are_placed(root: Seq<char>, names: Seq<Seq<char>>)
    requires
        root.len() > 0,
        root.last() != '/',
        names.len() > 0,
        forall|i: int| 0 <= i < names.len() ==> plain_name(#[trigger] names[i]),
    ensures
        place(root, names) == root + "/"@ + join(names, "/"@),
        place(root, names).last() != '/',
    decreases names.len(),
{
    let before = names.drop_last();
    let name = names.last();
    assert(plain_name(names[names.len() - 1]));
    assert(name[name.len() - 1] != '/');
    if before.len() > 0 {
        assert forall|i: int| 0 <= i < before.len() implies plain_name(#[trigger] before[i]) by {
            assert(before[i] == names[i]);
        }
        names_are_placed(root, before);
        assert(place(root, names) =~= root + "/"@ + join(names, "/"@));
    } else {
        assert(place(root, before) == root);
    }
    assert(place(root, names).last() == name.last());
}

/// To go into a directory and up again leads back; a dot or nothing leads nowhere.
pub proof fn way_up_leads_back(components: Seq<Seq<char>>, name: Seq<char>)
    requires
        plain_name(name),
        walk(components) is Some,
    ensures
        walk(components.push(name).push(".."@)) == walk(components),
        walk(components.push("."@)) == walk(components),
        walk(components.push(Seq::empty())) == walk(components),
        walk(components)->0.len() == 0 ==> walk(components.push(".."@)) is None,
{
    reveal_strlit(".");
    reveal_strlit("..");
    let into = components.push(name);
    assert("."@ != ".."@) by {
        assert("."@.len() != ".."@.len());
    }
    assert(Seq::<char>::empty() != ".."@) by {
        assert(Seq::<char>::empty().len() != ".."@.len());
    }
    assert(into.drop_last() =~= components);
    assert(into.push(".."@).drop_last() =~= into);
    assert(components.push(".."@).drop_last() =~= components);
    assert(components.push("."@).drop_last() =~= components);
    assert(components.push(Seq::<char>::empty()).drop_last() =~= components);
    let names = walk(components)->0;
    assert(walk(into) == Some(names.push(name)));
    assert(names.push(name).drop_last() =~= names);
    assert(walk(into.push(".."@)) == walked(names.push(name), ".."@));
}

/// A path that is refused is named.
pub proof fn refused_path_is_named(root: Seq<char>, rel: Seq<char>)
    ensures
        is_absolute(rel) ==> (resolved(root, rel) matches Err(e) && contains(
            e,
            "absolute path '"@ + rel,
        )),
        !is_absolute(rel) && walk(split(rel, "/"@)) is None ==> resolved(root, rel) == Err::<
            Seq<char>,
            Seq<char>,
        >("path '"@ + rel + "' escapes the workspace"@),
{
    broadcast use group_contained;

    let absolute = "absolute path '"@ + rel;
    assert(contains(absolute, absolute));
}

// ─── The workspace ──────────────────────────────────────────────────────────

/// The workspace is the directory that was found, and only a directory.
pub proof fn workspace_is_the_directory(root: Seq<char>, found: Result<Found, String>)
    ensures
        found matches Ok(f) ==> (f.is_dir ==> rooted(root, found) == Ok::<Seq<char>, Seq<char>>(
            f.canonical@,
        )),
        found matches Ok(f) ==> (!f.is_dir ==> (rooted(root, found) matches Err(e) && contains(
            e,
            "workspace root '"@ + root,
        ))),
        found matches Err(why) ==> (rooted(root, found) matches Err(e) && contains(
            e,
            "workspace root '"@ + root,
        ) && contains(e, why@)),
{
    broadcast use group_contained;

    let named = "workspace root '"@ + root;
    assert(contains(named, named));
}

/// A local workspace is where it is said to be, or here; no other kind is set up.
pub proof fn workspace_is_local(mode: Option<Seq<char>>, dir: Option<Seq<char>>)
    ensures
        mode is None || mode == Some("local"@) ==> workspace_root(mode, dir) == Ok::<
            Seq<char>,
            Seq<char>,
        >(
            match dir {
                Some(d) => d,
                None => "."@,
            },
        ),
        mode matches Some(m) ==> (m != "local"@ ==> workspace_root(mode, dir) is Err),
        mode matches Some(m) ==> (m != "local"@ && m != "remote"@ ==> (workspace_root(
            mode,
            dir,
        ) matches Err(e) && contains(e, m))),
{
    broadcast use group_contained;

}

/// What goes wrong with a file is told with the step, the path and the reason.
pub proof fn file_error_is_explained(step: Seq<char>, path: Seq<char>, reason: Seq<char>)
    ensures
        contains(file_error(step, path, reason), step + " '"@ + path),
        contains(file_error(step, path, reason), "': "@ + reason),
{
    broadcast use group_contained;

    let head = step + " '"@ + path;
    assert(contains(head, head));
}

/// A command that does not end by itself is told of: with the reason, or with its limit and the
/// command.
pub proof fn failed_command_is_explained(
    command: Seq<char>,
    timeout_s: Option<u64>,
    ended: Ended,
    e: String,
)
    ensures
        ended == Ended::NotStarted(e) || ended == Ended::Lost(e) ==> (ran(
            command,
            timeout_s,
            ended,
        ) matches Err(why) && contains(why, e@)),
        ended is TimedOut ==> (ran(command, timeout_s, ended) matches Err(why) && contains(
            why,
            "s: "@ + command,
        ) && contains(
            why,
            "command timed out after "@ + decimal(
                match timeout_s {
                    Some(s) => s as nat,
                    None => 120,
                },
            ),
        )),
        ended is Ran <==> ran(command, timeout_s, ended) is Ok,
{
    broadcast use group_contained;

    let limit = "command timed out after "@ + decimal(limit_of(timeout_s) as nat);
    assert(contains(limit, limit));
}

/// An edit that cannot be made is told of: by its number where there are several, with the path,
/// and with the number of matches where there are too many.
pub proof fn refused_edit_is_explained(
    path: Seq<char>,
    content: Seq<char>,
    edit: (Seq<char>, Seq<char>),
    index: nat,
    count: nat,
)
    requires
        count_matches(content, edit.0) != 1,
    ensures
        edited_once(path, content, edit, index, count) matches Err(e) && {
            &&& count_matches(content, edit.0) == 0 ==> contains(
                e,
                "search block not found in "@ + path,
            )
            &&& count_matches(content, edit.0) > 1 ==> contains(
                e,
                "search block is not unique in "@ + path,
            ) && contains(e, " ("@ + decimal(count_matches(content, edit.0)))
            &&& count > 1 ==> contains(e, "edit "@ + decimal(index + 1))
        },
{
    broadcast use group_contained;

    let label = if count > 1 {
        "edit "@ + decimal(index + 1) + " "@
    } else {
        Seq::empty()
    };
    let number = "edit "@ + decimal(index + 1);
    assert(contains(number, number));
    if count > 1 {
        assert(contains(label, number));
    }
}

/// A call without a whole edit is refused; one with a text to search for and a text to put in its
/// place has that edit.
pub proof fn edits_are_needed(args: JsonView, search: Seq<char>, replace: Seq<char>)
    requires
        args.at("edits"@) is Null,
    ensures
        args.at("search"@) == JsonView::Text(search) && args.at("replace"@) == JsonView::Text(
            replace,
        ) ==> edits_of(args) == Ok::<Seq<(Seq<char>, Seq<char>)>, Seq<char>>(
            seq![(search, replace)],
        ),
        args.at("search"@) !is Text || args.at("replace"@) !is Text ==> edits_of(args) is Err,
{
    let none = Seq::<(Seq<char>, Seq<char>)>::empty();
    assert(listed_edits(Seq::empty()) == Ok::<Seq<(Seq<char>, Seq<char>)>, Seq<char>>(none));
    assert(none.push((search, replace)) =~= seq![(search, replace)]);
}

/// A search without matches is told of, with the pattern; matches are told as they were found.
pub proof fn matches_are_told(args: JsonView, pattern: Seq<char>, x: ExecView)
    requires
        args.at("pattern"@) == JsonView::Text(pattern),
        args.at("path"@) is Null,
    ensures
        is_blank(x.stdout) ==> search_code_progress(args, seq![AnswerView::Ran(x)])
            == ProgressView::Done(Ok("No matches for '"@ + pattern + "'."@)),
        !is_blank(x.stdout) ==> search_code_progress(args, seq![AnswerView::Ran(x)])
            == ProgressView::Done(Ok(x.stdout)),
{
    reveal_strlit(".");
    reveal_strlit("/");
    reveal_strlit("..");
    let names = split("."@, "/"@);
    find_is_first("."@, "/"@, 0);
    assert forall|i: int| 0 <= i implies !occurs_at("."@, "/"@, i) by {
        if occurs_at("."@, "/"@, i) {
            assert("."@.subrange(i, i + 1)[0] == "."@[i]);
            assert("/"@[0] == '/');
        }
    }
    assert("."@.skip(0) =~= "."@);
    assert(names =~= seq!["."@]);
    assert(names.drop_last() =~= Seq::<Seq<char>>::empty());
    assert("."@ != ".."@) by {
        assert("."@.len() != ".."@.len());
    }
    assert(walk(names.drop_last()) == Some(Seq::<Seq<char>>::empty()));
    assert(walk(names) is Some);
}

/// A path that begins with a slash is refused, whatever follows; below a root that ends with a
/// slash, no other one is put before the names.
pub proof fn slashes_are_minded(root: Seq<char>, rel: Seq<char>, name: Seq<char>)
    requires
        plain_name(name),
    ensures
        resolved(root, seq!['/'] + rel) is Err,
        place(root + seq!['/'], seq![name]) == root + seq!['/'] + name,
{
    assert((seq!['/'] + rel)[0] == '/');
    assert(seq![name].drop_last() =~= Seq::<Seq<char>>::empty());
    assert(place(root + seq!['/'], seq![name].drop_last()) == root + seq!['/']);
    assert((root + seq!['/']).last() == '/');
}

} // verus!
