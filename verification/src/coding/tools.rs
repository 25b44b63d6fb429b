//! The coding tools: what each asks of the sandbox, and what it reports to the model. A tool call
//! is carried on from the answers that the sandbox has given so far.

use vstd::prelude::*;

use super::definitions::{definitions_are_named, definitions_view};
use super::project::{command_for, first_found, markers, test_command, Search};
use super::quoting::{quoted, shell_quote};
use super::sandbox::{is_absolute, names_below, names_in, walk, ExecResult, ExecView};
use crate::http::{show, shown};
use crate::json::serde::{json_of_text, parse};
use crate::json::{json_views, parsed_view, Json, JsonView};
use crate::schema::{advertises, schema_name};
use crate::text::lines::{blank, is_blank};
use crate::text::search::{
    count_matches, count_text_matches, find, find_is_first, replace_first, replace_first_text,
    split,
};
use crate::text::width::{byte_count, byte_len};
use crate::text::{
    chars, count_text, decimal, opt_str, outcome, prefixed, same, signed_decimal, signed_text, text,
    wide_text,
};

pub use super::definitions::definitions;

verus! {

/// What is asked of the sandbox. Paths are relative to its root.
#[derive(Debug)]
pub enum Ask {
    /// The lines of a file with their numbers; all of them, or an inclusive range from one on.
    ReadFile { path: String, range: Option<(usize, usize)> },
    /// A file as it is.
    ReadRaw { path: String },
    WriteFile { path: String, content: String },
    /// The tree below a directory, down to a depth where one is given.
    ListDir { path: String, depth: Option<usize> },
    /// Run a command, for so many seconds at most.
    Exec { command: String, timeout_s: Option<u64> },
}

/// What is asked of the sandbox.
#[verifier::ext_equal]
pub enum AskView {
    ReadFile { path: Seq<char>, range: Option<(usize, usize)> },
    ReadRaw { path: Seq<char> },
    WriteFile { path: Seq<char>, content: Seq<char> },
    ListDir { path: Seq<char>, depth: Option<usize> },
    Exec { command: Seq<char>, timeout_s: Option<u64> },
}

impl View for Ask {
    type V = AskView;

    open spec fn view(&self) -> AskView {
        match self {
            Ask::ReadFile { path, range } => AskView::ReadFile { path: path@, range: *range },
            Ask::ReadRaw { path } => AskView::ReadRaw { path: path@ },
            Ask::WriteFile { path, content } => AskView::WriteFile {
                path: path@,
                content: content@,
            },
            Ask::ListDir { path, depth } => AskView::ListDir { path: path@, depth: *depth },
            Ask::Exec { command, timeout_s } => AskView::Exec {
                command: command@,
                timeout_s: *timeout_s,
            },
        }
    }
}

/// What the sandbox answers.
#[derive(Debug)]
pub enum Answer {
    /// What was read or listed.
    Text(String),
    Wrote,
    Ran(ExecResult),
    /// What was asked could not be done; the reason.
    Failed(String),
}

/// What the sandbox answers.
#[verifier::ext_equal]
pub enum AnswerView {
    Text(Seq<char>),
    Wrote,
    Ran(ExecView),
    Failed(Seq<char>),
}

impl View for Answer {
    type V = AnswerView;

    open spec fn view(&self) -> AnswerView {
        match self {
            Answer::Text(s) => AnswerView::Text(s@),
            Answer::Wrote => AnswerView::Wrote,
            Answer::Ran(x) => AnswerView::Ran(x@),
            Answer::Failed(e) => AnswerView::Failed(e@),
        }
    }
}

/// The views of a sequence of answers.
pub open spec fn answer_views(answers: Seq<Answer>) -> Seq<AnswerView> {
    answers.map_values(|answer: Answer| answer@)
}

/// How a tool call goes on: something to ask, or its outcome.
#[derive(Debug)]
pub enum Progress {
    Ask(Ask),
    Done(Result<String, String>),
}

/// How a tool call goes on.
#[verifier::ext_equal]
pub enum ProgressView {
    Ask(AskView),
    Done(Result<Seq<char>, Seq<char>>),
}

impl View for Progress {
    type V = ProgressView;

    open spec fn view(&self) -> ProgressView {
        match self {
            Progress::Ask(ask) => ProgressView::Ask(ask@),
            Progress::Done(r) => ProgressView::Done(outcome(*r)),
        }
    }
}

/// What the model gets to see of a tool call, or what is to be asked before that.
#[derive(Debug)]
pub enum Step {
    Ask(Ask),
    Done(String),
}

/// What the model gets to see of a tool call, or what is to be asked before that.
#[verifier::ext_equal]
pub enum StepView {
    Ask(AskView),
    Done(Seq<char>),
}

impl View for Step {
    type V = StepView;

    open spec fn view(&self) -> StepView {
        match self {
            Step::Ask(ask) => StepView::Ask(ask@),
            Step::Done(s) => StepView::Done(s@),
        }
    }
}

/// The text that the sandbox has read, or why it has not.
pub open spec fn read_text(answer: AnswerView) -> Result<Seq<char>, Seq<char>> {
    match answer {
        AnswerView::Text(s) => Ok(s),
        AnswerView::Failed(e) => Err(e),
        _ => Err("the sandbox has read nothing"@),
    }
}

/// The result of the command that the sandbox has run, or why it has none.
pub open spec fn run_result(answer: AnswerView) -> Result<ExecView, Seq<char>> {
    match answer {
        AnswerView::Ran(x) => Ok(x),
        AnswerView::Failed(e) => Err(e),
        _ => Err("the sandbox has run nothing"@),
    }
}

/// The text that the sandbox has read, or why it has not.
fn text_read(answer: &Answer) -> (r: Result<String, String>)
    ensures
        outcome(r) == read_text(answer@),
{
    match answer {
        Answer::Text(s) => Ok(text(s.as_str())),
        Answer::Failed(e) => Err(text(e.as_str())),
        _ => Err(text("the sandbox has read nothing")),
    }
}

/// The result of the command that the sandbox has run, or why it has none.
fn result_run(answer: &Answer) -> (r: Result<&ExecResult, String>)
    ensures
        match r {
            Ok(x) => run_result(answer@) == Ok::<ExecView, Seq<char>>(x@),
            Err(e) => run_result(answer@) == Err::<ExecView, Seq<char>>(e@),
        },
{
    match answer {
        Answer::Ran(x) => Ok(x),
        Answer::Failed(e) => Err(text(e.as_str())),
        _ => Err(text("the sandbox has run nothing")),
    }
}

/// The text argument `key`, or that it is missing.
pub open spec fn text_argument(args: JsonView, key: Seq<char>) -> Result<Seq<char>, Seq<char>> {
    match args.at(key).text() {
        Some(t) => Ok(t),
        None => Err("missing or non-string '"@ + key + "'"@),
    }
}

/// The text argument `key`, or that it is missing.
pub fn arg_str<'a>(args: &'a Json, key: &str) -> (r: Result<&'a str, String>)
    ensures
        match r {
            Ok(t) => text_argument(args@, key@) == Ok::<Seq<char>, Seq<char>>(t@),
            Err(e) => text_argument(args@, key@) == Err::<Seq<char>, Seq<char>>(e@),
        },
{
    match args.at(key).as_text() {
        Some(t) => Ok(t),
        None => {
            let mut out = text("missing or non-string '");
            out.append(key);
            out.append("'");
            Err(out)
        },
    }
}

// ─── Reading ────────────────────────────────────────────────────────────────

/// The range of lines that is asked for: with a first line only, all from there on; with a last
/// line only, all up to it.
pub open spec fn line_range(args: JsonView) -> Option<(usize, usize)> {
    match (args.at("start_line"@).natural(), args.at("end_line"@).natural()) {
        (Some(first), Some(last)) => Some((first as usize, last as usize)),
        (Some(first), None) => Some((first as usize, usize::MAX)),
        (None, Some(last)) => Some((1, last as usize)),
        (None, None) => None,
    }
}

/// How a call of `read_file` goes on.
pub open spec fn read_file_progress(args: JsonView, answers: Seq<AnswerView>) -> ProgressView {
    match text_argument(args, "path"@) {
        Err(e) => ProgressView::Done(Err(e)),
        Ok(path) => if answers.len() == 0 {
            ProgressView::Ask(AskView::ReadFile { path, range: line_range(args) })
        } else {
            ProgressView::Done(read_text(answers[0]))
        },
    }
}

/// How a call of `read_file` goes on.
pub fn read_file(args: &Json, answers: &Vec<Answer>) -> (r: Progress)
    ensures
        r@ == read_file_progress(args@, answer_views(answers@)),
{
    match arg_str(args, "path") {
        Err(e) => Progress::Done(Err(e)),
        Ok(path) => if answers.len() == 0 {
            let range = match (args.at("start_line").as_natural(), args.at("end_line").as_natural()) {
                (Some(first), Some(last)) => Some((first as usize, last as usize)),
                (Some(first), None) => Some((first as usize, usize::MAX)),
                (None, Some(last)) => Some((1, last as usize)),
                (None, None) => None,
            };
            Progress::Ask(Ask::ReadFile { path: text(path), range })
        } else {
            Progress::Done(text_read(&answers[0]))
        },
    }
}

/// How a call of `list_directory` goes on.
pub open spec fn list_directory_progress(
    args: JsonView,
    answers: Seq<AnswerView>,
) -> ProgressView {
    if answers.len() == 0 {
        ProgressView::Ask(
            AskView::ListDir {
                path: args.at("path"@).text_or("."@),
                depth: match args.at("depth"@).natural() {
                    Some(d) => Some(d as usize),
                    None => None,
                },
            },
        )
    } else {
        ProgressView::Done(read_text(answers[0]))
    }
}

/// How a call of `list_directory` goes on.
pub fn list_directory(args: &Json, answers: &Vec<Answer>) -> (r: Progress)
    ensures
        r@ == list_directory_progress(args@, answer_views(answers@)),
{
    if answers.len() == 0 {
        let depth = match args.at("depth").as_natural() {
            Some(d) => Some(d as usize),
            None => None,
        };
        Progress::Ask(Ask::ListDir { path: text(args.at("path").text_or(".")), depth })
    } else {
        Progress::Done(text_read(&answers[0]))
    }
}

// ─── Searching ──────────────────────────────────────────────────────────────

/// The command that searches with ripgrep.
pub open spec fn ripgrep(pattern: Seq<char>, path: Seq<char>, glob: Option<Seq<char>>) -> Seq<
    char,
> {
    match glob {
        Some(g) => "rg --line-number --no-heading --color never --glob "@ + quoted(g) + " "@
            + quoted(pattern) + " "@ + quoted(path),
        None => "rg --line-number --no-heading --color never "@ + quoted(pattern) + " "@ + quoted(
            path,
        ),
    }
}

/// The command that searches: with ripgrep where it is there, else with grep.
pub open spec fn search_command(
    pattern: Seq<char>,
    path: Seq<char>,
    glob: Option<Seq<char>>,
) -> Seq<char> {
    "if command -v rg >/dev/null 2>&1; then "@ + ripgrep(pattern, path, glob) + "; else "@ + (
    "grep -rn "@ + quoted(pattern) + " "@ + quoted(path) + " 2>/dev/null"@) + "; fi"@
}

/// The place that is searched: the whole workspace where nothing is said.
pub open spec fn search_place(args: JsonView) -> Seq<char> {
    args.at("path"@).text_or("."@)
}

/// How a call of `search_code` goes on. A path that does not stay in the workspace is refused.
pub open spec fn search_code_progress(args: JsonView, answers: Seq<AnswerView>) -> ProgressView {
    match text_argument(args, "pattern"@) {
        Err(e) => ProgressView::Done(Err(e)),
        Ok(pattern) => match names_in(search_place(args)) {
            Err(e) => ProgressView::Done(Err(e)),
            Ok(_) => if answers.len() == 0 {
                ProgressView::Ask(
                    AskView::Exec {
                        command: search_command(
                            pattern,
                            search_place(args),
                            args.at("glob"@).text(),
                        ),
                        timeout_s: Some(60),
                    },
                )
            } else {
                ProgressView::Done(
                    match run_result(answers[0]) {
                        Err(e) => Err(e),
                        Ok(x) => if is_blank(x.stdout) {
                            Ok("No matches for '"@ + pattern + "'."@)
                        } else {
                            Ok(x.stdout)
                        },
                    },
                )
            },
        },
    }
}

/// Nothing is searched outside the workspace: a path that begins at the root of the file system or
/// leads above the workspace is refused, whatever the sandbox might answer.
pub proof fn search_stays_inside(args: JsonView, answers: Seq<AnswerView>)
    ensures
        is_absolute(search_place(args)) || walk(split(search_place(args), "/"@)) is None
            ==> search_code_progress(args, answers) matches ProgressView::Done(Err(_)),
{
}

/// The command that searches with ripgrep.
fn ripgrep_command(pattern: &str, path: &str, glob: Option<&str>) -> (r: String)
    ensures
        r@ == ripgrep(pattern@, path@, opt_str(glob)),
{
    let mut out = match glob {
        Some(g) => {
            let mut head = text("rg --line-number --no-heading --color never --glob ");
            let word = shell_quote(g);
            head.append(word.as_str());
            head.append(" ");
            head
        },
        None => text("rg --line-number --no-heading --color never "),
    };
    let word = shell_quote(pattern);
    out.append(word.as_str());
    out.append(" ");
    let place = shell_quote(path);
    out.append(place.as_str());
    out
}

/// How a call of `search_code` goes on.
pub fn search_code(args: &Json, answers: &Vec<Answer>) -> (r: Progress)
    ensures
        r@ == search_code_progress(args@, answer_views(answers@)),
{
    match arg_str(args, "pattern") {
        Err(e) => Progress::Done(Err(e)),
        Ok(pattern) => {
            let path = args.at("path").text_or(".");
            match names_below(path) {
                Err(e) => {
                    return Progress::Done(Err(e));
                },
                Ok(_) => {},
            }
            if answers.len() > 0 {
                assert(answer_views(answers@)[0] == answers@[0]@);
                return match result_run(&answers[0]) {
                    Err(e) => Progress::Done(Err(e)),
                    Ok(x) => if blank(x.stdout.as_str()) {
                        let mut out = text("No matches for '");
                        out.append(pattern);
                        out.append("'.");
                        Progress::Done(Ok(out))
                    } else {
                        Progress::Done(Ok(text(x.stdout.as_str())))
                    },
                };
            }
            let mut command = text("if command -v rg >/dev/null 2>&1; then ");
            let rg = ripgrep_command(pattern, path, args.at("glob").as_text());
            command.append(rg.as_str());
            command.append("; else ");
            let mut grep = text("grep -rn ");
            let word = shell_quote(pattern);
            grep.append(word.as_str());
            grep.append(" ");
            let place = shell_quote(path);
            grep.append(place.as_str());
            grep.append(" 2>/dev/null");
            command.append(grep.as_str());
            command.append("; fi");
            Progress::Ask(Ask::Exec { command, timeout_s: Some(60) })
        },
    }
}

// ─── Writing ────────────────────────────────────────────────────────────────

/// How a call of `write_file` goes on.
pub open spec fn write_file_progress(args: JsonView, answers: Seq<AnswerView>) -> ProgressView {
    match text_argument(args, "path"@) {
        Err(e) => ProgressView::Done(Err(e)),
        Ok(path) => match text_argument(args, "content"@) {
            Err(e) => ProgressView::Done(Err(e)),
            Ok(content) => if answers.len() == 0 {
                ProgressView::Ask(AskView::WriteFile { path, content })
            } else {
                ProgressView::Done(
                    match answers[0] {
                        AnswerView::Failed(e) => Err(e),
                        _ => Ok(
                            "Wrote "@ + decimal(byte_len(content)) + " bytes to "@ + path,
                        ),
                    },
                )
            },
        },
    }
}

/// How a call of `write_file` goes on.
pub fn write_file(args: &Json, answers: &Vec<Answer>) -> (r: Progress)
    ensures
        r@ == write_file_progress(args@, answer_views(answers@)),
{
    match arg_str(args, "path") {
        Err(e) => Progress::Done(Err(e)),
        Ok(path) => match arg_str(args, "content") {
            Err(e) => Progress::Done(Err(e)),
            Ok(content) => if answers.len() == 0 {
                Progress::Ask(Ask::WriteFile { path: text(path), content: text(content) })
            } else {
                assert(answer_views(answers@)[0] == answers@[0]@);
                match &answers[0] {
                    Answer::Failed(e) => Progress::Done(Err(text(e.as_str()))),
                    _ => {
                        let mut out = text("Wrote ");
                        let size = count_text(byte_count(content));
                        out.append(size.as_str());
                        out.append(" bytes to ");
                        out.append(path);
                        Progress::Done(Ok(out))
                    },
                }
            },
        },
    }
}

// ─── Editing ────────────────────────────────────────────────────────────────

/// The views of a sequence of edits, each a text to find and its replacement.
pub open spec fn edit_views(edits: Seq<(String, String)>) -> Seq<(Seq<char>, Seq<char>)> {
    edits.map_values(|edit: (String, String)| (edit.0@, edit.1@))
}

/// The edits in the list `edits`, or what is missing in it first.
pub open spec fn listed_edits(items: Seq<JsonView>) -> Result<
    Seq<(Seq<char>, Seq<char>)>,
    Seq<char>,
>
    decreases items.len(),
{
    if items.len() == 0 {
        Ok(Seq::empty())
    } else {
        match listed_edits(items.drop_last()) {
            Err(e) => Err(e),
            Ok(head) => {
                let label = "edits["@ + decimal((items.len() - 1) as nat);
                match items.last().at("search"@).text() {
                    None => Err(label + "] missing 'search'"@),
                    Some(search) => match items.last().at("replace"@).text() {
                        None => Err(label + "] missing 'replace'"@),
                        Some(replace) => Ok(head.push((search, replace))),
                    },
                }
            },
        }
    }
}

/// The edits that a call asks for: those in the list, then the single one.
pub open spec fn edits_of(args: JsonView) -> Result<Seq<(Seq<char>, Seq<char>)>, Seq<char>> {
    match listed_edits(args.at("edits"@).items_or_none()) {
        Err(e) => Err(e),
        Ok(listed) => {
            let all = match args.at("search"@).text() {
                Some(search) => match args.at("replace"@).text() {
                    Some(replace) => listed.push((search, replace)),
                    None => listed,
                },
                None => listed,
            };
            if all.len() == 0 {
                Err("provide either 'search'+'replace' or a non-empty 'edits' array"@)
            } else {
                Ok(all)
            }
        },
    }
}

/// How an edit is called in messages: by its number where there are several.
pub open spec fn edit_label(index: nat, count: nat) -> Seq<char> {
    if count > 1 {
        "edit "@ + decimal(index + 1) + " "@
    } else {
        Seq::empty()
    }
}

/// `content` after one edit: what is to be found must stand there exactly once.
pub open spec fn edited_once(
    path: Seq<char>,
    content: Seq<char>,
    edit: (Seq<char>, Seq<char>),
    index: nat,
    count: nat,
) -> Result<Seq<char>, Seq<char>> {
    let matches = count_matches(content, edit.0);
    let label = edit_label(index, count);
    if matches == 0 {
        Err(label + "search block not found in "@ + path)
    } else if matches == 1 {
        Ok(replace_first(content, edit.0, edit.1))
    } else {
        Err(
            label + "search block is not unique in "@ + path + " ("@ + decimal(matches)
                + " matches); add more surrounding context"@,
        )
    }
}

/// `content` after the first `n` edits, each on what the one before has left.
pub open spec fn edited(
    path: Seq<char>,
    content: Seq<char>,
    edits: Seq<(Seq<char>, Seq<char>)>,
    n: nat,
) -> Result<Seq<char>, Seq<char>>
    decreases n,
{
    if n == 0 {
        Ok(content)
    } else {
        match edited(path, content, edits, (n - 1) as nat) {
            Err(e) => Err(e),
            Ok(before) => edited_once(path, before, edits[n - 1], (n - 1) as nat, edits.len()),
        }
    }
}

/// How a call of `edit_file` goes on: the file is read, and written only where every edit fits.
pub open spec fn edit_file_progress(args: JsonView, answers: Seq<AnswerView>) -> ProgressView {
    match text_argument(args, "path"@) {
        Err(e) => ProgressView::Done(Err(e)),
        Ok(path) => match edits_of(args) {
            Err(e) => ProgressView::Done(Err(e)),
            Ok(edits) => if answers.len() == 0 {
                ProgressView::Ask(AskView::ReadRaw { path })
            } else {
                match read_text(answers[0]) {
                    Err(e) => ProgressView::Done(Err(e)),
                    Ok(content) => match edited(path, content, edits, edits.len()) {
                        Err(e) => ProgressView::Done(Err(e)),
                        Ok(new_content) => if answers.len() == 1 {
                            ProgressView::Ask(AskView::WriteFile { path, content: new_content })
                        } else {
                            ProgressView::Done(
                                match answers[1] {
                                    AnswerView::Failed(e) => Err(e),
                                    _ => Ok(
                                        "Applied "@ + decimal(edits.len()) + " edit(s) to "@ + path,
                                    ),
                                },
                            )
                        },
                    },
                }
            },
        },
    }
}

/// That the member `what` of the edit with number `i` is missing.
fn edit_lacks(i: usize, what: &str) -> (r: String)
    ensures
        r@ == "edits["@ + decimal(i as nat) + what@,
{
    let mut out = text("edits[");
    let number = count_text(i);
    out.append(number.as_str());
    out.append(what);
    out
}

/// The edits in the list `edits`, or what is missing in it first.
fn read_edits(items: &Vec<Json>) -> (r: Result<Vec<(String, String)>, String>)
    ensures
        match r {
            Ok(edits) => listed_edits(json_views(items@)) == Ok::<
                Seq<(Seq<char>, Seq<char>)>,
                Seq<char>,
            >(edit_views(edits@)),
            Err(e) => listed_edits(json_views(items@)) == Err::<
                Seq<(Seq<char>, Seq<char>)>,
                Seq<char>,
            >(e@),
        },
{
    let ghost all = json_views(items@);
    let mut out: Vec<(String, String)> = Vec::new();
    let mut i: usize = 0;
    assert(edit_views(out@) =~= Seq::empty());
    while i < items.len()
        invariant
            i <= items@.len(),
            all == json_views(items@),
            listed_edits(all.take(i as int)) == Ok::<Seq<(Seq<char>, Seq<char>)>, Seq<char>>(
                edit_views(out@),
            ),
        decreases items@.len() - i,
    {
        let ghost before = edit_views(out@);
        assert(all.take(i + 1).drop_last() =~= all.take(i as int));
        match items[i].at("search").as_text() {
            None => {
                let e = edit_lacks(i, "] missing 'search'");
                proof {
                    listed_edits_stay_refused(all, i + 1);
                }
                return Err(e);
            },
            Some(search) => match items[i].at("replace").as_text() {
                None => {
                    let e = edit_lacks(i, "] missing 'replace'");
                    proof {
                        listed_edits_stay_refused(all, i + 1);
                    }
                    return Err(e);
                },
                Some(replace) => {
                    out.push((text(search), text(replace)));
                    assert(edit_views(out@) =~= before.push((search@, replace@)));
                },
            },
        }
        i += 1;
    }
    assert(all.take(i as int) =~= all);
    Ok(out)
}

proof fn listed_edits_stay_refused(items: Seq<JsonView>, i: int)
    requires
        0 <= i <= items.len(),
        listed_edits(items.take(i)) is Err,
    ensures
        listed_edits(items) == listed_edits(items.take(i)),
    decreases items.len() - i,
{
    if i < items.len() {
        assert(items.take(i + 1).drop_last() =~= items.take(i));
        listed_edits_stay_refused(items, i + 1);
    } else {
        assert(items.take(i) =~= items);
    }
}

/// The edits that a call asks for.
pub fn collect_edits(args: &Json) -> (r: Result<Vec<(String, String)>, String>)
    ensures
        match r {
            Ok(edits) => edits_of(args@) == Ok::<Seq<(Seq<char>, Seq<char>)>, Seq<char>>(
                edit_views(edits@),
            ),
            Err(e) => edits_of(args@) == Err::<Seq<(Seq<char>, Seq<char>)>, Seq<char>>(e@),
        },
{
    let listed = match args.at("edits").as_items() {
        Some(items) => read_edits(items),
        None => {
            let none: Vec<(String, String)> = Vec::new();
            assert(edit_views(none@) =~= Seq::empty());
            Ok(none)
        },
    };
    match listed {
        Err(e) => Err(e),
        Ok(mut edits) => {
            let ghost before = edit_views(edits@);
            match args.at("search").as_text() {
                Some(search) => match args.at("replace").as_text() {
                    Some(replace) => {
                        edits.push((text(search), text(replace)));
                        assert(edit_views(edits@) =~= before.push((search@, replace@)));
                    },
                    None => {},
                },
                None => {},
            }
            assert(edit_views(edits@).len() == edits@.len());
            if edits.len() == 0 {
                Err(text("provide either 'search'+'replace' or a non-empty 'edits' array"))
            } else {
                Ok(edits)
            }
        },
    }
}

/// `content` after one edit.
fn apply_edit(
    path: &str,
    content: &str,
    search: &str,
    replace: &str,
    index: usize,
    count: usize,
) -> (r: Result<String, String>)
    requires
        index < count,
    ensures
        outcome(r) == edited_once(path@, content@, (search@, replace@), index as nat, count as nat),
{
    let matches = count_text_matches(content, search);
    if matches == 1 {
        return Ok(replace_first_text(content, search, replace));
    }
    let mut out = if count > 1 {
        let mut label = text("edit ");
        let number = count_text(index + 1);
        label.append(number.as_str());
        label.append(" ");
        label
    } else {
        String::new()
    };
    if matches == 0 {
        out.append("search block not found in ");
        out.append(path);
    } else {
        out.append("search block is not unique in ");
        out.append(path);
        out.append(" (");
        let number = wide_text(matches);
        out.append(number.as_str());
        out.append(" matches); add more surrounding context");
    }
    Err(out)
}

/// `content` after all the edits, in order.
pub fn apply_edits(path: &str, content: &str, edits: &Vec<(String, String)>) -> (r: Result<
    String,
    String,
>)
    ensures
        outcome(r) == edited(path@, content@, edit_views(edits@), edits@.len()),
{
    let ghost all = edit_views(edits@);
    let mut current = text(content);
    let mut i: usize = 0;
    while i < edits.len()
        invariant
            i <= edits@.len(),
            all == edit_views(edits@),
            edited(path@, content@, all, i as nat) == Ok::<Seq<char>, Seq<char>>(current@),
        decreases edits@.len() - i,
    {
        assert(all[i as int] == (edits@[i as int].0@, edits@[i as int].1@));
        assert(all.len() == edits@.len());
        match apply_edit(
            path,
            current.as_str(),
            edits[i].0.as_str(),
            edits[i].1.as_str(),
            i,
            edits.len(),
        ) {
            Err(e) => {
                proof {
                    edits_stay_refused(path@, content@, all, (i + 1) as nat, all.len());
                }
                return Err(e);
            },
            Ok(next) => {
                current = next;
            },
        }
        i += 1;
    }
    Ok(current)
}

proof fn edits_stay_refused(
    path: Seq<char>,
    content: Seq<char>,
    edits: Seq<(Seq<char>, Seq<char>)>,
    i: nat,
    n: nat,
)
    requires
        i <= n,
        edited(path, content, edits, i) is Err,
    ensures
        edited(path, content, edits, n) == edited(path, content, edits, i),
    decreases n - i,
{
    if i < n {
        edits_stay_refused(path, content, edits, i, (n - 1) as nat);
    }
}

/// How a call of `edit_file` goes on.
pub fn edit_file(args: &Json, answers: &Vec<Answer>) -> (r: Progress)
    ensures
        r@ == edit_file_progress(args@, answer_views(answers@)),
{
    match arg_str(args, "path") {
        Err(e) => Progress::Done(Err(e)),
        Ok(path) => match collect_edits(args) {
            Err(e) => Progress::Done(Err(e)),
            Ok(edits) => {
                assert(edit_views(edits@).len() == edits@.len());
                if answers.len() == 0 {
                    return Progress::Ask(Ask::ReadRaw { path: text(path) });
                }
                assert(answer_views(answers@)[0] == answers@[0]@);
                match text_read(&answers[0]) {
                    Err(e) => Progress::Done(Err(e)),
                    Ok(content) => match apply_edits(path, content.as_str(), &edits) {
                        Err(e) => Progress::Done(Err(e)),
                        Ok(new_content) => {
                            if answers.len() == 1 {
                                return Progress::Ask(
                                    Ask::WriteFile { path: text(path), content: new_content },
                                );
                            }
                            assert(answer_views(answers@)[1] == answers@[1]@);
                            match &answers[1] {
                                Answer::Failed(e) => Progress::Done(Err(text(e.as_str()))),
                                _ => {
                                    let mut out = text("Applied ");
                                    let number = count_text(edits.len());
                                    out.append(number.as_str());
                                    out.append(" edit(s) to ");
                                    out.append(path);
                                    Progress::Done(Ok(out))
                                },
                            }
                        },
                    },
                }
            },
        },
    }
}

/// An edit that is made touches one place only: the text that was to be found stood there, the
/// replacement stands there now, and the rest is as it was.
pub proof fn edit_is_local(
    path: Seq<char>,
    content: Seq<char>,
    edit: (Seq<char>, Seq<char>),
    index: nat,
    count: nat,
)
    ensures
        edited_once(path, content, edit, index, count) matches Ok(after) ==> exists|i: int|
            {
                &&& 0 <= i <= i + edit.0.len() <= content.len()
                &&& content == #[trigger] content.take(i) + edit.0 + content.skip(
                    i + edit.0.len() as int,
                )
                &&& after == content.take(i) + edit.1 + content.skip(i + edit.0.len() as int)
            },
{
    if edited_once(path, content, edit, index, count) is Ok {
        find_is_first(content, edit.0, 0);
        match find(content, edit.0) {
            Some(i) => {
                assert(content =~= content.take(i) + edit.0 + content.skip(
                    i + edit.0.len() as int,
                ));
            },
            None => {
                assert(edit.0.len() == 0);
                assert(content.subrange(0, 0) =~= edit.0);
                assert(crate::text::search::occurs_at(content, edit.0, 0));
            },
        }
    }
}

/// Where an edit does not fit, the call ends with the error and nothing is written.
pub proof fn refused_edit_writes_nothing(
    args: JsonView,
    path: Seq<char>,
    edits: Seq<(Seq<char>, Seq<char>)>,
    content: Seq<char>,
    answers: Seq<AnswerView>,
)
    requires
        text_argument(args, "path"@) == Ok::<Seq<char>, Seq<char>>(path),
        edits_of(args) == Ok::<Seq<(Seq<char>, Seq<char>)>, Seq<char>>(edits),
        edited(path, content, edits, edits.len()) is Err,
        answers.len() > 0,
        answers[0] == AnswerView::Text(content),
    ensures
        edit_file_progress(args, answers) == ProgressView::Done(
            edited(path, content, edits, edits.len()),
        ),
{
}

/// Edits in a row are made as if the first of them were made alone and the others on what they
/// leave: the content after all of them is the same, and where one does not fit, none is made.
pub proof fn edits_are_made_in_turn(
    path: Seq<char>,
    content: Seq<char>,
    first: Seq<(Seq<char>, Seq<char>)>,
    second: Seq<(Seq<char>, Seq<char>)>,
)
    ensures
        ({
            let all = edited(path, content, first + second, (first + second).len());
            match edited(path, content, first, first.len()) {
                Err(_) => all is Err,
                Ok(between) => match edited(path, between, second, second.len()) {
                    Err(_) => all is Err,
                    Ok(after) => all == Ok::<Seq<char>, Seq<char>>(after),
                },
            }
        }),
{
    let edits = first + second;
    first_edits_are_made(path, content, edits, first, first.len());
    match edited(path, content, first, first.len()) {
        Err(_) => edits_stay_refused(path, content, edits, first.len(), edits.len()),
        Ok(between) => {
            assert(second =~= edits.skip(first.len() as int));
            later_edits_are_made(path, content, edits, between, second, second.len());
        },
    }
}

/// Whether two outcomes of an edit are the same but for the words of an error.
spec fn same_outcome(
    a: Result<Seq<char>, Seq<char>>,
    b: Result<Seq<char>, Seq<char>>,
) -> bool {
    match a {
        Ok(_) => a == b,
        Err(_) => b is Err,
    }
}

proof fn first_edits_are_made(
    path: Seq<char>,
    content: Seq<char>,
    edits: Seq<(Seq<char>, Seq<char>)>,
    first: Seq<(Seq<char>, Seq<char>)>,
    n: nat,
)
    requires
        first.is_prefix_of(edits),
        n <= first.len(),
    ensures
        same_outcome(edited(path, content, edits, n), edited(path, content, first, n)),
    decreases n,
{
    if n > 0 {
        first_edits_are_made(path, content, edits, first, (n - 1) as nat);
        assert(first[n - 1] == edits[n - 1]);
    }
}

proof fn later_edits_are_made(
    path: Seq<char>,
    content: Seq<char>,
    edits: Seq<(Seq<char>, Seq<char>)>,
    between: Seq<char>,
    second: Seq<(Seq<char>, Seq<char>)>,
    n: nat,
)
    requires
        second.len() <= edits.len(),
        second == edits.skip(edits.len() - second.len()),
        edited(path, content, edits, (edits.len() - second.len()) as nat) == Ok::<
            Seq<char>,
            Seq<char>,
        >(between),
        n <= second.len(),
    ensures
        same_outcome(
            edited(path, content, edits, (edits.len() - second.len() + n) as nat),
            edited(path, between, second, n),
        ),
    decreases n,
{
    if n > 0 {
        later_edits_are_made(path, content, edits, between, second, (n - 1) as nat);
        assert(second[n - 1] == edits[edits.len() - second.len() + n - 1]);
    }
}

/// One call of `edit_file` with edits in a row writes what two calls write, the second on what the
/// first has written; where one of the two is refused, so is the one.
pub proof fn one_call_is_two_calls(
    both: JsonView,
    one: JsonView,
    other: JsonView,
    path: Seq<char>,
    first: Seq<(Seq<char>, Seq<char>)>,
    second: Seq<(Seq<char>, Seq<char>)>,
    content: Seq<char>,
)
    requires
        text_argument(both, "path"@) == Ok::<Seq<char>, Seq<char>>(path),
        text_argument(one, "path"@) == Ok::<Seq<char>, Seq<char>>(path),
        text_argument(other, "path"@) == Ok::<Seq<char>, Seq<char>>(path),
        edits_of(both) == Ok::<Seq<(Seq<char>, Seq<char>)>, Seq<char>>(first + second),
        edits_of(one) == Ok::<Seq<(Seq<char>, Seq<char>)>, Seq<char>>(first),
        edits_of(other) == Ok::<Seq<(Seq<char>, Seq<char>)>, Seq<char>>(second),
    ensures
        ({
            let whole = edit_file_progress(both, seq![AnswerView::Text(content)]);
            match edit_file_progress(one, seq![AnswerView::Text(content)]) {
                ProgressView::Ask(AskView::WriteFile { content: between, .. }) => {
                    let rest = edit_file_progress(other, seq![AnswerView::Text(between)]);
                    match rest {
                        ProgressView::Ask(_) => whole == rest && rest matches ProgressView::Ask(
                            AskView::WriteFile { .. },
                        ),
                        ProgressView::Done(r) => r is Err && whole matches ProgressView::Done(
                            Err(_),
                        ),
                    }
                },
                ProgressView::Ask(_) => false,
                ProgressView::Done(r) => r is Err && whole matches ProgressView::Done(Err(_)),
            }
        }),
{
    edits_are_made_in_turn(path, content, first, second);
}

// ─── Running ────────────────────────────────────────────────────────────────

/// One stream of output under its heading; left out where it is blank.
pub open spec fn stream_shown(heading: Seq<char>, output: Seq<char>) -> Seq<char> {
    if is_blank(output) {
        Seq::empty()
    } else {
        heading + output + if output.len() > 0 && output.last() == '\n' {
            ""@
        } else {
            "\n"@
        }
    }
}

/// What is shown of the result of a command.
pub open spec fn exec_shown(x: ExecView) -> Seq<char> {
    "exit code: "@ + signed_decimal(x.exit_code as int) + "\n"@ + stream_shown(
        "--- stdout ---\n"@,
        x.stdout,
    ) + stream_shown("--- stderr ---\n"@, x.stderr)
}

/// One stream of output under its heading.
fn show_stream(heading: &str, output: &str) -> (r: String)
    ensures
        r@ == stream_shown(heading@, output@),
{
    if blank(output) {
        String::new()
    } else {
        let mut out = text(heading);
        out.append(output);
        let c = chars(output);
        if c.len() > 0 && c[c.len() - 1] == '\n' {
            out.append("");
        } else {
            out.append("\n");
        }
        out
    }
}

/// What is shown of the result of a command.
pub fn format_exec(res: &ExecResult) -> (r: String)
    ensures
        r@ == exec_shown(res@),
{
    let mut out = text("exit code: ");
    let code = signed_text(res.exit_code);
    out.append(code.as_str());
    out.append("\n");
    let stdout = show_stream("--- stdout ---\n", res.stdout.as_str());
    out.append(stdout.as_str());
    let stderr = show_stream("--- stderr ---\n", res.stderr.as_str());
    out.append(stderr.as_str());
    out
}

/// How a call of `run_command` goes on.
pub open spec fn run_command_progress(args: JsonView, answers: Seq<AnswerView>) -> ProgressView {
    match text_argument(args, "command"@) {
        Err(e) => ProgressView::Done(Err(e)),
        Ok(command) => if answers.len() == 0 {
            ProgressView::Ask(
                AskView::Exec { command, timeout_s: args.at("timeout_s"@).natural() },
            )
        } else {
            ProgressView::Done(
                match run_result(answers[0]) {
                    Err(e) => Err(e),
                    Ok(x) => Ok(exec_shown(x)),
                },
            )
        },
    }
}

/// How a call of `run_command` goes on.
pub fn run_command(args: &Json, answers: &Vec<Answer>) -> (r: Progress)
    ensures
        r@ == run_command_progress(args@, answer_views(answers@)),
{
    match arg_str(args, "command") {
        Err(e) => Progress::Done(Err(e)),
        Ok(command) => if answers.len() == 0 {
            Progress::Ask(
                Ask::Exec {
                    command: text(command),
                    timeout_s: args.at("timeout_s").as_natural(),
                },
            )
        } else {
            assert(answer_views(answers@)[0] == answers@[0]@);
            match result_run(&answers[0]) {
                Err(e) => Progress::Done(Err(e)),
                Ok(x) => Progress::Done(Ok(format_exec(x))),
            }
        },
    }
}

/// Which of the answers say that a file could be read.
pub open spec fn readable(answers: Seq<AnswerView>) -> Seq<bool> {
    answers.map_values(|answer: AnswerView| answer !is Failed)
}

/// How many of the answers were about manifest files, once the test command is known.
pub open spec fn probes_made(override_cmd: Option<Seq<char>>, found: Seq<bool>) -> nat {
    if super::project::given_command(override_cmd) is Some {
        0
    } else {
        match first_found(found, 0) {
            Some(i) => if i < markers().len() {
                (i + 1) as nat
            } else {
                markers().len()
            },
            None => markers().len(),
        }
    }
}

/// How a call of `run_tests` goes on: the project is probed until the test command is known, then
/// it is run.
pub open spec fn run_tests_progress(args: JsonView, answers: Seq<AnswerView>) -> ProgressView {
    let override_cmd = args.at("command"@).text();
    let found = readable(answers);
    match command_for(override_cmd, found) {
        None => ProgressView::Ask(
            AskView::ReadFile { path: markers()[answers.len() as int].0, range: Some((1, 1)) },
        ),
        Some(Err(e)) => ProgressView::Done(Err(e)),
        Some(Ok(command)) => {
            let probed = probes_made(override_cmd, found);
            if answers.len() <= probed {
                ProgressView::Ask(
                    AskView::Exec {
                        command,
                        timeout_s: match args.at("timeout_s"@).natural() {
                            Some(s) => Some(s),
                            None => Some(600),
                        },
                    },
                )
            } else {
                ProgressView::Done(
                    match run_result(answers[probed as int]) {
                        Err(e) => Err(e),
                        Ok(x) => Ok("$ "@ + command + "\n"@ + exec_shown(x)),
                    },
                )
            }
        },
    }
}

/// Which of the answers say that a file could be read.
fn read_answers(answers: &Vec<Answer>) -> (r: Vec<bool>)
    ensures
        r@ == readable(answer_views(answers@)),
{
    let ghost all = answer_views(answers@);
    let mut out: Vec<bool> = Vec::new();
    let mut i: usize = 0;
    while i < answers.len()
        invariant
            i <= answers@.len(),
            all == answer_views(answers@),
            out@ == readable(all).take(i as int),
        decreases answers@.len() - i,
    {
        assert(all[i as int] == answers@[i as int]@);
        out.push(
            match &answers[i] {
                Answer::Failed(_) => false,
                _ => true,
            },
        );
        i += 1;
        assert(out@ =~= readable(all).take(i as int));
    }
    assert(readable(all).take(i as int) =~= readable(all));
    out
}

/// How many of the answers were about manifest files.
fn count_probes(override_cmd: Option<&str>, found: &Vec<bool>) -> (r: usize)
    ensures
        r == probes_made(opt_str(override_cmd), found@),
{
    match override_cmd {
        Some(cmd) => if !blank(cmd) {
            return 0;
        },
        None => {},
    }
    let mut i: usize = 0;
    while i < found.len() && i < 7
        invariant
            i <= found@.len(),
            i <= 7,
            super::project::given_command(opt_str(override_cmd)) is None,
            first_found(found@, 0) == first_found(found@, i as int),
        decreases found@.len() - i,
    {
        if found[i] {
            return i + 1;
        }
        i += 1;
    }
    proof {
        first_found_is_later(found@, i as int);
    }
    7
}

proof fn first_found_is_later(found: Seq<bool>, from: int)
    requires
        0 <= from,
    ensures
        first_found(found, from) matches Some(i) ==> from <= i,
    decreases found.len() - from,
{
    if from < found.len() && !found[from] {
        first_found_is_later(found, from + 1);
    }
}

/// How a call of `run_tests` goes on.
pub fn run_tests(args: &Json, answers: &Vec<Answer>) -> (r: Progress)
    ensures
        r@ == run_tests_progress(args@, answer_views(answers@)),
{
    let override_cmd = args.at("command").as_text();
    let found = read_answers(answers);
    assert(found@.len() == answers@.len());
    match test_command(override_cmd, &found) {
        Search::Probe(file) => Progress::Ask(
            Ask::ReadFile { path: text(file), range: Some((1, 1)) },
        ),
        Search::Known(command) => match command {
            Err(e) => Progress::Done(Err(e)),
            Ok(command) => {
                let probed = count_probes(override_cmd, &found);
                if answers.len() <= probed {
                    let timeout_s = match args.at("timeout_s").as_natural() {
                        Some(s) => Some(s),
                        None => Some(600),
                    };
                    return Progress::Ask(Ask::Exec { command, timeout_s });
                }
                assert(answer_views(answers@)[probed as int] == answers@[probed as int]@);
                match result_run(&answers[probed]) {
                    Err(e) => Progress::Done(Err(e)),
                    Ok(x) => {
                        let mut out = text("$ ");
                        out.append(command.as_str());
                        out.append("\n");
                        let shown_result = format_exec(x);
                        out.append(shown_result.as_str());
                        Progress::Done(Ok(out))
                    },
                }
            },
        },
    }
}

// ─── Tool calls ─────────────────────────────────────────────────────────────

/// The coding tools.
#[derive(Debug, Clone, Copy, PartialEq, Eq, Structural)]
pub enum Tool {
    ReadFile,
    ListDirectory,
    SearchCode,
    WriteFile,
    EditFile,
    RunCommand,
    RunTests,
}

/// The tool that is called by `name`.
pub open spec fn tool_of(name: Seq<char>) -> Option<Tool> {
    if name == "read_file"@ {
        Some(Tool::ReadFile)
    } else if name == "list_directory"@ {
        Some(Tool::ListDirectory)
    } else if name == "search_code"@ {
        Some(Tool::SearchCode)
    } else if name == "write_file"@ {
        Some(Tool::WriteFile)
    } else if name == "edit_file"@ {
        Some(Tool::EditFile)
    } else if name == "run_command"@ {
        Some(Tool::RunCommand)
    } else if name == "run_tests"@ {
        Some(Tool::RunTests)
    } else {
        None
    }
}

/// The tool that is called by `name`.
pub fn tool_named(name: &str) -> (r: Option<Tool>)
    ensures
        r == tool_of(name@),
{
    if same(name, "read_file") {
        Some(Tool::ReadFile)
    } else if same(name, "list_directory") {
        Some(Tool::ListDirectory)
    } else if same(name, "search_code") {
        Some(Tool::SearchCode)
    } else if same(name, "write_file") {
        Some(Tool::WriteFile)
    } else if same(name, "edit_file") {
        Some(Tool::EditFile)
    } else if same(name, "run_command") {
        Some(Tool::RunCommand)
    } else if same(name, "run_tests") {
        Some(Tool::RunTests)
    } else {
        None
    }
}

/// How a call of the tool `name` goes on.
pub open spec fn call_progress(
    name: Seq<char>,
    args: JsonView,
    answers: Seq<AnswerView>,
) -> ProgressView {
    match tool_of(name) {
        Some(Tool::ReadFile) => read_file_progress(args, answers),
        Some(Tool::ListDirectory) => list_directory_progress(args, answers),
        Some(Tool::SearchCode) => search_code_progress(args, answers),
        Some(Tool::WriteFile) => write_file_progress(args, answers),
        Some(Tool::EditFile) => edit_file_progress(args, answers),
        Some(Tool::RunCommand) => run_command_progress(args, answers),
        Some(Tool::RunTests) => run_tests_progress(args, answers),
        None => ProgressView::Done(Err("unknown tool: "@ + name)),
    }
}

/// How a tool call goes on, given what its arguments were read as.
pub open spec fn dispatched(
    name: Seq<char>,
    args: Result<JsonView, Seq<char>>,
    answers: Seq<AnswerView>,
) -> StepView {
    match args {
        Err(e) => StepView::Done("Error: invalid tool arguments JSON: "@ + e),
        Ok(j) => match call_progress(name, j, answers) {
            ProgressView::Ask(ask) => StepView::Ask(ask),
            ProgressView::Done(r) => StepView::Done(shown(r)),
        },
    }
}

/// How a call of the tool `name` goes on.
pub fn call(name: &str, args: &Json, answers: &Vec<Answer>) -> (r: Progress)
    ensures
        r@ == call_progress(name@, args@, answer_views(answers@)),
{
    match tool_named(name) {
        Some(Tool::ReadFile) => read_file(args, answers),
        Some(Tool::ListDirectory) => list_directory(args, answers),
        Some(Tool::SearchCode) => search_code(args, answers),
        Some(Tool::WriteFile) => write_file(args, answers),
        Some(Tool::EditFile) => edit_file(args, answers),
        Some(Tool::RunCommand) => run_command(args, answers),
        Some(Tool::RunTests) => run_tests(args, answers),
        None => Progress::Done(Err(prefixed("unknown tool: ", name))),
    }
}

/// How a tool call goes on, given what its arguments were read as.
pub fn dispatch(name: &str, args: &Result<Json, String>, answers: &Vec<Answer>) -> (r: Step)
    ensures
        r@ == dispatched(name@, parsed_view(*args), answer_views(answers@)),
{
    match args {
        Err(e) => Step::Done(
            prefixed("Error: invalid tool arguments JSON: ", e.as_str()),
        ),
        Ok(j) => match call(name, j, answers) {
            Progress::Ask(ask) => Step::Ask(ask),
            Progress::Done(r) => Step::Done(show(r)),
        },
    }
}

/// Carries a tool call on: `arguments` is the JSON text from the model, `answers` what the sandbox
/// has answered so far. Ends in a text for the model; errors are formatted, never raised.
pub fn execute(name: &str, arguments: &str, answers: &Vec<Answer>) -> (r: Step)
    ensures
        r@ == dispatched(name@, json_of_text(arguments@), answer_views(answers@)),
{
    let args = parse(arguments);
    dispatch(name, &args, answers)
}

/// The tools that are advertised to the model are the ones that it can call.
pub proof fn advertised_tools_can_be_called(name: Seq<char>)
    ensures
        advertises(definitions_view(), name) <==> tool_of(name) is Some,
{
    let all = definitions_view();
    definitions_are_named();
    assert(schema_name(all[0]) == Some("read_file"@));
    assert(schema_name(all[1]) == Some("list_directory"@));
    assert(schema_name(all[2]) == Some("search_code"@));
    assert(schema_name(all[3]) == Some("write_file"@));
    assert(schema_name(all[4]) == Some("edit_file"@));
    assert(schema_name(all[5]) == Some("run_command"@));
    assert(schema_name(all[6]) == Some("run_tests"@));
}

} // verus!
