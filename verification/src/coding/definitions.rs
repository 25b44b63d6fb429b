//! The coding tools advertised to the model.

use vstd::prelude::*;

use crate::json::make::{no_items, object, string, with_item, with_member};
use crate::json::{json_views, Json, JsonView};
use crate::schema::{
    describe, name_list1, name_list2, names1, names2, no_params, nothing, param,
    schema_carries_name, schema_name, tool, tool_schema,
};

verus! {

/// What is advertised of `read_file`.
pub open spec fn read_file_schema() -> JsonView {
    tool_schema(
        "read_file"@,
        "Read a file from the workspace. Returns content with 1-based line numbers. Read before editing."@,
        no_params()
            .push(("path"@, param("string"@, "Path relative to the workspace root"@)))
            .push(("start_line"@, param("integer"@, "Optional 1-based first line to return"@)))
            .push(("end_line"@, param("integer"@, "Optional 1-based last line to return (inclusive)"@))),
        Some(names1("path"@)),
    )
}

/// What is advertised of `list_directory`.
pub open spec fn list_directory_schema() -> JsonView {
    tool_schema(
        "list_directory"@,
        "List files/directories under a workspace path (recursive). Skips .git, target, node_modules."@,
        no_params()
            .push(("path"@, JsonView::Object(no_params().push(("type"@, JsonView::Text("string"@))).push(("description"@, JsonView::Text("Path relative to the workspace root"@))).push(("default"@, JsonView::Text("."@))))))
            .push(("depth"@, param("integer"@, "Max recursion depth (omit for unbounded)"@))),
        None,
    )
}

/// What is advertised of `search_code`.
pub open spec fn search_code_schema() -> JsonView {
    tool_schema(
        "search_code"@,
        "Search the workspace for a pattern (uses ripgrep if available). Returns file:line: match lines."@,
        no_params()
            .push(("pattern"@, param("string"@, "Regex or literal text to search for"@)))
            .push(("path"@, JsonView::Object(no_params().push(("type"@, JsonView::Text("string"@))).push(("description"@, JsonView::Text("Subdirectory to limit the search to"@))).push(("default"@, JsonView::Text("."@))))))
            .push(("glob"@, param("string"@, "Optional file glob filter, e.g. '*.rs'"@))),
        Some(names1("pattern"@)),
    )
}

/// What is advertised of `write_file`.
pub open spec fn write_file_schema() -> JsonView {
    tool_schema(
        "write_file"@,
        "Create or overwrite a file with the given content. Use edit_file for targeted changes to existing files."@,
        no_params()
            .push(("path"@, param("string"@, "Path relative to the workspace root"@)))
            .push(("content"@, param("string"@, "Full file content"@))),
        Some(names2("path"@, "content"@)),
    )
}

/// What is advertised of `edit_file`.
pub open spec fn edit_file_schema() -> JsonView {
    tool_schema(
        "edit_file"@,
        "Make a targeted edit using search/replace. The `search` block must appear EXACTLY ONCE in the file; it is replaced with `replace`. Provide multiple {search,replace} objects in `edits` to apply several edits in one call (applied in order)."@,
        no_params()
            .push(("path"@, param("string"@, "Path relative to the workspace root"@)))
            .push(("search"@, param("string"@, "Exact text to find (must be unique). Omit if using `edits`."@)))
            .push(("replace"@, param("string"@, "Replacement text. Omit if using `edits`."@)))
            .push(("edits"@, JsonView::Object(no_params().push(("type"@, JsonView::Text("array"@))).push(("description"@, JsonView::Text("Multiple edits applied in order"@))).push(("items"@, JsonView::Object(no_params().push(("type"@, JsonView::Text("object"@))).push(("properties"@, JsonView::Object(no_params().push(("search"@, JsonView::Object(no_params().push(("type"@, JsonView::Text("string"@)))))).push(("replace"@, JsonView::Object(no_params().push(("type"@, JsonView::Text("string"@))))))))).push(("required"@, names2("search"@, "replace"@))))))))),
        Some(names1("path"@)),
    )
}

/// What is advertised of `run_command`.
pub open spec fn run_command_schema() -> JsonView {
    tool_schema(
        "run_command"@,
        "Run a shell command in the workspace root (build, lint, format, etc.). Returns stdout, stderr, and exit code."@,
        no_params()
            .push(("command"@, param("string"@, "Shell command to run via `sh -c`"@)))
            .push(("timeout_s"@, param("integer"@, "Optional wall-clock timeout in seconds"@))),
        Some(names1("command"@)),
    )
}

/// What is advertised of `run_tests`.
pub open spec fn run_tests_schema() -> JsonView {
    tool_schema(
        "run_tests"@,
        "Run the project's test suite. Auto-detects the command (cargo test / npm test / pytest / go test) unless `command` is given."@,
        no_params()
            .push(("command"@, param("string"@, "Optional explicit test command override"@)))
            .push(("timeout_s"@, param("integer"@, "Optional wall-clock timeout in seconds"@))),
        None,
    )
}

/// The tools advertised to the model.
pub open spec fn definitions_view() -> Seq<JsonView> {
    Seq::empty()
        .push(read_file_schema())
        .push(list_directory_schema())
        .push(search_code_schema())
        .push(write_file_schema())
        .push(edit_file_schema())
        .push(run_command_schema())
        .push(run_tests_schema())
}

fn read_file_tool() -> (r: Json)
    ensures
        r@ == read_file_schema(),
{
    let params = nothing();
    let params = with_member(params, "path", describe("string", "Path relative to the workspace root"));
    let params = with_member(params, "start_line", describe("integer", "Optional 1-based first line to return"));
    let params = with_member(params, "end_line", describe("integer", "Optional 1-based last line to return (inclusive)"));
    tool(
        "read_file",
        "Read a file from the workspace. Returns content with 1-based line numbers. Read before editing.",
        params,
        Some(name_list1("path")),
    )
}

fn list_directory_tool() -> (r: Json)
    ensures
        r@ == list_directory_schema(),
{
    let params = nothing();
    let params = with_member(params, "path", object(with_member(with_member(with_member(nothing(), "type", string("string")), "description", string("Path relative to the workspace root")), "default", string("."))));
    let params = with_member(params, "depth", describe("integer", "Max recursion depth (omit for unbounded)"));
    tool(
        "list_directory",
        "List files/directories under a workspace path (recursive). Skips .git, target, node_modules.",
        params,
        None,
    )
}

fn search_code_tool() -> (r: Json)
    ensures
        r@ == search_code_schema(),
{
    let params = nothing();
    let params = with_member(params, "pattern", describe("string", "Regex or literal text to search for"));
    let params = with_member(params, "path", object(with_member(with_member(with_member(nothing(), "type", string("string")), "description", string("Subdirectory to limit the search to")), "default", string("."))));
    let params = with_member(params, "glob", describe("string", "Optional file glob filter, e.g. '*.rs'"));
    tool(
        "search_code",
        "Search the workspace for a pattern (uses ripgrep if available). Returns file:line: match lines.",
        params,
        Some(name_list1("pattern")),
    )
}

fn write_file_tool() -> (r: Json)
    ensures
        r@ == write_file_schema(),
{
    let params = nothing();
    let params = with_member(params, "path", describe("string", "Path relative to the workspace root"));
    let params = with_member(params, "content", describe("string", "Full file content"));
    tool(
        "write_file",
        "Create or overwrite a file with the given content. Use edit_file for targeted changes to existing files.",
        params,
        Some(name_list2("path", "content")),
    )
}

fn edit_file_tool() -> (r: Json)
    ensures
        r@ == edit_file_schema(),
{
    let params = nothing();
    let params = with_member(params, "path", describe("string", "Path relative to the workspace root"));
    let params = with_member(params, "search", describe("string", "Exact text to find (must be unique). Omit if using `edits`."));
    let params = with_member(params, "replace", describe("string", "Replacement text. Omit if using `edits`."));
    let params = with_member(params, "edits", object(with_member(with_member(with_member(nothing(), "type", string("array")), "description", string("Multiple edits applied in order")), "items", object(with_member(with_member(with_member(nothing(), "type", string("object")), "properties", object(with_member(with_member(nothing(), "search", object(with_member(nothing(), "type", string("string")))), "replace", object(with_member(nothing(), "type", string("string")))))), "required", name_list2("search", "replace"))))));
    tool(
        "edit_file",
        "Make a targeted edit using search/replace. The `search` block must appear EXACTLY ONCE in the file; it is replaced with `replace`. Provide multiple {search,replace} objects in `edits` to apply several edits in one call (applied in order).",
        params,
        Some(name_list1("path")),
    )
}

fn run_command_tool() -> (r: Json)
    ensures
        r@ == run_command_schema(),
{
    let params = nothing();
    let params = with_member(params, "command", describe("string", "Shell command to run via `sh -c`"));
    let params = with_member(params, "timeout_s", describe("integer", "Optional wall-clock timeout in seconds"));
    tool(
        "run_command",
        "Run a shell command in the workspace root (build, lint, format, etc.). Returns stdout, stderr, and exit code.",
        params,
        Some(name_list1("command")),
    )
}

fn run_tests_tool() -> (r: Json)
    ensures
        r@ == run_tests_schema(),
{
    let params = nothing();
    let params = with_member(params, "command", describe("string", "Optional explicit test command override"));
    let params = with_member(params, "timeout_s", describe("integer", "Optional wall-clock timeout in seconds"));
    tool(
        "run_tests",
        "Run the project's test suite. Auto-detects the command (cargo test / npm test / pytest / go test) unless `command` is given.",
        params,
        None,
    )
}

/// The tools advertised to the model.
pub fn definitions() -> (r: Vec<Json>)
    ensures
        json_views(r@) == definitions_view(),
{
    let tools = no_items();
    let tools = with_item(tools, read_file_tool());
    let tools = with_item(tools, list_directory_tool());
    let tools = with_item(tools, search_code_tool());
    let tools = with_item(tools, write_file_tool());
    let tools = with_item(tools, edit_file_tool());
    let tools = with_item(tools, run_command_tool());
    let tools = with_item(tools, run_tests_tool());
    tools
}

/// Each tool is advertised under its own name.
pub proof fn definitions_are_named()
    ensures
        definitions_view().len() == 7,
        schema_name(definitions_view()[0]) == Some("read_file"@),
        schema_name(definitions_view()[1]) == Some("list_directory"@),
        schema_name(definitions_view()[2]) == Some("search_code"@),
        schema_name(definitions_view()[3]) == Some("write_file"@),
        schema_name(definitions_view()[4]) == Some("edit_file"@),
        schema_name(definitions_view()[5]) == Some("run_command"@),
        schema_name(definitions_view()[6]) == Some("run_tests"@),
{
    broadcast use schema_carries_name;

    let all = definitions_view();
    assert(all[0] == read_file_schema());
    assert(all[1] == list_directory_schema());
    assert(all[2] == search_code_schema());
    assert(all[3] == write_file_schema());
    assert(all[4] == edit_file_schema());
    assert(all[5] == run_command_schema());
    assert(all[6] == run_tests_schema());
}

} // verus!
