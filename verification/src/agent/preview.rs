//! The status line that announces a tool call.

use vstd::prelude::*;

use crate::json::serde::{json_of_text, parse};
use crate::json::{member_views, parsed_view, Json, JsonView};
use crate::text::width::{can_cut, cuts_cleanly, shorten, shortened};
use crate::text::{opt_view, text};

verus! {

/// How a tool call is announced.
#[derive(Debug, Clone, Copy, PartialEq, Eq, Structural)]
pub enum Style {
    /// By the tool and the path, command or pattern it is given.
    Target,
    /// By the tool and the first text it is given.
    FirstText,
}

/// The path, else the command, else the pattern among the arguments, where it is a text.
pub open spec fn target(args: JsonView) -> Option<Seq<char>> {
    let named = match args.get("path"@) {
        Some(v) => Some(v),
        None => match args.get("command"@) {
            Some(v) => Some(v),
            None => args.get("pattern"@),
        },
    };
    match named {
        Some(v) => v.text(),
        None => None,
    }
}

/// The first text among the members.
pub open spec fn first_text_of(members: Seq<(Seq<char>, JsonView)>) -> Option<Seq<char>>
    decreases members.len(),
{
    if members.len() == 0 {
        None
    } else {
        match members[0].1.text() {
            Some(t) => Some(t),
            None => first_text_of(members.drop_first()),
        }
    }
}

/// The first text among the arguments.
pub open spec fn first_text(args: JsonView) -> Option<Seq<char>> {
    match args.members() {
        Some(members) => first_text_of(members),
        None => None,
    }
}

/// What a tool call is announced with, in full: nothing where the arguments cannot be read.
pub open spec fn detail(style: Style, args: Result<JsonView, Seq<char>>) -> Option<Seq<char>> {
    match args {
        Ok(j) => match style {
            Style::Target => target(j),
            Style::FirstText => first_text(j),
        },
        Err(_) => None,
    }
}

/// Whether the detail can be cut after sixty bytes where it has to be.
pub open spec fn can_preview(style: Style, args: Result<JsonView, Seq<char>>) -> bool {
    match detail(style, args) {
        Some(d) => cuts_cleanly(d, 60),
        None => true,
    }
}

/// The status line for a call of the tool `name`.
pub open spec fn preview_line(
    style: Style,
    name: Seq<char>,
    args: Result<JsonView, Seq<char>>,
) -> Seq<char> {
    match style {
        Style::Target => match detail(style, args) {
            Some(d) => name + ": "@ + shortened(d, 60, "…"@),
            None => name,
        },
        Style::FirstText => name + ": "@ + match detail(style, args) {
            Some(d) => shortened(d, 60, "..."@),
            None => "..."@,
        },
    }
}

/// The status line, where its detail can be cut.
pub open spec fn preview_of(
    style: Style,
    name: Seq<char>,
    args: Result<JsonView, Seq<char>>,
) -> Option<Seq<char>> {
    if can_preview(style, args) {
        Some(preview_line(style, name, args))
    } else {
        None
    }
}

/// The path, else the command, else the pattern among the arguments.
fn target_of(args: &Json) -> (r: Option<String>)
    ensures
        opt_view(r) == target(args@),
{
    let named = match args.get("path") {
        Some(v) => Some(v),
        None => match args.get("command") {
            Some(v) => Some(v),
            None => args.get("pattern"),
        },
    };
    match named {
        Some(v) => match v.as_text() {
            Some(t) => Some(text(t)),
            None => None,
        },
        None => None,
    }
}

/// The first text among the arguments.
fn first_text_in(args: &Json) -> (r: Option<String>)
    ensures
        opt_view(r) == first_text(args@),
{
    match args.as_members() {
        None => None,
        Some(members) => {
            let ghost all = member_views(members@);
            let mut i: usize = 0;
            assert(all.skip(0) =~= all);
            while i < members.len()
                invariant
                    i <= members@.len(),
                    all == member_views(members@),
                    args@.members() == Some(all),
                    first_text_of(all) == first_text_of(all.skip(i as int)),
                decreases members@.len() - i,
            {
                assert(all.skip(i as int)[0] == all[i as int]);
                assert(all.skip(i as int).drop_first() =~= all.skip(i + 1));
                match members[i].1.as_text() {
                    Some(t) => {
                        return Some(text(t));
                    },
                    None => {},
                }
                i += 1;
            }
            None
        },
    }
}

/// What a tool call is announced with, in full.
fn detail_of(style: Style, args: &Result<Json, String>) -> (r: Option<String>)
    ensures
        opt_view(r) == detail(style, parsed_view(*args)),
{
    match args {
        Ok(j) => match style {
            Style::Target => target_of(j),
            Style::FirstText => first_text_in(j),
        },
        Err(_) => None,
    }
}

/// The status line for a call of the tool `name`, given what its arguments were read as.
pub fn preview(style: Style, name: &str, args: &Result<Json, String>) -> (r: String)
    requires
        can_preview(style, parsed_view(*args)),
    ensures
        r@ == preview_line(style, name@, parsed_view(*args)),
{
    match detail_of(style, args) {
        Some(d) => {
            let mut out = text(name);
            out.append(": ");
            let short = match style {
                Style::Target => shorten(d.as_str(), 60, "…"),
                Style::FirstText => shorten(d.as_str(), 60, "..."),
            };
            out.append(short.as_str());
            out
        },
        None => match style {
            Style::Target => text(name),
            Style::FirstText => {
                let mut out = text(name);
                out.append(": ");
                out.append("...");
                out
            },
        },
    }
}

/// The status line, given what the arguments were read as; none where it cannot be cut.
pub fn preview_if_cut(style: Style, name: &str, args: &Result<Json, String>) -> (r: Option<
    String,
>)
    ensures
        opt_view(r) == preview_of(style, name@, parsed_view(*args)),
{
    let fits = match detail_of(style, args) {
        Some(d) => can_cut(d.as_str(), 60),
        None => true,
    };
    if fits {
        Some(preview(style, name, args))
    } else {
        None
    }
}

/// The status line for a tool call, e.g. `edit_file: src/lib.rs`. None where the detail is longer
/// than sixty bytes and its sixtieth byte does not end a character: it cannot be cut there.
pub fn extract_preview(style: Style, name: &str, arguments: &str) -> (r: Option<String>)
    ensures
        opt_view(r) == preview_of(style, name@, json_of_text(arguments@)),
{
    let args = parse(arguments);
    preview_if_cut(style, name, &args)
}

} // verus!
