//! Reading JSON text, through `serde_json`.

use serde_json::Value;
use vstd::prelude::*;

use super::{json_view_unfolds, json_views, member_views, parsed_view, Json, JsonView};
use crate::text::text;

verus! {

/// The value type of `serde_json`.
#[verifier::external_type_specification]
#[verifier::external_body]
pub struct ExValue(serde_json::Value);

/// What a `serde_json` value holds.
pub uninterp spec fn value_tree(v: Value) -> JsonView;

/// What `serde_json::from_str` reads a text as: a value, or the message of its error.
pub uninterp spec fn json_of_text(text: Seq<char>) -> Result<JsonView, Seq<char>>;

/// The digit of a number below sixteen, in lower case.
pub open spec fn hex_char(n: u32) -> char {
    if n < 10 {
        ('0' as u32 + n) as char
    } else {
        ('a' as u32 + n - 10) as char
    }
}

/// What stands for a character between quotation marks: quotation mark, backslash and control
/// characters are escaped, every other character stands for itself.
pub open spec fn json_escaped(c: char) -> Seq<char> {
    let code = c as u32;
    if c == '"' || c == '\\' {
        seq!['\\', c]
    } else if code == 8 {
        seq!['\\', 'b']
    } else if code == 9 {
        seq!['\\', 't']
    } else if code == 10 {
        seq!['\\', 'n']
    } else if code == 12 {
        seq!['\\', 'f']
    } else if code == 13 {
        seq!['\\', 'r']
    } else if code < 32 {
        seq!['\\', 'u', '0', '0', hex_char(code / 16), hex_char(code % 16)]
    } else {
        seq![c]
    }
}

/// A text in quotation marks.
pub open spec fn json_quoted(text: Seq<char>) -> Seq<char> {
    seq!['"'] + text.map_values(|c: char| json_escaped(c)).flatten() + seq!['"']
}

/// One level of a `serde_json` value.
pub enum Node {
    Null,
    Bool(bool),
    /// A number: what `as_u64` makes of it, and its notation.
    Number(Option<u64>, String),
    Text(String),
    List(Vec<Value>),
    Object(Vec<(String, Value)>),
}

/// What a number with the given `as_u64` and notation is.
pub open spec fn number_view(natural: Option<u64>, notation: Seq<char>) -> JsonView {
    match natural {
        Some(n) => JsonView::Natural(n),
        None => JsonView::Decimal(notation),
    }
}

/// Calls `serde_json::from_str`. The outcome, a value or the error's message, depends on the text
/// alone; which texts are valid JSON is not stated.
#[verifier::external_body]
fn from_str(text: &str) -> (r: Result<Value, String>)
    ensures
        json_of_text(text@) == (match r {
            Ok(v) => Ok::<JsonView, Seq<char>>(value_tree(v)),
            Err(e) => Err::<JsonView, Seq<char>>(e@),
        }),
{
    serde_json::from_str::<Value>(text).map_err(|e| e.to_string())
}

/// Tells the variants of `serde_json::Value` apart, with `Number::as_u64` and `Number`'s
/// `Display` for a number and the members of an object in the order in which its map is walked.
#[verifier::external_body]
fn open(v: Value) -> (r: Node)
    ensures
        value_tree(v) == (match r {
            Node::Null => JsonView::Null,
            Node::Bool(b) => JsonView::Bool(b),
            Node::Number(natural, notation) => number_view(natural, notation@),
            Node::Text(s) => JsonView::Text(s@),
            Node::List(items) => JsonView::List(items@.map_values(|x: Value| value_tree(x))),
            Node::Object(members) => JsonView::Object(
                members@.map_values(|x: (String, Value)| (x.0@, value_tree(x.1))),
            ),
        }),
{
    match v {
        Value::Null => Node::Null,
        Value::Bool(b) => Node::Bool(b),
        Value::Number(n) => Node::Number(n.as_u64(), n.to_string()),
        Value::String(s) => Node::Text(s),
        Value::Array(items) => Node::List(items),
        Value::Object(map) => Node::Object(map.into_iter().collect()),
    }
}

/// Calls `Value`'s `Display` for a text value: the text in quotation marks, with the escapes that
/// `json_escaped` states.
#[verifier::external_body]
pub(crate) fn quote(text: &str) -> (r: String)
    ensures
        r@ == json_quoted(text@),
{
    Value::String(text.to_string()).to_string()
}

/// The value that a `serde_json` value holds.
pub fn of_value(v: Value) -> (r: Json)
    ensures
        r@ == value_tree(v),
    decreases value_tree(v),
{
    broadcast use json_view_unfolds;

    let ghost tree = value_tree(v);
    match open(v) {
        Node::Null => Json::Null,
        Node::Bool(b) => Json::Bool(b),
        Node::Number(natural, notation) => match natural {
            Some(n) => Json::Natural(n),
            None => Json::Decimal(notation),
        },
        Node::Text(s) => Json::Text(s),
        Node::List(items) => {
            let mut out: Vec<Json> = Vec::new();
            let ghost all = items@;
            for x in it: items
                invariant
                    it.seq() == all,
                    tree == value_tree(v),
                    tree == JsonView::List(all.map_values(|x: Value| value_tree(x))),
                    json_views(out@) == tree->List_0.take(it.index()),
            {
                assert(decreases_to!(tree => tree->List_0));
                assert(decreases_to!(tree->List_0 => tree->List_0[it.index()]));
                assert(tree->List_0[it.index()] == value_tree(x));
                let ghost before = json_views(out@);
                out.push(of_value(x));
                assert(json_views(out@) =~= before.push(value_tree(x)));
                assert(json_views(out@) =~= tree->List_0.take(it.index() + 1));
            }
            assert(json_views(out@) =~= tree->List_0);
            Json::List(out)
        },
        Node::Object(members) => {
            let mut out: Vec<(String, Json)> = Vec::new();
            let ghost all = members@;
            for x in it: members
                invariant
                    it.seq() == all,
                    tree == value_tree(v),
                    tree == JsonView::Object(
                        all.map_values(|x: (String, Value)| (x.0@, value_tree(x.1))),
                    ),
                    member_views(out@) == tree->Object_0.take(it.index()),
            {
                let ghost pair = tree->Object_0[it.index()];
                assert(decreases_to!(tree => tree->Object_0));
                assert(decreases_to!(tree->Object_0 => pair));
                assert(decreases_to!(pair => pair.1));
                assert(pair == (x.0@, value_tree(x.1)));
                let ghost before = member_views(out@);
                let value = of_value(x.1);
                out.push((x.0, value));
                assert(member_views(out@) =~= before.push(pair));
                assert(member_views(out@) =~= tree->Object_0.take(it.index() + 1));
            }
            assert(member_views(out@) =~= tree->Object_0);
            Json::Object(out)
        },
    }
}

/// Reads a JSON text.
pub fn parse(text: &str) -> (r: Result<Json, String>)
    ensures
        parsed_view(r) == json_of_text(text@),
{
    match from_str(text) {
        Ok(v) => Ok(of_value(v)),
        Err(e) => Err(e),
    }
}

} // verus!
