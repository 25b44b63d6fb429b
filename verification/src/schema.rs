//! The descriptions of tools that are advertised to a model.

use vstd::prelude::*;

use crate::json::laws::{member_is_found, missing_member_is_nothing};
use crate::json::make::{
    list, no_items, obj2, obj3, object, object2, object3, string, with_item, with_member,
};
use crate::json::{lookup, member_views, Json, JsonView};

verus! {

/// No parameters.
pub open spec fn no_params() -> Seq<(Seq<char>, JsonView)> {
    Seq::empty()
}

/// A parameter of the given type.
pub open spec fn param(kind: Seq<char>, description: Seq<char>) -> JsonView {
    obj2("type"@, JsonView::Text(kind), "description"@, JsonView::Text(description))
}

/// What is advertised of a tool; `required` is left out where it is `None`.
pub open spec fn tool_schema(
    name: Seq<char>,
    description: Seq<char>,
    params: Seq<(Seq<char>, JsonView)>,
    required: Option<JsonView>,
) -> JsonView {
    let parameters = Seq::empty().push(("type"@, JsonView::Text("object"@))).push(
        ("properties"@, JsonView::Object(params)),
    );
    let parameters = match required {
        Some(names) => parameters.push(("required"@, names)),
        None => parameters,
    };
    obj2(
        "type"@,
        JsonView::Text("function"@),
        "function"@,
        obj3(
            "name"@,
            JsonView::Text(name),
            "description"@,
            JsonView::Text(description),
            "parameters"@,
            JsonView::Object(parameters),
        ),
    )
}

/// The name under which a tool is advertised.
pub open spec fn schema_name(schema: JsonView) -> Option<Seq<char>> {
    schema.at("function"@).at("name"@).text()
}

/// The view of an optional value.
pub open spec fn opt_json(j: Option<Json>) -> Option<JsonView> {
    match j {
        Some(v) => Some(v@),
        None => None,
    }
}

/// A parameter of the given type.
pub fn describe(kind: &str, description: &str) -> (r: Json)
    ensures
        r@ == param(kind@, description@),
{
    object2("type", string(kind), "description", string(description))
}

/// What is advertised of a tool.
pub fn tool(
    name: &str,
    description: &str,
    params: Vec<(String, Json)>,
    required: Option<Json>,
) -> (r: Json)
    ensures
        r@ == tool_schema(name@, description@, member_views(params@), opt_json(required)),
{
    let empty: Vec<(String, Json)> = Vec::new();
    assert(member_views(empty@) =~= Seq::empty());
    let members = with_member(empty, "type", string("object"));
    let members = with_member(members, "properties", object(params));
    let members = match required {
        Some(names) => with_member(members, "required", names),
        None => members,
    };
    object2(
        "type",
        string("function"),
        "function",
        object3(
            "name",
            string(name),
            "description",
            string(description),
            "parameters",
            object(members),
        ),
    )
}

/// No parameters.
pub fn nothing() -> (r: Vec<(String, Json)>)
    ensures
        member_views(r@) == no_params(),
{
    let empty: Vec<(String, Json)> = Vec::new();
    assert(member_views(empty@) =~= no_params());
    empty
}

/// A tool is advertised under its name.
pub broadcast proof fn schema_carries_name(
    name: Seq<char>,
    description: Seq<char>,
    params: Seq<(Seq<char>, JsonView)>,
    required: Option<JsonView>,
)
    ensures
        #[trigger] schema_name(tool_schema(name, description, params, required)) == Some(name),
{
    reveal_strlit("type");
    reveal_strlit("function");
    let schema = tool_schema(name, description, params, required);
    let members = schema->Object_0;
    assert("type"@ != "function"@) by {
        assert("type"@.len() != "function"@.len());
    }
    assert(members.drop_first()[0] == members[1]);
    assert(lookup(members.drop_first(), "function"@) == Some(members[1].1));
    assert(lookup(members, "function"@) == Some(members[1].1));
}

/// Whether a tool called `name` is among those advertised.
pub open spec fn advertises(schemas: Seq<JsonView>, name: Seq<char>) -> bool {
    exists|i: int| 0 <= i < schemas.len() && #[trigger] schema_name(schemas[i]) == Some(name)
}

/// The list of one text.
pub open spec fn names1(a: Seq<char>) -> JsonView {
    JsonView::List(Seq::empty().push(JsonView::Text(a)))
}

/// The list of two texts.
pub open spec fn names2(a: Seq<char>, b: Seq<char>) -> JsonView {
    JsonView::List(Seq::empty().push(JsonView::Text(a)).push(JsonView::Text(b)))
}

/// The list of three texts.
pub open spec fn names3(a: Seq<char>, b: Seq<char>, c: Seq<char>) -> JsonView {
    JsonView::List(
        Seq::empty().push(JsonView::Text(a)).push(JsonView::Text(b)).push(JsonView::Text(c)),
    )
}

/// The list of four texts.
pub open spec fn names4(a: Seq<char>, b: Seq<char>, c: Seq<char>, d: Seq<char>) -> JsonView {
    JsonView::List(
        Seq::empty().push(JsonView::Text(a)).push(JsonView::Text(b)).push(JsonView::Text(c)).push(
            JsonView::Text(d),
        ),
    )
}

/// The list of one text.
pub fn name_list1(a: &str) -> (r: Json)
    ensures
        r@ == names1(a@),
{
    list(with_item(no_items(), string(a)))
}

/// The list of two texts.
pub fn name_list2(a: &str, b: &str) -> (r: Json)
    ensures
        r@ == names2(a@, b@),
{
    list(with_item(with_item(no_items(), string(a)), string(b)))
}

/// The list of three texts.
pub fn name_list3(a: &str, b: &str, c: &str) -> (r: Json)
    ensures
        r@ == names3(a@, b@, c@),
{
    list(with_item(with_item(with_item(no_items(), string(a)), string(b)), string(c)))
}

/// The list of four texts.
pub fn name_list4(a: &str, b: &str, c: &str, d: &str) -> (r: Json)
    ensures
        r@ == names4(a@, b@, c@, d@),
{
    let three = with_item(with_item(with_item(no_items(), string(a)), string(b)), string(c));
    list(with_item(three, string(d)))
}

/// A schema tells the name and the description of its tool, and its parameters under their names.
pub proof fn schema_tells_of_the_tool(
    name: Seq<char>,
    description: Seq<char>,
    params: Seq<(Seq<char>, JsonView)>,
    required: Option<JsonView>,
)
    ensures
        ({
            let schema = tool_schema(name, description, params, required);
            let function = schema.at("function"@);
            &&& schema_name(schema) == Some(name)
            &&& schema.at("type"@) == JsonView::Text("function"@)
            &&& function.at("description"@) == JsonView::Text(description)
            &&& function.at("parameters"@).at("type"@) == JsonView::Text("object"@)
            &&& function.at("parameters"@).at("properties"@) == JsonView::Object(params)
            &&& required matches Some(names) ==> function.at("parameters"@).at("required"@) == names
            &&& required is None ==> function.at("parameters"@).get("required"@) is None
        }),
{
    reveal_strlit("type");
    reveal_strlit("function");
    reveal_strlit("name");
    reveal_strlit("description");
    reveal_strlit("parameters");
    reveal_strlit("properties");
    reveal_strlit("required");
    assert("type"@.len() != "function"@.len());
    assert("name"@.len() != "description"@.len());
    assert("name"@.len() != "parameters"@.len());
    assert("description"@.len() != "parameters"@.len());
    assert("type"@.len() != "properties"@.len());
    assert("type"@.len() != "required"@.len());
    assert("properties"@.len() != "required"@.len());
    let schema = tool_schema(name, description, params, required);
    let members = schema->Object_0;
    let function = members[1].1;
    let parts = function->Object_0;
    let parameters = parts[2].1;
    let asked = parameters->Object_0;
    member_is_found(members, "type"@, 0);
    member_is_found(members, "function"@, 1);
    member_is_found(parts, "name"@, 0);
    member_is_found(parts, "description"@, 1);
    member_is_found(parts, "parameters"@, 2);
    member_is_found(asked, "type"@, 0);
    member_is_found(asked, "properties"@, 1);
    match required {
        Some(names) => member_is_found(asked, "required"@, 2),
        None => missing_member_is_nothing(asked, "required"@),
    }
}

/// A parameter is described by its kind and by what it is for.
pub proof fn parameter_is_described(kind: Seq<char>, description: Seq<char>)
    ensures
        param(kind, description).holds("type"@, JsonView::Text(kind)),
        param(kind, description).holds("description"@, JsonView::Text(description)),
{
    let members = param(kind, description)->Object_0;
    assert(members[0] == ("type"@, JsonView::Text(kind)));
    assert(members[1] == ("description"@, JsonView::Text(description)));
}

} // verus!
