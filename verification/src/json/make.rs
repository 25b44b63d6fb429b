//! Putting JSON values together.

use vstd::prelude::*;

use super::{json_view_unfolds, json_views, member_views, Json, JsonView};
use crate::text::text;

verus! {

/// The object with the one member given.
pub open spec fn obj1(k: Seq<char>, v: JsonView) -> JsonView {
    JsonView::Object(seq![(k, v)])
}

/// The object with the two members given.
pub open spec fn obj2(k1: Seq<char>, v1: JsonView, k2: Seq<char>, v2: JsonView) -> JsonView {
    JsonView::Object(seq![(k1, v1), (k2, v2)])
}

/// The object with the three members given.
pub open spec fn obj3(
    k1: Seq<char>,
    v1: JsonView,
    k2: Seq<char>,
    v2: JsonView,
    k3: Seq<char>,
    v3: JsonView,
) -> JsonView {
    JsonView::Object(seq![(k1, v1), (k2, v2), (k3, v3)])
}

/// No members yet.
pub fn no_members_yet() -> (r: Vec<(String, Json)>)
    ensures
        member_views(r@) == Seq::<(Seq<char>, JsonView)>::empty(),
{
    let empty: Vec<(String, Json)> = Vec::new();
    assert(member_views(empty@) =~= Seq::<(Seq<char>, JsonView)>::empty());
    empty
}

/// `members` with one more at the end.
pub fn with_member(mut members: Vec<(String, Json)>, k: &str, v: Json) -> (r: Vec<
    (String, Json),
>)
    ensures
        member_views(r@) == member_views(members@).push((k@, v@)),
{
    let ghost before = member_views(members@);
    members.push((text(k), v));
    assert(member_views(members@) =~= before.push((k@, v@)));
    members
}

/// The object with the members given.
pub fn object(members: Vec<(String, Json)>) -> (r: Json)
    ensures
        r@ == JsonView::Object(member_views(members@)),
{
    broadcast use json_view_unfolds;

    Json::Object(members)
}

/// The list of the items given.
pub fn list(items: Vec<Json>) -> (r: Json)
    ensures
        r@ == JsonView::List(json_views(items@)),
{
    broadcast use json_view_unfolds;

    Json::List(items)
}

/// No items.
pub fn no_items() -> (r: Vec<Json>)
    ensures
        json_views(r@) == Seq::<JsonView>::empty(),
{
    let empty: Vec<Json> = Vec::new();
    assert(json_views(empty@) =~= Seq::<JsonView>::empty());
    empty
}

/// `items` with one more at the end.
pub fn with_item(mut items: Vec<Json>, item: Json) -> (r: Vec<Json>)
    ensures
        json_views(r@) == json_views(items@).push(item@),
{
    let ghost before = json_views(items@);
    let ghost added = item@;
    items.push(item);
    assert(json_views(items@) =~= before.push(added));
    items
}

/// A text value.
pub fn string(s: &str) -> (r: Json)
    ensures
        r@ == JsonView::Text(s@),
{
    Json::Text(text(s))
}

/// The object with the one member given.
pub fn object1(k: &str, v: Json) -> (r: Json)
    ensures
        r@ == obj1(k@, v@),
{
    let ghost view = v@;
    let members = with_member(Vec::new(), k, v);
    assert(member_views(members@) =~= seq![(k@, view)]);
    object(members)
}

/// The object with the two members given.
pub fn object2(k1: &str, v1: Json, k2: &str, v2: Json) -> (r: Json)
    ensures
        r@ == obj2(k1@, v1@, k2@, v2@),
{
    let ghost a = v1@;
    let ghost b = v2@;
    let members = with_member(with_member(Vec::new(), k1, v1), k2, v2);
    assert(member_views(members@) =~= seq![(k1@, a), (k2@, b)]);
    object(members)
}

/// The object with the three members given.
pub fn object3(k1: &str, v1: Json, k2: &str, v2: Json, k3: &str, v3: Json) -> (r: Json)
    ensures
        r@ == obj3(k1@, v1@, k2@, v2@, k3@, v3@),
{
    let ghost a = v1@;
    let ghost b = v2@;
    let ghost c = v3@;
    let members = with_member(with_member(with_member(Vec::new(), k1, v1), k2, v2), k3, v3);
    assert(member_views(members@) =~= seq![(k1@, a), (k2@, b), (k3@, c)]);
    object(members)
}

} // verus!
