//! What holds of the members and the items of a value, and of how it is written.

use vstd::prelude::*;

use super::notation::{item_notations, member_notations, notation};
use super::serde::json_quoted;
use super::{lookup, texts_at, texts_of, JsonView};
use crate::text::{decimal, join};

verus! {

// ─── Members and items ──────────────────────────────────────────────────────

/// A member is found by its name: the first one of that name.
pub proof fn member_is_found(members: Seq<(Seq<char>, JsonView)>, key: Seq<char>, i: int)
    requires
        0 <= i < members.len(),
        members[i].0 == key,
        forall|j: int| 0 <= j < i ==> (#[trigger] members[j]).0 != key,
    ensures
        JsonView::Object(members).get(key) == Some(members[i].1),
        JsonView::Object(members).at(key) == members[i].1,
    decreases i,
{
    if i > 0 {
        assert(members[0].0 != key);
        let rest = members.drop_first();
        assert forall|j: int| 0 <= j < i - 1 implies (#[trigger] rest[j]).0 != key by {
            assert(rest[j] == members[j + 1]);
        }
        member_is_found(rest, key, i - 1);
        assert(lookup(members, key) == lookup(rest, key));
    }
}

/// A member that is not there is read as nothing.
pub proof fn missing_member_is_nothing(members: Seq<(Seq<char>, JsonView)>, key: Seq<char>)
    requires
        forall|j: int| 0 <= j < members.len() ==> (#[trigger] members[j]).0 != key,
    ensures
        JsonView::Object(members).get(key) is None,
        JsonView::Object(members).at(key) == JsonView::Null,
    decreases members.len(),
{
    if members.len() > 0 {
        assert(members[0].0 != key);
        let rest = members.drop_first();
        assert forall|j: int| 0 <= j < rest.len() implies (#[trigger] rest[j]).0 != key by {
            assert(rest[j] == members[j + 1]);
        }
        missing_member_is_nothing(rest, key);
    }
}

/// Each value is read as what it is, and as nothing else.
pub proof fn values_are_read_as_they_are(j: JsonView, other: Seq<char>, n: u64)
    ensures
        forall|s: Seq<char>| j.text() == Some(s) <==> j == JsonView::Text(s),
        forall|k: u64| j.natural() == Some(k) <==> j == JsonView::Natural(k),
        forall|b: bool| j.truth() == Some(b) <==> j == JsonView::Bool(b),
        forall|items: Seq<JsonView>| j.items() == Some(items) <==> j == JsonView::List(items),
        forall|members: Seq<(Seq<char>, JsonView)>|
            j.members() == Some(members) <==> j == JsonView::Object(members),
        j.text_or(other) == match j.text() {
            Some(s) => s,
            None => other,
        },
        j.natural_or(n) == match j.natural() {
            Some(k) => k,
            None => n,
        },
        j !is Object ==> forall|key: Seq<char>| #[trigger] j.get(key) is None,
        j matches JsonView::List(items) ==> items.len() > 0 ==> j.first() == items[0],
        j !is List ==> j.first() == JsonView::Null,
{
}

/// The texts of a list are read in their order, and the other items are passed over.
pub proof fn texts_are_read_in_order(items: Seq<JsonView>, item: JsonView)
    ensures
        texts_of(Seq::<JsonView>::empty()) == Seq::<Seq<char>>::empty(),
        item matches JsonView::Text(t) ==> texts_of(items.push(item)) == texts_of(items).push(t),
        item !is Text ==> texts_of(items.push(item)) == texts_of(items),
{
    assert(items.push(item).drop_last() =~= items);
}

/// The texts under a name are read in the order of the items, and items without one are passed
/// over.
pub proof fn named_texts_are_read_in_order(items: Seq<JsonView>, item: JsonView, key: Seq<char>)
    ensures
        texts_at(Seq::<JsonView>::empty(), key) == Seq::<Seq<char>>::empty(),
        item.at(key) matches JsonView::Text(t) ==> texts_at(items.push(item), key) == texts_at(
            items,
            key,
        ).push(t),
        item.at(key) !is Text ==> texts_at(items.push(item), key) == texts_at(items, key),
{
    assert(items.push(item).drop_last() =~= items);
}

// ─── Notation ───────────────────────────────────────────────────────────────

/// The items of a list are written one after the other, with commas between them, in brackets.
pub proof fn list_is_written(items: Seq<JsonView>)
    ensures
        notation(JsonView::List(items)) == "["@ + join(
            Seq::new(items.len(), |i: int| notation(items[i])),
            ","@,
        ) + "]"@,
{
    items_are_written(items);
}

proof fn items_are_written(items: Seq<JsonView>)
    ensures
        item_notations(items) == join(Seq::new(items.len(), |i: int| notation(items[i])), ","@),
    decreases items.len(),
{
    let parts = Seq::new(items.len(), |i: int| notation(items[i]));
    if items.len() > 1 {
        let before = items.drop_last();
        items_are_written(before);
        assert(parts.drop_last() =~= Seq::new(before.len(), |i: int| notation(before[i])));
    }
}

/// The members of an object are written one after the other, each as its name, a colon and its
/// value, with commas between them, in braces.
pub proof fn object_is_written(members: Seq<(Seq<char>, JsonView)>)
    ensures
        notation(JsonView::Object(members)) == "{"@ + join(
            Seq::new(
                members.len(),
                |i: int| json_quoted(members[i].0) + ":"@ + notation(members[i].1),
            ),
            ","@,
        ) + "}"@,
{
    members_are_written(members);
}

proof fn members_are_written(members: Seq<(Seq<char>, JsonView)>)
    ensures
        member_notations(members) == join(
            Seq::new(
                members.len(),
                |i: int| json_quoted(members[i].0) + ":"@ + notation(members[i].1),
            ),
            ","@,
        ),
    decreases members.len(),
{
    let parts = Seq::new(
        members.len(),
        |i: int| json_quoted(members[i].0) + ":"@ + notation(members[i].1),
    );
    if members.len() > 1 {
        let before = members.drop_last();
        members_are_written(before);
        assert(parts.drop_last() =~= Seq::new(
            before.len(),
            |i: int| json_quoted(before[i].0) + ":"@ + notation(before[i].1),
        ));
    }
}

/// Numbers and texts are written as what they are.
pub proof fn plain_values_are_written(s: Seq<char>, n: u64)
    ensures
        notation(JsonView::Text(s)) == json_quoted(s),
        notation(JsonView::Decimal(s)) == s,
        notation(JsonView::Natural(n)) == decimal(n as nat),
        notation(JsonView::Bool(true)) == "true"@,
        notation(JsonView::Bool(false)) == "false"@,
        notation(JsonView::Null) == "null"@,
{
}

} // verus!
