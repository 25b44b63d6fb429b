//! The compact notation of a JSON value: no white space, members in their order.

use vstd::prelude::*;

use super::serde::{json_quoted, quote};
use super::{json_view_unfolds, json_views, member_views, Json, JsonView};
use crate::text::{decimal, decimal_text, text};

verus! {

/// The notation of a value.
pub open spec fn notation(j: JsonView) -> Seq<char>
    decreases j,
{
    match j {
        JsonView::Null => "null"@,
        JsonView::Bool(b) => if b {
            "true"@
        } else {
            "false"@
        },
        JsonView::Natural(n) => decimal(n as nat),
        JsonView::Decimal(s) => s,
        JsonView::Text(s) => json_quoted(s),
        JsonView::List(items) => "["@ + item_notations(items) + "]"@,
        JsonView::Object(members) => "{"@ + member_notations(members) + "}"@,
    }
}

/// The notations of the items of a list, with commas between them.
pub open spec fn item_notations(items: Seq<JsonView>) -> Seq<char>
    decreases items,
{
    if items.len() == 0 {
        Seq::empty()
    } else if items.len() == 1 {
        notation(items[0])
    } else {
        item_notations(items.drop_last()) + ","@ + notation(items.last())
    }
}

/// The notations of the members of an object, with commas between them.
pub open spec fn member_notations(members: Seq<(Seq<char>, JsonView)>) -> Seq<char>
    decreases members,
{
    if members.len() == 0 {
        Seq::empty()
    } else if members.len() == 1 {
        json_quoted(members[0].0) + ":"@ + notation(members[0].1)
    } else {
        member_notations(members.drop_last()) + ","@ + (json_quoted(members.last().0) + ":"@
            + notation(members.last().1))
    }
}

/// The notation of a value.
pub fn compact(j: &Json) -> (r: String)
    ensures
        r@ == notation(j@),
    decreases j,
{
    broadcast use json_view_unfolds;

    match j {
        Json::Null => text("null"),
        Json::Bool(b) => if *b {
            text("true")
        } else {
            text("false")
        },
        Json::Natural(n) => decimal_text(*n),
        Json::Decimal(s) => text(s.as_str()),
        Json::Text(s) => quote(s.as_str()),
        Json::List(items) => {
            let mut inner = String::new();
            let ghost all = json_views(items@);
            let mut i: usize = 0;
            while i < items.len()
                invariant
                    i <= items@.len(),
                    *j == Json::List(*items),
                    all == json_views(items@),
                    inner@ == item_notations(all.take(i as int)),
                decreases items@.len() - i,
            {
                assert(decreases_to!(j => j->List_0));
                assert(decreases_to!(*items => items@));
                assert(decreases_to!(items@ => items@[i as int]));
                assert(all.take(i + 1).drop_last() =~= all.take(i as int));
                if i > 0 {
                    inner.append(",");
                }
                let item = compact(&items[i]);
                inner.append(item.as_str());
                if i == 0 {
                    assert(inner@ =~= notation(all[0]));
                }
                i += 1;
            }
            assert(all.take(i as int) =~= all);
            let mut out = text("[");
            out.append(inner.as_str());
            out.append("]");
            out
        },
        Json::Object(members) => {
            let mut inner = String::new();
            let ghost all = member_views(members@);
            let mut i: usize = 0;
            while i < members.len()
                invariant
                    i <= members@.len(),
                    *j == Json::Object(*members),
                    all == member_views(members@),
                    inner@ == member_notations(all.take(i as int)),
                decreases members@.len() - i,
            {
                assert(decreases_to!(j => j->Object_0));
                assert(decreases_to!(*members => members@));
                assert(decreases_to!(members@ => members@[i as int]));
                assert(decreases_to!(members@[i as int] => members@[i as int].1));
                assert(all.take(i + 1).drop_last() =~= all.take(i as int));
                if i > 0 {
                    inner.append(",");
                }
                let mut member = quote(members[i].0.as_str());
                member.append(":");
                let value = compact(&members[i].1);
                member.append(value.as_str());
                inner.append(member.as_str());
                if i == 0 {
                    assert(inner@ =~= json_quoted(all[0].0) + ":"@ + notation(all[0].1));
                }
                i += 1;
            }
            assert(all.take(i as int) =~= all);
            let mut out = text("{");
            out.append(inner.as_str());
            out.append("}");
            out
        },
    }
}

} // verus!
