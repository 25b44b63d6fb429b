//! JSON values as the agents read and write them.

use vstd::prelude::*;

use crate::text::{same, text};

pub mod laws;
pub mod make;
pub mod notation;
pub mod serde;

verus! {

/// A JSON value.
#[derive(Debug)]
pub enum Json {
    Null,
    Bool(bool),
    /// A number that is a non-negative integer of at most 64 bits.
    Natural(u64),
    /// Any other number, by its notation.
    Decimal(String),
    Text(String),
    List(Vec<Json>),
    /// The members of an object, in the order in which they are walked.
    Object(Vec<(String, Json)>),
}

/// What a JSON value holds.
#[verifier::ext_equal]
pub enum JsonView {
    Null,
    Bool(bool),
    Natural(u64),
    Decimal(Seq<char>),
    Text(Seq<char>),
    List(Seq<JsonView>),
    Object(Seq<(Seq<char>, JsonView)>),
}

impl View for Json {
    type V = JsonView;

    open spec fn view(&self) -> JsonView {
        held(*self)
    }
}

/// What a value holds.
pub open spec fn held(j: Json) -> JsonView
    decreases j,
{
    match j {
        Json::Null => JsonView::Null,
        Json::Bool(b) => JsonView::Bool(b),
        Json::Natural(n) => JsonView::Natural(n),
        Json::Decimal(s) => JsonView::Decimal(s@),
        Json::Text(s) => JsonView::Text(s@),
        Json::List(items) => JsonView::List(all_held(items@)),
        Json::Object(members) => JsonView::Object(all_named(members@)),
    }
}

/// What the items of a list hold.
pub open spec fn all_held(items: Seq<Json>) -> Seq<JsonView>
    decreases items,
{
    if items.len() == 0 {
        Seq::empty()
    } else {
        all_held(items.drop_last()).push(held(items.last()))
    }
}

/// What the members of an object are named and hold.
pub open spec fn all_named(members: Seq<(String, Json)>) -> Seq<(Seq<char>, JsonView)>
    decreases members,
{
    if members.len() == 0 {
        Seq::empty()
    } else {
        all_named(members.drop_last()).push((members.last().0@, held(members.last().1)))
    }
}

/// The views of a sequence of values.
pub open spec fn json_views(items: Seq<Json>) -> Seq<JsonView> {
    items.map_values(|item: Json| item@)
}

/// The views of the members of an object.
pub open spec fn member_views(members: Seq<(String, Json)>) -> Seq<(Seq<char>, JsonView)> {
    members.map_values(|member: (String, Json)| (member.0@, member.1@))
}

/// The view of a list is the list of the views, that of an object the views of its members.
pub broadcast proof fn json_view_unfolds(j: Json)
    ensures
        #![trigger j@]
        j matches Json::List(items) ==> j@ == JsonView::List(json_views(items@)),
        j matches Json::Object(members) ==> j@ == JsonView::Object(member_views(members@)),
{
    match j {
        Json::List(items) => {
            all_held_is_views(items@);
        },
        Json::Object(members) => {
            all_named_is_views(members@);
        },
        _ => {},
    }
}

proof fn all_held_is_views(items: Seq<Json>)
    ensures
        all_held(items) == json_views(items),
    decreases items.len(),
{
    if items.len() > 0 {
        all_held_is_views(items.drop_last());
        assert(json_views(items) =~= json_views(items.drop_last()).push(items.last()@));
    } else {
        assert(json_views(items) =~= Seq::empty());
    }
}

proof fn all_named_is_views(members: Seq<(String, Json)>)
    ensures
        all_named(members) == member_views(members),
    decreases members.len(),
{
    if members.len() > 0 {
        all_named_is_views(members.drop_last());
        assert(member_views(members) =~= member_views(members.drop_last()).push(
            (members.last().0@, members.last().1@),
        ));
    } else {
        assert(member_views(members) =~= Seq::empty());
    }
}

/// The view of what a parse gave.
pub open spec fn parsed_view(r: Result<Json, String>) -> Result<JsonView, Seq<char>> {
    match r {
        Ok(j) => Ok(j@),
        Err(e) => Err(e@),
    }
}

/// The value of the first member named `key`.
pub open spec fn lookup(members: Seq<(Seq<char>, JsonView)>, key: Seq<char>) -> Option<JsonView>
    decreases members.len(),
{
    if members.len() == 0 {
        None
    } else if members[0].0 == key {
        Some(members[0].1)
    } else {
        lookup(members.drop_first(), key)
    }
}

impl JsonView {
    /// The member named `key`, where this is an object that has one.
    pub open spec fn get(self, key: Seq<char>) -> Option<JsonView> {
        match self {
            JsonView::Object(members) => lookup(members, key),
            _ => None,
        }
    }

    /// The member named `key`, or null.
    pub open spec fn at(self, key: Seq<char>) -> JsonView {
        match self.get(key) {
            Some(j) => j,
            None => JsonView::Null,
        }
    }

    /// The first item, or null.
    pub open spec fn first(self) -> JsonView {
        match self {
            JsonView::List(items) => if items.len() > 0 {
                items[0]
            } else {
                JsonView::Null
            },
            _ => JsonView::Null,
        }
    }

    /// The text, where this is one.
    pub open spec fn text(self) -> Option<Seq<char>> {
        match self {
            JsonView::Text(s) => Some(s),
            _ => None,
        }
    }

    /// The text, or `other` where this is none.
    pub open spec fn text_or(self, other: Seq<char>) -> Seq<char> {
        match self {
            JsonView::Text(s) => s,
            _ => other,
        }
    }

    /// The number, where this is a natural one.
    pub open spec fn natural(self) -> Option<u64> {
        match self {
            JsonView::Natural(n) => Some(n),
            _ => None,
        }
    }

    /// The number, or `other` where this is no natural one.
    pub open spec fn natural_or(self, other: u64) -> u64 {
        match self {
            JsonView::Natural(n) => n,
            _ => other,
        }
    }

    /// The truth value, where this is one.
    pub open spec fn truth(self) -> Option<bool> {
        match self {
            JsonView::Bool(b) => Some(b),
            _ => None,
        }
    }

    /// The items, where this is a list.
    pub open spec fn items(self) -> Option<Seq<JsonView>> {
        match self {
            JsonView::List(items) => Some(items),
            _ => None,
        }
    }

    /// The items of a list; none where this is no list.
    pub open spec fn items_or_none(self) -> Seq<JsonView> {
        match self {
            JsonView::List(items) => items,
            _ => Seq::empty(),
        }
    }

    /// The members, where this is an object.
    pub open spec fn members(self) -> Option<Seq<(Seq<char>, JsonView)>> {
        match self {
            JsonView::Object(members) => Some(members),
            _ => None,
        }
    }
}

/// The texts among `items`, in order.
pub open spec fn texts_of(items: Seq<JsonView>) -> Seq<Seq<char>>
    decreases items.len(),
{
    if items.len() == 0 {
        Seq::empty()
    } else {
        match items.last().text() {
            Some(t) => texts_of(items.drop_last()).push(t),
            None => texts_of(items.drop_last()),
        }
    }
}

/// The texts that `items` have as their member `key`, in order.
pub open spec fn texts_at(items: Seq<JsonView>, key: Seq<char>) -> Seq<Seq<char>>
    decreases items.len(),
{
    if items.len() == 0 {
        Seq::empty()
    } else {
        match items.last().at(key).text() {
            Some(t) => texts_at(items.drop_last(), key).push(t),
            None => texts_at(items.drop_last(), key),
        }
    }
}

/// Looking a key up from position `i` on: what the first `i` members do not hold, the rest does.
proof fn lookup_skips(members: Seq<(Seq<char>, JsonView)>, key: Seq<char>, i: int)
    requires
        0 <= i <= members.len(),
        forall|j: int| 0 <= j < i ==> (#[trigger] members[j]).0 != key,
    ensures
        lookup(members, key) == lookup(members.skip(i), key),
    decreases i,
{
    if i == 0 {
        assert(members.skip(0) =~= members);
    } else {
        let rest = members.drop_first();
        assert forall|j: int| 0 <= j < i - 1 implies (#[trigger] rest[j]).0 != key by {
            assert(rest[j] == members[j + 1]);
        }
        lookup_skips(rest, key, i - 1);
        assert(rest.skip(i - 1) =~= members.skip(i));
    }
}

impl Json {
    /// The member named `key`, where this is an object that has one.
    pub fn get(&self, key: &str) -> (r: Option<&Json>)
        ensures
            match r {
                Some(j) => self@.get(key@) == Some(j@),
                None => self@.get(key@) is None,
            },
    {
        broadcast use json_view_unfolds;

        match self {
            Json::Object(members) => {
                let ghost all = member_views(members@);
                assert(self@ == JsonView::Object(all));
                let mut i: usize = 0;
                while i < members.len()
                    invariant
                        i <= members@.len(),
                        all == member_views(members@),
                        self@ == JsonView::Object(all),
                        forall|j: int| 0 <= j < i ==> (#[trigger] all[j]).0 != key@,
                    decreases members@.len() - i,
                {
                    if same(members[i].0.as_str(), key) {
                        proof {
                            lookup_skips(all, key@, i as int);
                            assert(all.skip(i as int)[0] == all[i as int]);
                        }
                        return Some(&members[i].1);
                    }
                    i += 1;
                }
                proof {
                    lookup_skips(all, key@, i as int);
                }
                None
            },
            _ => None,
        }
    }

    /// The member named `key`, or null.
    pub fn at(&self, key: &str) -> (r: &Json)
        ensures
            r@ == self@.at(key@),
    {
        match self.get(key) {
            Some(j) => j,
            None => &Json::Null,
        }
    }

    /// The first item, or null.
    pub fn first(&self) -> (r: &Json)
        ensures
            r@ == self@.first(),
    {
        broadcast use json_view_unfolds;

        match self {
            Json::List(items) => {
                assert(self@ == JsonView::List(json_views(items@)));
                if items.len() > 0 {
                    &items[0]
                } else {
                    &Json::Null
                }
            },
            _ => &Json::Null,
        }
    }

    /// The text, where this is one.
    pub fn as_text(&self) -> (r: Option<&str>)
        ensures
            crate::text::opt_str(r) == self@.text(),
    {
        match self {
            Json::Text(s) => Some(s.as_str()),
            _ => None,
        }
    }

    /// The text, or `other` where this is none.
    pub fn text_or<'a>(&'a self, other: &'a str) -> (r: &'a str)
        ensures
            r@ == self@.text_or(other@),
    {
        match self {
            Json::Text(s) => s.as_str(),
            _ => other,
        }
    }

    /// The number, where this is a natural one.
    pub fn as_natural(&self) -> (r: Option<u64>)
        ensures
            r == self@.natural(),
    {
        match self {
            Json::Natural(n) => Some(*n),
            _ => None,
        }
    }

    /// The number, or `other` where this is no natural one.
    pub fn natural_or(&self, other: u64) -> (r: u64)
        ensures
            r == self@.natural_or(other),
    {
        match self {
            Json::Natural(n) => *n,
            _ => other,
        }
    }

    /// The truth value, where this is one.
    pub fn as_truth(&self) -> (r: Option<bool>)
        ensures
            r == self@.truth(),
    {
        match self {
            Json::Bool(b) => Some(*b),
            _ => None,
        }
    }

    /// The items, where this is a list.
    pub fn as_items(&self) -> (r: Option<&Vec<Json>>)
        ensures
            match r {
                Some(items) => self@.items() == Some(json_views(items@)),
                None => self@.items() is None,
            },
    {
        broadcast use json_view_unfolds;

        match self {
            Json::List(items) => Some(items),
            _ => None,
        }
    }

    /// The members, where this is an object.
    pub fn as_members(&self) -> (r: Option<&Vec<(String, Json)>>)
        ensures
            match r {
                Some(members) => self@.members() == Some(member_views(members@)),
                None => self@.members() is None,
            },
    {
        broadcast use json_view_unfolds;

        match self {
            Json::Object(members) => Some(members),
            _ => None,
        }
    }

    /// A copy of this value.
    pub fn copy(&self) -> (r: Json)
        ensures
            r@ == self@,
        decreases self,
    {
        broadcast use json_view_unfolds;

        match self {
            Json::Null => Json::Null,
            Json::Bool(b) => Json::Bool(*b),
            Json::Natural(n) => Json::Natural(*n),
            Json::Decimal(s) => Json::Decimal(text(s.as_str())),
            Json::Text(s) => Json::Text(text(s.as_str())),
            Json::List(items) => {
                let mut out: Vec<Json> = Vec::new();
                let mut i: usize = 0;
                while i < items.len()
                    invariant
                        i <= items@.len(),
                        *self == Json::List(*items),
                        json_views(out@) == json_views(items@).take(i as int),
                    decreases items@.len() - i,
                {
                    let ghost before = json_views(out@);
                    assert(decreases_to!(*items => items@));
                    assert(decreases_to!(items@ => items@[i as int]));
                    assert(decreases_to!(self => self->List_0));
                    out.push(items[i].copy());
                    assert(json_views(out@) =~= before.push(items@[i as int]@));
                    i += 1;
                    assert(json_views(out@) =~= json_views(items@).take(i as int));
                }
                assert(json_views(items@).take(i as int) =~= json_views(items@));
                Json::List(out)
            },
            Json::Object(members) => {
                let mut out: Vec<(String, Json)> = Vec::new();
                let mut i: usize = 0;
                while i < members.len()
                    invariant
                        i <= members@.len(),
                        *self == Json::Object(*members),
                        member_views(out@) == member_views(members@).take(i as int),
                    decreases members@.len() - i,
                {
                    let ghost before = member_views(out@);
                    assert(decreases_to!(self => self->Object_0));
                    assert(decreases_to!(*members => members@));
                    assert(decreases_to!(members@ => members@[i as int]));
                    assert(decreases_to!(members@[i as int] => members@[i as int].1));
                    let name = text(members[i].0.as_str());
                    let value = members[i].1.copy();
                    out.push((name, value));
                    assert(member_views(out@) =~= before.push(
                        (members@[i as int].0@, members@[i as int].1@),
                    ));
                    i += 1;
                    assert(member_views(out@) =~= member_views(members@).take(i as int));
                }
                assert(member_views(members@).take(i as int) =~= member_views(members@));
                Json::Object(out)
            },
        }
    }
}

/// The texts among `items`, in order.
pub fn texts_in(items: &Vec<Json>) -> (r: Vec<String>)
    ensures
        crate::text::views(r@) == texts_of(json_views(items@)),
{
    let mut out: Vec<String> = Vec::new();
    let mut i: usize = 0;
    assert(crate::text::views(out@) =~= texts_of(json_views(items@).take(0)));
    while i < items.len()
        invariant
            i <= items@.len(),
            crate::text::views(out@) == texts_of(json_views(items@).take(i as int)),
        decreases items@.len() - i,
    {
        let ghost before = crate::text::views(out@);
        assert(json_views(items@).take(i + 1).drop_last() =~= json_views(items@).take(i as int));
        match items[i].as_text() {
            Some(t) => {
                out.push(text(t));
                assert(crate::text::views(out@) =~= before.push(t@));
            },
            None => {},
        }
        i += 1;
    }
    assert(json_views(items@).take(i as int) =~= json_views(items@));
    out
}

/// The texts that `items` have as their member `key`, in order.
pub fn texts_with(items: &Vec<Json>, key: &str) -> (r: Vec<String>)
    ensures
        crate::text::views(r@) == texts_at(json_views(items@), key@),
{
    let mut out: Vec<String> = Vec::new();
    let mut i: usize = 0;
    assert(crate::text::views(out@) =~= texts_at(json_views(items@).take(0), key@));
    while i < items.len()
        invariant
            i <= items@.len(),
            crate::text::views(out@) == texts_at(json_views(items@).take(i as int), key@),
        decreases items@.len() - i,
    {
        let ghost before = crate::text::views(out@);
        assert(json_views(items@).take(i + 1).drop_last() =~= json_views(items@).take(i as int));
        match items[i].at(key).as_text() {
            Some(t) => {
                out.push(text(t));
                assert(crate::text::views(out@) =~= before.push(t@));
            },
            None => {},
        }
        i += 1;
    }
    assert(json_views(items@).take(i as int) =~= json_views(items@));
    out
}

/// Copies of the values.
pub fn copies(items: &Vec<Json>) -> (r: Vec<Json>)
    ensures
        json_views(r@) == json_views(items@),
{
    let mut out: Vec<Json> = Vec::new();
    let mut i: usize = 0;
    while i < items.len()
        invariant
            i <= items@.len(),
            json_views(out@) == json_views(items@).take(i as int),
        decreases items@.len() - i,
    {
        let ghost before = json_views(out@);
        out.push(items[i].copy());
        assert(json_views(out@) =~= before.push(items@[i as int]@));
        i += 1;
        assert(json_views(out@) =~= json_views(items@).take(i as int));
    }
    assert(json_views(items@).take(i as int) =~= json_views(items@));
    out
}

impl JsonView {
    /// Whether this is an object that has a member named `key` with the value `value`.
    pub open spec fn holds(self, key: Seq<char>, value: JsonView) -> bool {
        self matches JsonView::Object(members) && members.contains((key, value))
    }
}

} // verus!
