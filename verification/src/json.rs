//! A JSON document as a plain tree, and its mathematical model.
use crate::entries::member;
use vstd::prelude::*;

verus! {

/// A JSON number.
///
/// Integers are held by value. Any other number is held as the decimal text
/// that stands for it.
#[derive(Clone, Debug, PartialEq, Eq)]
pub enum Number {
    Unsigned(u64),
    Negative(i64),
    Real(String),
}

/// The model of a [`Number`].
pub enum NumberView {
    Unsigned(u64),
    Negative(i64),
    Real(Seq<char>),
}

impl View for Number {
    type V = NumberView;

    open spec fn view(&self) -> NumberView {
        match self {
            Number::Unsigned(u) => NumberView::Unsigned(*u),
            Number::Negative(i) => NumberView::Negative(*i),
            Number::Real(t) => NumberView::Real(t@),
        }
    }
}

impl Number {
    /// A copy of this number.
    pub fn duplicate(&self) -> (r: Number)
        ensures
            r@ == self@,
    {
        match self {
            Number::Unsigned(u) => Number::Unsigned(*u),
            Number::Negative(i) => Number::Negative(*i),
            Number::Real(t) => Number::Real(t.clone()),
        }
    }
}

/// A JSON value. The members of an object are kept in document order.
#[derive(Debug, PartialEq, Eq)]
pub enum Json {
    Null,
    Bool(bool),
    Number(Number),
    Text(String),
    Array(Vec<Json>),
    Object(Vec<(String, Json)>),
}

/// The model of a [`Json`] value.
pub enum JsonView {
    Null,
    Bool(bool),
    Number(NumberView),
    Text(Seq<char>),
    Array(Seq<JsonView>),
    Object(Seq<(Seq<char>, JsonView)>),
}

/// The model of a value, built from the models of its parts.
pub open spec fn model(j: Json) -> JsonView
    decreases j,
{
    match j {
        Json::Null => JsonView::Null,
        Json::Bool(b) => JsonView::Bool(b),
        Json::Number(n) => JsonView::Number(n@),
        Json::Text(t) => JsonView::Text(t@),
        Json::Array(items) => JsonView::Array(
            Seq::new(
                items@.len(),
                |i: int|
                    if 0 <= i < items@.len() {
                        model(items@[i])
                    } else {
                        JsonView::Null
                    },
            ),
        ),
        Json::Object(members) => JsonView::Object(
            Seq::new(
                members@.len(),
                |i: int|
                    if 0 <= i < members@.len() {
                        (members@[i].0@, model(members@[i].1))
                    } else {
                        (Seq::empty(), JsonView::Null)
                    },
            ),
        ),
    }
}

impl View for Json {
    type V = JsonView;

    open spec fn view(&self) -> JsonView {
        model(*self)
    }
}

/// The model of an optional value.
pub open spec fn option_view<T: View>(value: Option<T>) -> Option<T::V> {
    match value {
        Some(v) => Some(v@),
        None => None,
    }
}

/// The models of the items of an array.
pub open spec fn items_view(items: Seq<Json>) -> Seq<JsonView> {
    Seq::new(items.len(), |i: int| items[i]@)
}

/// The models of the members of an object.
pub open spec fn members_view(members: Seq<(String, Json)>) -> Seq<(Seq<char>, JsonView)> {
    Seq::new(members.len(), |i: int| (members[i].0@, members[i].1@))
}

/// The model of a value is made of the models of its parts.
pub proof fn lemma_view(j: Json)
    ensures
        j@ == match j {
            Json::Null => JsonView::Null,
            Json::Bool(b) => JsonView::Bool(b),
            Json::Number(n) => JsonView::Number(n@),
            Json::Text(t) => JsonView::Text(t@),
            Json::Array(items) => JsonView::Array(items_view(items@)),
            Json::Object(members) => JsonView::Object(members_view(members@)),
        },
{
    match j {
        Json::Array(items) => {
            assert(j@->Array_0 =~= items_view(items@));
        },
        Json::Object(members) => {
            assert(j@->Object_0 =~= members_view(members@));
        },
        _ => {},
    }
}

/// Looks a member up by name; of several with that name the last one counts.
pub fn find<'a>(members: &'a Vec<(String, Json)>, key: &str) -> (r: Option<&'a Json>)
    ensures
        option_view(r) == member(members_view(members@), key@),
{
    let ghost all = members_view(members@);
    let mut i: usize = members.len();
    assert(all.take(i as int) =~= all);
    while i > 0
        invariant
            i <= members@.len(),
            all == members_view(members@),
            member(all, key@) == member(all.take(i as int), key@),
        decreases i,
    {
        i -= 1;
        assert(all.take(i + 1).drop_last() =~= all.take(i as int));
        if crate::text::same_text(members[i].0.as_str(), key) {
            return Some(&members[i].1);
        }
    }
    None
}

impl Json {
    /// A copy of this value.
    pub fn duplicate(&self) -> (r: Json)
        ensures
            r@ == self@,
        decreases self,
    {
        proof {
            lemma_view(*self);
        }
        let r = match self {
            Json::Null => Json::Null,
            Json::Bool(b) => Json::Bool(*b),
            Json::Number(n) => Json::Number(n.duplicate()),
            Json::Text(t) => Json::Text(t.clone()),
            Json::Array(items) => {
                let mut copy: Vec<Json> = Vec::new();
                let mut i: usize = 0;
                while i < items.len()
                    invariant
                        i <= items@.len(),
                        copy@.len() == i,
                        decreases_to!(self => items),
                        forall|k: int| 0 <= k < i ==> copy@[k]@ == items@[k]@,
                    decreases items@.len() - i,
                {
                    copy.push(items[i].duplicate());
                    i += 1;
                }
                assert(items_view(copy@) =~= items_view(items@));
                Json::Array(copy)
            },
            Json::Object(members) => {
                let mut copy: Vec<(String, Json)> = Vec::new();
                let mut i: usize = 0;
                while i < members.len()
                    invariant
                        i <= members@.len(),
                        copy@.len() == i,
                        decreases_to!(self => members),
                        forall|k: int|
                            0 <= k < i ==> copy@[k].0@ == members@[k].0@ && copy@[k].1@
                                == members@[k].1@,
                    decreases members@.len() - i,
                {
                    copy.push((members[i].0.clone(), members[i].1.duplicate()));
                    i += 1;
                }
                assert(members_view(copy@) =~= members_view(members@));
                Json::Object(copy)
            },
        };
        proof {
            lemma_view(r);
        }
        r
    }

    /// The member of this object named `key`; nothing where this is no object
    /// or has no such member.
    pub fn get(&self, key: &str) -> (r: Option<&Json>)
        ensures
            option_view(r) == match self@ {
                JsonView::Object(members) => member(members, key@),
                _ => None,
            },
    {
        proof {
            lemma_view(*self);
        }
        match self {
            Json::Object(members) => find(members, key),
            _ => None,
        }
    }
}

impl Clone for Json {
    fn clone(&self) -> (r: Json)
        ensures
            r@ == self@,
    {
        self.duplicate()
    }
}

} // verus!
