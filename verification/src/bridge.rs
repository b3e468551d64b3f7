//! The passage between [`Json`] and `serde_json`, which reads and writes the
//! JSON text.
//!
//! Everything that is taken on trust about `serde_json` stands in this file.
use crate::entries::settled;
use crate::json::{items_view, lemma_view, members_view, Json, JsonView, Number, NumberView};
use vstd::prelude::*;

verus! {

/// `serde_json::Value`, of which nothing but [`value_tree`] is known here.
#[verifier::external_type_specification]
#[verifier::external_body]
pub struct ExValue(serde_json::Value);

/// `serde_json::Error`, of which nothing is known here.
#[verifier::external_type_specification]
#[verifier::external_body]
pub struct ExError(serde_json::Error);

/// The tree that a `serde_json::Value` holds. An integer from 0 to the
/// greatest `u64` is an unsigned number, an integer below 0 a negative one,
/// and a number that is no such integer is modelled by the text that
/// `serde_json` writes for it.
pub uninterp spec fn value_tree(v: serde_json::Value) -> JsonView;

/// The tree that `serde_json::from_str` reads from a text, if it reads one.
pub uninterp spec fn tree_of_text(text: Seq<char>) -> Option<JsonView>;

/// The text that `serde_json` writes for a value that holds the given tree.
pub uninterp spec fn tree_text(tree: JsonView) -> Seq<char>;

/// The number that `serde_json::from_str` reads from a text, if it reads one.
pub uninterp spec fn number_of_text(text: Seq<char>) -> Option<JsonView>;

/// The trees of a row of values.
pub open spec fn trees(values: Seq<serde_json::Value>) -> Seq<JsonView> {
    Seq::new(values.len(), |i: int| value_tree(values[i]))
}

/// The trees of a row of borrowed members.
pub open spec fn borrowed_member_trees(members: Seq<(&String, &serde_json::Value)>) -> Seq<
    (Seq<char>, JsonView),
> {
    Seq::new(members.len(), |i: int| (members[i].0@, value_tree(*members[i].1)))
}

/// The trees of a row of members.
pub open spec fn member_trees(members: Seq<(String, serde_json::Value)>) -> Seq<
    (Seq<char>, JsonView),
> {
    Seq::new(members.len(), |i: int| (members[i].0@, value_tree(members[i].1)))
}

/// One level of a `serde_json::Value`: its kind, and its parts as
/// `serde_json` holds them.
enum Layer<'a> {
    Null,
    Bool(bool),
    Number,
    Text(&'a str),
    Array(&'a Vec<serde_json::Value>),
    Object(Vec<(&'a String, &'a serde_json::Value)>),
}

/// What a `serde_json::Value` is made from: a scalar, or parts that are
/// values already.
enum Part {
    Null,
    Bool(bool),
    Unsigned(u64),
    Signed(i64),
    Text(String),
    Array(Vec<serde_json::Value>),
    Object(Vec<(String, serde_json::Value)>),
}

/// Calls `serde_json::from_str` for a `serde_json::Value`. The contract names
/// the tree that is read; it says nothing of the error.
#[verifier::external_body]
fn read_value(text: &str) -> (r: Result<serde_json::Value, serde_json::Error>)
    ensures
        match r {
            Ok(v) => tree_of_text(text@) == Some(value_tree(v)),
            Err(_) => tree_of_text(text@) is None,
        },
{
    serde_json::from_str::<serde_json::Value>(text)
}

/// Calls `to_string` of `serde_json::Value`, which writes the value as compact
/// JSON. The contract names the text; of a number that is no integer it is the
/// text by which the tree models that number.
#[verifier::external_body]
fn write_value(v: &serde_json::Value) -> (s: String)
    ensures
        s@ == tree_text(value_tree(*v)),
        value_tree(*v) matches JsonView::Number(NumberView::Real(t)) ==> s@ == t,
{
    v.to_string()
}

/// Tells the variants of `serde_json::Value` apart and hands out the parts of
/// one. The members of an object come in the order in which its map holds them.
#[verifier::external_body]
fn peel(v: &serde_json::Value) -> (layer: Layer<'_>)
    ensures
        match layer {
            Layer::Null => value_tree(*v) == JsonView::Null,
            Layer::Bool(b) => value_tree(*v) == JsonView::Bool(b),
            Layer::Number => value_tree(*v) is Number,
            Layer::Text(t) => value_tree(*v) == JsonView::Text(t@),
            Layer::Array(items) => value_tree(*v) == JsonView::Array(trees(items@)),
            Layer::Object(members) => value_tree(*v) == JsonView::Object(
                borrowed_member_trees(members@),
            ),
        },
{
    match v {
        serde_json::Value::Null => Layer::Null,
        serde_json::Value::Bool(b) => Layer::Bool(*b),
        serde_json::Value::Number(_) => Layer::Number,
        serde_json::Value::String(t) => Layer::Text(t.as_str()),
        serde_json::Value::Array(items) => Layer::Array(items),
        serde_json::Value::Object(map) => Layer::Object(map.iter().collect()),
    }
}

/// Calls `serde_json::Value::as_u64`: the value of a number that is an
/// integer not below zero.
#[verifier::external_body]
fn unsigned_of(v: &serde_json::Value) -> (r: Option<u64>)
    ensures
        r == match value_tree(*v) {
            JsonView::Number(NumberView::Unsigned(u)) => Some(u),
            _ => None::<u64>,
        },
{
    v.as_u64()
}

/// Calls `serde_json::Value::as_i64`: the value of a number that is an
/// integer within `i64`.
#[verifier::external_body]
fn signed_of(v: &serde_json::Value) -> (r: Option<i64>)
    ensures
        r == match value_tree(*v) {
            JsonView::Number(NumberView::Negative(i)) => Some(i),
            JsonView::Number(NumberView::Unsigned(u)) => if u <= i64::MAX {
                Some(u as i64)
            } else {
                None
            },
            _ => None::<i64>,
        },
{
    v.as_i64()
}

/// Makes a `serde_json::Value` with the variant constructors of that type and
/// its `From` impls for `u64` and `i64`. A signed integer not below zero
/// becomes an unsigned number. An object is collected into `serde_json::Map`,
/// which keeps the order of insertion and one member of each name.
#[verifier::external_body]
fn wrap(part: Part) -> (v: serde_json::Value)
    ensures
        value_tree(v) == match part {
            Part::Null => JsonView::Null,
            Part::Bool(b) => JsonView::Bool(b),
            Part::Unsigned(u) => JsonView::Number(NumberView::Unsigned(u)),
            Part::Signed(i) => JsonView::Number(
                if i < 0 {
                    NumberView::Negative(i)
                } else {
                    NumberView::Unsigned(i as u64)
                },
            ),
            Part::Text(t) => JsonView::Text(t@),
            Part::Array(items) => JsonView::Array(trees(items@)),
            Part::Object(members) => JsonView::Object(settled(member_trees(members@))),
        },
{
    match part {
        Part::Null => serde_json::Value::Null,
        Part::Bool(b) => serde_json::Value::Bool(b),
        Part::Unsigned(u) => serde_json::Value::from(u),
        Part::Signed(i) => serde_json::Value::from(i),
        Part::Text(t) => serde_json::Value::String(t),
        Part::Array(items) => serde_json::Value::Array(items),
        Part::Object(members) => serde_json::Value::Object(members.into_iter().collect()),
    }
}

/// Calls `serde_json::from_str` for a `serde_json::Number` and makes a value
/// of the number. The contract names the tree of that value.
#[verifier::external_body]
fn read_number(text: &str) -> (r: Option<serde_json::Value>)
    ensures
        match r {
            Some(v) => number_of_text(text@) == Some(value_tree(v)),
            None => number_of_text(text@) is None,
        },
{
    serde_json::from_str::<serde_json::Number>(text).ok().map(serde_json::Value::Number)
}

/// The tree of the `serde_json::Value` that is made of a tree: an integer not
/// below zero is unsigned, a number that is no integer is read from its text
/// (`null` where the text holds no number), and each object is settled.
pub open spec fn settle(tree: JsonView) -> JsonView
    decreases tree, 1int,
{
    match tree {
        JsonView::Number(NumberView::Negative(i)) => if i < 0 {
            tree
        } else {
            JsonView::Number(NumberView::Unsigned(i as u64))
        },
        JsonView::Number(NumberView::Real(t)) => match number_of_text(t) {
            Some(number) => number,
            None => JsonView::Null,
        },
        JsonView::Array(items) => JsonView::Array(settle_items(items)),
        JsonView::Object(members) => JsonView::Object(settled(settle_members(members))),
        _ => tree,
    }
}

/// The items of an array, each settled.
pub open spec fn settle_items(items: Seq<JsonView>) -> Seq<JsonView>
    decreases items, 0int,
{
    Seq::new(
        items.len(),
        |i: int|
            if 0 <= i < items.len() {
                settle(items[i])
            } else {
                JsonView::Null
            },
    )
}

/// The members of an object, the value of each settled.
pub open spec fn settle_members(members: Seq<(Seq<char>, JsonView)>) -> Seq<(Seq<char>, JsonView)>
    decreases members, 0int,
{
    Seq::new(
        members.len(),
        |i: int|
            if 0 <= i < members.len() {
                (members[i].0, settle(members[i].1))
            } else {
                (Seq::empty(), JsonView::Null)
            },
    )
}

/// The compact JSON text of a tree.
pub open spec fn json_text(tree: JsonView) -> Seq<char> {
    tree_text(settle(tree))
}

impl Json {
    /// The value that a `serde_json::Value` holds.
    pub fn from_value(v: &serde_json::Value) -> (j: Json)
        ensures
            j@ == value_tree(*v),
        decreases value_tree(*v),
    {
        let j = match peel(v) {
            Layer::Null => Json::Null,
            Layer::Bool(b) => Json::Bool(b),
            Layer::Number => match unsigned_of(v) {
                Some(u) => Json::Number(Number::Unsigned(u)),
                None => match signed_of(v) {
                    Some(i) => Json::Number(Number::Negative(i)),
                    None => Json::Number(Number::Real(write_value(v))),
                },
            },
            Layer::Text(t) => Json::Text(t.to_owned()),
            Layer::Array(items) => {
                let mut out: Vec<Json> = Vec::new();
                let mut i: usize = 0;
                while i < items.len()
                    invariant
                        i <= items@.len(),
                        out@.len() == i,
                        value_tree(*v) == JsonView::Array(trees(items@)),
                        forall|k: int| 0 <= k < i ==> out@[k]@ == value_tree(items@[k]),
                    decreases items@.len() - i,
                {
                    assert(value_tree(items@[i as int]) == value_tree(*v)->Array_0[i as int]);
                    out.push(Json::from_value(&items[i]));
                    i += 1;
                }
                assert(items_view(out@) =~= trees(items@));
                Json::Array(out)
            },
            Layer::Object(members) => {
                let mut out: Vec<(String, Json)> = Vec::new();
                let mut i: usize = 0;
                while i < members.len()
                    invariant
                        i <= members@.len(),
                        out@.len() == i,
                        value_tree(*v) == JsonView::Object(borrowed_member_trees(members@)),
                        forall|k: int|
                            0 <= k < i ==> out@[k].0@ == members@[k].0@ && out@[k].1@
                                == value_tree(*members@[k].1),
                    decreases members@.len() - i,
                {
                    proof {
                        let one = value_tree(*v)->Object_0[i as int];
                        assert(one.1 == value_tree(*members@[i as int].1));
                    }
                    let name: String = members[i].0.clone();
                    let value = Json::from_value(members[i].1);
                    out.push((name, value));
                    i += 1;
                }
                assert(members_view(out@) =~= borrowed_member_trees(members@));
                Json::Object(out)
            },
        };
        proof {
            lemma_view(j);
        }
        j
    }

    /// The `serde_json::Value` that is made of this value.
    pub fn to_value(&self) -> (v: serde_json::Value)
        ensures
            value_tree(v) == settle(self@),
        decreases self,
    {
        proof {
            lemma_view(*self);
        }
        match self {
            Json::Null => wrap(Part::Null),
            Json::Bool(b) => wrap(Part::Bool(*b)),
            Json::Number(Number::Unsigned(u)) => wrap(Part::Unsigned(*u)),
            Json::Number(Number::Negative(i)) => wrap(Part::Signed(*i)),
            Json::Number(Number::Real(t)) => match read_number(t.as_str()) {
                Some(v) => v,
                None => wrap(Part::Null),
            },
            Json::Text(t) => wrap(Part::Text(t.clone())),
            Json::Array(items) => {
                let mut out: Vec<serde_json::Value> = Vec::new();
                let mut i: usize = 0;
                while i < items.len()
                    invariant
                        i <= items@.len(),
                        out@.len() == i,
                        decreases_to!(self => items),
                        forall|k: int| 0 <= k < i ==> value_tree(out@[k]) == settle(items@[k]@),
                    decreases items@.len() - i,
                {
                    out.push(items[i].to_value());
                    i += 1;
                }
                assert(trees(out@) =~= settle_items(self@->Array_0));
                wrap(Part::Array(out))
            },
            Json::Object(members) => {
                let mut out: Vec<(String, serde_json::Value)> = Vec::new();
                let mut i: usize = 0;
                while i < members.len()
                    invariant
                        i <= members@.len(),
                        out@.len() == i,
                        decreases_to!(self => members),
                        forall|k: int|
                            0 <= k < i ==> out@[k].0@ == members@[k].0@ && value_tree(out@[k].1)
                                == settle(members@[k].1@),
                    decreases members@.len() - i,
                {
                    out.push((members[i].0.clone(), members[i].1.to_value()));
                    i += 1;
                }
                assert(member_trees(out@) =~= settle_members(self@->Object_0));
                wrap(Part::Object(out))
            },
        }
    }

    /// Reads a JSON text. Nothing comes back where the text is not JSON.
    pub fn parse(text: &str) -> (r: Option<Json>)
        ensures
            match r {
                Some(j) => tree_of_text(text@) == Some(j@),
                None => tree_of_text(text@) is None,
            },
    {
        match read_value(text) {
            Ok(v) => Some(Json::from_value(&v)),
            Err(_) => None,
        }
    }

    /// Writes this value as compact JSON text.
    pub fn render(&self) -> (s: String)
        ensures
            s@ == json_text(self@),
    {
        let v = self.to_value();
        write_value(&v)
    }
}

} // verus!
