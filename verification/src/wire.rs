//! What every record of the protocol has in common: a decoder and an encoder
//! with their models, and the readers of single fields that the records share.
use crate::bridge::{settle, settle_items, settle_members};
use crate::entries::{
    distinct, has_key, lemma_member_absent, lemma_settled, lemma_settled_distinct, member, settled,
};
use crate::error::{outcome, DecodeError, DecodeErrorView, Shape};
use crate::json::{
    find, items_view, lemma_view, members_view, option_view, Json, JsonView, Number, NumberView,
};
use vstd::prelude::*;

verus! {

/// A value of the protocol with its JSON form.
pub trait Wire: View + Sized {
    /// The value that a tree decodes to, or why it decodes to none.
    spec fn decoded(tree: JsonView) -> Result<Self::V, DecodeErrorView>;

    /// The tree that a value is encoded as.
    spec fn encoded(value: Self::V) -> JsonView;

    /// What holds of the model of every value of the type.
    spec fn sound(value: Self::V) -> bool;

    /// Decodes a JSON value.
    fn from_json(j: &Json) -> (r: Result<Self, DecodeError>)
        ensures
            outcome(r) == Self::decoded(j@),
            r matches Ok(value) ==> Self::sound(value@),
    ;

    /// Encodes this value.
    fn to_json(&self) -> (j: Json)
        ensures
            j@ == Self::encoded(self@),
            Self::sound(self@),
    ;

    /// Decoding what was encoded gives the value back. No value is encoded as
    /// `null`, and what is encoded is written as it stands: settling it for
    /// the writer changes nothing.
    proof fn round_trip(value: Self::V)
        requires
            Self::sound(value),
        ensures
            Self::decoded(Self::encoded(value)) == Ok::<Self::V, DecodeErrorView>(value),
            !(Self::encoded(value) is Null),
            settle(Self::encoded(value)) == Self::encoded(value),
    ;

    /// Only what each name finds counts. Two objects in which every name
    /// finds the same decode alike, whatever the order of their members and
    /// whatever stands under names that the value does not read.
    proof fn reads_by_name(a: Seq<(Seq<char>, JsonView)>, b: Seq<(Seq<char>, JsonView)>)
        requires
            forall|key: Seq<char>| member(a, key) == member(b, key),
        ensures
            Self::decoded(JsonView::Object(a)) == Self::decoded(JsonView::Object(b)),
    ;
}

/// A value is read from an object as it is read from the object that is
/// settled for the writer: members that share a name, of which the writer
/// keeps the last, do not change what is decoded.
pub proof fn law_settled_reads_alike<T: Wire>(members: Seq<(Seq<char>, JsonView)>)
    ensures
        T::decoded(JsonView::Object(settled(members))) == T::decoded(JsonView::Object(members)),
{
    lemma_settled(members);
    T::reads_by_name(settled(members), members);
}

/// The models of a row of values.
pub open spec fn list_view<T: View>(values: Seq<T>) -> Seq<T::V> {
    Seq::new(values.len(), |i: int| values[i]@)
}

/// The model of what a decoder of an optional value hands back.
pub open spec fn outcome_optional<T: View>(r: Result<Option<T>, DecodeError>) -> Result<
    Option<T::V>,
    DecodeErrorView,
> {
    match r {
        Ok(value) => Ok(option_view(value)),
        Err(e) => Err(e@),
    }
}

/// The model of what a decoder of a list hands back.
pub open spec fn outcome_list<T: View>(r: Result<Vec<T>, DecodeError>) -> Result<
    Seq<T::V>,
    DecodeErrorView,
> {
    match r {
        Ok(values) => Ok(list_view(values@)),
        Err(e) => Err(e@),
    }
}

/// The members of an object; any other tree is no record `owner`.
pub open spec fn members_of(tree: JsonView, owner: Seq<char>) -> Result<
    Seq<(Seq<char>, JsonView)>,
    DecodeErrorView,
> {
    match tree {
        JsonView::Object(members) => Ok(members),
        _ => Err(DecodeErrorView::SchemaViolation { at: owner, expected: Shape::Object }),
    }
}

/// The items of an array that stands at `at`.
pub open spec fn items_of(tree: JsonView, at: Seq<char>) -> Result<Seq<JsonView>, DecodeErrorView> {
    match tree {
        JsonView::Array(items) => Ok(items),
        _ => Err(DecodeErrorView::SchemaViolation { at, expected: Shape::Array }),
    }
}

/// The string that stands at `at`.
pub open spec fn text_of(tree: JsonView, at: Seq<char>) -> Result<Seq<char>, DecodeErrorView> {
    match tree {
        JsonView::Text(t) => Ok(t),
        _ => Err(DecodeErrorView::SchemaViolation { at, expected: Shape::Text }),
    }
}

/// The boolean that stands at `at`.
pub open spec fn flag_of(tree: JsonView, at: Seq<char>) -> Result<bool, DecodeErrorView> {
    match tree {
        JsonView::Bool(b) => Ok(b),
        _ => Err(DecodeErrorView::SchemaViolation { at, expected: Shape::Boolean }),
    }
}

/// The integer that a tree holds.
pub open spec fn integer_of(tree: JsonView) -> Option<int> {
    match tree {
        JsonView::Number(NumberView::Unsigned(u)) => Some(u as int),
        JsonView::Number(NumberView::Negative(i)) => Some(i as int),
        _ => None,
    }
}

/// The integer from 0 to `max` that stands at `at`.
pub open spec fn unsigned_of(tree: JsonView, at: Seq<char>, max: int, expected: Shape) -> Result<
    int,
    DecodeErrorView,
> {
    match integer_of(tree) {
        Some(i) => if 0 <= i <= max {
            Ok(i)
        } else {
            Err(DecodeErrorView::SchemaViolation { at, expected })
        },
        None => Err(DecodeErrorView::SchemaViolation { at, expected }),
    }
}

/// The value of a field that a record must have.
pub open spec fn required(
    members: Seq<(Seq<char>, JsonView)>,
    field: Seq<char>,
    owner: Seq<char>,
) -> Result<JsonView, DecodeErrorView> {
    match member(members, field) {
        Some(value) => Ok(value),
        None => Err(DecodeErrorView::MissingField { field, owner }),
    }
}

/// The value of a field that a record may lack: a field that is `null` counts
/// as lacking.
pub open spec fn optional(members: Seq<(Seq<char>, JsonView)>, field: Seq<char>) -> Option<
    JsonView,
> {
    match member(members, field) {
        Some(JsonView::Null) => None,
        found => found,
    }
}

/// The string under a field that a record must have.
pub open spec fn required_text(
    members: Seq<(Seq<char>, JsonView)>,
    field: Seq<char>,
    owner: Seq<char>,
) -> Result<Seq<char>, DecodeErrorView> {
    match required(members, field, owner) {
        Ok(value) => text_of(value, field),
        Err(e) => Err(e),
    }
}

/// The string under a field that a record may lack.
pub open spec fn optional_text(members: Seq<(Seq<char>, JsonView)>, field: Seq<char>) -> Result<
    Option<Seq<char>>,
    DecodeErrorView,
> {
    match optional(members, field) {
        Some(value) => match text_of(value, field) {
            Ok(t) => Ok(Some(t)),
            Err(e) => Err(e),
        },
        None => Ok(None),
    }
}

/// The integer from 0 to 65535 under a field that a record must have.
pub open spec fn required_u16(
    members: Seq<(Seq<char>, JsonView)>,
    field: Seq<char>,
    owner: Seq<char>,
) -> Result<u16, DecodeErrorView> {
    match required(members, field, owner) {
        Ok(value) => match unsigned_of(value, field, u16::MAX as int, Shape::Unsigned16) {
            Ok(i) => Ok(i as u16),
            Err(e) => Err(e),
        },
        Err(e) => Err(e),
    }
}

/// The integer from 0 to 65535 under a field that a record may lack.
pub open spec fn optional_u16(members: Seq<(Seq<char>, JsonView)>, field: Seq<char>) -> Result<
    Option<u16>,
    DecodeErrorView,
> {
    match optional(members, field) {
        Some(value) => match unsigned_of(value, field, u16::MAX as int, Shape::Unsigned16) {
            Ok(i) => Ok(Some(i as u16)),
            Err(e) => Err(e),
        },
        None => Ok(None),
    }
}

/// The integer from 0 to 4294967295 under a field that a record must have.
pub open spec fn required_u32(
    members: Seq<(Seq<char>, JsonView)>,
    field: Seq<char>,
    owner: Seq<char>,
) -> Result<u32, DecodeErrorView> {
    match required(members, field, owner) {
        Ok(value) => match unsigned_of(value, field, u32::MAX as int, Shape::Unsigned32) {
            Ok(i) => Ok(i as u32),
            Err(e) => Err(e),
        },
        Err(e) => Err(e),
    }
}

/// The integer that fits the word of the machine under a field that a
/// record must have.
pub open spec fn required_size(
    members: Seq<(Seq<char>, JsonView)>,
    field: Seq<char>,
    owner: Seq<char>,
) -> Result<usize, DecodeErrorView> {
    match required(members, field, owner) {
        Ok(value) => match unsigned_of(value, field, usize::MAX as int, Shape::Size) {
            Ok(i) => Ok(i as usize),
            Err(e) => Err(e),
        },
        Err(e) => Err(e),
    }
}

/// The value under a field that a record must have.
pub open spec fn required_record<T: Wire>(
    members: Seq<(Seq<char>, JsonView)>,
    field: Seq<char>,
    owner: Seq<char>,
) -> Result<T::V, DecodeErrorView> {
    match required(members, field, owner) {
        Ok(value) => T::decoded(value),
        Err(e) => Err(e),
    }
}

/// The value under a field that a record may lack.
pub open spec fn optional_record<T: Wire>(
    members: Seq<(Seq<char>, JsonView)>,
    field: Seq<char>,
) -> Result<Option<T::V>, DecodeErrorView> {
    match optional(members, field) {
        Some(value) => match T::decoded(value) {
            Ok(x) => Ok(Some(x)),
            Err(e) => Err(e),
        },
        None => Ok(None),
    }
}

/// The values that the items of an array decode to; the first item that does
/// not decode gives the error.
pub open spec fn each_decoded<T: Wire>(items: Seq<JsonView>) -> Result<Seq<T::V>, DecodeErrorView>
    decreases items.len(),
{
    if items.len() == 0 {
        Ok(Seq::empty())
    } else {
        match each_decoded::<T>(items.drop_last()) {
            Ok(front) => match T::decoded(items.last()) {
                Ok(x) => Ok(front.push(x)),
                Err(e) => Err(e),
            },
            Err(e) => Err(e),
        }
    }
}

/// The values of an array that stands at `at`.
pub open spec fn list_of<T: Wire>(tree: JsonView, at: Seq<char>) -> Result<
    Seq<T::V>,
    DecodeErrorView,
> {
    match items_of(tree, at) {
        Ok(items) => each_decoded::<T>(items),
        Err(e) => Err(e),
    }
}

/// The values of the array under a field that a record must have.
pub open spec fn required_list<T: Wire>(
    members: Seq<(Seq<char>, JsonView)>,
    field: Seq<char>,
    owner: Seq<char>,
) -> Result<Seq<T::V>, DecodeErrorView> {
    match required(members, field, owner) {
        Ok(value) => list_of::<T>(value, field),
        Err(e) => Err(e),
    }
}

/// The values of a list that is empty where the record lacks the field.
pub open spec fn defaulted_list<T: Wire>(
    members: Seq<(Seq<char>, JsonView)>,
    field: Seq<char>,
) -> Result<Seq<T::V>, DecodeErrorView> {
    match member(members, field) {
        Some(value) => list_of::<T>(value, field),
        None => Ok(Seq::empty()),
    }
}

/// The trees that a row of values is encoded as.
pub open spec fn each_encoded<T: Wire>(values: Seq<T::V>) -> Seq<JsonView> {
    Seq::new(values.len(), |i: int| T::encoded(values[i]))
}

/// Every value of a row is sound.
pub open spec fn all_sound<T: Wire>(values: Seq<T::V>) -> bool {
    forall|i: int| 0 <= i < values.len() ==> T::sound(#[trigger] values[i])
}

/// The tree of an optional string: `null` where there is none.
pub open spec fn optional_text_encoded(value: Option<Seq<char>>) -> JsonView {
    match value {
        Some(t) => JsonView::Text(t),
        None => JsonView::Null,
    }
}

/// The tree of an unsigned integer.
pub open spec fn unsigned_encoded(value: int) -> JsonView {
    JsonView::Number(NumberView::Unsigned(value as u64))
}

/// Decoding a row of encoded values gives the values back.
pub proof fn lemma_each_round_trip<T: Wire>(values: Seq<T::V>)
    requires
        all_sound::<T>(values),
    ensures
        each_decoded::<T>(each_encoded::<T>(values)) == Ok::<Seq<T::V>, DecodeErrorView>(values),
    decreases values.len(),
{
    let trees = each_encoded::<T>(values);
    if values.len() == 0 {
        assert(values =~= Seq::empty());
    } else {
        assert(trees.drop_last() =~= each_encoded::<T>(values.drop_last()));
        lemma_each_round_trip::<T>(values.drop_last());
        T::round_trip(values.last());
        assert(values.drop_last().push(values.last()) =~= values);
    }
}

/// An array of encoded values is written as it stands.
pub proof fn lemma_each_steady<T: Wire>(values: Seq<T::V>)
    requires
        all_sound::<T>(values),
    ensures
        settle(JsonView::Array(each_encoded::<T>(values))) == JsonView::Array(
            each_encoded::<T>(values),
        ),
{
    let trees = each_encoded::<T>(values);
    assert forall|i: int| 0 <= i < trees.len() implies settle(trees[i]) == trees[i] by {
        T::round_trip(values[i]);
    }
    assert(settle_items(trees) =~= trees);
}

/// No two members share a name, and each value is written as it stands.
pub open spec fn steady(members: Seq<(Seq<char>, JsonView)>) -> bool {
    &&& distinct(members)
    &&& forall|i: int| 0 <= i < members.len() ==> settle((#[trigger] members[i]).1) == members[i].1
}

/// An object of steady members is written as it stands.
pub proof fn lemma_steady_object(members: Seq<(Seq<char>, JsonView)>)
    requires
        steady(members),
    ensures
        settle(JsonView::Object(members)) == JsonView::Object(members),
{
    assert(settle_members(members) =~= members);
    lemma_settled_distinct(members);
}

/// The members of an object; any other value is no record `owner`.
pub fn as_members<'a>(j: &'a Json, owner: &'static str) -> (r: Result<
    &'a Vec<(String, Json)>,
    DecodeError,
>)
    ensures
        match r {
            Ok(members) => members_of(j@, owner@) == Ok::<_, DecodeErrorView>(
                members_view(members@),
            ),
            Err(e) => members_of(j@, owner@) == Err::<Seq<(Seq<char>, JsonView)>, _>(e@),
        },
{
    proof {
        lemma_view(*j);
    }
    match j {
        Json::Object(members) => Ok(members),
        _ => Err(DecodeError::SchemaViolation { at: owner, expected: Shape::Object }),
    }
}

/// The items of an array that stands at `at`.
pub fn as_items<'a>(j: &'a Json, at: &'static str) -> (r: Result<&'a Vec<Json>, DecodeError>)
    ensures
        match r {
            Ok(items) => items_of(j@, at@) == Ok::<_, DecodeErrorView>(items_view(items@)),
            Err(e) => items_of(j@, at@) == Err::<Seq<JsonView>, _>(e@),
        },
{
    proof {
        lemma_view(*j);
    }
    match j {
        Json::Array(items) => Ok(items),
        _ => Err(DecodeError::SchemaViolation { at, expected: Shape::Array }),
    }
}

/// The string that stands at `at`.
pub fn as_text(j: &Json, at: &'static str) -> (r: Result<String, DecodeError>)
    ensures
        outcome(r) == text_of(j@, at@),
{
    match j {
        Json::Text(t) => Ok(t.clone()),
        _ => Err(DecodeError::SchemaViolation { at, expected: Shape::Text }),
    }
}

/// The boolean that stands at `at`.
pub fn as_flag(j: &Json, at: &'static str) -> (r: Result<bool, DecodeError>)
    ensures
        outcome(r) == flag_of(j@, at@),
{
    match j {
        Json::Bool(b) => Ok(*b),
        _ => Err(DecodeError::SchemaViolation { at, expected: Shape::Boolean }),
    }
}

/// The integer from 0 to `max` that stands at `at`.
pub fn as_unsigned(j: &Json, at: &'static str, max: u64, expected: Shape) -> (r: Result<
    u64,
    DecodeError,
>)
    ensures
        match r {
            Ok(u) => unsigned_of(j@, at@, max as int, expected) == Ok::<int, DecodeErrorView>(
                u as int,
            ),
            Err(e) => unsigned_of(j@, at@, max as int, expected) == Err::<int, _>(e@),
        },
{
    match j {
        Json::Number(Number::Unsigned(u)) => {
            if *u <= max {
                return Ok(*u);
            }
        },
        Json::Number(Number::Negative(i)) => {
            if *i >= 0 && (*i as u64) <= max {
                return Ok(*i as u64);
            }
        },
        _ => {},
    }
    Err(DecodeError::SchemaViolation { at, expected })
}

/// The value of a field that a record must have.
pub fn get_required<'a>(
    members: &'a Vec<(String, Json)>,
    field: &'static str,
    owner: &'static str,
) -> (r: Result<&'a Json, DecodeError>)
    ensures
        outcome(r) == required(members_view(members@), field@, owner@),
{
    match find(members, field) {
        Some(value) => Ok(value),
        None => Err(DecodeError::MissingField { field, owner }),
    }
}

/// The value of a field that a record may lack; `null` counts as lacking.
pub fn get_optional<'a>(members: &'a Vec<(String, Json)>, field: &str) -> (r: Option<&'a Json>)
    ensures
        option_view(r) == optional(members_view(members@), field@),
{
    match find(members, field) {
        Some(Json::Null) => None,
        found => found,
    }
}

/// Reads the string under a field that a record must have.
pub fn get_required_text(
    members: &Vec<(String, Json)>,
    field: &'static str,
    owner: &'static str,
) -> (r: Result<String, DecodeError>)
    ensures
        outcome(r) == required_text(members_view(members@), field@, owner@),
{
    as_text(get_required(members, field, owner)?, field)
}

/// Reads the string under a field that a record may lack.
pub fn get_optional_text(members: &Vec<(String, Json)>, field: &'static str) -> (r: Result<
    Option<String>,
    DecodeError,
>)
    ensures
        outcome_optional(r) == optional_text(members_view(members@), field@),
{
    match get_optional(members, field) {
        Some(value) => Ok(Some(as_text(value, field)?)),
        None => Ok(None),
    }
}

/// Reads the integer from 0 to 65535 under a field that a record must have.
pub fn get_required_u16(
    members: &Vec<(String, Json)>,
    field: &'static str,
    owner: &'static str,
) -> (r: Result<u16, DecodeError>)
    ensures
        outcome(r) == required_u16(members_view(members@), field@, owner@),
{
    let u = as_unsigned(get_required(members, field, owner)?, field, 65535, Shape::Unsigned16)?;
    Ok(u as u16)
}

/// Reads the integer from 0 to 65535 under a field that a record may lack.
pub fn get_optional_u16(members: &Vec<(String, Json)>, field: &'static str) -> (r: Result<
    Option<u16>,
    DecodeError,
>)
    ensures
        outcome(r) == optional_u16(members_view(members@), field@),
{
    match get_optional(members, field) {
        Some(value) => {
            let u = as_unsigned(value, field, 65535, Shape::Unsigned16)?;
            Ok(Some(u as u16))
        },
        None => Ok(None),
    }
}

/// Reads the integer from 0 to 4294967295 under a field that a record must
/// have.
pub fn get_required_u32(
    members: &Vec<(String, Json)>,
    field: &'static str,
    owner: &'static str,
) -> (r: Result<u32, DecodeError>)
    ensures
        outcome(r) == required_u32(members_view(members@), field@, owner@),
{
    let u = as_unsigned(
        get_required(members, field, owner)?,
        field,
        4294967295,
        Shape::Unsigned32,
    )?;
    Ok(u as u32)
}

/// Reads the integer that fits the word of the machine under a field that a
/// record must have.
pub fn get_required_size(
    members: &Vec<(String, Json)>,
    field: &'static str,
    owner: &'static str,
) -> (r: Result<usize, DecodeError>)
    ensures
        outcome(r) == required_size(members_view(members@), field@, owner@),
{
    let u = as_unsigned(
        get_required(members, field, owner)?,
        field,
        usize::MAX as u64,
        Shape::Size,
    )?;
    Ok(u as usize)
}

/// Decodes the value under a field that a record must have.
pub fn get_required_record<T: Wire>(
    members: &Vec<(String, Json)>,
    field: &'static str,
    owner: &'static str,
) -> (r: Result<T, DecodeError>)
    ensures
        outcome(r) == required_record::<T>(members_view(members@), field@, owner@),
        r matches Ok(value) ==> T::sound(value@),
{
    T::from_json(get_required(members, field, owner)?)
}

/// Decodes the value under a field that a record may lack.
pub fn get_optional_record<T: Wire>(members: &Vec<(String, Json)>, field: &'static str) -> (r:
    Result<Option<T>, DecodeError>)
    ensures
        outcome_optional(r) == optional_record::<T>(members_view(members@), field@),
        r matches Ok(Some(value)) ==> T::sound(value@),
{
    match get_optional(members, field) {
        Some(value) => Ok(Some(T::from_json(value)?)),
        None => Ok(None),
    }
}

/// Decodes the items of an array that stands at `at`, one after the other.
pub fn as_list<T: Wire>(j: &Json, at: &'static str) -> (r: Result<Vec<T>, DecodeError>)
    ensures
        outcome_list(r) == list_of::<T>(j@, at@),
        r matches Ok(values) ==> all_sound::<T>(list_view(values@)),
{
    let items = as_items(j, at)?;
    let ghost trees = items_view(items@);
    let mut out: Vec<T> = Vec::new();
    let mut i: usize = 0;
    assert(list_view(out@) =~= Seq::empty());
    while i < items.len()
        invariant
            i <= items@.len(),
            trees == items_view(items@),
            each_decoded::<T>(trees.take(i as int)) == Ok::<Seq<T::V>, DecodeErrorView>(
                list_view(out@),
            ),
            all_sound::<T>(list_view(out@)),
            items_of(j@, at@) == Ok::<_, DecodeErrorView>(trees),
        decreases items@.len() - i,
    {
        proof {
            assert(trees.take(i + 1).drop_last() =~= trees.take(i as int));
        }
        let ghost before = list_view(out@);
        match T::from_json(&items[i]) {
            Ok(value) => {
                out.push(value);
                assert(list_view(out@) =~= before.push(value@));
            },
            Err(e) => {
                proof {
                    lemma_rest_fails::<T>(trees, i + 1);
                }
                return Err(e);
            },
        }
        i += 1;
    }
    assert(trees.take(i as int) =~= trees);
    Ok(out)
}

/// An error among the first `n` items is the error of the whole row.
pub proof fn lemma_rest_fails<T: Wire>(items: Seq<JsonView>, n: int)
    requires
        0 <= n <= items.len(),
        each_decoded::<T>(items.take(n)) is Err,
    ensures
        each_decoded::<T>(items) == each_decoded::<T>(items.take(n)),
    decreases items.len() - n,
{
    if n < items.len() {
        assert(items.take(n + 1).drop_last() =~= items.take(n));
        lemma_rest_fails::<T>(items, n + 1);
    } else {
        assert(items.take(n) =~= items);
    }
}

/// Decodes the array under a field that a record must have.
pub fn get_required_list<T: Wire>(
    members: &Vec<(String, Json)>,
    field: &'static str,
    owner: &'static str,
) -> (r: Result<Vec<T>, DecodeError>)
    ensures
        outcome_list(r) == required_list::<T>(members_view(members@), field@, owner@),
        r matches Ok(values) ==> all_sound::<T>(list_view(values@)),
{
    as_list(get_required(members, field, owner)?, field)
}

/// Decodes the array under a field; a record that lacks the field has an
/// empty list.
pub fn get_defaulted_list<T: Wire>(members: &Vec<(String, Json)>, field: &'static str) -> (r:
    Result<Vec<T>, DecodeError>)
    ensures
        outcome_list(r) == defaulted_list::<T>(members_view(members@), field@),
        r matches Ok(values) ==> all_sound::<T>(list_view(values@)),
{
    match find(members, field) {
        Some(value) => as_list(value, field),
        None => {
            let out: Vec<T> = Vec::new();
            assert(list_view(out@) =~= Seq::empty());
            Ok(out)
        },
    }
}

/// Encodes a row of values as an array.
pub fn list_json<T: Wire>(values: &Vec<T>) -> (j: Json)
    ensures
        j@ == JsonView::Array(each_encoded::<T>(list_view(values@))),
        all_sound::<T>(list_view(values@)),
{
    let mut out: Vec<Json> = Vec::new();
    let mut i: usize = 0;
    while i < values.len()
        invariant
            i <= values@.len(),
            out@.len() == i,
            forall|k: int| 0 <= k < i ==> out@[k]@ == T::encoded(values@[k]@),
            forall|k: int| 0 <= k < i ==> T::sound(values@[k]@),
        decreases values@.len() - i,
    {
        out.push(values[i].to_json());
        i += 1;
    }
    let j = Json::Array(out);
    proof {
        lemma_view(j);
        assert(items_view(out@) =~= each_encoded::<T>(list_view(values@)));
    }
    j
}

/// Encodes a string.
pub fn text_json(value: &String) -> (j: Json)
    ensures
        j@ == JsonView::Text(value@),
{
    Json::Text(value.clone())
}

/// Encodes an optional string, `null` where there is none.
pub fn optional_text_json(value: &Option<String>) -> (j: Json)
    ensures
        j@ == optional_text_encoded(option_view(*value)),
{
    match value {
        Some(t) => Json::Text(t.clone()),
        None => Json::Null,
    }
}

/// Encodes an unsigned integer.
pub fn unsigned_json(value: u64) -> (j: Json)
    ensures
        j@ == unsigned_encoded(value as int),
{
    Json::Number(Number::Unsigned(value))
}

/// Makes an object of its members.
pub fn object_json(members: Vec<(String, Json)>) -> (j: Json)
    ensures
        j@ == JsonView::Object(members_view(members@)),
{
    let j = Json::Object(members);
    proof {
        lemma_view(j);
    }
    j
}

/// The members of an object under construction, in the order in which they
/// are added.
pub struct Members {
    pub list: Seq<(Seq<char>, JsonView)>,
}

impl Members {
    /// No member yet.
    pub open spec fn new() -> Members {
        Members { list: Seq::empty() }
    }

    /// One more member.
    pub open spec fn with(self, name: Seq<char>, tree: JsonView) -> Members {
        Members { list: self.list.push((name, tree)) }
    }

    /// One more member, unless there is nothing to add.
    pub open spec fn maybe(self, name: Seq<char>, tree: Option<JsonView>) -> Members {
        match tree {
            Some(t) => self.with(name, t),
            None => self,
        }
    }

    /// The object of these members.
    pub open spec fn object(self) -> JsonView {
        JsonView::Object(self.list)
    }
}

/// The tree of an optional value, where there is one.
pub open spec fn encoded_if_some<T: Wire>(value: Option<T::V>) -> Option<JsonView> {
    match value {
        Some(v) => Some(T::encoded(v)),
        None => None,
    }
}

/// The tree of an optional value: `null` where there is none.
pub open spec fn encoded_or_null<T: Wire>(value: Option<T::V>) -> JsonView {
    match value {
        Some(v) => T::encoded(v),
        None => JsonView::Null,
    }
}

/// After a member is added its name finds it, and every other name finds
/// what it found before.
pub broadcast proof fn lemma_with(m: Members, name: Seq<char>, tree: JsonView, key: Seq<char>)
    ensures
        #[trigger] member(m.with(name, tree).list, key) == if key == name {
            Some(tree)
        } else {
            member(m.list, key)
        },
{
    assert(m.with(name, tree).list.drop_last() =~= m.list);
}

/// After a member may have been added its name finds what was added, if
/// anything was, and every other name finds what it found before.
pub broadcast proof fn lemma_maybe(
    m: Members,
    name: Seq<char>,
    tree: Option<JsonView>,
    key: Seq<char>,
)
    ensures
        #[trigger] member(m.maybe(name, tree).list, key) == if key == name && tree is Some {
            tree
        } else {
            member(m.list, key)
        },
{
    if let Some(t) = tree {
        lemma_with(m, name, t, key);
    }
}

/// No name finds anything where there is no member.
pub broadcast proof fn lemma_new(key: Seq<char>)
    ensures
        #[trigger] member(Members::new().list, key) is None,
{
}

/// Members stay steady when a steady value is added under a new name.
pub broadcast proof fn lemma_steady_with(m: Members, name: Seq<char>, tree: JsonView)
    requires
        steady(m.list),
        member(m.list, name) is None,
        settle(tree) == tree,
    ensures
        #[trigger] steady(m.with(name, tree).list),
{
    let after = m.with(name, tree).list;
    lemma_member_absent(m.list, name);
    assert forall|i: int, j: int| 0 <= i < j < after.len() implies (#[trigger] after[i]).0 != (
    #[trigger] after[j]).0 by {
        if j == after.len() - 1 {
            assert(after[i] == m.list[i]);
            if after[i].0 == name {
                assert(has_key(m.list, name));
            }
        } else {
            assert(after[i] == m.list[i] && after[j] == m.list[j]);
        }
    }
    assert forall|i: int| 0 <= i < after.len() implies settle((#[trigger] after[i]).1)
        == after[i].1 by {
        if i < after.len() - 1 {
            assert(after[i] == m.list[i]);
        }
    }
}

/// Members stay steady when a steady value may be added under a new name.
pub broadcast proof fn lemma_steady_maybe(m: Members, name: Seq<char>, tree: Option<JsonView>)
    requires
        steady(m.list),
        member(m.list, name) is None,
        tree matches Some(t) ==> settle(t) == t,
    ensures
        #[trigger] steady(m.maybe(name, tree).list),
{
    if let Some(t) = tree {
        lemma_steady_with(m, name, t);
    }
}

/// No members are steady.
pub broadcast proof fn lemma_steady_new()
    ensures
        #[trigger] steady(Members::new().list),
{
}

/// An optional value that was encoded is decoded as it was.
pub proof fn lemma_optional_record<T: Wire>(
    members: Seq<(Seq<char>, JsonView)>,
    field: Seq<char>,
    value: Option<T::V>,
)
    requires
        member(members, field) == encoded_if_some::<T>(value) || member(members, field) == Some(
            encoded_or_null::<T>(value),
        ),
        value matches Some(v) ==> T::sound(v),
    ensures
        optional_record::<T>(members, field) == Ok::<_, DecodeErrorView>(value),
        encoded_if_some::<T>(value) matches Some(t) ==> settle(t) == t,
        settle(encoded_or_null::<T>(value)) == encoded_or_null::<T>(value),
{
    if let Some(v) = value {
        T::round_trip(v);
    }
}

/// A value that was encoded under a field is decoded as it was.
pub proof fn lemma_required_record<T: Wire>(
    members: Seq<(Seq<char>, JsonView)>,
    field: Seq<char>,
    owner: Seq<char>,
    value: T::V,
)
    requires
        member(members, field) == Some(T::encoded(value)),
        T::sound(value),
    ensures
        required_record::<T>(members, field, owner) == Ok::<_, DecodeErrorView>(value),
        settle(T::encoded(value)) == T::encoded(value),
{
    T::round_trip(value);
}

/// A list that was encoded under a field is decoded as it was.
pub proof fn lemma_required_list<T: Wire>(
    members: Seq<(Seq<char>, JsonView)>,
    field: Seq<char>,
    owner: Seq<char>,
    values: Seq<T::V>,
)
    requires
        member(members, field) == Some(JsonView::Array(each_encoded::<T>(values))),
        all_sound::<T>(values),
    ensures
        required_list::<T>(members, field, owner) == Ok::<_, DecodeErrorView>(values),
        defaulted_list::<T>(members, field) == Ok::<_, DecodeErrorView>(values),
        settle(JsonView::Array(each_encoded::<T>(values))) == JsonView::Array(
            each_encoded::<T>(values),
        ),
{
    lemma_each_round_trip::<T>(values);
    lemma_each_steady::<T>(values);
}

/// Adds a member to an object under construction.
pub fn add_member(members: &mut Vec<(String, Json)>, name: &'static str, value: Json)
    ensures
        members_view(final(members)@) == (Members { list: members_view(old(members)@) }).with(
            name@,
            value@,
        ).list,
{
    members.push((name.to_owned(), value));
}

/// Adds a member to an object under construction where there is a value.
pub fn add_optional_member(
    members: &mut Vec<(String, Json)>,
    name: &'static str,
    value: Option<Json>,
)
    ensures
        members_view(final(members)@) == (Members { list: members_view(old(members)@) }).maybe(
            name@,
            option_view(value),
        ).list,
{
    match value {
        Some(j) => add_member(members, name, j),
        None => {},
    }
}

/// Encodes an optional value where there is one.
pub fn optional_json<T: Wire>(value: &Option<T>) -> (r: Option<Json>)
    ensures
        option_view(r) == encoded_if_some::<T>(option_view(*value)),
        value matches Some(v) ==> T::sound(v@),
{
    match value {
        Some(v) => Some(v.to_json()),
        None => None,
    }
}

/// Starts an object.
pub fn no_members() -> (members: Vec<(String, Json)>)
    ensures
        members_view(members@) == Members::new().list,
{
    Vec::new()
}

} // verus!
