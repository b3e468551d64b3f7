//! Parameter mappings and the coercion of their values.
//!
//! A parameter value may come as a string, a number or a boolean; each is
//! taken as a string. A modification and an envelope address read their
//! parameters by two different policies, [`lenient_parameters`] and
//! [`strict_parameters`].
use crate::bridge::{json_text, settle, settle_members};
use crate::entries::{distinct, lemma_settled_distinct, settled};
use crate::error::{outcome, DecodeError, DecodeErrorView, Shape};
use crate::json::{lemma_view, members_view, option_view, Json, JsonView, Number, NumberView};
use crate::mapping::Mapping;
use crate::text::{decimal, decimal_text, signed_decimal, signed_decimal_text};
use crate::wire::outcome_optional;
use vstd::prelude::*;

verus! {

/// The parameters of a modification: a value may be absent under its name.
pub type Parameters = Mapping<Option<String>>;

/// The parameters of an envelope address.
pub type AddressParameters = Mapping<String>;

/// The model of [`Parameters`].
pub type ParametersView = Seq<(Seq<char>, Option<Seq<char>>)>;

/// The model of [`AddressParameters`].
pub type AddressParametersView = Seq<(Seq<char>, Seq<char>)>;

/// The string that stands for a scalar: a string is itself, an integer is
/// written in decimal notation, any other number by the text that holds it,
/// and a boolean as `true` or `false`. No other tree is a scalar.
pub open spec fn scalar_text(tree: JsonView) -> Option<Seq<char>> {
    match tree {
        JsonView::Text(t) => Some(t),
        JsonView::Number(NumberView::Unsigned(u)) => Some(decimal(u as nat)),
        JsonView::Number(NumberView::Negative(i)) => Some(signed_decimal(i as int)),
        JsonView::Number(NumberView::Real(t)) => Some(t),
        JsonView::Bool(b) => Some(
            if b {
                "true"@
            } else {
                "false"@
            },
        ),
        _ => None,
    }
}

/// The lenient coercion: `null` is an absent value, a scalar is its string,
/// and an array or an object is its compact JSON text.
pub open spec fn lenient_value(tree: JsonView) -> Option<Seq<char>> {
    match tree {
        JsonView::Null => None,
        JsonView::Array(_) | JsonView::Object(_) => Some(json_text(tree)),
        _ => scalar_text(tree),
    }
}

/// The strict coercion: a scalar is its string, any other tree is refused.
pub open spec fn strict_value(tree: JsonView) -> Result<Seq<char>, DecodeErrorView> {
    match scalar_text(tree) {
        Some(t) => Ok(t),
        None => Err(
            DecodeErrorView::SchemaViolation { at: "parameters"@, expected: Shape::Scalar },
        ),
    }
}

/// The members of an object, each value coerced leniently.
pub open spec fn lenient_entries(members: Seq<(Seq<char>, JsonView)>) -> ParametersView {
    Seq::new(members.len(), |i: int| (members[i].0, lenient_value(members[i].1)))
}

/// The members of an object, each value coerced strictly; the first member
/// that is refused gives the error.
pub open spec fn strict_entries(members: Seq<(Seq<char>, JsonView)>) -> Result<
    AddressParametersView,
    DecodeErrorView,
>
    decreases members.len(),
{
    if members.len() == 0 {
        Ok(Seq::empty())
    } else {
        match strict_entries(members.drop_last()) {
            Ok(front) => match strict_value(members.last().1) {
                Ok(t) => Ok(front.push((members.last().0, t))),
                Err(e) => Err(e),
            },
            Err(e) => Err(e),
        }
    }
}

/// The parameters of a modification, read from what stands under
/// `parameters`: a lacking field and `null` give an empty mapping, an object
/// gives one entry for each name, and anything else is refused.
pub open spec fn lenient_parameters(found: Option<JsonView>) -> Result<
    ParametersView,
    DecodeErrorView,
> {
    match found {
        None => Ok(Seq::empty()),
        Some(JsonView::Null) => Ok(Seq::empty()),
        Some(JsonView::Object(members)) => Ok(settled(lenient_entries(members))),
        Some(_) => Err(
            DecodeErrorView::SchemaViolation { at: "parameters"@, expected: Shape::Object },
        ),
    }
}

/// The parameters of an envelope address, read from what stands under
/// `parameters`: a lacking field and `null` give no mapping at all, an object
/// gives one entry for each name unless a value is refused, and anything else
/// is refused.
pub open spec fn strict_parameters(found: Option<JsonView>) -> Result<
    Option<AddressParametersView>,
    DecodeErrorView,
> {
    match found {
        None => Ok(None),
        Some(JsonView::Null) => Ok(None),
        Some(JsonView::Object(members)) => match strict_entries(members) {
            Ok(entries) => Ok(Some(settled(entries))),
            Err(e) => Err(e),
        },
        Some(_) => Err(
            DecodeErrorView::SchemaViolation { at: "parameters"@, expected: Shape::Object },
        ),
    }
}

/// The object that parameters of a modification are encoded as: an absent
/// value is `null`.
pub open spec fn parameters_encoded(parameters: ParametersView) -> JsonView {
    JsonView::Object(
        Seq::new(
            parameters.len(),
            |i: int|
                (
                    parameters[i].0,
                    match parameters[i].1 {
                        Some(t) => JsonView::Text(t),
                        None => JsonView::Null,
                    },
                ),
        ),
    )
}

/// The object that parameters of an address are encoded as.
pub open spec fn address_parameters_encoded(parameters: AddressParametersView) -> JsonView {
    JsonView::Object(
        Seq::new(parameters.len(), |i: int| (parameters[i].0, JsonView::Text(parameters[i].1))),
    )
}

/// The string of a scalar; nothing for any other value.
pub fn coerce_scalar(j: &Json) -> (r: Option<String>)
    ensures
        option_view(r) == scalar_text(j@),
{
    proof {
        lemma_view(*j);
    }
    match j {
        Json::Text(t) => Some(t.clone()),
        Json::Number(Number::Unsigned(u)) => Some(decimal_text(*u)),
        Json::Number(Number::Negative(i)) => Some(signed_decimal_text(*i)),
        Json::Number(Number::Real(t)) => Some(t.clone()),
        Json::Bool(b) => Some(
            if *b {
                "true".to_owned()
            } else {
                "false".to_owned()
            },
        ),
        _ => None,
    }
}

/// Coerces a parameter value by the lenient policy.
pub fn coerce_lenient(j: &Json) -> (r: Option<String>)
    ensures
        option_view(r) == lenient_value(j@),
{
    proof {
        lemma_view(*j);
    }
    match j {
        Json::Null => None,
        Json::Array(_) => Some(j.render()),
        Json::Object(_) => Some(j.render()),
        _ => coerce_scalar(j),
    }
}

/// Coerces a parameter value by the strict policy.
pub fn coerce_strict(j: &Json) -> (r: Result<String, DecodeError>)
    ensures
        outcome(r) == strict_value(j@),
{
    match coerce_scalar(j) {
        Some(t) => Ok(t),
        None => Err(DecodeError::SchemaViolation { at: "parameters", expected: Shape::Scalar }),
    }
}

/// Reads the parameters of a modification from what stands under
/// `parameters`, if anything does.
pub fn decode_lenient(found: Option<&Json>) -> (r: Result<Parameters, DecodeError>)
    ensures
        outcome(r) == lenient_parameters(option_view(found)),
        r matches Ok(parameters) ==> distinct(parameters@),
{
    let mut out: Parameters = Mapping::new();
    match found {
        None => Ok(out),
        Some(j) => {
            proof {
                lemma_view(*j);
            }
            match j {
                Json::Null => Ok(out),
                Json::Object(members) => {
                    let ghost all = lenient_entries(members_view(members@));
                    let mut i: usize = 0;
                    while i < members.len()
                        invariant
                            i <= members@.len(),
                            all == lenient_entries(members_view(members@)),
                            out@ == settled(all.take(i as int)),
                            distinct(out@),
                        decreases members@.len() - i,
                    {
                        proof {
                            assert(all.take(i + 1).drop_last() =~= all.take(i as int));
                            lemma_view(members@[i as int].1);
                        }
                        let value = coerce_lenient(&members[i].1);
                        let _ = out.insert(members[i].0.clone(), value);
                        i += 1;
                    }
                    assert(all.take(i as int) =~= all);
                    Ok(out)
                },
                _ => Err(
                    DecodeError::SchemaViolation { at: "parameters", expected: Shape::Object },
                ),
            }
        },
    }
}

/// An error among the first `n` members is the error of all of them.
pub proof fn lemma_strict_fails(members: Seq<(Seq<char>, JsonView)>, n: int)
    requires
        0 <= n <= members.len(),
        strict_entries(members.take(n)) is Err,
    ensures
        strict_entries(members) == strict_entries(members.take(n)),
    decreases members.len() - n,
{
    if n < members.len() {
        assert(members.take(n + 1).drop_last() =~= members.take(n));
        lemma_strict_fails(members, n + 1);
    } else {
        assert(members.take(n) =~= members);
    }
}

/// Reads the parameters of an envelope address from what stands under
/// `parameters`, if anything does.
pub fn decode_strict(found: Option<&Json>) -> (r: Result<Option<AddressParameters>, DecodeError>)
    ensures
        outcome_optional(r) == strict_parameters(option_view(found)),
        r matches Ok(Some(parameters)) ==> distinct(parameters@),
{
    match found {
        None => Ok(None),
        Some(j) => {
            proof {
                lemma_view(*j);
            }
            match j {
                Json::Null => Ok(None),
                Json::Object(members) => {
                    let ghost all = members_view(members@);
                    let ghost mut read: AddressParametersView = Seq::empty();
                    let mut out: AddressParameters = Mapping::new();
                    let mut i: usize = 0;
                    while i < members.len()
                        invariant
                            i <= members@.len(),
                            all == members_view(members@),
                            found == Some(j),
                            j@ == JsonView::Object(all),
                            strict_entries(all.take(i as int)) == Ok::<_, DecodeErrorView>(read),
                            out@ == settled(read),
                            distinct(out@),
                        decreases members@.len() - i,
                    {
                        proof {
                            assert(all.take(i + 1).drop_last() =~= all.take(i as int));
                        }
                        match coerce_strict(&members[i].1) {
                            Ok(value) => {
                                proof {
                                    read = read.push((members@[i as int].0@, value@));
                                    assert(read.drop_last() =~= strict_entries(
                                        all.take(i as int),
                                    )->Ok_0);
                                }
                                let _ = out.insert(members[i].0.clone(), value);
                            },
                            Err(e) => {
                                proof {
                                    lemma_strict_fails(all, i + 1);
                                }
                                return Err(e);
                            },
                        }
                        i += 1;
                    }
                    assert(all.take(i as int) =~= all);
                    Ok(Some(out))
                },
                _ => Err(
                    DecodeError::SchemaViolation { at: "parameters", expected: Shape::Object },
                ),
            }
        },
    }
}

/// Encodes the parameters of a modification as an object.
pub fn encode_parameters(parameters: &Parameters) -> (j: Json)
    ensures
        j@ == parameters_encoded(parameters@),
        distinct(parameters@),
{
    proof {
        use_type_invariant(parameters);
    }
    let n = parameters.len();
    let mut members: Vec<(String, Json)> = Vec::new();
    let mut i: usize = 0;
    while i < n
        invariant
            i <= n,
            n == parameters@.len(),
            members@.len() == i,
            forall|k: int|
                0 <= k < i ==> (#[trigger] members@[k]).0@ == parameters@[k].0 && members@[k].1@
                    == match parameters@[k].1 {
                    Some(t) => JsonView::Text(t),
                    None => JsonView::Null,
                },
        decreases n - i,
    {
        let value = match parameters.value_at(i) {
            Some(t) => Json::Text(t.clone()),
            None => Json::Null,
        };
        members.push((parameters.name_at(i).clone(), value));
        i += 1;
    }
    let j = Json::Object(members);
    proof {
        lemma_view(j);
        assert(members_view(members@) =~= parameters_encoded(parameters@)->Object_0);
    }
    j
}

/// Encodes the parameters of an address as an object.
pub fn encode_address_parameters(parameters: &AddressParameters) -> (j: Json)
    ensures
        j@ == address_parameters_encoded(parameters@),
        distinct(parameters@),
{
    proof {
        use_type_invariant(parameters);
    }
    let n = parameters.len();
    let mut members: Vec<(String, Json)> = Vec::new();
    let mut i: usize = 0;
    while i < n
        invariant
            i <= n,
            n == parameters@.len(),
            members@.len() == i,
            forall|k: int|
                0 <= k < i ==> (#[trigger] members@[k]).0@ == parameters@[k].0 && members@[k].1@
                    == JsonView::Text(parameters@[k].1),
        decreases n - i,
    {
        members.push((parameters.name_at(i).clone(), Json::Text(parameters.value_at(i).clone())));
        i += 1;
    }
    let j = Json::Object(members);
    proof {
        lemma_view(j);
        assert(members_view(members@) =~= address_parameters_encoded(parameters@)->Object_0);
    }
    j
}

/// Parameters with distinct names that are encoded are read back as they
/// were, by the lenient policy.
pub proof fn lemma_parameters_round_trip(parameters: ParametersView)
    requires
        distinct(parameters),
    ensures
        lenient_parameters(Some(parameters_encoded(parameters))) == Ok::<_, DecodeErrorView>(
            parameters,
        ),
{
    let members = parameters_encoded(parameters)->Object_0;
    assert(lenient_entries(members) =~= parameters);
    lemma_settled_distinct(parameters);
}

/// Encoded parameters with distinct names are written as they stand.
pub proof fn lemma_parameters_steady(parameters: ParametersView)
    requires
        distinct(parameters),
    ensures
        settle(parameters_encoded(parameters)) == parameters_encoded(parameters),
{
    let members = parameters_encoded(parameters)->Object_0;
    assert(settle_members(members) =~= members);
    assert(distinct(members)) by {
        assert forall|i: int, j: int| 0 <= i < j < members.len() implies (#[trigger] members[i]).0
            != (#[trigger] members[j]).0 by {
            assert(parameters[i].0 != parameters[j].0);
        }
    }
    lemma_settled_distinct(members);
}

/// Encoded address parameters with distinct names are written as they stand.
pub proof fn lemma_address_parameters_steady(parameters: AddressParametersView)
    requires
        distinct(parameters),
    ensures
        settle(address_parameters_encoded(parameters)) == address_parameters_encoded(parameters),
{
    let members = address_parameters_encoded(parameters)->Object_0;
    assert(settle_members(members) =~= members);
    assert(distinct(members)) by {
        assert forall|i: int, j: int| 0 <= i < j < members.len() implies (#[trigger] members[i]).0
            != (#[trigger] members[j]).0 by {
            assert(parameters[i].0 != parameters[j].0);
        }
    }
    lemma_settled_distinct(members);
}

/// The strict policy reads each entry of encoded address parameters.
pub proof fn lemma_strict_entries_encoded(parameters: AddressParametersView)
    ensures
        strict_entries(address_parameters_encoded(parameters)->Object_0) == Ok::<
            _,
            DecodeErrorView,
        >(parameters),
    decreases parameters.len(),
{
    let members = address_parameters_encoded(parameters)->Object_0;
    if parameters.len() == 0 {
        assert(parameters =~= Seq::empty());
    } else {
        let front = parameters.drop_last();
        assert(members.drop_last() =~= address_parameters_encoded(front)->Object_0);
        lemma_strict_entries_encoded(front);
        assert(front.push(parameters.last()) =~= parameters);
    }
}

/// Address parameters with distinct names that are encoded are read back as
/// they were, by the strict policy.
pub proof fn lemma_address_parameters_round_trip(parameters: AddressParametersView)
    requires
        distinct(parameters),
    ensures
        strict_parameters(Some(address_parameters_encoded(parameters))) == Ok::<
            _,
            DecodeErrorView,
        >(Some(parameters)),
{
    lemma_strict_entries_encoded(parameters);
    lemma_settled_distinct(parameters);
}

} // verus!
