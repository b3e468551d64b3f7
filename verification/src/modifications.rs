//! The modifications that a response may ask for.
use crate::entries::{distinct, lemma_member_at, member};
use crate::error::{tokens, DecodeError, DecodeErrorView, Family};
use crate::json::{find, Json, JsonView};
use crate::mapping::Mapping;
use crate::parameters::{
    decode_lenient, encode_parameters, lemma_parameters_round_trip, lemma_parameters_steady,
    lenient_parameters, parameters_encoded, Parameters, ParametersView,
};
use crate::text::same_text;
use crate::wire::{
    as_members, get_required_text, get_required_u32, lemma_steady_object, members_of, object_json,
    required_text, required_u32, text_json, unsigned_encoded, unsigned_json, Wire,
};
use vstd::prelude::*;

verus! {

/// One instruction to alter the envelope or the headers of a message. In JSON
/// the field `type` tells the variants apart.
#[derive(Debug, Clone, PartialEq, Eq)]
pub enum Modification {
    /// `changeFrom`: replace the envelope sender.
    ChangeFrom { value: String, parameters: Parameters },
    /// `addRecipient`: append an envelope recipient.
    AddRecipient { value: String, parameters: Parameters },
    /// `deleteRecipient`: remove an envelope recipient by its address.
    DeleteRecipient { value: String },
    /// `replaceContents`: replace the whole body of the message.
    ReplaceContents { value: String },
    /// `addHeader`: append a header.
    AddHeader { name: String, value: String },
    /// `insertHeader`: insert a header before the place `index`.
    InsertHeader { index: u32, name: String, value: String },
    /// `changeHeader`: replace the header at the place `index`.
    ChangeHeader { index: u32, name: String, value: String },
    /// `deleteHeader`: remove the header at the place `index`.
    DeleteHeader { index: u32, name: String },
}

/// The model of a [`Modification`].
pub enum ModificationView {
    ChangeFrom { value: Seq<char>, parameters: ParametersView },
    AddRecipient { value: Seq<char>, parameters: ParametersView },
    DeleteRecipient { value: Seq<char> },
    ReplaceContents { value: Seq<char> },
    AddHeader { name: Seq<char>, value: Seq<char> },
    InsertHeader { index: u32, name: Seq<char>, value: Seq<char> },
    ChangeHeader { index: u32, name: Seq<char>, value: Seq<char> },
    DeleteHeader { index: u32, name: Seq<char> },
}

impl View for Modification {
    type V = ModificationView;

    open spec fn view(&self) -> ModificationView {
        match self {
            Modification::ChangeFrom { value, parameters } => ModificationView::ChangeFrom {
                value: value@,
                parameters: parameters@,
            },
            Modification::AddRecipient { value, parameters } => ModificationView::AddRecipient {
                value: value@,
                parameters: parameters@,
            },
            Modification::DeleteRecipient { value } => ModificationView::DeleteRecipient {
                value: value@,
            },
            Modification::ReplaceContents { value } => ModificationView::ReplaceContents {
                value: value@,
            },
            Modification::AddHeader { name, value } => ModificationView::AddHeader {
                name: name@,
                value: value@,
            },
            Modification::InsertHeader { index, name, value } => ModificationView::InsertHeader {
                index: *index,
                name: name@,
                value: value@,
            },
            Modification::ChangeHeader { index, name, value } => ModificationView::ChangeHeader {
                index: *index,
                name: name@,
                value: value@,
            },
            Modification::DeleteHeader { index, name } => ModificationView::DeleteHeader {
                index: *index,
                name: name@,
            },
        }
    }
}

/// The token that stands under `type` for a modification.
pub open spec fn tag(m: ModificationView) -> Seq<char> {
    match m {
        ModificationView::ChangeFrom { .. } => "changeFrom"@,
        ModificationView::AddRecipient { .. } => "addRecipient"@,
        ModificationView::DeleteRecipient { .. } => "deleteRecipient"@,
        ModificationView::ReplaceContents { .. } => "replaceContents"@,
        ModificationView::AddHeader { .. } => "addHeader"@,
        ModificationView::InsertHeader { .. } => "insertHeader"@,
        ModificationView::ChangeHeader { .. } => "changeHeader"@,
        ModificationView::DeleteHeader { .. } => "deleteHeader"@,
    }
}

/// The members that follow `type` in the object of a modification.
pub open spec fn payload(m: ModificationView) -> Seq<(Seq<char>, JsonView)> {
    match m {
        ModificationView::ChangeFrom { value, parameters } => seq![
            ("value"@, JsonView::Text(value)),
            ("parameters"@, parameters_encoded(parameters)),
        ],
        ModificationView::AddRecipient { value, parameters } => seq![
            ("value"@, JsonView::Text(value)),
            ("parameters"@, parameters_encoded(parameters)),
        ],
        ModificationView::DeleteRecipient { value } => seq![("value"@, JsonView::Text(value))],
        ModificationView::ReplaceContents { value } => seq![("value"@, JsonView::Text(value))],
        ModificationView::AddHeader { name, value } => seq![
            ("name"@, JsonView::Text(name)),
            ("value"@, JsonView::Text(value)),
        ],
        ModificationView::InsertHeader { index, name, value } => seq![
            ("index"@, unsigned_encoded(index as int)),
            ("name"@, JsonView::Text(name)),
            ("value"@, JsonView::Text(value)),
        ],
        ModificationView::ChangeHeader { index, name, value } => seq![
            ("index"@, unsigned_encoded(index as int)),
            ("name"@, JsonView::Text(name)),
            ("value"@, JsonView::Text(value)),
        ],
        ModificationView::DeleteHeader { index, name } => seq![
            ("index"@, unsigned_encoded(index as int)),
            ("name"@, JsonView::Text(name)),
        ],
    }
}

/// A sender or a recipient with its parameters, read from the members of a
/// modification of the kind `owner`.
pub open spec fn decoded_address(members: Seq<(Seq<char>, JsonView)>, owner: Seq<char>) -> Result<
    (Seq<char>, ParametersView),
    DecodeErrorView,
> {
    match required_text(members, "value"@, owner) {
        Ok(value) => match lenient_parameters(member(members, "parameters"@)) {
            Ok(parameters) => Ok((value, parameters)),
            Err(e) => Err(e),
        },
        Err(e) => Err(e),
    }
}

/// A header with its place, read from the members of a modification of the
/// kind `owner`.
pub open spec fn decoded_placed_header(
    members: Seq<(Seq<char>, JsonView)>,
    owner: Seq<char>,
) -> Result<(u32, Seq<char>, Seq<char>), DecodeErrorView> {
    match required_u32(members, "index"@, owner) {
        Ok(index) => match required_text(members, "name"@, owner) {
            Ok(name) => match required_text(members, "value"@, owner) {
                Ok(value) => Ok((index, name, value)),
                Err(e) => Err(e),
            },
            Err(e) => Err(e),
        },
        Err(e) => Err(e),
    }
}

/// The modification of the kind `kind` that the members of an object hold.
/// Each kind asks for its own fields, in the order in which the variant lists
/// them; a token that names no kind is refused.
pub open spec fn decoded_variant(members: Seq<(Seq<char>, JsonView)>, kind: Seq<char>) -> Result<
    ModificationView,
    DecodeErrorView,
> {
    if kind == "changeFrom"@ {
        match decoded_address(members, kind) {
            Ok((value, parameters)) => Ok(ModificationView::ChangeFrom { value, parameters }),
            Err(e) => Err(e),
        }
    } else if kind == "addRecipient"@ {
        match decoded_address(members, kind) {
            Ok((value, parameters)) => Ok(ModificationView::AddRecipient { value, parameters }),
            Err(e) => Err(e),
        }
    } else if kind == "deleteRecipient"@ {
        match required_text(members, "value"@, kind) {
            Ok(value) => Ok(ModificationView::DeleteRecipient { value }),
            Err(e) => Err(e),
        }
    } else if kind == "replaceContents"@ {
        match required_text(members, "value"@, kind) {
            Ok(value) => Ok(ModificationView::ReplaceContents { value }),
            Err(e) => Err(e),
        }
    } else if kind == "addHeader"@ {
        match required_text(members, "name"@, kind) {
            Ok(name) => match required_text(members, "value"@, kind) {
                Ok(value) => Ok(ModificationView::AddHeader { name, value }),
                Err(e) => Err(e),
            },
            Err(e) => Err(e),
        }
    } else if kind == "insertHeader"@ {
        match decoded_placed_header(members, kind) {
            Ok((index, name, value)) => Ok(ModificationView::InsertHeader { index, name, value }),
            Err(e) => Err(e),
        }
    } else if kind == "changeHeader"@ {
        match decoded_placed_header(members, kind) {
            Ok((index, name, value)) => Ok(ModificationView::ChangeHeader { index, name, value }),
            Err(e) => Err(e),
        }
    } else if kind == "deleteHeader"@ {
        match required_u32(members, "index"@, kind) {
            Ok(index) => match required_text(members, "name"@, kind) {
                Ok(name) => Ok(ModificationView::DeleteHeader { index, name }),
                Err(e) => Err(e),
            },
            Err(e) => Err(e),
        }
    } else {
        Err(DecodeErrorView::UnknownVariant { found: kind, family: Family::Modification })
    }
}

impl Modification {
    /// Replace the envelope sender by `address`, without parameters.
    pub fn change_from(address: String) -> (r: Self)
        ensures
            r@ == (ModificationView::ChangeFrom { value: address@, parameters: Seq::empty() }),
    {
        let parameters: Parameters = Mapping::new();
        Modification::ChangeFrom { value: address, parameters }
    }

    /// Replace the envelope sender by `address` with `parameters`.
    pub fn change_from_with_params(address: String, parameters: Parameters) -> (r: Self)
        ensures
            r@ == (ModificationView::ChangeFrom { value: address@, parameters: parameters@ }),
            Modification::sound(r@),
    {
        proof {
            use_type_invariant(&parameters);
        }
        Modification::ChangeFrom { value: address, parameters }
    }

    /// Append the envelope recipient `address`, without parameters.
    pub fn add_recipient(address: String) -> (r: Self)
        ensures
            r@ == (ModificationView::AddRecipient { value: address@, parameters: Seq::empty() }),
    {
        let parameters: Parameters = Mapping::new();
        Modification::AddRecipient { value: address, parameters }
    }

    /// Append the envelope recipient `address` with `parameters`.
    pub fn add_recipient_with_params(address: String, parameters: Parameters) -> (r: Self)
        ensures
            r@ == (ModificationView::AddRecipient { value: address@, parameters: parameters@ }),
            Modification::sound(r@),
    {
        proof {
            use_type_invariant(&parameters);
        }
        Modification::AddRecipient { value: address, parameters }
    }

    /// Remove the envelope recipient `address`.
    pub fn delete_recipient(address: String) -> (r: Self)
        ensures
            r@ == (ModificationView::DeleteRecipient { value: address@ }),
    {
        Modification::DeleteRecipient { value: address }
    }

    /// Replace the body of the message by `contents`.
    pub fn replace_contents(contents: String) -> (r: Self)
        ensures
            r@ == (ModificationView::ReplaceContents { value: contents@ }),
    {
        Modification::ReplaceContents { value: contents }
    }

    /// Append the header `name` with `value`.
    pub fn add_header(name: String, value: String) -> (r: Self)
        ensures
            r@ == (ModificationView::AddHeader { name: name@, value: value@ }),
    {
        Modification::AddHeader { name, value }
    }

    /// Insert the header `name` with `value` before the place `index`.
    pub fn insert_header(index: u32, name: String, value: String) -> (r: Self)
        ensures
            r@ == (ModificationView::InsertHeader { index, name: name@, value: value@ }),
    {
        Modification::InsertHeader { index, name, value }
    }

    /// Replace the header at the place `index` by `name` with `value`.
    pub fn change_header(index: u32, name: String, value: String) -> (r: Self)
        ensures
            r@ == (ModificationView::ChangeHeader { index, name: name@, value: value@ }),
    {
        Modification::ChangeHeader { index, name, value }
    }

    /// Remove the header at the place `index`, which is expected to be `name`.
    pub fn delete_header(index: u32, name: String) -> (r: Self)
        ensures
            r@ == (ModificationView::DeleteHeader { index, name: name@ }),
    {
        Modification::DeleteHeader { index, name }
    }

    fn decode_address(members: &Vec<(String, Json)>, owner: &'static str) -> (r: Result<
        (String, Parameters),
        DecodeError,
    >)
        ensures
            match r {
                Ok((value, parameters)) => decoded_address(crate::json::members_view(members@), owner@)
                    == Ok::<_, DecodeErrorView>((value@, parameters@)) && distinct(parameters@),
                Err(e) => decoded_address(crate::json::members_view(members@), owner@) == Err::<
                    (Seq<char>, ParametersView),
                    _,
                >(e@),
            },
    {
        let value = get_required_text(members, "value", owner)?;
        let parameters = decode_lenient(find(members, "parameters"))?;
        Ok((value, parameters))
    }

    fn decode_placed_header(members: &Vec<(String, Json)>, owner: &'static str) -> (r: Result<
        (u32, String, String),
        DecodeError,
    >)
        ensures
            match r {
                Ok((index, name, value)) => decoded_placed_header(
                    crate::json::members_view(members@),
                    owner@,
                ) == Ok::<_, DecodeErrorView>((index, name@, value@)),
                Err(e) => decoded_placed_header(crate::json::members_view(members@), owner@)
                    == Err::<(u32, Seq<char>, Seq<char>), _>(e@),
            },
    {
        let index = get_required_u32(members, "index", owner)?;
        let name = get_required_text(members, "name", owner)?;
        let value = get_required_text(members, "value", owner)?;
        Ok((index, name, value))
    }
}

impl Wire for Modification {
    open spec fn decoded(tree: JsonView) -> Result<ModificationView, DecodeErrorView> {
        match members_of(tree, "Modification"@) {
            Ok(members) => match required_text(members, "type"@, "Modification"@) {
                Ok(kind) => decoded_variant(members, kind),
                Err(e) => Err(e),
            },
            Err(e) => Err(e),
        }
    }

    open spec fn encoded(value: ModificationView) -> JsonView {
        JsonView::Object(seq![("type"@, JsonView::Text(tag(value)))] + payload(value))
    }

    open spec fn sound(value: ModificationView) -> bool {
        match value {
            ModificationView::ChangeFrom { parameters, .. } => distinct(parameters),
            ModificationView::AddRecipient { parameters, .. } => distinct(parameters),
            _ => true,
        }
    }

    fn from_json(j: &Json) -> (r: Result<Self, DecodeError>) {
        let members = as_members(j, "Modification")?;
        let kind = get_required_text(members, "type", "Modification")?;
        let k = kind.as_str();
        if same_text(k, "changeFrom") {
            let (value, parameters) = Modification::decode_address(members, "changeFrom")?;
            Ok(Modification::ChangeFrom { value, parameters })
        } else if same_text(k, "addRecipient") {
            let (value, parameters) = Modification::decode_address(members, "addRecipient")?;
            Ok(Modification::AddRecipient { value, parameters })
        } else if same_text(k, "deleteRecipient") {
            let value = get_required_text(members, "value", "deleteRecipient")?;
            Ok(Modification::DeleteRecipient { value })
        } else if same_text(k, "replaceContents") {
            let value = get_required_text(members, "value", "replaceContents")?;
            Ok(Modification::ReplaceContents { value })
        } else if same_text(k, "addHeader") {
            let name = get_required_text(members, "name", "addHeader")?;
            let value = get_required_text(members, "value", "addHeader")?;
            Ok(Modification::AddHeader { name, value })
        } else if same_text(k, "insertHeader") {
            let (index, name, value) = Modification::decode_placed_header(members, "insertHeader")?;
            Ok(Modification::InsertHeader { index, name, value })
        } else if same_text(k, "changeHeader") {
            let (index, name, value) = Modification::decode_placed_header(members, "changeHeader")?;
            Ok(Modification::ChangeHeader { index, name, value })
        } else if same_text(k, "deleteHeader") {
            let index = get_required_u32(members, "index", "deleteHeader")?;
            let name = get_required_text(members, "name", "deleteHeader")?;
            Ok(Modification::DeleteHeader { index, name })
        } else {
            Err(DecodeError::UnknownVariant { found: kind, family: Family::Modification })
        }
    }

    fn to_json(&self) -> (j: Json) {
        let mut members: Vec<(String, Json)> = Vec::new();
        match self {
            Modification::ChangeFrom { value, parameters } => {
                members.push(("type".to_owned(), Json::Text("changeFrom".to_owned())));
                members.push(("value".to_owned(), text_json(value)));
                members.push(("parameters".to_owned(), encode_parameters(parameters)));
            },
            Modification::AddRecipient { value, parameters } => {
                members.push(("type".to_owned(), Json::Text("addRecipient".to_owned())));
                members.push(("value".to_owned(), text_json(value)));
                members.push(("parameters".to_owned(), encode_parameters(parameters)));
            },
            Modification::DeleteRecipient { value } => {
                members.push(("type".to_owned(), Json::Text("deleteRecipient".to_owned())));
                members.push(("value".to_owned(), text_json(value)));
            },
            Modification::ReplaceContents { value } => {
                members.push(("type".to_owned(), Json::Text("replaceContents".to_owned())));
                members.push(("value".to_owned(), text_json(value)));
            },
            Modification::AddHeader { name, value } => {
                members.push(("type".to_owned(), Json::Text("addHeader".to_owned())));
                members.push(("name".to_owned(), text_json(name)));
                members.push(("value".to_owned(), text_json(value)));
            },
            Modification::InsertHeader { index, name, value } => {
                members.push(("type".to_owned(), Json::Text("insertHeader".to_owned())));
                members.push(("index".to_owned(), unsigned_json(*index as u64)));
                members.push(("name".to_owned(), text_json(name)));
                members.push(("value".to_owned(), text_json(value)));
            },
            Modification::ChangeHeader { index, name, value } => {
                members.push(("type".to_owned(), Json::Text("changeHeader".to_owned())));
                members.push(("index".to_owned(), unsigned_json(*index as u64)));
                members.push(("name".to_owned(), text_json(name)));
                members.push(("value".to_owned(), text_json(value)));
            },
            Modification::DeleteHeader { index, name } => {
                members.push(("type".to_owned(), Json::Text("deleteHeader".to_owned())));
                members.push(("index".to_owned(), unsigned_json(*index as u64)));
                members.push(("name".to_owned(), text_json(name)));
            },
        }
        assert(crate::json::members_view(members@) =~= Self::encoded(self@)->Object_0);
        object_json(members)
    }

    proof fn round_trip(value: ModificationView) {
        lemma_names_differ();
        let members = Self::encoded(value)->Object_0;
        lemma_member_at(members, 0);
        match value {
            ModificationView::ChangeFrom { parameters, .. } => {
                lemma_member_at(members, 1);
                lemma_member_at(members, 2);
                lemma_parameters_round_trip(parameters);
                lemma_parameters_steady(parameters);
            },
            ModificationView::AddRecipient { parameters, .. } => {
                lemma_member_at(members, 1);
                lemma_member_at(members, 2);
                lemma_parameters_round_trip(parameters);
                lemma_parameters_steady(parameters);
            },
            ModificationView::DeleteRecipient { .. } => {
                lemma_member_at(members, 1);
            },
            ModificationView::ReplaceContents { .. } => {
                lemma_member_at(members, 1);
            },
            ModificationView::AddHeader { .. } => {
                lemma_member_at(members, 1);
                lemma_member_at(members, 2);
            },
            ModificationView::InsertHeader { .. } => {
                lemma_member_at(members, 1);
                lemma_member_at(members, 2);
                lemma_member_at(members, 3);
            },
            ModificationView::ChangeHeader { .. } => {
                lemma_member_at(members, 1);
                lemma_member_at(members, 2);
                lemma_member_at(members, 3);
            },
            ModificationView::DeleteHeader { .. } => {
                lemma_member_at(members, 1);
                lemma_member_at(members, 2);
            },
        }
        lemma_steady_object(members);
    }

    proof fn reads_by_name(a: Seq<(Seq<char>, JsonView)>, b: Seq<(Seq<char>, JsonView)>) {
    }
}

/// The names of the fields differ from one another, and so do the tokens of
/// the kinds.
pub proof fn lemma_names_differ()
    ensures
        "type"@ != "value"@,
        "type"@ != "parameters"@,
        "type"@ != "index"@,
        "type"@ != "name"@,
        "value"@ != "parameters"@,
        "value"@ != "index"@,
        "value"@ != "name"@,
        "index"@ != "name"@,
        "changeFrom"@ != "addRecipient"@,
        "changeFrom"@ != "deleteRecipient"@,
        "changeFrom"@ != "replaceContents"@,
        "changeFrom"@ != "addHeader"@,
        "changeFrom"@ != "insertHeader"@,
        "changeFrom"@ != "changeHeader"@,
        "changeFrom"@ != "deleteHeader"@,
        "addRecipient"@ != "deleteRecipient"@,
        "addRecipient"@ != "replaceContents"@,
        "addRecipient"@ != "addHeader"@,
        "addRecipient"@ != "insertHeader"@,
        "addRecipient"@ != "changeHeader"@,
        "addRecipient"@ != "deleteHeader"@,
        "deleteRecipient"@ != "replaceContents"@,
        "deleteRecipient"@ != "addHeader"@,
        "deleteRecipient"@ != "insertHeader"@,
        "deleteRecipient"@ != "changeHeader"@,
        "deleteRecipient"@ != "deleteHeader"@,
        "replaceContents"@ != "addHeader"@,
        "replaceContents"@ != "insertHeader"@,
        "replaceContents"@ != "changeHeader"@,
        "replaceContents"@ != "deleteHeader"@,
        "addHeader"@ != "insertHeader"@,
        "addHeader"@ != "changeHeader"@,
        "addHeader"@ != "deleteHeader"@,
        "insertHeader"@ != "changeHeader"@,
        "insertHeader"@ != "deleteHeader"@,
        "changeHeader"@ != "deleteHeader"@,
{
    reveal_strlit("type");
    reveal_strlit("value");
    reveal_strlit("parameters");
    reveal_strlit("index");
    reveal_strlit("name");
    reveal_strlit("changeFrom");
    reveal_strlit("addRecipient");
    reveal_strlit("deleteRecipient");
    reveal_strlit("replaceContents");
    reveal_strlit("addHeader");
    reveal_strlit("insertHeader");
    reveal_strlit("changeHeader");
    reveal_strlit("deleteHeader");
    assert("changeFrom"@.len() == 10);
    assert("addRecipient"@.len() == 12);
    assert("deleteRecipient"@.len() == 15);
    assert("replaceContents"@.len() == 15);
    assert("addHeader"@.len() == 9);
    assert("insertHeader"@.len() == 12);
    assert("changeHeader"@.len() == 12);
    assert("deleteHeader"@.len() == 12);
    assert("type"@[0] != "name"@[0]);
    assert("value"@[0] != "index"@[0]);
    assert("addRecipient"@[0] != "insertHeader"@[0]);
    assert("addRecipient"@[0] != "changeHeader"@[0]);
    assert("addRecipient"@[0] != "deleteHeader"@[0]);
    assert("deleteRecipient"@[0] != "replaceContents"@[0]);
    assert("insertHeader"@[0] != "changeHeader"@[0]);
    assert("insertHeader"@[0] != "deleteHeader"@[0]);
    assert("changeHeader"@[0] != "deleteHeader"@[0]);
}

/// A modification is written as an object whose first member is `type`, and
/// the token under it is one of the tokens of the kinds of modification.
pub proof fn law_type_comes_first(value: ModificationView)
    ensures
        Modification::encoded(value) matches JsonView::Object(members) && members.len() > 0
            && members[0] == ("type"@, JsonView::Text(tag(value))),
        tokens(Family::Modification).contains(tag(value)),
{
}

/// A token under `type` is refused as an unknown variant exactly where it is
/// none of the tokens of the kinds of modification; the error names the token
/// that was found and the family whose tokens are allowed.
pub proof fn law_unknown_kind(members: Seq<(Seq<char>, JsonView)>, kind: Seq<char>)
    ensures
        !tokens(Family::Modification).contains(kind) <==> decoded_variant(members, kind) == Err::<
            ModificationView,
            _,
        >(DecodeErrorView::UnknownVariant { found: kind, family: Family::Modification }),
{
}

/// A modification whose `parameters` are lacking or `null` has an empty
/// mapping of parameters, whatever else its object holds.
pub proof fn law_parameters_default_to_empty(members: Seq<(Seq<char>, JsonView)>)
    requires
        member(members, "parameters"@) is None || member(members, "parameters"@) == Some(
            JsonView::Null,
        ),
    ensures
        match Modification::decoded(JsonView::Object(members)) {
            Ok(ModificationView::ChangeFrom { parameters, .. }) => parameters.len() == 0,
            Ok(ModificationView::AddRecipient { parameters, .. }) => parameters.len() == 0,
            _ => true,
        },
{
}

} // verus!
