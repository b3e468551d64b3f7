//! Decoding from JSON text and encoding to it.
use crate::bridge::{tree_of_text, tree_text};
use crate::error::{outcome, DecodeError, DecodeErrorView};
use crate::json::Json;
use crate::modifications::Modification;
use crate::request::Request;
use crate::response::Response;
use crate::wire::Wire;
use vstd::prelude::*;

verus! {

/// What a text decodes to: the value of the tree that the text holds; a text
/// that is not JSON is malformed.
pub open spec fn decoded_text<T: Wire>(text: Seq<char>) -> Result<T::V, DecodeErrorView> {
    match tree_of_text(text) {
        Some(tree) => T::decoded(tree),
        None => Err(DecodeErrorView::Malformed),
    }
}

/// The text that a value is encoded as: the compact JSON text of its tree.
pub open spec fn encoded_text<T: Wire>(value: T::V) -> Seq<char> {
    tree_text(T::encoded(value))
}

/// Decodes a value from JSON text.
pub fn decode<T: Wire>(text: &str) -> (r: Result<T, DecodeError>)
    ensures
        outcome(r) == decoded_text::<T>(text@),
        r matches Ok(value) ==> T::sound(value@),
{
    match Json::parse(text) {
        Some(j) => T::from_json(&j),
        None => Err(DecodeError::Malformed),
    }
}

/// Encodes a value as compact JSON text.
pub fn encode<T: Wire>(value: &T) -> (text: String)
    ensures
        text@ == encoded_text::<T>(value@),
{
    let j = value.to_json();
    proof {
        T::round_trip(value@);
    }
    j.render()
}

/// Decodes the request of a mail server.
pub fn decode_request(text: &str) -> (r: Result<Request, DecodeError>)
    ensures
        outcome(r) == decoded_text::<Request>(text@),
{
    decode::<Request>(text)
}

/// Encodes a request.
pub fn encode_request(request: &Request) -> (text: String)
    ensures
        text@ == encoded_text::<Request>(request@),
{
    encode::<Request>(request)
}

/// Decodes a response.
pub fn decode_response(text: &str) -> (r: Result<Response, DecodeError>)
    ensures
        outcome(r) == decoded_text::<Response>(text@),
{
    decode::<Response>(text)
}

/// Encodes the response to a mail server.
pub fn encode_response(response: &Response) -> (text: String)
    ensures
        text@ == encoded_text::<Response>(response@),
{
    encode::<Response>(response)
}

/// Decodes a modification.
pub fn decode_modification(text: &str) -> (r: Result<Modification, DecodeError>)
    ensures
        outcome(r) == decoded_text::<Modification>(text@),
{
    decode::<Modification>(text)
}

/// Encodes a modification.
pub fn encode_modification(modification: &Modification) -> (text: String)
    ensures
        text@ == encoded_text::<Modification>(modification@),
{
    encode::<Modification>(modification)
}

} // verus!
