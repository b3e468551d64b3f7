//! Data model and JSON wire encoding of a mail-transfer-agent hook protocol.
//!
//! A mail server sends a [`Request`] at fixed stages of an SMTP transaction and
//! expects a [`Response`] that accepts, rejects, discards or quarantines the
//! message and may carry an ordered list of [`Modification`]s.
//!
//! The crate is verified with Verus. It has three layers:
//!
//! - [`json`] holds a JSON document as a plain tree, [`Json`]. Reading the
//!   text into a tree and writing a tree as text is the work of `serde_json`;
//!   [`bridge`] is the only module that calls it, and states what is taken on
//!   trust about it.
//! - [`wire`] defines [`Wire`], the decoder and the encoder between a tree and
//!   a value of the protocol, each with its mathematical model.
//!   [`modifications`], [`request`] and [`response`] implement it for the
//!   records of the protocol, and [`parameters`] holds the two policies by
//!   which parameter values are coerced to strings.
//! - [`codec`] puts the two together: [`decode_request`] and
//!   [`encode_response`] are what a transport needs, [`encode_request`] and
//!   [`decode_response`] are their counterparts.
//!
//! Every decoder states exactly which tree gives which value or which
//! [`DecodeError`], and for every record it is proved that decoding what was
//! encoded gives the value back.
pub mod bridge;
pub mod codec;
pub mod entries;
pub mod error;
pub mod json;
pub mod mapping;
pub mod modifications;
pub mod parameters;
pub mod request;
pub mod response;
pub mod text;
pub mod wire;

pub use codec::{
    decode, decode_modification, decode_request, decode_response, encode, encode_modification,
    encode_request, encode_response,
};
pub use error::{DecodeError, Family, Shape};
pub use json::{Json, Number};
pub use mapping::Mapping;
pub use modifications::Modification;
pub use parameters::{AddressParameters, Parameters};
pub use request::{
    Address, Client, Context, Envelope, Message, Protocol, Queue, Request, Sasl, Server, Stage,
    Tls,
};
pub use response::{Action, Response, SmtpResponse};
pub use wire::Wire;

use vstd::prelude::*;

verus! {

/// Another name for [`Response`].
pub type MtaHookResponse = Response;

} // verus!
