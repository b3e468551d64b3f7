//! Why a document was not decoded.
use vstd::prelude::*;

verus! {

/// The shape that a position of a document calls for.
#[derive(Clone, Copy, Debug, PartialEq, Eq, Structural)]
pub enum Shape {
    /// A JSON object.
    Object,
    /// A JSON array.
    Array,
    /// A JSON array of two strings.
    Pair,
    /// A JSON string.
    Text,
    /// A JSON boolean.
    Boolean,
    /// An integer from 0 to 65535.
    Unsigned16,
    /// An integer from 0 to 4294967295.
    Unsigned32,
    /// An integer from 0 that fits the machine's word.
    Size,
    /// A string, a number or a boolean.
    Scalar,
}

/// A set of tokens of which a document must name one.
#[derive(Clone, Copy, Debug, PartialEq, Eq, Structural)]
pub enum Family {
    /// The kinds of modification.
    Modification,
    /// The stages of an SMTP transaction.
    Stage,
    /// The verdicts of a response.
    Action,
}

/// Why a document was not decoded.
#[derive(Clone, Debug, PartialEq, Eq)]
pub enum DecodeError {
    /// The text is not JSON.
    Malformed,
    /// A value of the wrong JSON type, or an integer out of range, stands at
    /// `at`: the name of a field, or of a record where the record itself is
    /// concerned.
    SchemaViolation { at: &'static str, expected: Shape },
    /// `found` is none of the tokens of `family`.
    UnknownVariant { found: String, family: Family },
    /// The record or variant `owner` lacks its field `field`.
    MissingField { field: &'static str, owner: &'static str },
}

/// The model of a [`DecodeError`].
pub enum DecodeErrorView {
    Malformed,
    SchemaViolation { at: Seq<char>, expected: Shape },
    UnknownVariant { found: Seq<char>, family: Family },
    MissingField { field: Seq<char>, owner: Seq<char> },
}

impl View for DecodeError {
    type V = DecodeErrorView;

    open spec fn view(&self) -> DecodeErrorView {
        match self {
            DecodeError::Malformed => DecodeErrorView::Malformed,
            DecodeError::SchemaViolation { at, expected } => DecodeErrorView::SchemaViolation {
                at: at@,
                expected: *expected,
            },
            DecodeError::UnknownVariant { found, family } => DecodeErrorView::UnknownVariant {
                found: found@,
                family: *family,
            },
            DecodeError::MissingField { field, owner } => DecodeErrorView::MissingField {
                field: field@,
                owner: owner@,
            },
        }
    }
}

/// The model of what a decoder hands back.
pub open spec fn outcome<T: View>(r: Result<T, DecodeError>) -> Result<T::V, DecodeErrorView> {
    match r {
        Ok(value) => Ok(value@),
        Err(e) => Err(e@),
    }
}

/// The tokens of a family, in the order in which an error names them.
pub open spec fn tokens(family: Family) -> Seq<Seq<char>> {
    match family {
        Family::Modification => seq![
            "changeFrom"@,
            "addRecipient"@,
            "deleteRecipient"@,
            "replaceContents"@,
            "addHeader"@,
            "insertHeader"@,
            "changeHeader"@,
            "deleteHeader"@,
        ],
        Family::Stage => seq!["CONNECT"@, "EHLO"@, "AUTH"@, "MAIL"@, "RCPT"@, "DATA"@],
        Family::Action => seq!["accept"@, "discard"@, "reject"@, "quarantine"@],
    }
}

impl Family {
    /// The tokens of this family.
    pub fn names(&self) -> (r: Vec<&'static str>)
        ensures
            r@.len() == tokens(*self).len(),
            forall|i: int| 0 <= i < r@.len() ==> r@[i]@ == tokens(*self)[i],
    {
        let mut r: Vec<&'static str> = Vec::new();
        match self {
            Family::Modification => {
                r.push("changeFrom");
                r.push("addRecipient");
                r.push("deleteRecipient");
                r.push("replaceContents");
                r.push("addHeader");
                r.push("insertHeader");
                r.push("changeHeader");
                r.push("deleteHeader");
            },
            Family::Stage => {
                r.push("CONNECT");
                r.push("EHLO");
                r.push("AUTH");
                r.push("MAIL");
                r.push("RCPT");
                r.push("DATA");
            },
            Family::Action => {
                r.push("accept");
                r.push("discard");
                r.push("reject");
                r.push("quarantine");
            },
        }
        r
    }
}

/// The words that describe a shape.
pub open spec fn shape_words(shape: Shape) -> Seq<char> {
    match shape {
        Shape::Object => "an object"@,
        Shape::Array => "an array"@,
        Shape::Pair => "an array of two strings"@,
        Shape::Text => "a string"@,
        Shape::Boolean => "a boolean"@,
        Shape::Unsigned16 => "an integer from 0 to 65535"@,
        Shape::Unsigned32 => "an integer from 0 to 4294967295"@,
        Shape::Size => "an integer from 0 that fits the word of the machine"@,
        Shape::Scalar => "a string, a number or a boolean"@,
    }
}

/// A name between backticks.
pub open spec fn ticked(name: Seq<char>) -> Seq<char> {
    "`"@ + name + "`"@
}

/// Names between backticks, with a comma and a blank between two of them.
pub open spec fn ticked_list(names: Seq<Seq<char>>) -> Seq<char>
    decreases names.len(),
{
    if names.len() == 0 {
        Seq::empty()
    } else if names.len() == 1 {
        ticked(names[0])
    } else {
        ticked_list(names.drop_last()) + ", "@ + ticked(names.last())
    }
}

/// The sentence that tells of an error.
pub open spec fn message_text(e: DecodeErrorView) -> Seq<char> {
    match e {
        DecodeErrorView::Malformed => "the text is not JSON"@,
        DecodeErrorView::SchemaViolation { at, expected } => "invalid value at "@ + ticked(at)
            + ", expected "@ + shape_words(expected),
        DecodeErrorView::UnknownVariant { found, family } => "unknown variant "@ + ticked(found)
            + ", expected one of "@ + ticked_list(tokens(family)),
        DecodeErrorView::MissingField { field, owner } => "missing field "@ + ticked(field)
            + " of "@ + ticked(owner),
    }
}

impl Shape {
    /// The words that describe this shape.
    pub fn words(&self) -> (r: &'static str)
        ensures
            r@ == shape_words(*self),
    {
        match self {
            Shape::Object => "an object",
            Shape::Array => "an array",
            Shape::Pair => "an array of two strings",
            Shape::Text => "a string",
            Shape::Boolean => "a boolean",
            Shape::Unsigned16 => "an integer from 0 to 65535",
            Shape::Unsigned32 => "an integer from 0 to 4294967295",
            Shape::Size => "an integer from 0 that fits the word of the machine",
            Shape::Scalar => "a string, a number or a boolean",
        }
    }
}

fn append_ticked(text: &mut String, name: &str)
    ensures
        final(text)@ == old(text)@ + ticked(name@),
{
    text.append("`");
    text.append(name);
    text.append("`");
}

impl Family {
    /// The tokens of this family between backticks, as an error lists them.
    pub fn listed(&self) -> (r: String)
        ensures
            r@ == ticked_list(tokens(*self)),
    {
        let names = self.names();
        let ghost all = tokens(*self);
        let mut text = String::new();
        let mut i: usize = 0;
        while i < names.len()
            invariant
                i <= names@.len(),
                names@.len() == all.len(),
                forall|k: int| 0 <= k < names@.len() ==> names@[k]@ == all[k],
                text@ == ticked_list(all.take(i as int)),
            decreases names@.len() - i,
        {
            proof {
                assert(all.take(i + 1).drop_last() =~= all.take(i as int));
            }
            if i > 0 {
                text.append(", ");
            }
            append_ticked(&mut text, names[i]);
            i += 1;
        }
        assert(all.take(i as int) =~= all);
        text
    }
}

impl DecodeError {
    /// The sentence that tells of this error.
    pub fn message(&self) -> (r: String)
        ensures
            r@ == message_text(self@),
    {
        match self {
            DecodeError::Malformed => "the text is not JSON".to_owned(),
            DecodeError::SchemaViolation { at, expected } => {
                let mut text = "invalid value at ".to_owned();
                append_ticked(&mut text, at);
                text.append(", expected ");
                text.append(expected.words());
                text
            },
            DecodeError::UnknownVariant { found, family } => {
                let mut text = "unknown variant ".to_owned();
                append_ticked(&mut text, found.as_str());
                text.append(", expected one of ");
                let listed = family.listed();
                text.append(listed.as_str());
                text
            },
            DecodeError::MissingField { field, owner } => {
                let mut text = "missing field ".to_owned();
                append_ticked(&mut text, field);
                text.append(" of ");
                append_ticked(&mut text, owner);
                text
            },
        }
    }
}

} // verus!
