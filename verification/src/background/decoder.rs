//! Turning a raw queue delivery into an event, or rejecting it.
//!
//! A delivery is accepted only if it declares the content type
//! `application/json` exactly, its body is well-formed UTF-8, and that text
//! is a JSON document. Every failure ends in a rejection; nothing escapes.

use crate::text::str_equal;
use crate::trusted::json::{parse_json, parsed_json};
use vstd::prelude::*;
use vstd::string::*;
use vstd::utf8::*;

verus! {

/// The only content type a delivery may declare.
pub const JSON_CONTENT_TYPE: &'static str = "application/json";

/// Why a delivery was turned away.
#[derive(Debug, Clone, Copy, PartialEq, Eq, Structural)]
pub enum Rejection {
    /// The declared content type is not `application/json`, or none was declared.
    ContentType,
    /// The body is not well-formed UTF-8.
    Encoding,
    /// The body is text, but not a JSON document.
    Syntax,
}

/// How loudly a rejection is reported.
#[derive(Debug, Clone, Copy, PartialEq, Eq, Structural)]
pub enum Severity {
    Info,
    Error,
}

impl Rejection {
    /// How loudly this rejection is reported.
    pub open spec fn spec_severity(self) -> Severity {
        match self {
            Rejection::ContentType => Severity::Info,
            Rejection::Encoding => Severity::Error,
            Rejection::Syntax => Severity::Error,
        }
    }

    /// A foreign content type is routine; a body that cannot be read is a
    /// loss and is reported as an error.
    #[verifier::when_used_as_spec(spec_severity)]
    pub fn severity(self) -> (level: Severity)
        ensures
            level == self.spec_severity(),
    {
        match self {
            Rejection::ContentType => Severity::Info,
            Rejection::Encoding => Severity::Error,
            Rejection::Syntax => Severity::Error,
        }
    }
}

/// One post as it was decoded from a delivery: a JSON document, never
/// changed after it was made.
#[derive(Debug)]
pub struct DecodedEvent {
    value: serde_json::Value,
}

impl View for DecodedEvent {
    type V = serde_json::Value;

    closed spec fn view(&self) -> serde_json::Value {
        self.value
    }
}

impl DecodedEvent {
    /// The document itself.
    pub fn value(&self) -> (value: &serde_json::Value)
        ensures
            *value == self@,
    {
        &self.value
    }

    /// Gives the document up.
    pub fn into_value(self) -> (value: serde_json::Value)
        ensures
            value == self@,
    {
        self.value
    }
}

/// One message as it came off the queue: the handle it is acknowledged by,
/// the content type it declares, if any, and its payload.
#[derive(Debug, Clone)]
pub struct RawDelivery {
    pub delivery_tag: u64,
    pub content_type: Option<String>,
    pub body: Vec<u8>,
}

/// A delivery as a value. A delivery that declares no content type counts
/// as declaring the empty one.
pub struct RawModel {
    pub delivery_tag: u64,
    pub content_type: Seq<char>,
    pub body: Seq<u8>,
}

impl View for RawDelivery {
    type V = RawModel;

    open spec fn view(&self) -> RawModel {
        RawModel {
            delivery_tag: self.delivery_tag,
            content_type: match self.content_type {
                Some(declared) => declared@,
                None => Seq::empty(),
            },
            body: self.body@,
        }
    }
}

/// What decoding makes of a declared content type and a body.
pub open spec fn decoded(content_type: Seq<char>, body: Seq<u8>) -> Result<
    serde_json::Value,
    Rejection,
> {
    if content_type != JSON_CONTENT_TYPE@ {
        Err(Rejection::ContentType)
    } else if !valid_utf8(body) {
        Err(Rejection::Encoding)
    } else {
        match parsed_json(decode_utf8(body)) {
            Some(value) => Ok(value),
            None => Err(Rejection::Syntax),
        }
    }
}

/// Whether `outcome` is what [`decoded`] prescribes for the delivery.
pub open spec fn is_decoding_of(
    outcome: Result<DecodedEvent, Rejection>,
    content_type: Seq<char>,
    body: Seq<u8>,
) -> bool {
    match outcome {
        Ok(event) => decoded(content_type, body) == Ok::<serde_json::Value, Rejection>(event@),
        Err(rejection) => decoded(content_type, body) == Err::<serde_json::Value, Rejection>(
            rejection,
        ),
    }
}

/// Wraps what the parser answered: a parsed document becomes an event, a
/// refusal becomes a syntax rejection.
pub fn accept_parsed(parsed: Result<serde_json::Value, serde_json::Error>) -> (outcome: Result<
    DecodedEvent,
    Rejection,
>)
    ensures
        parsed matches Ok(value) ==> outcome matches Ok(event) && event@ == value,
        parsed is Err ==> outcome == Err::<DecodedEvent, Rejection>(Rejection::Syntax),
{
    match parsed {
        Ok(value) => Ok(DecodedEvent { value }),
        Err(_) => Err(Rejection::Syntax),
    }
}

/// Decodes a delivery, or says why it is rejected.
pub fn classify(content_type: &str, body: &[u8]) -> (outcome: Result<DecodedEvent, Rejection>)
    ensures
        is_decoding_of(outcome, content_type@, body@),
{
    if !str_equal(content_type, JSON_CONTENT_TYPE) {
        return Err(Rejection::ContentType);
    }
    match core::str::from_utf8(body) {
        Err(_) => Err(Rejection::Encoding),
        Ok(text) => {
            proof {
                encode_utf8_decode_utf8(text@);
            }
            accept_parsed(parse_json(text))
        },
    }
}

/// Decodes a delivery; every rejection degrades to `None`.
pub fn decode(content_type: &str, body: &[u8]) -> (event: Option<DecodedEvent>)
    ensures
        event matches Some(e) ==> decoded(content_type@, body@) == Ok::<
            serde_json::Value,
            Rejection,
        >(e@),
        event is None ==> decoded(content_type@, body@) is Err,
{
    match classify(content_type, body) {
        Ok(event) => Some(event),
        Err(_) => None,
    }
}

impl RawDelivery {
    /// The content type the delivery declares, empty if it declares none.
    pub fn declared_content_type(&self) -> (declared: &str)
        ensures
            declared@ == self@.content_type,
    {
        match &self.content_type {
            Some(declared) => declared.as_str(),
            None => {
                proof {
                    reveal_strlit("");
                }
                assert(""@ =~= Seq::<char>::empty());
                ""
            },
        }
    }

    /// Decodes the delivery, or says why it is rejected.
    pub fn decode(&self) -> (outcome: Result<DecodedEvent, Rejection>)
        ensures
            is_decoding_of(outcome, self@.content_type, self@.body),
    {
        classify(self.declared_content_type(), self.body.as_slice())
    }
}

/// A delivery that declares another content type than `application/json`,
/// or none, is rejected for its content type, whatever its body holds.
pub proof fn law_foreign_content_type_is_rejected(content_type: Seq<char>, body: Seq<u8>)
    requires
        content_type != JSON_CONTENT_TYPE@,
    ensures
        decoded(content_type, body) == Err::<serde_json::Value, Rejection>(Rejection::ContentType),
        decoded(Seq::empty(), body) == Err::<serde_json::Value, Rejection>(Rejection::ContentType),
{
    reveal_strlit("application/json");
    assert(JSON_CONTENT_TYPE@.len() == 16);
}

/// A delivery with the right content type yields an event exactly if its
/// body is well-formed UTF-8 and that text is a JSON document. A body that
/// is not text is rejected for its encoding, text that is no document for
/// its syntax.
pub proof fn law_malformed_body_is_rejected(body: Seq<u8>)
    ensures
        decoded(JSON_CONTENT_TYPE@, body) is Ok <==> valid_utf8(body) && parsed_json(
            decode_utf8(body),
        ) is Some,
        !valid_utf8(body) ==> decoded(JSON_CONTENT_TYPE@, body) == Err::<
            serde_json::Value,
            Rejection,
        >(Rejection::Encoding),
        valid_utf8(body) && parsed_json(decode_utf8(body)) is None ==> decoded(
            JSON_CONTENT_TYPE@,
            body,
        ) == Err::<serde_json::Value, Rejection>(Rejection::Syntax),
{
}

} // verus!
