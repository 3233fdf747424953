//! Classification of the service's response bodies.
//!
//! The service signals failure with an HTTP 200 answer whose body holds an
//! `error` key, not with HTTP status codes.  A response body is therefore
//! always decoded as JSON first: a body that does not decode to an object is
//! malformed; an object with an `error` key is a service error, with its code
//! read from `errorCode` (zero when absent or not an unsigned number); any
//! other object is the success payload, returned unchanged.

use crate::json::{json_view, obj_view, spec_lookup, JsonSpec, JsonValue};
use crate::scan::{has_long_exponent, scan_long_exponent};
use rustc_serialize::json::Json;
use vstd::prelude::*;

verus! {

/// Error code: the token was not authorized.
pub const UNAUTHORIZED_TOKEN: u32 = 401;

/// Error code: the requested page was not found.
pub const REQUESTED_PAGE_NOT_FOUND: u32 = 404;

/// Error code: the token exceeded its allowed number of calls, or was
/// otherwise throttled.
pub const TOKEN_EXCEEDED_OR_THROTTLED: u32 = 429;

/// Error code: the service failed while processing the page.
pub const ERROR_PROCESSING: u32 = 500;

/// An error arising from one call.
#[derive(Clone, Debug, PartialEq, Eq)]
pub enum Error {
    /// The service understood the request and reports a failure, with its
    /// error code and message.
    Api(u32, String),
    /// The response body was not a JSON object.
    Json,
    /// The network failed; the message describes how.
    Io(String),
    /// The HTTP exchange itself failed; the message describes how.
    Http(String),
}

/// The mathematical view of an error.
pub enum ErrorSpec {
    /// A service failure, with its error code and message.
    Api(u32, Seq<char>),
    /// The response body was not a JSON object.
    Json,
    /// The network failed.
    Io(Seq<char>),
    /// The HTTP exchange failed.
    Http(Seq<char>),
}

impl View for Error {
    type V = ErrorSpec;

    open spec fn view(&self) -> ErrorSpec {
        match self {
            Error::Api(code, msg) => ErrorSpec::Api(*code, msg@),
            Error::Json => ErrorSpec::Json,
            Error::Io(msg) => ErrorSpec::Io(msg@),
            Error::Http(msg) => ErrorSpec::Http(msg@),
        }
    }
}

/// The outcome of one call: the success payload's pairs, or an error.
pub type DiffbotResult = Result<Vec<(String, JsonValue)>, Error>;

/// The mathematical view of an outcome.
pub open spec fn result_view(r: DiffbotResult) -> Result<
    Seq<(Seq<char>, JsonSpec)>,
    ErrorSpec,
> {
    match r {
        Ok(obj) => Ok(obj_view(obj@)),
        Err(e) => Err(e@),
    }
}

/// A document read as an unsigned number: the value of a non-negative
/// integer, and nothing else.
pub open spec fn spec_as_u64(v: JsonSpec) -> Option<u64> {
    match v {
        JsonSpec::UInt(n) => Some(n),
        JsonSpec::Int(n) => if n >= 0 {
            Some(n as u64)
        } else {
            None
        },
        _ => None,
    }
}

/// A document read as an error message: the characters of a string, and the
/// empty sequence for anything else.
pub open spec fn spec_error_message(v: JsonSpec) -> Seq<char> {
    match v {
        JsonSpec::Str(s) => s,
        _ => Seq::empty(),
    }
}

/// The error code of a failing response: `errorCode` read as an unsigned
/// number, kept to its lowest 32 bits, and zero when absent or not such a
/// number.
pub open spec fn spec_error_code(pairs: Seq<(Seq<char>, JsonSpec)>) -> u32 {
    match spec_lookup(pairs, "errorCode"@) {
        Some(cv) => match spec_as_u64(cv) {
            Some(n) => (n % 0x1_0000_0000) as u32,
            None => 0,
        },
        None => 0,
    }
}

/// The classification of a decoded response body: an object with an `error`
/// key is a service error, any other object is the success payload unchanged,
/// and anything else is malformed.
pub open spec fn spec_classify(doc: JsonSpec) -> Result<Seq<(Seq<char>, JsonSpec)>, ErrorSpec> {
    match doc {
        JsonSpec::Obj(pairs) => match spec_lookup(pairs, "error"@) {
            Some(e) => Err(ErrorSpec::Api(spec_error_code(pairs), spec_error_message(e))),
            None => Ok(pairs),
        },
        _ => Err(ErrorSpec::Json),
    }
}

fn as_u64(v: &JsonValue) -> (r: Option<u64>)
    ensures
        r == spec_as_u64(json_view(*v)),
{
    match v {
        JsonValue::UInt(n) => Some(*n),
        JsonValue::Int(n) => if *n >= 0 {
            Some(*n as u64)
        } else {
            None
        },
        _ => None,
    }
}

fn error_message(v: &JsonValue) -> (r: String)
    ensures
        r@ == spec_error_message(json_view(*v)),
{
    match v {
        JsonValue::Str(s) => s.clone(),
        _ => String::new(),
    }
}

/// Classifies a decoded response body.
pub fn classify(doc: JsonValue) -> (r: DiffbotResult)
    ensures
        result_view(r) == spec_classify(json_view(doc)),
{
    match doc {
        JsonValue::Obj(pairs) => {
            let failure: Option<Error> = match crate::json::lookup(&pairs, "error") {
                Some(e) => {
                    let msg = error_message(e);
                    let code: u32 = match crate::json::lookup(&pairs, "errorCode") {
                        Some(cv) => match as_u64(cv) {
                            Some(n) => (n % 0x1_0000_0000) as u32,
                            None => 0,
                        },
                        None => 0,
                    };
                    Some(Error::Api(code, msg))
                },
                None => None,
            };
            match failure {
                Some(err) => Err(err),
                None => Ok(pairs),
            }
        },
        _ => Err(Error::Json),
    }
}

#[verifier::external_type_specification]
#[verifier::external_body]
pub struct ExJson(Json);

/// The document that the response bytes decode to, if they decode at all.
/// What `json_parse` yields on given bytes is known only to the decoder; the
/// library's contracts go through this name.
pub uninterp spec fn json_parse(bytes: Seq<u8>) -> Option<JsonSpec>;

/// Relies on rustc_serialize's `json::Json::from_reader`: whether the bytes
/// decode, and to what document, depends on the bytes alone.  The decoder
/// accumulates a number's exponent digits with unchecked arithmetic, so bytes
/// holding an over-long exponent are excluded here and refused by the caller
/// beforehand.  The decoder and `convert_json` recurse on nesting depth, so a
/// body nested absurdly deep can still exhaust the stack.
#[verifier::external_body]
fn parse_json(bytes: &[u8]) -> (r: Option<JsonValue>)
    requires
        !has_long_exponent(bytes@),
    ensures
        (match r {
            Some(doc) => json_parse(bytes@) == Some(json_view(doc)),
            None => json_parse(bytes@) is None,
        }),
{
    let mut rdr: &[u8] = bytes;
    match Json::from_reader(&mut rdr) {
        Ok(j) => Some(convert_json(j)),
        Err(_) => None,
    }
}

/// Relies on rustc_serialize's `json::Json`: carries each of its variants
/// over to the library's own document type, one for one; a non-integral
/// number is kept as its decimal rendering.  This is the recursive half of
/// `parse_json`, which alone calls it.
#[verifier::external_body]
fn convert_json(j: Json) -> JsonValue {
    match j {
        Json::Null => JsonValue::Null,
        Json::Boolean(b) => JsonValue::Bool(b),
        Json::U64(n) => JsonValue::UInt(n),
        Json::I64(n) => JsonValue::Int(n),
        Json::F64(x) => JsonValue::Float(format!("{}", x)),
        Json::String(s) => JsonValue::Str(s),
        Json::Array(items) => JsonValue::Arr(items.into_iter().map(convert_json).collect()),
        Json::Object(pairs) => JsonValue::Obj(
            pairs.into_iter().map(|(k, v)| (k, convert_json(v))).collect(),
        ),
    }
}

/// The outcome of a call whose response body was the given bytes.  A body
/// holding an exponent too long for the decoder's arithmetic is malformed; so
/// is one that does not decode, or decodes to anything but an object.
pub open spec fn spec_interpret(bytes: Seq<u8>) -> Result<Seq<(Seq<char>, JsonSpec)>, ErrorSpec> {
    if has_long_exponent(bytes) {
        Err(ErrorSpec::Json)
    } else {
        match json_parse(bytes) {
            Some(doc) => spec_classify(doc),
            None => Err(ErrorSpec::Json),
        }
    }
}

/// Decodes a raw response body and classifies it.  A body whose numeric
/// exponent runs to ten or more digits is classified malformed without being
/// handed to the decoder, whose exponent arithmetic cannot digest it.
pub fn interpret_response(bytes: &[u8]) -> (r: DiffbotResult)
    ensures
        result_view(r) == spec_interpret(bytes@),
{
    if scan_long_exponent(bytes) {
        Err(Error::Json)
    } else {
        match parse_json(bytes) {
            Some(doc) => classify(doc),
            None => Err(Error::Json),
        }
    }
}

} // verus!
