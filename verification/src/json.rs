//! The JSON-embedded payloads two metadata calls hand back.
//!
//! The device-image call returns a JSON object whose `top_img` field holds
//! the image URL; the supported-devices call returns an arbitrary JSON
//! document passed through to the caller.  Parsing is done by an outside
//! JSON library behind trusted declarations; what a payload parses to is a
//! function of its text alone, so the parse outcome and the extracted field
//! carry uninterpreted names the contracts share.

use vstd::prelude::*;

use crate::error::Error;

verus! {

/// Whether a payload is well-formed JSON, as the outside parser judges it.
pub uninterp spec fn json_wf(payload: Seq<char>) -> bool;

/// The string value of the `top_img` field of a payload, if the payload is
/// a JSON object with such a field holding a string.
pub uninterp spec fn json_top_img(payload: Seq<char>) -> Option<Seq<char>>;

/// An outside JSON document, carried through opaquely.
#[verifier::external_type_specification]
#[verifier::external_body]
pub struct ExValue(serde_json::Value);

/// Relies on serde_json::from_str::<Value>: it succeeds exactly on
/// well-formed JSON text, deterministically in the text alone.
#[verifier::external_body]
fn parse_json_value(payload: &str) -> (r: Option<serde_json::Value>)
    ensures
        r is Some <==> json_wf(payload@),
{
    serde_json::from_str::<serde_json::Value>(payload).ok()
}

/// Relies on serde_json::from_str::<Value>, Value::get and Value::as_str:
/// the parse outcome and the `top_img` string field are functions of the
/// payload text alone; `get` returns the field of an object by key and
/// `as_str` the contained string, if the value is one.
#[verifier::external_body]
fn read_top_img(payload: &str) -> (r: Option<Option<String>>)
    ensures
        r is Some <==> json_wf(payload@),
        match r {
            Option::Some(Option::Some(s)) => json_top_img(payload@) == Option::Some(s@),
            Option::Some(Option::None) => json_top_img(payload@) is None,
            Option::None => true,
        },
{
    match serde_json::from_str::<serde_json::Value>(payload) {
        Result::Ok(v) => Option::Some(
            v.get("top_img").and_then(|item| item.as_str()).map(|s| s.to_string()),
        ),
        Result::Err(_) => Option::None,
    }
}

/// Extracts the device-image URL from the raw metadata payload: the
/// `top_img` field if it holds a string, the empty string if the field is
/// absent or not a string — never an error on a well-formed payload — and a
/// decode error exactly when the payload is not JSON at all.
pub fn extract_image_url(payload: &str) -> (r: Result<String, Error>)
    ensures
        r is Ok <==> json_wf(payload@),
        r matches Result::Err(e) ==> e == Error::Decode,
        r matches Result::Ok(s) ==> s@ == match json_top_img(payload@) {
            Option::Some(t) => t,
            Option::None => Seq::<char>::empty(),
        },
{
    match read_top_img(payload) {
        Option::None => Result::Err(Error::Decode),
        Option::Some(Option::None) => {
            let s = String::new();
            assert(s@ =~= Seq::<char>::empty());
            Result::Ok(s)
        },
        Option::Some(Option::Some(s)) => Result::Ok(s),
    }
}

/// Parses the supported-devices payload into a JSON document for the
/// caller, a decode error exactly when the payload is not JSON.
pub fn parse_supported_devices(payload: &str) -> (r: Result<serde_json::Value, Error>)
    ensures
        r is Ok <==> json_wf(payload@),
        r matches Result::Err(e) ==> e == Error::Decode,
{
    match parse_json_value(payload) {
        Option::Some(v) => Result::Ok(v),
        Option::None => Result::Err(Error::Decode),
    }
}

} // verus!
