//! Response bodies of the harvesting API and their parsing.
//!
//! A harvest body must be a JSON object with an `items` array; the items
//! themselves are change records that the client hands through without
//! interpreting them. The version body is opaque metadata: any JSON document
//! is accepted and passed through.
use vstd::prelude::*;
use vstd::slice::slice_subrange;

use crate::error::ClientError;

verus! {

#[verifier::external_type_specification]
#[verifier::external_body]
pub struct ExValue(serde_json::Value);

/// The number of elements of the array stored under `key` when `body`
/// parses as a JSON object carrying an array there, and `None` when it does
/// not; a function of the bytes and the key alone.
pub uninterp spec fn json_array_field_len(body: Seq<u8>, key: Seq<char>) -> Option<int>;

/// The number of change records when `body` parses as the harvest schema: a
/// JSON object carrying an `items` array.
pub open spec fn harvest_items_len(body: Seq<u8>) -> Option<int> {
    json_array_field_len(body, "items"@)
}

/// Whether `body` is a JSON document that serde_json accepts; a function of
/// the bytes alone.
pub uninterp spec fn json_parses(body: Seq<u8>) -> bool;

/// What `String::from_utf8_lossy` returns for the given bytes; a function of
/// the bytes alone.
pub uninterp spec fn utf8_lossy(bytes: Seq<u8>) -> Seq<char>;

/// Relies on serde_json::from_slice and serde_json::Map::remove: parses
/// `body` as a JSON object and takes the array under `key` — exactly the
/// bodies a field-wise deserializer of an object-with-one-array schema
/// accepts, and the array it hands back is what `json_array_field_len`
/// counts.
#[verifier::external_body]
pub(crate) fn parse_array_field(body: &Vec<u8>, key: &str) -> (r: Option<Vec<serde_json::Value>>)
    ensures
        r is Some <==> json_array_field_len(body@, key@) is Some,
        r matches Some(items) ==> items@.len() == json_array_field_len(body@, key@).unwrap(),
{
    match serde_json::from_slice::<serde_json::Value>(body) {
        Ok(serde_json::Value::Object(mut doc)) => match doc.remove(key) {
            Some(serde_json::Value::Array(items)) => Some(items),
            _ => None,
        },
        _ => None,
    }
}

/// Relies on serde_json::from_slice: whether the bytes are a valid JSON
/// document depends on the bytes alone.
#[verifier::external_body]
pub(crate) fn parse_json_value(body: &Vec<u8>) -> (r: Option<serde_json::Value>)
    ensures
        r is Some <==> json_parses(body@),
{
    serde_json::from_slice::<serde_json::Value>(body).ok()
}

/// Relies on String::from_utf8_lossy: decodes the bytes as UTF-8, replacing
/// invalid sequences; a deterministic function of the bytes.
#[verifier::external_body]
pub(crate) fn bytes_to_string_lossy(b: &[u8]) -> (r: String)
    ensures
        r@ == utf8_lossy(b@),
{
    String::from_utf8_lossy(b).into_owned()
}

/// The diagnostic view of a raw response body: the whole body decoded
/// leniently when it is short, only its first 256 bytes otherwise.
pub open spec fn spec_excerpt(body: Seq<u8>) -> Seq<char> {
    if body.len() <= 256 {
        utf8_lossy(body)
    } else {
        utf8_lossy(body.subrange(0, 256))
    }
}

/// Renders the bounded diagnostic view of a raw response body that a
/// deserialization error carries.
pub fn body_excerpt(body: &Vec<u8>) -> (r: String)
    ensures
        r@ == spec_excerpt(body@),
{
    if body.len() <= 256 {
        bytes_to_string_lossy(body.as_slice())
    } else {
        bytes_to_string_lossy(slice_subrange(body.as_slice(), 0, 256))
    }
}

/// A batch of change records: the `items` array of a harvest body. The
/// client counts the items but never interprets their contents.
#[derive(Debug)]
pub struct HarvestResponse {
    pub items: Vec<serde_json::Value>,
}

impl HarvestResponse {
    /// Whether this batch moved the caller forward. A non-empty batch is
    /// worth a louder log line; an empty one is an idle poll and is kept
    /// quiet.
    pub fn made_progress(&self) -> (r: bool)
        ensures
            r == (self.items@.len() > 0),
    {
        self.items.len() > 0
    }
}

/// Opaque protocol metadata from the version endpoint, passed through to the
/// caller without interpretation.
#[derive(Debug)]
pub struct VersionResponse {
    pub metadata: serde_json::Value,
}

/// Turns the parse result of a 200 harvest body into the call's outcome:
/// the parsed items, when the body matched the schema, are handed through
/// unchanged and in their order, together with the body's byte length; a
/// body that did not parse is a deserialization failure carrying the URI
/// and the body's diagnostic excerpt.
pub fn assemble_harvest(items: Option<Vec<serde_json::Value>>, body: &Vec<u8>, uri: &String) -> (r:
    Result<(HarvestResponse, usize), ClientError>)
    ensures
        r is Ok <==> items is Some,
        r matches Ok(out) ==> (items matches Some(v) && out.0.items == v && out.1 == body@.len()),
        r matches Err(e) ==> (e matches ClientError::Deserialization { uri: u, excerpt: ex }
            && u@ == uri@ && ex@ == spec_excerpt(body@)),
{
    match items {
        Some(v) => {
            let n = body.len();
            Ok((HarvestResponse { items: v }, n))
        },
        None => Err(
            ClientError::Deserialization { uri: uri.clone(), excerpt: body_excerpt(body) },
        ),
    }
}

/// Turns the parse result of a 200 version body into the call's outcome:
/// the parsed document is passed through uninterpreted and unchanged,
/// together with the body's byte length; a body that is no JSON document is
/// a deserialization failure carrying the URI and the body's diagnostic
/// excerpt.
pub fn assemble_version(metadata: Option<serde_json::Value>, body: &Vec<u8>, uri: &String) -> (r:
    Result<(VersionResponse, usize), ClientError>)
    ensures
        r is Ok <==> metadata is Some,
        r matches Ok(out) ==> (metadata matches Some(v) && out.0.metadata == v && out.1
            == body@.len()),
        r matches Err(e) ==> (e matches ClientError::Deserialization { uri: u, excerpt: ex }
            && u@ == uri@ && ex@ == spec_excerpt(body@)),
{
    match metadata {
        Some(v) => {
            let n = body.len();
            Ok((VersionResponse { metadata: v }, n))
        },
        None => Err(
            ClientError::Deserialization { uri: uri.clone(), excerpt: body_excerpt(body) },
        ),
    }
}

} // verus!
