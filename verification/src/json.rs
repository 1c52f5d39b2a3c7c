//! JSON bodies, read and written by `serde_json`.

use vstd::prelude::*;
use crate::text::text_of;

verus! {

/// The compact JSON text of the object whose members are `fields`, each a
/// name with a string value, as `serde_json` serializes it.
pub uninterp spec fn json_object_of(fields: Seq<(Seq<char>, Seq<char>)>) -> Seq<char>;

/// The string that the JSON document in `body` holds under `key`: `None`
/// where `body` is no JSON document, or holds no member `key`, or one that is
/// no string.
pub uninterp spec fn json_text_field(body: Seq<u8>, key: Seq<char>) -> Option<Seq<char>>;

/// The boolean that the JSON document in `body` holds under `key`: `None`
/// where `body` is no JSON document, or holds no member `key`, or one that is
/// no boolean.
pub uninterp spec fn json_flag_field(body: Seq<u8>, key: Seq<char>) -> Option<bool>;

/// What `serde_json` reports where `body` is no JSON document, as the error
/// displays it; `None` where `body` is one.
pub uninterp spec fn json_fault(body: Seq<u8>) -> Option<Seq<char>>;

/// The names and values of `fields` as sequences of characters.
pub open spec fn fields_view(fields: Seq<(String, String)>) -> Seq<(Seq<char>, Seq<char>)> {
    Seq::new(fields.len(), |i: int| (fields[i].0@, fields[i].1@))
}

/// Collects the fields into a `serde_json::Map` of `serde_json::Value::String`
/// values and serializes `serde_json::Value::Object` of it with `to_string`.
/// The contract only names the text that comes out: it depends on the names
/// and values handed in, in their order, and on nothing else.
#[verifier::external_body]
pub(crate) fn object_text(fields: &Vec<(String, String)>) -> (text: String)
    ensures
        text@ == json_object_of(fields_view(fields@)),
{
    let members: serde_json::Map<String, serde_json::Value> = fields
        .iter()
        .map(|field| (field.0.clone(), serde_json::Value::String(field.1.clone())))
        .collect();
    serde_json::Value::Object(members).to_string()
}

/// Parses `body` with `serde_json::from_slice` into a `serde_json::Value`,
/// looks `key` up with `Value::get` and takes the member with `Value::as_str`.
/// The contract only names what comes out: it depends on the bytes and the
/// key and on nothing else.
#[verifier::external_body]
pub(crate) fn text_field(body: &Vec<u8>, key: &str) -> (found: Option<String>)
    ensures
        match found {
            Some(text) => json_text_field(body@, key@) == Some(text@),
            None => json_text_field(body@, key@).is_none(),
        },
{
    let document: serde_json::Value = serde_json::from_slice(body.as_slice()).ok()?;
    document.get(key)?.as_str().map(|text| text.to_string())
}

/// Parses `body` with `serde_json::from_slice` into a `serde_json::Value`,
/// looks `key` up with `Value::get` and takes the member with `Value::as_bool`.
/// The contract only names what comes out: it depends on the bytes and the
/// key and on nothing else.
#[verifier::external_body]
pub(crate) fn flag_field(body: &Vec<u8>, key: &str) -> (found: Option<bool>)
    ensures
        found == json_flag_field(body@, key@),
{
    let document: serde_json::Value = serde_json::from_slice(body.as_slice()).ok()?;
    document.get(key)?.as_bool()
}

/// Parses `body` with `serde_json::from_slice` into a `serde_json::Value` and
/// renders the error, where there is one, with `to_string`, that is with
/// `<serde_json::Error as Display>::fmt`. The contract only names what comes
/// out: it depends on the bytes and on nothing else.
#[verifier::external_body]
pub(crate) fn parse_fault(body: &Vec<u8>) -> (fault: Option<String>)
    ensures
        text_of(fault) == json_fault(body@),
{
    serde_json::from_slice::<serde_json::Value>(body.as_slice()).err().map(|error| error.to_string())
}

} // verus!
