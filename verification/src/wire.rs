//! Events on the wire: the members that this library writes into the JSON object of an
//! event, which are its metadata and its payload.

use vstd::prelude::*;
use crate::event::{EventData, TelemetryEvent};

verus! {

/// `serde_json::Map`, the JSON object that holds an event's metadata on the wire.
#[verifier::external_type_specification]
#[verifier::external_body]
#[verifier::reject_recursive_types(K)]
#[verifier::reject_recursive_types(V)]
pub struct ExJsonMap<K, V>(serde_json::Map<K, V>);

/// `serde_json::Value`, one JSON value.
#[verifier::external_type_specification]
#[verifier::external_body]
pub struct ExJsonValue(serde_json::Value);

/// What one member of a JSON object holds, as far as this library writes members.
pub ghost enum JsonMember {
    /// A string.
    Text(Seq<char>),
    /// A number without sign or fraction.
    Number(nat),
    /// An array of numbers, one per byte.
    Bytes(Seq<u8>),
}

/// The members of a JSON object, by key: a string as `Text`, a whole number from 0 up as
/// `Number`, an array of one such number per byte as `Bytes`. What it says of a member of
/// another kind is left open.
pub uninterp spec fn json_members(object: serde_json::Map<String, serde_json::Value>) -> Map<
    Seq<char>,
    JsonMember,
>;

/// The members of an object that has none.
pub open spec fn no_members() -> Map<Seq<char>, JsonMember> {
    Map::empty()
}

/// Calls `serde_json::Map::new`: an object without members.
#[verifier::external_body]
fn json_object_new() -> (object: serde_json::Map<String, serde_json::Value>)
    ensures
        json_members(object) == no_members(),
{
    serde_json::Map::new()
}

/// Calls `serde_json::Map::insert` with a `Value::String`: the key then holds that text,
/// whatever it held before, and no other member changes.
#[verifier::external_body]
fn json_object_insert_text(
    object: &mut serde_json::Map<String, serde_json::Value>,
    key: &str,
    text: &str,
)
    ensures
        json_members(*final(object)) == json_members(*old(object)).insert(
            key@,
            JsonMember::Text(text@),
        ),
{
    object.insert(key.to_string(), serde_json::Value::String(text.to_string()));
}

/// Calls `serde_json::Map::insert` with a `Value::Number` made from an unsigned integer: the
/// key then holds that number, whatever it held before, and no other member changes.
#[verifier::external_body]
fn json_object_insert_number(
    object: &mut serde_json::Map<String, serde_json::Value>,
    key: &str,
    number: u64,
)
    ensures
        json_members(*final(object)) == json_members(*old(object)).insert(
            key@,
            JsonMember::Number(number as nat),
        ),
{
    object.insert(key.to_string(), serde_json::Value::Number(number.into()));
}

/// Calls `serde_json::Map::insert` with the `Value` that `Value::from` makes of a vector of
/// bytes, an array of one number per byte: the key then holds that array, whatever it held
/// before, and no other member changes.
#[verifier::external_body]
fn json_object_insert_bytes(
    object: &mut serde_json::Map<String, serde_json::Value>,
    key: &str,
    bytes: &Vec<u8>,
)
    ensures
        json_members(*final(object)) == json_members(*old(object)).insert(
            key@,
            JsonMember::Bytes(bytes@),
        ),
{
    object.insert(key.to_string(), serde_json::Value::from(bytes.clone()));
}

/// The members that an event's metadata has on the wire: `format` and `display`.
pub open spec fn metadata_members(format: Seq<char>, display: nat) -> Map<Seq<char>, JsonMember> {
    no_members().insert("format"@, JsonMember::Text(format)).insert(
        "display"@,
        JsonMember::Number(display),
    )
}

/// Both members are there, and nothing else.
pub proof fn lemma_metadata_members(format: Seq<char>, display: nat)
    ensures
        metadata_members(format, display).dom() =~= set!["format"@, "display"@],
        metadata_members(format, display)["format"@] == JsonMember::Text(format),
        metadata_members(format, display)["display"@] == JsonMember::Number(display),
{
    reveal_strlit("format");
    reveal_strlit("display");
    assert("format"@.len() != "display"@.len());
}

impl EventData {
    /// The metadata as a JSON object with the members `format`, a string, and `display`, a
    /// number.
    pub fn to_json_map(&self) -> (object: serde_json::Map<String, serde_json::Value>)
        ensures
            json_members(object) == metadata_members(self.format@, self.display as nat),
    {
        let mut object = json_object_new();
        json_object_insert_text(&mut object, "format", self.format.as_str());
        json_object_insert_number(&mut object, "display", self.display);
        object
    }
}

/// The members of an event's object once its payload is attached: `blob_data` holds the
/// payload where there is one, and nothing changes where there is none.
pub open spec fn with_payload(
    members: Map<Seq<char>, JsonMember>,
    blob_data: Option<Seq<u8>>,
) -> Map<Seq<char>, JsonMember> {
    match blob_data {
        Some(blob) => members.insert("blob_data"@, JsonMember::Bytes(blob)),
        None => members,
    }
}

impl TelemetryEvent {
    /// Attaches the payload to the event's JSON object, as the member `blob_data`.
    pub fn attach_payload(&self, object: &mut serde_json::Map<String, serde_json::Value>)
        ensures
            json_members(*final(object)) == with_payload(
                json_members(*old(object)),
                self@.blob_data,
            ),
    {
        match &self.blob_data {
            Some(blob) => json_object_insert_bytes(object, "blob_data", blob),
            None => {},
        }
    }
}

} // verus!
