//! JSON values as `serde_json` holds them, and what is read from them.

use vstd::prelude::*;

use crate::text;

verus! {

/// A JSON value. It stays `serde_json`'s own; what it holds is `json_content`.
#[verifier::external_type_specification]
#[verifier::external_body]
pub struct ExJsonValue(serde_json::Value);

/// The members of a JSON object. It stays `serde_json`'s own; what it holds is
/// `json_members`.
#[verifier::external_type_specification]
#[verifier::external_body]
#[verifier::reject_recursive_types(K)]
#[verifier::reject_recursive_types(V)]
pub struct ExJsonMap<K, V>(serde_json::Map<K, V>);

/// The error of a JSON parse.
#[verifier::external_type_specification]
#[verifier::external_body]
pub struct ExJsonError(serde_json::Error);

/// What a JSON value holds.
pub ghost enum JsonContent {
    Null,
    Bool(bool),
    /// A number, with its value where it is an integer that fits in 64 bits
    /// without a sign.
    Number(Option<u64>),
    Text(Seq<char>),
    Array(Seq<JsonContent>),
    Object(Map<Seq<char>, JsonContent>),
}

impl JsonContent {
    /// The member `key`, where the value is an object that has it.
    pub open spec fn member(self, key: Seq<char>) -> Option<JsonContent> {
        match self {
            JsonContent::Object(members) => lookup(members, key),
            _ => None,
        }
    }

    /// The text, where the value is one.
    pub open spec fn text(self) -> Option<Seq<char>> {
        match self {
            JsonContent::Text(s) => Some(s),
            _ => None,
        }
    }

    /// The number, where the value is an unsigned 64-bit integer.
    pub open spec fn unsigned(self) -> Option<u64> {
        match self {
            JsonContent::Number(n) => n,
            _ => None,
        }
    }
}

/// The value of `key`, where the members have it.
pub open spec fn lookup(members: Map<Seq<char>, JsonContent>, key: Seq<char>) -> Option<
    JsonContent,
> {
    if members.contains_key(key) {
        Some(members[key])
    } else {
        None
    }
}

/// The text member `key` of an optional value.
pub open spec fn text_member(value: Option<JsonContent>, key: Seq<char>) -> Option<Seq<char>> {
    match value {
        Some(v) => match v.member(key) {
            Some(m) => m.text(),
            None => None,
        },
        None => None,
    }
}

/// The unsigned member `key` of an optional value.
pub open spec fn unsigned_member(value: Option<JsonContent>, key: Seq<char>) -> Option<u64> {
    match value {
        Some(v) => match v.member(key) {
            Some(m) => m.unsigned(),
            None => None,
        },
        None => None,
    }
}

/// What a `serde_json::Value` holds.
pub uninterp spec fn json_content(value: serde_json::Value) -> JsonContent;

/// What a `serde_json::Map` holds.
pub uninterp spec fn json_members(map: serde_json::Map<String, serde_json::Value>) -> Map<
    Seq<char>,
    JsonContent,
>;

/// The JSON value that `serde_json::from_slice` reads from a document, if it is one.
pub uninterp spec fn json_document(bytes: Seq<u8>) -> Option<JsonContent>;

/// What an optional value holds.
pub open spec fn content_of(value: Option<serde_json::Value>) -> Option<JsonContent> {
    match value {
        Some(v) => Some(json_content(v)),
        None => None,
    }
}

/// What an optional borrowed value holds.
pub open spec fn ref_content_of(value: Option<&serde_json::Value>) -> Option<JsonContent> {
    match value {
        Some(v) => Some(json_content(*v)),
        None => None,
    }
}

/// `serde_json::from_slice` at the type `serde_json::Value`. It succeeds on the
/// documents that `json_document` names, with the value that it names.
#[verifier::external_body]
fn from_slice(bytes: &[u8]) -> (r: Result<serde_json::Value, serde_json::Error>)
    ensures
        match r {
            Ok(value) => json_document(bytes@) == Some(json_content(value)),
            Err(_) => json_document(bytes@) is None,
        },
{
    serde_json::from_slice(bytes)
}

/// `serde_json::Value::get` with a text index: the member of an object, and
/// nothing of any other value.
#[verifier::external_body]
pub(crate) fn value_get<'a>(value: &'a serde_json::Value, key: &str) -> (r: Option<
    &'a serde_json::Value,
>)
    ensures
        ref_content_of(r) == json_content(*value).member(key@),
{
    value.get(key)
}

/// `serde_json::Value::as_str`: the text of a text value.
#[verifier::external_body]
pub(crate) fn value_as_str(value: &serde_json::Value) -> (r: Option<&str>)
    ensures
        text::str_of(r) == json_content(*value).text(),
{
    value.as_str()
}

/// `serde_json::Value::as_u64`: the value of an unsigned 64-bit integer.
#[verifier::external_body]
pub(crate) fn value_as_u64(value: &serde_json::Value) -> (r: Option<u64>)
    ensures
        r == json_content(*value).unsigned(),
{
    value.as_u64()
}

/// `serde_json::Map::get`: the value of a key that the map has.
#[verifier::external_body]
pub(crate) fn map_get<'a>(
    map: &'a serde_json::Map<String, serde_json::Value>,
    key: &str,
) -> (r: Option<&'a serde_json::Value>)
    ensures
        ref_content_of(r) == lookup(json_members(*map), key@),
{
    map.get(key)
}

/// The JSON value that a document holds, if it is one.
pub fn parse_json(bytes: &[u8]) -> (r: Option<serde_json::Value>)
    ensures
        content_of(r) == json_document(bytes@),
{
    from_slice(bytes).ok()
}

/// The text member `key` of a value, if it is an object that has one.
pub fn get_text(value: &serde_json::Value, key: &str) -> (r: Option<String>)
    ensures
        text::text_of(r) == text_member(Some(json_content(*value)), key@),
{
    match value_get(value, key) {
        Some(member) => match value_as_str(member) {
            Some(s) => Some(s.to_owned()),
            None => None,
        },
        None => None,
    }
}

/// The unsigned member `key` of a value, if it is an object that has one.
pub fn get_unsigned(value: &serde_json::Value, key: &str) -> (r: Option<u64>)
    ensures
        r == unsigned_member(Some(json_content(*value)), key@),
{
    match value_get(value, key) {
        Some(member) => value_as_u64(member),
        None => None,
    }
}

/// The text that a map holds under `key`, if it holds one.
pub fn map_text(map: &serde_json::Map<String, serde_json::Value>, key: &str) -> (r: Option<String>)
    ensures
        text::text_of(r) == text_member(Some(JsonContent::Object(json_members(*map))), key@),
{
    match map_get(map, key) {
        Some(member) => match value_as_str(member) {
            Some(s) => Some(s.to_owned()),
            None => None,
        },
        None => None,
    }
}

/// A member is looked up in objects only, by its key; a text and a number are read from
/// values of their own kind only.
pub proof fn members_are_looked_up_by_key(
    value: JsonContent,
    members: Map<Seq<char>, JsonContent>,
    key: Seq<char>,
    s: Seq<char>,
    n: u64,
)
    ensures
        value.member(key) is Some <==> value is Object && value->Object_0.contains_key(key),
        members.contains_key(key) ==> JsonContent::Object(members).member(key) == Some(members[key]),
        members.contains_key(key) ==> lookup(members, key) == Some(members[key]),
        !members.contains_key(key) ==> lookup(members, key) is None,
        value.text() == Some(s) <==> value == JsonContent::Text(s),
        value.unsigned() == Some(n) <==> value == JsonContent::Number(Some(n)),
        text_member(Some(JsonContent::Object(members)), key) == Some(s) <==> members.contains_key(
            key,
        ) && members[key] == JsonContent::Text(s),
        unsigned_member(Some(JsonContent::Object(members)), key) == Some(n)
            <==> members.contains_key(key) && members[key] == JsonContent::Number(Some(n)),
{
}

/// A value that is no object has no members, and neither has none.
pub proof fn only_objects_have_members(value: Option<JsonContent>, key: Seq<char>)
    requires
        value is None || !(value->0 is Object),
    ensures
        text_member(value, key) is None,
        unsigned_member(value, key) is None,
{
}

/// What an optional value shows is what the value holds.
pub proof fn optional_values_show_what_they_hold(value: serde_json::Value)
    ensures
        content_of(Some(value)) == Some(json_content(value)),
        content_of(None::<serde_json::Value>) is None,
        ref_content_of(Some(&value)) == Some(json_content(value)),
        ref_content_of(None::<&serde_json::Value>) is None,
{
}

} // verus!
