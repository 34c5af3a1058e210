//! JSON text, as `serde_json` writes it.
//!
//! Everything here is trusted: the types are `serde_json`'s, the functions
//! call into it, and their contracts are believed, not proved. The text that
//! the serializer writes for a string is given a name and left unspecified;
//! the text of an object is stated over it.

use crate::entries::upsert;
use vstd::prelude::*;

verus! {

#[verifier::external_type_specification]
#[verifier::external_body]
#[verifier::reject_recursive_types(K)]
#[verifier::reject_recursive_types(V)]
pub struct ExObject<K, V>(serde_json::Map<K, V>);

#[verifier::external_type_specification]
#[verifier::external_body]
pub struct ExValue(serde_json::Value);

#[verifier::external_type_specification]
#[verifier::external_body]
pub struct ExError(serde_json::Error);

/// The members of a JSON object whose values are all strings, in the order
/// in which the object holds them.
pub uninterp spec fn object_entries(object: serde_json::Map<String, serde_json::Value>) -> Seq<(Seq<char>, Seq<char>)>;

/// The compact JSON text of a string: quoted and escaped.
pub uninterp spec fn json_string_text(s: Seq<char>) -> Seq<char>;

/// The compact JSON text of one member: key, colon, value, each as a string.
pub open spec fn json_member_text(entry: (Seq<char>, Seq<char>)) -> Seq<char> {
    json_string_text(entry.0) + ":"@ + json_string_text(entry.1)
}

/// The compact JSON texts of `entries`, separated by commas.
pub open spec fn json_members_text(entries: Seq<(Seq<char>, Seq<char>)>) -> Seq<char>
    decreases entries.len(),
{
    if entries.len() == 0 {
        Seq::empty()
    } else if entries.len() == 1 {
        json_member_text(entries[0])
    } else {
        json_members_text(entries.drop_last()) + ","@ + json_member_text(entries.last())
    }
}

/// The compact JSON text of an object whose members are `entries`, each
/// value a string: the members between braces.
pub open spec fn json_object_text(entries: Seq<(Seq<char>, Seq<char>)>) -> Seq<char> {
    "{"@ + json_members_text(entries) + "}"@
}

/// Calls `serde_json::Map::new`. Trusted: the new object has no members.
#[verifier::external_body]
pub(crate) fn object_new() -> (object: serde_json::Map<String, serde_json::Value>)
    ensures
        object_entries(object) == Seq::<(Seq<char>, Seq<char>)>::empty(),
{
    serde_json::Map::new()
}

/// Calls `serde_json::Map::insert` with the string value `value`. Trusted:
/// the map is built to preserve insertion order, so a key that is present
/// keeps its place and takes the new value, and a new key becomes the last
/// member.
#[verifier::external_body]
pub(crate) fn object_insert(
    object: &mut serde_json::Map<String, serde_json::Value>,
    key: String,
    value: String,
)
    ensures
        object_entries(*final(object)) == upsert(object_entries(*old(object)), key@, value@),
{
    object.insert(key, serde_json::Value::String(value));
}

/// Calls `serde_json::to_string` on an object. Trusted: it succeeds, because
/// the serializer writes into a growing byte vector, whose writes do not
/// fail, and every key is a string; and the text is that of the compact
/// formatter: the members in order between braces, separated by commas, each
/// a key, a colon and a value, with keys and values written as strings.
#[verifier::external_body]
pub(crate) fn object_to_json(object: &serde_json::Map<String, serde_json::Value>) -> (r: Result<
    String,
    serde_json::Error,
>)
    ensures
        r is Ok,
        r matches Ok(text) ==> text@ == json_object_text(object_entries(*object)),
{
    serde_json::to_string(object)
}

/// Calls `serde_json::to_string` on a string. Trusted: it succeeds, because
/// the serializer writes into a growing byte vector, whose writes do not
/// fail; and the text depends on the characters alone.
#[verifier::external_body]
pub(crate) fn string_to_json(s: &str) -> (r: Result<String, serde_json::Error>)
    ensures
        r is Ok,
        r matches Ok(text) ==> text@ == json_string_text(s@),
{
    serde_json::to_string(s)
}

/// Calls the `Display` of `serde_json::Error`: the reason for a failure, in
/// words. Nothing is claimed of the text.
#[verifier::external_body]
pub(crate) fn error_reason(error: &serde_json::Error) -> (reason: String) {
    error.to_string()
}

} // verus!
