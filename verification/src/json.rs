//! JSON objects of whole numbers and flags, built by the `serde_json` crate.
//!
//! Nothing in this file is proved: it states what `serde_json` does, as its
//! source shows it, for the rest of the library to build on.

use vstd::prelude::*;

verus! {

/// `serde_json::Value`: any JSON value. Nothing is known of what one holds.
#[verifier::external_type_specification]
#[verifier::external_body]
pub struct ExJsonValue(serde_json::Value);

/// `serde_json::Map`: a JSON object. What one holds is known by
/// `json_members` alone.
#[verifier::external_type_specification]
#[verifier::external_body]
#[verifier::reject_recursive_types(K)]
#[verifier::reject_recursive_types(V)]
pub struct ExJsonObject<K, V>(serde_json::Map<K, V>);

/// What a member of a JSON object holds.
pub enum JsonMember {
    /// A number without a fraction.
    Integer(int),
    /// `true` or `false`.
    Flag(bool),
    /// Anything else: null, a number with a fraction, text, an array or an
    /// object.
    Other,
}

/// The members of a JSON object: what it holds under each of its keys,
/// whatever the order in which it keeps them.
pub uninterp spec fn json_members(object: serde_json::Map<String, serde_json::Value>) -> Map<Seq<char>, JsonMember>;

/// The members of an object that has none.
pub open spec fn no_members() -> Map<Seq<char>, JsonMember> {
    Map::empty()
}

/// `serde_json::Map::new`: an object without members.
#[verifier::external_body]
pub(crate) fn json_object() -> (object: serde_json::Map<String, serde_json::Value>)
    ensures
        json_members(object) == no_members(),
{
    serde_json::Map::new()
}

/// `serde_json::Map::insert` with a number made by `Value::from`: afterwards
/// the object holds that whole number under `key`, in place of what it may
/// have held there, and its other members as before.
#[verifier::external_body]
pub(crate) fn json_insert_integer(
    object: &mut serde_json::Map<String, serde_json::Value>,
    key: &str,
    value: i64,
)
    ensures
        json_members(*final(object)) == json_members(*old(object)).insert(
            key@,
            JsonMember::Integer(value as int),
        ),
{
    object.insert(key.to_owned(), serde_json::Value::from(value));
}

/// `serde_json::Map::insert` with a `Value::Bool`: afterwards the object
/// holds that flag under `key`, in place of what it may have held there, and
/// its other members as before.
#[verifier::external_body]
pub(crate) fn json_insert_flag(
    object: &mut serde_json::Map<String, serde_json::Value>,
    key: &str,
    value: bool,
)
    ensures
        json_members(*final(object)) == json_members(*old(object)).insert(
            key@,
            JsonMember::Flag(value),
        ),
{
    object.insert(key.to_owned(), serde_json::Value::Bool(value));
}

} // verus!
