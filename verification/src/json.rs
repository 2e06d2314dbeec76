//! The boundary to serde_json.
//!
//! The codec in this crate reads and builds JSON objects and values of
//! serde_json. Both types are opaque to the verifier, so this module
//! declares them, gives their contents names at the specification
//! level (`obj_view`, `str_content`, `obj_content`), and wraps the few
//! methods the codec calls in trusted functions whose contracts speak
//! over those names. Everything outside this module is verified
//! against these contracts.

use vstd::prelude::*;

verus! {

/// serde_json's JSON value, declared so that it can stand in
/// signatures and fields. The verifier sees nothing inside a value of
/// this type; the names below say what its accessors read out of it.
#[verifier::external_type_specification]
#[verifier::external_body]
pub struct ExValue(serde_json::Value);

/// serde_json's JSON object: a map from string keys to JSON values.
#[verifier::external_type_specification]
#[verifier::external_body]
#[verifier::reject_recursive_types(K)]
#[verifier::reject_recursive_types(V)]
pub struct ExMap<K, V>(serde_json::Map<K, V>);

/// A JSON object as the codec handles it on the wire.
pub type JsonObject = serde_json::Map<String, serde_json::Value>;

/// The entries a serde_json object holds, as a mathematical map from
/// key characters to held values.
pub uninterp spec fn obj_view(m: JsonObject) -> Map<Seq<char>, serde_json::Value>;

/// The characters a JSON value carries when it is a string: `Some`
/// exactly on string values.
pub uninterp spec fn str_content(v: serde_json::Value) -> Option<Seq<char>>;

/// The entries a JSON value carries when it is an object: `Some`
/// exactly on object values.
pub uninterp spec fn obj_content(v: serde_json::Value) -> Option<Map<Seq<char>, serde_json::Value>>;

/// Relies on serde_json::Map::new: makes an empty object.
#[verifier::external_body]
pub(crate) fn obj_new() -> (m: JsonObject)
    ensures
        (obj_view(m) == Map::<Seq<char>, serde_json::Value>::empty()),
{
    serde_json::Map::new()
}

/// Relies on serde_json::Map::insert: puts the value at the key,
/// replacing whatever entry was there.
#[verifier::external_body]
pub(crate) fn obj_insert(m: &mut JsonObject, k: &str, v: serde_json::Value)
    ensures
        obj_view(*final(m)) == obj_view(*old(m)).insert(k@, v),
{
    m.insert(k.to_owned(), v);
}

/// Relies on serde_json::Map::remove: takes the entry at the key out
/// and returns its value, `None` when the key is absent.
#[verifier::external_body]
pub(crate) fn obj_remove(m: &mut JsonObject, k: &str) -> (r: Option<serde_json::Value>)
    ensures
        obj_view(*final(m)) == obj_view(*old(m)).remove(k@),
        match r {
            Some(v) => obj_view(*old(m)).contains_key(k@) && v == obj_view(*old(m))[k@],
            None => !obj_view(*old(m)).contains_key(k@),
        },
{
    m.remove(k)
}

/// Relies on serde_json::Map::is_empty: true exactly when the object
/// has no entries.
#[verifier::external_body]
pub(crate) fn obj_is_empty(m: &JsonObject) -> (r: bool)
    ensures
        r <==> obj_view(*m).dom() =~= Set::<Seq<char>>::empty(),
{
    m.is_empty()
}

/// Relies on serde_json::Map::clone: the copy holds the same entries.
#[verifier::external_body]
pub(crate) fn obj_clone(m: &JsonObject) -> (r: JsonObject)
    ensures
        obj_view(r) == obj_view(*m),
{
    m.clone()
}

/// Relies on serde_json::Value's variants: takes a value apart,
/// returning its characters when it is a string and the value itself
/// when it is anything else.
#[verifier::external_body]
pub(crate) fn value_into_string(v: serde_json::Value) -> (r: Result<String, serde_json::Value>)
    ensures
        match r {
            Ok(s) => str_content(v) == Some(s@),
            Err(w) => w == v && str_content(v) is None,
        },
{
    match v {
        serde_json::Value::String(s) => Ok(s),
        other => Err(other),
    }
}

/// Relies on serde_json::Value's variants: takes a value apart,
/// returning its entries when it is an object and the value itself
/// when it is anything else.
#[verifier::external_body]
pub(crate) fn value_into_object(v: serde_json::Value) -> (r: Result<JsonObject, serde_json::Value>)
    ensures
        match r {
            Ok(m) => obj_content(v) == Some(obj_view(m)),
            Err(w) => w == v && obj_content(v) is None,
        },
{
    match v {
        serde_json::Value::Object(m) => Ok(m),
        other => Err(other),
    }
}

/// Relies on serde_json::Value's String variant: wraps the characters
/// of a string slice as a JSON string value, which is not an object.
#[verifier::external_body]
pub(crate) fn value_from_str(s: &str) -> (v: serde_json::Value)
    ensures
        str_content(v) == Some(s@),
        obj_content(v) is None,
{
    serde_json::Value::String(s.to_owned())
}

/// Relies on serde_json::Value's Object variant: wraps an object as a
/// JSON value, which is not a string.
#[verifier::external_body]
pub(crate) fn value_from_object(m: JsonObject) -> (v: serde_json::Value)
    ensures
        obj_content(v) == Some(obj_view(m)),
        str_content(v) is None,
{
    serde_json::Value::Object(m)
}

} // verus!
